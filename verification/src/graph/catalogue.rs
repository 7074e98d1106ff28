//! What the fixed texts of the catalogue of reads ask of the graph: which relationships they follow,
//! and in which direction.
use crate::graph::get::{
    GET_ACTIVE_USERS_BY_HOMESERVER_CYPHER, GET_ALL_HOMESERVERS_WITH_ACTIVE_USERS_CYPHER,
    GET_BOOKMARK_TARGET_CYPHER, GET_FILES_BY_IDS_CYPHER, GET_GLOBAL_INFLUENCERS_CYPHER,
    GET_HOMESERVER_BY_ID_CYPHER, GET_POST_BOOKMARKS_CYPHER, GET_POST_BY_ID_CYPHER,
    GET_POST_REPLIES_CYPHER, GET_POST_REPOSTS_CYPHER, GET_POST_TAGS_CYPHER,
    GET_RESOURCE_BY_ID_CYPHER, GET_TAGS_BY_LABEL_PREFIX_CYPHER, GET_TAGS_CYPHER,
    GET_TAG_BY_TAGGER_AND_ID_CYPHER, GET_USERS_DETAILS_BY_IDS_CYPHER,
    GET_USERS_NEEDING_HS_RESOLUTION_CYPHER, GET_USER_FOLLOWERS_CYPHER, GET_USER_FOLLOWING_CYPHER,
    GET_USER_HOMESERVER_CYPHER, GET_USER_TAG_PAIRS_CYPHER, GLOBAL_TAGS_BY_POST_CYPHER,
    GLOBAL_TAGS_BY_POST_ENGAGEMENT_CYPHER, GLOBAL_TAGS_BY_USER_CYPHER, POST_BOOKMARK_CYPHER,
    POST_COUNTS_CYPHER, POST_IS_SAFE_TO_DELETE_CYPHER, POST_RELATIONSHIPS_CYPHER, POST_TAGS_CYPHER,
    RECOMMEND_USERS_CYPHER, RESOURCE_TAGS_CYPHER, SEARCH_USERS_BY_TAGS_CYPHER,
    STARTER_PACK_USERS_CYPHER, USER_BOOKMARKS_CYPHER, USER_IS_SAFE_TO_DELETE_CYPHER,
    USER_TAGS_CYPHER,
    user_count_fields_view,
};
use crate::graph::pattern::{arrow, arrow_back, draws, holds, stands_at};
use vstd::prelude::*;

verus! {

/// The query for followers looks at those who follow the user, and the query for followings at those
/// whom the user follows.
pub proof fn law_follow_queries_keep_their_direction()
    ensures
        draws(GET_USER_FOLLOWERS_CYPHER@, "follower:User"@, ":FOLLOWS"@, "u"@),
        holds(GET_USER_FOLLOWERS_CYPHER@, "MATCH (u:User {id: $user_id})"@),
        holds(GET_USER_FOLLOWERS_CYPHER@, "COLLECT(follower.id) AS follower_ids"@),
        draws(GET_USER_FOLLOWING_CYPHER@, "u"@, ":FOLLOWS"@, "following:User"@),
        holds(GET_USER_FOLLOWING_CYPHER@, "MATCH (u:User {id: $user_id})"@),
        holds(GET_USER_FOLLOWING_CYPHER@, "COLLECT(following.id) AS following_ids"@),
{
    lemma_get_user_followers_cypher();
    lemma_get_user_following_cypher();
}

/// The queries for bookmarks look at posts that a user bookmarked, and at the author of the post.
pub proof fn law_bookmark_queries_keep_their_direction()
    ensures
        draws(POST_BOOKMARK_CYPHER@, "viewer:User {id: $viewer_id}"@, "b:BOOKMARKED"@, "p"@),
        draws(POST_BOOKMARK_CYPHER@, "u:User {id: $author_id}"@, ":AUTHORED"@, "p:Post {id: $post_id}"@),
        draws(USER_BOOKMARKS_CYPHER@, "u:User {id: $user_id}"@, "b:BOOKMARKED"@, "p:Post"@),
        draws(USER_BOOKMARKS_CYPHER@, "author:User"@, ":AUTHORED"@, "p:Post"@),
        holds(USER_BOOKMARKS_CYPHER@, "p.id AS post_id, author.id AS author_id"@),
        draws(GET_POST_BOOKMARKS_CYPHER@, "bookmarker:User"@, "b:BOOKMARKED"@, "p:Post {id: $post_id}"@),
        draws(GET_POST_BOOKMARKS_CYPHER@, "author:User {id: $author_id}"@, ":AUTHORED"@, "p:Post {id: $post_id}"@),
        holds(GET_POST_BOOKMARKS_CYPHER@, "b.id AS bookmark_id, bookmarker.id AS bookmarker_id"@),
        draws(GET_BOOKMARK_TARGET_CYPHER@, "u:User {id: $user_id}"@, "b:BOOKMARKED {id: $bookmark_id}"@, "post:Post"@),
        draws(GET_BOOKMARK_TARGET_CYPHER@, "author:User"@, ":AUTHORED"@, "post:Post"@),
        holds(GET_BOOKMARK_TARGET_CYPHER@, "post.id AS post_id, author.id AS author_id"@),
{
    lemma_post_bookmark_cypher();
    lemma_user_bookmarks_cypher();
    lemma_get_post_bookmarks_cypher();
    lemma_get_bookmark_target_cypher();
}

/// The queries for what happened to a post look at its reposts, its replies and its tags, each at
/// its own relationship and from the other side of the post.
pub proof fn law_post_queries_keep_what_is_asked_for()
    ensures
        draws(GET_POST_REPOSTS_CYPHER@, "repost:Post"@, ":REPOSTED"@, "p:Post {id: $post_id}"@),
        draws(GET_POST_REPOSTS_CYPHER@, "reposter:User"@, ":AUTHORED"@, "repost:Post"@),
        draws(GET_POST_REPOSTS_CYPHER@, "author:User {id: $author_id}"@, ":AUTHORED"@, "p:Post {id: $post_id}"@),
        draws(GET_POST_REPLIES_CYPHER@, "reply:Post"@, ":REPLIED"@, "p:Post {id: $post_id}"@),
        draws(GET_POST_REPLIES_CYPHER@, "replier:User"@, ":AUTHORED"@, "reply:Post"@),
        draws(GET_POST_REPLIES_CYPHER@, "author:User {id: $author_id}"@, ":AUTHORED"@, "p:Post {id: $post_id}"@),
        draws(GET_POST_TAGS_CYPHER@, "tagger:User"@, "t:TAGGED"@, "p"@),
        draws(GET_POST_TAGS_CYPHER@, ":User {id: $author_id}"@, ":AUTHORED"@, "p"@),
        holds(POST_COUNTS_CYPHER@, "replies: COUNT { (p)<-[:REPLIED]-() }"@),
        holds(POST_COUNTS_CYPHER@, "reposts: COUNT { (p)<-[:REPOSTED]-() }"@),
        holds(POST_COUNTS_CYPHER@, "COUNT (t) AS tags_count, COUNT(DISTINCT t.label) AS unique_tags_count"@),
        holds(POST_COUNTS_CYPHER@, "EXISTS { (p)-[:REPLIED]->(:Post) } AS is_reply"@),
        holds(POST_COUNTS_CYPHER@, "tags: tags_count"@),
        holds(POST_COUNTS_CYPHER@, "unique_tags: unique_tags_count"@),
{
    lemma_get_post_reposts_cypher();
    lemma_get_post_replies_cypher();
    lemma_get_post_tags_cypher();
    lemma_post_counts_cypher();
}

/// What a post replies to, reposts and mentions is reached from the post, each by its own
/// relationship.
pub proof fn law_relationships_of_a_post_are_its_own()
    ensures
        draws(POST_RELATIONSHIPS_CYPHER@, "p"@, ":REPLIED"@, "replied_post:Post"@),
        draws(POST_RELATIONSHIPS_CYPHER@, "p"@, ":REPOSTED"@, "reposted_post:Post"@),
        draws(POST_RELATIONSHIPS_CYPHER@, "p"@, ":MENTIONED"@, "mentioned_user:User"@),
        holds(POST_RELATIONSHIPS_CYPHER@, "replied_post.id AS replied_post_id"@),
        holds(POST_RELATIONSHIPS_CYPHER@, "reposted_post.id AS reposted_post_id"@),
        holds(POST_RELATIONSHIPS_CYPHER@, "replied_author.id AS replied_author_id"@),
        holds(POST_RELATIONSHIPS_CYPHER@, "reposted_author.id AS reposted_author_id"@),
        holds(GET_POST_BY_ID_CYPHER@, "MATCH (p:Post {id: $post_id})"@),
        draws(GET_POST_BY_ID_CYPHER@, "p"@, "replied:REPLIED"@, "parent_post:Post"@),
        holds(GET_POST_BY_ID_CYPHER@, "(u)-[:AUTHORED]->(p)"@),
        holds(GET_POST_BY_ID_CYPHER@, "COALESCE(p.kind, 'short')"@),
{
    lemma_post_relationships_cypher();
    lemma_get_post_by_id_cypher();
}

/// The queries for tags look at those who tagged the post, the user or the resource, never at what
/// these tagged.
pub proof fn law_tag_queries_look_at_what_is_tagged()
    ensures
        draws(POST_TAGS_CYPHER@, "tagger:User"@, "tag:TAGGED"@, "p"@),
        holds(POST_TAGS_CYPHER@, "(u)-[:AUTHORED]->(p)"@),
        draws(USER_TAGS_CYPHER@, "p:User"@, "t:TAGGED"@, "u"@),
        holds(USER_TAGS_CYPHER@, "MATCH (u:User {id: $user_id})"@),
        draws(RESOURCE_TAGS_CYPHER@, "tagger:User"@, "tag:TAGGED"@, "r"@),
        draws(GET_TAG_BY_TAGGER_AND_ID_CYPHER@, "tagger:User { id: $tagger_id}"@, "tag:TAGGED {id: $tag_id }"@, "tagged"@),
        draws(GET_TAG_BY_TAGGER_AND_ID_CYPHER@, "author:User"@, ":AUTHORED"@, "tagged"@),
        draws(SEARCH_USERS_BY_TAGS_CYPHER@, "tagger:User"@, "tag:TAGGED"@, "u:User"@),
        holds(SEARCH_USERS_BY_TAGS_CYPHER@, "tag.label IN $labels AND u.name <> $deleted"@),
        holds(SEARCH_USERS_BY_TAGS_CYPHER@, "ORDER BY score DESC, u.id DESC"@),
        draws(GLOBAL_TAGS_BY_USER_CYPHER@, "tagger:User"@, "t:TAGGED"@, "u:User"@),
        holds(GLOBAL_TAGS_BY_USER_CYPHER@, "u.name <> $deleted"@),
        draws(GET_USER_TAG_PAIRS_CYPHER@, ":User"@, "t:TAGGED"@, "u:User"@),
        holds(GET_USER_TAG_PAIRS_CYPHER@, "u.name <> $deleted"@),
        holds(GET_USER_TAG_PAIRS_CYPHER@, "u.id AS user_id, t.label AS label"@),
        draws(GLOBAL_TAGS_BY_POST_CYPHER@, "tagger:User"@, "t:TAGGED"@, "post:Post"@),
        draws(GLOBAL_TAGS_BY_POST_CYPHER@, "author:User"@, ":AUTHORED"@, "post:Post"@),
        holds(GLOBAL_TAGS_BY_POST_CYPHER@, "author.id + ':' + post.id AS post_id, post.indexed_at AS score"@),
{
    lemma_post_tags_cypher();
    lemma_user_tags_cypher();
    lemma_resource_tags_cypher();
    lemma_get_tag_by_tagger_and_id_cypher();
    lemma_search_users_by_tags_cypher();
    lemma_global_tags_by_user_cypher();
    lemma_get_user_tag_pairs_cypher();
    lemma_global_tags_by_post_cypher();
}

/// The queries for homeservers and their active users leave out deleted users and mappings that are
/// stale, and a mapping is read from the user to the homeserver.
pub proof fn law_hosting_queries_leave_stale_mappings_out()
    ensures
        draws(GET_ALL_HOMESERVERS_WITH_ACTIVE_USERS_CYPHER@, "u:User"@, "r:HOSTED_BY"@, "hs:Homeserver"@),
        holds(GET_ALL_HOMESERVERS_WITH_ACTIVE_USERS_CYPHER@, "WHERE u.name <> '[DELETED]' AND NOT coalesce(r.stale, false)"@),
        holds(GET_ALL_HOMESERVERS_WITH_ACTIVE_USERS_CYPHER@, "ORDER BY active_users DESC"@),
        draws(GET_ACTIVE_USERS_BY_HOMESERVER_CYPHER@, "u:User"@, "r:HOSTED_BY"@, ":Homeserver {id: $hs_id}"@),
        holds(GET_ACTIVE_USERS_BY_HOMESERVER_CYPHER@, "WHERE u.name <> '[DELETED]' AND NOT coalesce(r.stale, false)"@),
        holds(GET_ACTIVE_USERS_BY_HOMESERVER_CYPHER@, "collect(u.id) AS user_ids"@),
        draws(GET_USER_HOMESERVER_CYPHER@, "u:User {id: $user_id}"@, "r:HOSTED_BY"@, "hs:Homeserver"@),
        holds(GET_USER_HOMESERVER_CYPHER@, "hs.id AS homeserver_id, coalesce(r.stale, false) AS stale"@),
        holds(GET_USERS_NEEDING_HS_RESOLUTION_CYPHER@, "WHERE u.name <> '[DELETED]'"@),
        holds(GET_USERS_NEEDING_HS_RESOLUTION_CYPHER@, "OPTIONAL MATCH (u)-[r:HOSTED_BY]->(:Homeserver)"@),
        holds(GET_USERS_NEEDING_HS_RESOLUTION_CYPHER@, "r.resolved_at < (timestamp() - $ttl_ms)"@),
        holds(GET_USERS_NEEDING_HS_RESOLUTION_CYPHER@, "WHERE r IS NULL"@),
{
    lemma_get_all_homeservers_with_active_users_cypher();
    lemma_get_active_users_by_homeserver_cypher();
    lemma_get_user_homeserver_cypher();
    lemma_get_users_needing_hs_resolution_cypher();
}

/// Recommended users are reached by follows, are not followed yet and are not the user.
pub proof fn law_recommendations_are_not_followed_yet()
    ensures
        draws(RECOMMEND_USERS_CYPHER@, "user"@, ":FOLLOWS*1..3"@, "potential:User"@),
        holds(RECOMMEND_USERS_CYPHER@, "WHERE NOT (user)-[:FOLLOWS]->(potential)"@),
        holds(RECOMMEND_USERS_CYPHER@, "AND potential.id <> $user_id"@),
        holds(RECOMMEND_USERS_CYPHER@, "WHERE post_count >= 5"@),
        draws(GET_GLOBAL_INFLUENCERS_CYPHER@, "others:User"@, "follow:FOLLOWS"@, "user"@),
        draws(GET_GLOBAL_INFLUENCERS_CYPHER@, "user"@, "tag:TAGGED"@, ":Post"@),
        draws(GET_GLOBAL_INFLUENCERS_CYPHER@, "user"@, "authored:AUTHORED"@, "post:Post"@),
        holds(GET_GLOBAL_INFLUENCERS_CYPHER@, "score: (tags_count + posts_count) * sqrt(followers_count)"@),
        holds(GET_GLOBAL_INFLUENCERS_CYPHER@, "ORDER BY influencer.score DESC, influencer.id ASC"@),
        holds(GET_GLOBAL_INFLUENCERS_CYPHER@, "follow.indexed_at >= $from AND follow.indexed_at < $to"@),
{
    lemma_recommend_users_cypher();
    lemma_get_global_influencers_cypher();
}

/// A starter pack ranks the users endorsed with a label by the trust of their endorsers, and leaves
/// out the user, those who are followed already and those who did not post.
pub proof fn law_starter_packs_rank_by_trust()
    ensures
        draws(STARTER_PACK_USERS_CYPHER@, "tagger:User"@, "t:TAGGED"@, "candidate:User"@),
        holds(STARTER_PACK_USERS_CYPHER@, "MATCH (tagger:User)-[t:TAGGED]->(:Post)<-[:AUTHORED]-(candidate:User)"@),
        holds(STARTER_PACK_USERS_CYPHER@, "sum(coalesce(tagger.trust, 0.0)) AS trust_score"@),
        holds(STARTER_PACK_USERS_CYPHER@, "candidate <> user AND NOT (user)-[:FOLLOWS]->(candidate)"@),
        holds(STARTER_PACK_USERS_CYPHER@, "ORDER BY trust_score DESC, endorsers DESC, id ASC"@),
        holds(STARTER_PACK_USERS_CYPHER@, "p.indexed_at >= $since"@),
        holds(STARTER_PACK_USERS_CYPHER@, "LIMIT $per_label"@),
        draws(GLOBAL_TAGS_BY_POST_ENGAGEMENT_CYPHER@, "author:User"@, ":AUTHORED"@, "post:Post"@),
        draws(GLOBAL_TAGS_BY_POST_ENGAGEMENT_CYPHER@, "tagger:User"@, "tag:TAGGED"@, "post:Post"@),
        holds(GLOBAL_TAGS_BY_POST_ENGAGEMENT_CYPHER@, "COUNT { (post)<-[:TAGGED]-() } AS taggers"@),
        holds(GLOBAL_TAGS_BY_POST_ENGAGEMENT_CYPHER@, "COUNT { (post)<-[:REPLIED]-() } AS replies_count"@),
        holds(GLOBAL_TAGS_BY_POST_ENGAGEMENT_CYPHER@, "COUNT { (post)<-[:REPOSTED]-() } AS reposts_count"@),
        holds(GLOBAL_TAGS_BY_POST_ENGAGEMENT_CYPHER@, "COUNT { (post)-[:MENTIONED]->() } AS mention_count"@),
        holds(GLOBAL_TAGS_BY_POST_ENGAGEMENT_CYPHER@, "toFloat(taggers + replies_count + reposts_count + mention_count)"@),
{
    lemma_starter_pack_users_cypher();
    lemma_global_tags_by_post_engagement_cypher();
}

/// Reads by key look up the node with that key.
pub proof fn law_reads_by_key_look_up_their_key()
    ensures
        holds(GET_USERS_DETAILS_BY_IDS_CYPHER@, "UNWIND $ids AS id"@),
        holds(GET_USERS_DETAILS_BY_IDS_CYPHER@, "(record:User {id: id})"@),
        holds(GET_FILES_BY_IDS_CYPHER@, "UNWIND $pairs AS pair"@),
        holds(GET_FILES_BY_IDS_CYPHER@, "(record:File {owner_id: pair[0], id: pair[1]})"@),
        holds(GET_RESOURCE_BY_ID_CYPHER@, "(r:Resource {id: $resource_id})"@),
        holds(GET_RESOURCE_BY_ID_CYPHER@, "r.id AS id, r.uri AS uri, r.scheme AS scheme, r.indexed_at AS indexed_at"@),
        holds(GET_HOMESERVER_BY_ID_CYPHER@, "(hs:Homeserver {id: $id})"@),
        holds(GET_HOMESERVER_BY_ID_CYPHER@, "hs.id AS id"@),
        holds(GET_TAGS_BY_LABEL_PREFIX_CYPHER@, "WHERE t.label STARTS WITH $label_prefix"@),
        holds(GET_TAGS_BY_LABEL_PREFIX_CYPHER@, "COLLECT(DISTINCT t.label) AS tag_labels"@),
        holds(GET_TAGS_CYPHER@, "MATCH ()-[t:TAGGED]->()"@),
        holds(GET_TAGS_CYPHER@, "COLLECT(DISTINCT t.label) AS tag_labels"@),
{
    lemma_get_users_details_by_ids_cypher();
    lemma_get_files_by_ids_cypher();
    lemma_get_resource_by_id_cypher();
    lemma_get_homeserver_by_id_cypher();
    lemma_get_tags_by_label_prefix_cypher();
    lemma_get_tags_cypher();
}

/// A user may go where no relationship is left, and a post where none is left but its authorship and
/// what it replies to or reposts.
pub proof fn law_deletion_looks_at_what_is_left()
    ensures
        holds(USER_IS_SAFE_TO_DELETE_CYPHER@, "RETURN EXISTS { (u)-[]-() } AS flag"@),
        holds(POST_IS_SAFE_TO_DELETE_CYPHER@, "RETURN EXISTS {\n            MATCH (p)-[r]-()\n            WHERE NOT ("@),
        holds(POST_IS_SAFE_TO_DELETE_CYPHER@, "(type(r) = 'AUTHORED' AND startNode(r).id = $author_id AND endNode(r) = p)"@),
        holds(POST_IS_SAFE_TO_DELETE_CYPHER@, "(type(r) = 'REPOSTED' AND startNode(r) = p)"@),
        holds(POST_IS_SAFE_TO_DELETE_CYPHER@, "(type(r) = 'REPLIED' AND startNode(r) = p)"@),
{
    lemma_user_is_safe_to_delete_cypher();
    lemma_post_is_safe_to_delete_cypher();
}

/// Where the parts of a text stand.
proof fn lemma_get_user_followers_cypher()
    ensures
        draws(GET_USER_FOLLOWERS_CYPHER@, "follower:User"@, ":FOLLOWS"@, "u"@),
        holds(GET_USER_FOLLOWERS_CYPHER@, "MATCH (u:User {id: $user_id})"@),
        holds(GET_USER_FOLLOWERS_CYPHER@, "COLLECT(follower.id) AS follower_ids"@),
{
    let t = GET_USER_FOLLOWERS_CYPHER@;
    reveal_strlit(
        "MATCH (u:User {id: $user_id})
         OPTIONAL MATCH (u)<-[:FOLLOWS]-(follower:User)
         RETURN COUNT(u) > 0 AS user_exists,
                COLLECT(follower.id) AS follower_ids",
    );
    reveal_strlit("(");
    reveal_strlit(")");
    reveal_strlit(")<-[");
    reveal_strlit(":FOLLOWS");
    reveal_strlit("COLLECT(follower.id) AS follower_ids");
    reveal_strlit("MATCH (u:User {id: $user_id})");
    reveal_strlit("]-(");
    reveal_strlit("follower:User");
    reveal_strlit("u");
    let part = arrow_back("follower:User"@, ":FOLLOWS"@, "u"@);
    assert(t.subrange(54, 85) =~= part);
    assert(stands_at(t, part, 54));
    assert(t.subrange(0, 29) =~= "MATCH (u:User {id: $user_id})"@);
    assert(stands_at(t, "MATCH (u:User {id: $user_id})"@, 0));
    assert(t.subrange(147, 183) =~= "COLLECT(follower.id) AS follower_ids"@);
    assert(stands_at(t, "COLLECT(follower.id) AS follower_ids"@, 147));
}

/// Where the parts of a text stand.
proof fn lemma_get_user_following_cypher()
    ensures
        draws(GET_USER_FOLLOWING_CYPHER@, "u"@, ":FOLLOWS"@, "following:User"@),
        holds(GET_USER_FOLLOWING_CYPHER@, "MATCH (u:User {id: $user_id})"@),
        holds(GET_USER_FOLLOWING_CYPHER@, "COLLECT(following.id) AS following_ids"@),
{
    let t = GET_USER_FOLLOWING_CYPHER@;
    reveal_strlit(
        "MATCH (u:User {id: $user_id})
         OPTIONAL MATCH (u)-[:FOLLOWS]->(following:User)
         RETURN COUNT(u) > 0 AS user_exists,
                COLLECT(following.id) AS following_ids",
    );
    reveal_strlit("(");
    reveal_strlit(")");
    reveal_strlit(")-[");
    reveal_strlit(":FOLLOWS");
    reveal_strlit("COLLECT(following.id) AS following_ids");
    reveal_strlit("MATCH (u:User {id: $user_id})");
    reveal_strlit("]->(");
    reveal_strlit("following:User");
    reveal_strlit("u");
    let part = arrow("u"@, ":FOLLOWS"@, "following:User"@);
    assert(t.subrange(54, 86) =~= part);
    assert(stands_at(t, part, 54));
    assert(t.subrange(0, 29) =~= "MATCH (u:User {id: $user_id})"@);
    assert(stands_at(t, "MATCH (u:User {id: $user_id})"@, 0));
    assert(t.subrange(148, 186) =~= "COLLECT(following.id) AS following_ids"@);
    assert(stands_at(t, "COLLECT(following.id) AS following_ids"@, 148));
}

/// Where the parts of a text stand.
proof fn lemma_post_bookmark_cypher()
    ensures
        draws(POST_BOOKMARK_CYPHER@, "viewer:User {id: $viewer_id}"@, "b:BOOKMARKED"@, "p"@),
        draws(POST_BOOKMARK_CYPHER@, "u:User {id: $author_id}"@, ":AUTHORED"@, "p:Post {id: $post_id}"@),
{
    let t = POST_BOOKMARK_CYPHER@;
    reveal_strlit(
        "MATCH (u:User {id: $author_id})-[:AUTHORED]->(p:Post {id: $post_id})
         MATCH (viewer:User {id: $viewer_id})-[b:BOOKMARKED]->(p)
         RETURN b",
    );
    reveal_strlit("(");
    reveal_strlit(")");
    reveal_strlit(")-[");
    reveal_strlit(":AUTHORED");
    reveal_strlit("]->(");
    reveal_strlit("b:BOOKMARKED");
    reveal_strlit("p");
    reveal_strlit("p:Post {id: $post_id}");
    reveal_strlit("u:User {id: $author_id}");
    reveal_strlit("viewer:User {id: $viewer_id}");
    let part = arrow("viewer:User {id: $viewer_id}"@, "b:BOOKMARKED"@, "p"@);
    assert(t.subrange(84, 134) =~= part);
    assert(stands_at(t, part, 84));
    let part = arrow("u:User {id: $author_id}"@, ":AUTHORED"@, "p:Post {id: $post_id}"@);
    assert(t.subrange(6, 68) =~= part);
    assert(stands_at(t, part, 6));
}

/// Where the parts of a text stand.
proof fn lemma_user_bookmarks_cypher()
    ensures
        draws(USER_BOOKMARKS_CYPHER@, "u:User {id: $user_id}"@, "b:BOOKMARKED"@, "p:Post"@),
        draws(USER_BOOKMARKS_CYPHER@, "author:User"@, ":AUTHORED"@, "p:Post"@),
        holds(USER_BOOKMARKS_CYPHER@, "p.id AS post_id, author.id AS author_id"@),
{
    let t = USER_BOOKMARKS_CYPHER@;
    reveal_strlit(
        "MATCH (u:User {id: $user_id})-[b:BOOKMARKED]->(p:Post)<-[:AUTHORED]-(author:User)
         RETURN b, p.id AS post_id, author.id AS author_id",
    );
    reveal_strlit("(");
    reveal_strlit(")");
    reveal_strlit(")-[");
    reveal_strlit(")<-[");
    reveal_strlit(":AUTHORED");
    reveal_strlit("]-(");
    reveal_strlit("]->(");
    reveal_strlit("author:User");
    reveal_strlit("b:BOOKMARKED");
    reveal_strlit("p.id AS post_id, author.id AS author_id");
    reveal_strlit("p:Post");
    reveal_strlit("u:User {id: $user_id}");
    let part = arrow("u:User {id: $user_id}"@, "b:BOOKMARKED"@, "p:Post"@);
    assert(t.subrange(6, 54) =~= part);
    assert(stands_at(t, part, 6));
    let part = arrow_back("author:User"@, ":AUTHORED"@, "p:Post"@);
    assert(t.subrange(46, 81) =~= part);
    assert(stands_at(t, part, 46));
    assert(t.subrange(101, 140) =~= "p.id AS post_id, author.id AS author_id"@);
    assert(stands_at(t, "p.id AS post_id, author.id AS author_id"@, 101));
}

/// Where the parts of a text stand.
proof fn lemma_get_post_bookmarks_cypher()
    ensures
        draws(GET_POST_BOOKMARKS_CYPHER@, "bookmarker:User"@, "b:BOOKMARKED"@, "p:Post {id: $post_id}"@),
        draws(GET_POST_BOOKMARKS_CYPHER@, "author:User {id: $author_id}"@, ":AUTHORED"@, "p:Post {id: $post_id}"@),
        holds(GET_POST_BOOKMARKS_CYPHER@, "b.id AS bookmark_id, bookmarker.id AS bookmarker_id"@),
{
    let t = GET_POST_BOOKMARKS_CYPHER@;
    reveal_strlit(
        "MATCH (bookmarker:User)-[b:BOOKMARKED]->(p:Post {id: $post_id})<-[:AUTHORED]-(author:User {id: $author_id})
         RETURN b.id AS bookmark_id, bookmarker.id AS bookmarker_id",
    );
    reveal_strlit("(");
    reveal_strlit(")");
    reveal_strlit(")-[");
    reveal_strlit(")<-[");
    reveal_strlit(":AUTHORED");
    reveal_strlit("]-(");
    reveal_strlit("]->(");
    reveal_strlit("author:User {id: $author_id}");
    reveal_strlit("b.id AS bookmark_id, bookmarker.id AS bookmarker_id");
    reveal_strlit("b:BOOKMARKED");
    reveal_strlit("bookmarker:User");
    reveal_strlit("p:Post {id: $post_id}");
    let part = arrow("bookmarker:User"@, "b:BOOKMARKED"@, "p:Post {id: $post_id}"@);
    assert(t.subrange(6, 63) =~= part);
    assert(stands_at(t, part, 6));
    let part = arrow_back("author:User {id: $author_id}"@, ":AUTHORED"@, "p:Post {id: $post_id}"@);
    assert(t.subrange(40, 107) =~= part);
    assert(stands_at(t, part, 40));
    assert(t.subrange(124, 175) =~= "b.id AS bookmark_id, bookmarker.id AS bookmarker_id"@);
    assert(stands_at(t, "b.id AS bookmark_id, bookmarker.id AS bookmarker_id"@, 124));
}

/// Where the parts of a text stand.
proof fn lemma_get_bookmark_target_cypher()
    ensures
        draws(GET_BOOKMARK_TARGET_CYPHER@, "u:User {id: $user_id}"@, "b:BOOKMARKED {id: $bookmark_id}"@, "post:Post"@),
        draws(GET_BOOKMARK_TARGET_CYPHER@, "author:User"@, ":AUTHORED"@, "post:Post"@),
        holds(GET_BOOKMARK_TARGET_CYPHER@, "post.id AS post_id, author.id AS author_id"@),
{
    let t = GET_BOOKMARK_TARGET_CYPHER@;
    reveal_strlit(
        "MATCH (u:User {id: $user_id})-[b:BOOKMARKED {id: $bookmark_id}]->(post:Post)<-[:AUTHORED]-(author:User)
         RETURN post.id AS post_id, author.id AS author_id",
    );
    reveal_strlit("(");
    reveal_strlit(")");
    reveal_strlit(")-[");
    reveal_strlit(")<-[");
    reveal_strlit(":AUTHORED");
    reveal_strlit("]-(");
    reveal_strlit("]->(");
    reveal_strlit("author:User");
    reveal_strlit("b:BOOKMARKED {id: $bookmark_id}");
    reveal_strlit("post.id AS post_id, author.id AS author_id");
    reveal_strlit("post:Post");
    reveal_strlit("u:User {id: $user_id}");
    let part = arrow("u:User {id: $user_id}"@, "b:BOOKMARKED {id: $bookmark_id}"@, "post:Post"@);
    assert(t.subrange(6, 76) =~= part);
    assert(stands_at(t, part, 6));
    let part = arrow_back("author:User"@, ":AUTHORED"@, "post:Post"@);
    assert(t.subrange(65, 103) =~= part);
    assert(stands_at(t, part, 65));
    assert(t.subrange(120, 162) =~= "post.id AS post_id, author.id AS author_id"@);
    assert(stands_at(t, "post.id AS post_id, author.id AS author_id"@, 120));
}

/// Where the parts of a text stand.
proof fn lemma_get_post_reposts_cypher()
    ensures
        draws(GET_POST_REPOSTS_CYPHER@, "repost:Post"@, ":REPOSTED"@, "p:Post {id: $post_id}"@),
        draws(GET_POST_REPOSTS_CYPHER@, "reposter:User"@, ":AUTHORED"@, "repost:Post"@),
        draws(GET_POST_REPOSTS_CYPHER@, "author:User {id: $author_id}"@, ":AUTHORED"@, "p:Post {id: $post_id}"@),
{
    let t = GET_POST_REPOSTS_CYPHER@;
    reveal_strlit(
        "MATCH (reposter:User)-[:AUTHORED]->(repost:Post)-[:REPOSTED]->(p:Post {id: $post_id})<-[:AUTHORED]-(author:User {id: $author_id})
         RETURN reposter.id AS reposter_id, repost.id AS repost_id",
    );
    reveal_strlit("(");
    reveal_strlit(")");
    reveal_strlit(")-[");
    reveal_strlit(")<-[");
    reveal_strlit(":AUTHORED");
    reveal_strlit(":REPOSTED");
    reveal_strlit("]-(");
    reveal_strlit("]->(");
    reveal_strlit("author:User {id: $author_id}");
    reveal_strlit("p:Post {id: $post_id}");
    reveal_strlit("repost:Post");
    reveal_strlit("reposter:User");
    let part = arrow("repost:Post"@, ":REPOSTED"@, "p:Post {id: $post_id}"@);
    assert(t.subrange(35, 85) =~= part);
    assert(stands_at(t, part, 35));
    let part = arrow("reposter:User"@, ":AUTHORED"@, "repost:Post"@);
    assert(t.subrange(6, 48) =~= part);
    assert(stands_at(t, part, 6));
    let part = arrow_back("author:User {id: $author_id}"@, ":AUTHORED"@, "p:Post {id: $post_id}"@);
    assert(t.subrange(62, 129) =~= part);
    assert(stands_at(t, part, 62));
}

/// Where the parts of a text stand.
proof fn lemma_get_post_replies_cypher()
    ensures
        draws(GET_POST_REPLIES_CYPHER@, "reply:Post"@, ":REPLIED"@, "p:Post {id: $post_id}"@),
        draws(GET_POST_REPLIES_CYPHER@, "replier:User"@, ":AUTHORED"@, "reply:Post"@),
        draws(GET_POST_REPLIES_CYPHER@, "author:User {id: $author_id}"@, ":AUTHORED"@, "p:Post {id: $post_id}"@),
{
    let t = GET_POST_REPLIES_CYPHER@;
    reveal_strlit(
        "MATCH (replier:User)-[:AUTHORED]->(reply:Post)-[:REPLIED]->(p:Post {id: $post_id})<-[:AUTHORED]-(author:User {id: $author_id})
         RETURN replier.id AS replier_id, reply.id AS reply_id",
    );
    reveal_strlit("(");
    reveal_strlit(")");
    reveal_strlit(")-[");
    reveal_strlit(")<-[");
    reveal_strlit(":AUTHORED");
    reveal_strlit(":REPLIED");
    reveal_strlit("]-(");
    reveal_strlit("]->(");
    reveal_strlit("author:User {id: $author_id}");
    reveal_strlit("p:Post {id: $post_id}");
    reveal_strlit("replier:User");
    reveal_strlit("reply:Post");
    let part = arrow("reply:Post"@, ":REPLIED"@, "p:Post {id: $post_id}"@);
    assert(t.subrange(34, 82) =~= part);
    assert(stands_at(t, part, 34));
    let part = arrow("replier:User"@, ":AUTHORED"@, "reply:Post"@);
    assert(t.subrange(6, 46) =~= part);
    assert(stands_at(t, part, 6));
    let part = arrow_back("author:User {id: $author_id}"@, ":AUTHORED"@, "p:Post {id: $post_id}"@);
    assert(t.subrange(59, 126) =~= part);
    assert(stands_at(t, part, 59));
}

/// Where the parts of a text stand.
proof fn lemma_get_post_tags_cypher()
    ensures
        draws(GET_POST_TAGS_CYPHER@, "tagger:User"@, "t:TAGGED"@, "p"@),
        draws(GET_POST_TAGS_CYPHER@, ":User {id: $author_id}"@, ":AUTHORED"@, "p"@),
{
    let t = GET_POST_TAGS_CYPHER@;
    reveal_strlit(
        "MATCH (p:Post {id: $post_id})
         WHERE EXISTS { (:User {id: $author_id})-[:AUTHORED]->(p) }
         MATCH (tagger:User)-[t:TAGGED]->(p)
         RETURN tagger.id AS tagger_id, t.id AS tag_id",
    );
    reveal_strlit("(");
    reveal_strlit(")");
    reveal_strlit(")-[");
    reveal_strlit(":AUTHORED");
    reveal_strlit(":User {id: $author_id}");
    reveal_strlit("]->(");
    reveal_strlit("p");
    reveal_strlit("t:TAGGED");
    reveal_strlit("tagger:User");
    let part = arrow("tagger:User"@, "t:TAGGED"@, "p"@);
    assert(t.subrange(113, 142) =~= part);
    assert(stands_at(t, part, 113));
    let part = arrow(":User {id: $author_id}"@, ":AUTHORED"@, "p"@);
    assert(t.subrange(54, 95) =~= part);
    assert(stands_at(t, part, 54));
}

/// Where the parts of a text stand.
proof fn lemma_post_counts_cypher()
    ensures
        holds(POST_COUNTS_CYPHER@, "replies: COUNT { (p)<-[:REPLIED]-() }"@),
        holds(POST_COUNTS_CYPHER@, "reposts: COUNT { (p)<-[:REPOSTED]-() }"@),
        holds(POST_COUNTS_CYPHER@, "COUNT (t) AS tags_count, COUNT(DISTINCT t.label) AS unique_tags_count"@),
        holds(POST_COUNTS_CYPHER@, "EXISTS { (p)-[:REPLIED]->(:Post) } AS is_reply"@),
        holds(POST_COUNTS_CYPHER@, "tags: tags_count"@),
        holds(POST_COUNTS_CYPHER@, "unique_tags: unique_tags_count"@),
{
    let t = POST_COUNTS_CYPHER@;
    reveal_strlit(
        "
        // Anchor on the post's unique id: matching via the author would make the
        // planner expand every post they wrote.
        MATCH (p:Post {id: $post_id})
        WHERE EXISTS { (:User {id: $author_id})-[:AUTHORED]->(p) }
        WITH p
        OPTIONAL MATCH (p)<-[t:TAGGED]-()
        WITH p, COUNT (t) AS tags_count, COUNT(DISTINCT t.label) AS unique_tags_count
        RETURN p IS NOT NULL AS exists,
            {
                tags: tags_count,
                unique_tags: unique_tags_count,
                replies: COUNT { (p)<-[:REPLIED]-() },
                reposts: COUNT { (p)<-[:REPOSTED]-() }
            } AS counts,
            EXISTS { (p)-[:REPLIED]->(:Post) } AS is_reply
    ",
    );
    reveal_strlit("COUNT (t) AS tags_count, COUNT(DISTINCT t.label) AS unique_tags_count");
    reveal_strlit("EXISTS { (p)-[:REPLIED]->(:Post) } AS is_reply");
    reveal_strlit("replies: COUNT { (p)<-[:REPLIED]-() }");
    reveal_strlit("reposts: COUNT { (p)<-[:REPOSTED]-() }");
    reveal_strlit("tags: tags_count");
    reveal_strlit("unique_tags: unique_tags_count");
    assert(t.subrange(532, 569) =~= "replies: COUNT { (p)<-[:REPLIED]-() }"@);
    assert(stands_at(t, "replies: COUNT { (p)<-[:REPLIED]-() }"@, 532));
    assert(t.subrange(587, 625) =~= "reposts: COUNT { (p)<-[:REPOSTED]-() }"@);
    assert(stands_at(t, "reposts: COUNT { (p)<-[:REPOSTED]-() }"@, 587));
    assert(t.subrange(310, 379) =~= "COUNT (t) AS tags_count, COUNT(DISTINCT t.label) AS unique_tags_count"@);
    assert(stands_at(t, "COUNT (t) AS tags_count, COUNT(DISTINCT t.label) AS unique_tags_count"@, 310));
    assert(t.subrange(663, 709) =~= "EXISTS { (p)-[:REPLIED]->(:Post) } AS is_reply"@);
    assert(stands_at(t, "EXISTS { (p)-[:REPLIED]->(:Post) } AS is_reply"@, 663));
    assert(t.subrange(450, 466) =~= "tags: tags_count"@);
    assert(stands_at(t, "tags: tags_count"@, 450));
    assert(t.subrange(484, 514) =~= "unique_tags: unique_tags_count"@);
    assert(stands_at(t, "unique_tags: unique_tags_count"@, 484));
}

/// Where the parts of a text stand.
proof fn lemma_post_relationships_cypher()
    ensures
        draws(POST_RELATIONSHIPS_CYPHER@, "p"@, ":REPLIED"@, "replied_post:Post"@),
        draws(POST_RELATIONSHIPS_CYPHER@, "p"@, ":REPOSTED"@, "reposted_post:Post"@),
        draws(POST_RELATIONSHIPS_CYPHER@, "p"@, ":MENTIONED"@, "mentioned_user:User"@),
        holds(POST_RELATIONSHIPS_CYPHER@, "replied_post.id AS replied_post_id"@),
        holds(POST_RELATIONSHIPS_CYPHER@, "reposted_post.id AS reposted_post_id"@),
        holds(POST_RELATIONSHIPS_CYPHER@, "replied_author.id AS replied_author_id"@),
        holds(POST_RELATIONSHIPS_CYPHER@, "reposted_author.id AS reposted_author_id"@),
{
    let t = POST_RELATIONSHIPS_CYPHER@;
    reveal_strlit(
        "MATCH (p:Post {id: $post_id})
        WHERE EXISTS { (:User {id: $author_id})-[:AUTHORED]->(p) }
        OPTIONAL MATCH (p)-[:REPLIED]->(replied_post:Post)<-[:AUTHORED]-(replied_author:User)
        OPTIONAL MATCH (p)-[:REPOSTED]->(reposted_post:Post)<-[:AUTHORED]-(reposted_author:User)
        OPTIONAL MATCH (p)-[:MENTIONED]->(mentioned_user:User)
        RETURN
          replied_post.id AS replied_post_id,
          replied_author.id AS replied_author_id,
          reposted_post.id AS reposted_post_id,
          reposted_author.id AS reposted_author_id,
          COLLECT(mentioned_user.id) AS mentioned_user_ids",
    );
    reveal_strlit("(");
    reveal_strlit(")");
    reveal_strlit(")-[");
    reveal_strlit(":MENTIONED");
    reveal_strlit(":REPLIED");
    reveal_strlit(":REPOSTED");
    reveal_strlit("]->(");
    reveal_strlit("mentioned_user:User");
    reveal_strlit("p");
    reveal_strlit("replied_author.id AS replied_author_id");
    reveal_strlit("replied_post.id AS replied_post_id");
    reveal_strlit("replied_post:Post");
    reveal_strlit("reposted_author.id AS reposted_author_id");
    reveal_strlit("reposted_post.id AS reposted_post_id");
    reveal_strlit("reposted_post:Post");
    let part = arrow("p"@, ":REPLIED"@, "replied_post:Post"@);
    assert(t.subrange(120, 155) =~= part);
    assert(stands_at(t, part, 120));
    let part = arrow("p"@, ":REPOSTED"@, "reposted_post:Post"@);
    assert(t.subrange(214, 251) =~= part);
    assert(stands_at(t, part, 214));
    let part = arrow("p"@, ":MENTIONED"@, "mentioned_user:User"@);
    assert(t.subrange(311, 350) =~= part);
    assert(stands_at(t, part, 311));
    assert(t.subrange(376, 410) =~= "replied_post.id AS replied_post_id"@);
    assert(stands_at(t, "replied_post.id AS replied_post_id"@, 376));
    assert(t.subrange(472, 508) =~= "reposted_post.id AS reposted_post_id"@);
    assert(stands_at(t, "reposted_post.id AS reposted_post_id"@, 472));
    assert(t.subrange(422, 460) =~= "replied_author.id AS replied_author_id"@);
    assert(stands_at(t, "replied_author.id AS replied_author_id"@, 422));
    assert(t.subrange(520, 560) =~= "reposted_author.id AS reposted_author_id"@);
    assert(stands_at(t, "reposted_author.id AS reposted_author_id"@, 520));
}

/// Where the parts of a text stand.
proof fn lemma_get_post_by_id_cypher()
    ensures
        holds(GET_POST_BY_ID_CYPHER@, "MATCH (p:Post {id: $post_id})"@),
        draws(GET_POST_BY_ID_CYPHER@, "p"@, "replied:REPLIED"@, "parent_post:Post"@),
        holds(GET_POST_BY_ID_CYPHER@, "(u)-[:AUTHORED]->(p)"@),
        holds(GET_POST_BY_ID_CYPHER@, "COALESCE(p.kind, 'short')"@),
{
    let t = GET_POST_BY_ID_CYPHER@;
    reveal_strlit(
        "
            // The WITH barrier is load-bearing: without it the planner anchors on the
            // author and expands all their posts instead of seeking the post by id.
            MATCH (p:Post {id: $post_id})
            WITH p
            MATCH (u:User {id: $author_id}) WHERE (u)-[:AUTHORED]->(p)
            OPTIONAL MATCH (p)-[replied:REPLIED]->(parent_post:Post)<-[:AUTHORED]-(author:User)
            WITH u, p, parent_post, author
            RETURN {
                uri: 'pubky://' + u.id + '/pub/pubky.app/posts/' + p.id,
                content: p.content,
                id: p.id,
                indexed_at: p.indexed_at,
                author: u.id,
                // default value when the specified property is null
                // Avoids enum deserialization ERROR
                kind: COALESCE(p.kind, 'short'),
                attachments: p.attachments,
                lock: p.lock
            } as details,
            COLLECT([author.id, parent_post.id]) AS reply

        ",
    );
    reveal_strlit("(");
    reveal_strlit("(u)-[:AUTHORED]->(p)");
    reveal_strlit(")");
    reveal_strlit(")-[");
    reveal_strlit("COALESCE(p.kind, 'short')");
    reveal_strlit("MATCH (p:Post {id: $post_id})");
    reveal_strlit("]->(");
    reveal_strlit("p");
    reveal_strlit("parent_post:Post");
    reveal_strlit("replied:REPLIED");
    assert(t.subrange(185, 214) =~= "MATCH (p:Post {id: $post_id})"@);
    assert(stands_at(t, "MATCH (p:Post {id: $post_id})"@, 185));
    let part = arrow("p"@, "replied:REPLIED"@, "parent_post:Post"@);
    assert(t.subrange(332, 373) =~= part);
    assert(stands_at(t, part, 332));
    assert(t.subrange(284, 304) =~= "(u)-[:AUTHORED]->(p)"@);
    assert(stands_at(t, "(u)-[:AUTHORED]->(p)"@, 284));
    assert(t.subrange(816, 841) =~= "COALESCE(p.kind, 'short')"@);
    assert(stands_at(t, "COALESCE(p.kind, 'short')"@, 816));
}

/// Where the parts of a text stand.
proof fn lemma_post_tags_cypher()
    ensures
        draws(POST_TAGS_CYPHER@, "tagger:User"@, "tag:TAGGED"@, "p"@),
        holds(POST_TAGS_CYPHER@, "(u)-[:AUTHORED]->(p)"@),
{
    let t = POST_TAGS_CYPHER@;
    reveal_strlit(
        "
        // Anchor on the post's unique id: matching via the author would make the
        // planner expand every post they wrote.
        MATCH (p:Post {id: $post_id})
        WITH p
        MATCH (u:User {id: $user_id}) WHERE (u)-[:AUTHORED]->(p)
        CALL {
            WITH p
            MATCH (tagger:User)-[tag:TAGGED]->(p)
            WITH tag.label AS name, collect(DISTINCT tagger.id) AS tagger_ids
            RETURN collect({
                label: name,
                taggers: tagger_ids,
                taggers_count: SIZE(tagger_ids)
            }) AS tags
        }
        RETURN
            u IS NOT NULL AS exists,
            tags
    ",
    );
    reveal_strlit("(");
    reveal_strlit("(u)-[:AUTHORED]->(p)");
    reveal_strlit(")");
    reveal_strlit(")-[");
    reveal_strlit("]->(");
    reveal_strlit("p");
    reveal_strlit("tag:TAGGED");
    reveal_strlit("tagger:User");
    let part = arrow("tagger:User"@, "tag:TAGGED"@, "p"@);
    assert(t.subrange(302, 333) =~= part);
    assert(stands_at(t, part, 302));
    assert(t.subrange(229, 249) =~= "(u)-[:AUTHORED]->(p)"@);
    assert(stands_at(t, "(u)-[:AUTHORED]->(p)"@, 229));
}

/// Where the parts of a text stand.
proof fn lemma_user_tags_cypher()
    ensures
        draws(USER_TAGS_CYPHER@, "p:User"@, "t:TAGGED"@, "u"@),
        holds(USER_TAGS_CYPHER@, "MATCH (u:User {id: $user_id})"@),
{
    let t = USER_TAGS_CYPHER@;
    reveal_strlit(
        "
        MATCH (u:User {id: $user_id})
        CALL {
            WITH u
            MATCH (p:User)-[t:TAGGED]->(u)
            WITH t.label AS name, collect(DISTINCT p.id) AS tagger_ids
            RETURN collect({
                label: name,
                taggers: tagger_ids,
                taggers_count: SIZE(tagger_ids)
            }) AS tags
        }
        RETURN
            u IS NOT NULL AS exists,
            tags
    ",
    );
    reveal_strlit("(");
    reveal_strlit(")");
    reveal_strlit(")-[");
    reveal_strlit("MATCH (u:User {id: $user_id})");
    reveal_strlit("]->(");
    reveal_strlit("p:User");
    reveal_strlit("t:TAGGED");
    reveal_strlit("u");
    let part = arrow("p:User"@, "t:TAGGED"@, "u"@);
    assert(t.subrange(91, 115) =~= part);
    assert(stands_at(t, part, 91));
    assert(t.subrange(9, 38) =~= "MATCH (u:User {id: $user_id})"@);
    assert(stands_at(t, "MATCH (u:User {id: $user_id})"@, 9));
}

/// Where the parts of a text stand.
proof fn lemma_resource_tags_cypher()
    ensures
        draws(RESOURCE_TAGS_CYPHER@, "tagger:User"@, "tag:TAGGED"@, "r"@),
{
    let t = RESOURCE_TAGS_CYPHER@;
    reveal_strlit(
        "
        OPTIONAL MATCH (r:Resource {id: $resource_id})
        CALL {
            WITH r
            MATCH (tagger:User)-[tag:TAGGED]->(r)
            WITH tag.label AS name, collect(DISTINCT tagger.id) AS tagger_ids
            RETURN collect({
                label: name,
                taggers: tagger_ids,
                taggers_count: SIZE(tagger_ids)
            }) AS tags
        }
        RETURN
            r IS NOT NULL AS exists,
            tags
    ",
    );
    reveal_strlit("(");
    reveal_strlit(")");
    reveal_strlit(")-[");
    reveal_strlit("]->(");
    reveal_strlit("r");
    reveal_strlit("tag:TAGGED");
    reveal_strlit("tagger:User");
    let part = arrow("tagger:User"@, "tag:TAGGED"@, "r"@);
    assert(t.subrange(108, 139) =~= part);
    assert(stands_at(t, part, 108));
}

/// Where the parts of a text stand.
proof fn lemma_get_tag_by_tagger_and_id_cypher()
    ensures
        draws(GET_TAG_BY_TAGGER_AND_ID_CYPHER@, "tagger:User { id: $tagger_id}"@, "tag:TAGGED {id: $tag_id }"@, "tagged"@),
        draws(GET_TAG_BY_TAGGER_AND_ID_CYPHER@, "author:User"@, ":AUTHORED"@, "tagged"@),
{
    let t = GET_TAG_BY_TAGGER_AND_ID_CYPHER@;
    reveal_strlit(
        "
        MATCH (tagger:User { id: $tagger_id})-[tag:TAGGED {id: $tag_id }]->(tagged)
        OPTIONAL MATCH (author:User)-[:AUTHORED]->(tagged)
        RETURN
            labels(tagged) as tagged_labels,
            tagged.id as tagged_id,
            author.id as author_id,
            tag.id as id,
            tag.indexed_at as indexed_at,
            tag.label as label
        ",
    );
    reveal_strlit("(");
    reveal_strlit(")");
    reveal_strlit(")-[");
    reveal_strlit(":AUTHORED");
    reveal_strlit("]->(");
    reveal_strlit("author:User");
    reveal_strlit("tag:TAGGED {id: $tag_id }");
    reveal_strlit("tagged");
    reveal_strlit("tagger:User { id: $tagger_id}");
    let part = arrow("tagger:User { id: $tagger_id}"@, "tag:TAGGED {id: $tag_id }"@, "tagged"@);
    assert(t.subrange(15, 84) =~= part);
    assert(stands_at(t, part, 15));
    let part = arrow("author:User"@, ":AUTHORED"@, "tagged"@);
    assert(t.subrange(108, 143) =~= part);
    assert(stands_at(t, part, 108));
}

/// Where the parts of a text stand.
proof fn lemma_search_users_by_tags_cypher()
    ensures
        draws(SEARCH_USERS_BY_TAGS_CYPHER@, "tagger:User"@, "tag:TAGGED"@, "u:User"@),
        holds(SEARCH_USERS_BY_TAGS_CYPHER@, "tag.label IN $labels AND u.name <> $deleted"@),
        holds(SEARCH_USERS_BY_TAGS_CYPHER@, "ORDER BY score DESC, u.id DESC"@),
{
    let t = SEARCH_USERS_BY_TAGS_CYPHER@;
    reveal_strlit(
        "
        MATCH (tagger:User)-[tag:TAGGED]->(u:User)
        WHERE tag.label IN $labels AND u.name <> $deleted
        WITH u, COUNT(tag) AS score
        RETURN u.id AS user_id, score
        // id DESC matches how Redis breaks equal scores (reverse-lex member
        // order), keeping pagination windows identical across both paths
        ORDER BY score DESC, u.id DESC
        ",
    );
    reveal_strlit("(");
    reveal_strlit(")");
    reveal_strlit(")-[");
    reveal_strlit("ORDER BY score DESC, u.id DESC");
    reveal_strlit("]->(");
    reveal_strlit("tag.label IN $labels AND u.name <> $deleted");
    reveal_strlit("tag:TAGGED");
    reveal_strlit("tagger:User");
    reveal_strlit("u:User");
    let part = arrow("tagger:User"@, "tag:TAGGED"@, "u:User"@);
    assert(t.subrange(15, 51) =~= part);
    assert(stands_at(t, part, 15));
    assert(t.subrange(66, 109) =~= "tag.label IN $labels AND u.name <> $deleted"@);
    assert(stands_at(t, "tag.label IN $labels AND u.name <> $deleted"@, 66));
    assert(t.subrange(343, 373) =~= "ORDER BY score DESC, u.id DESC"@);
    assert(stands_at(t, "ORDER BY score DESC, u.id DESC"@, 343));
}

/// Where the parts of a text stand.
proof fn lemma_global_tags_by_user_cypher()
    ensures
        draws(GLOBAL_TAGS_BY_USER_CYPHER@, "tagger:User"@, "t:TAGGED"@, "u:User"@),
        holds(GLOBAL_TAGS_BY_USER_CYPHER@, "u.name <> $deleted"@),
{
    let t = GLOBAL_TAGS_BY_USER_CYPHER@;
    reveal_strlit(
        "
        // create_user_tag MERGEs one TAGGED edge per (tagger, tagged, label),
        // so COUNT(t) is the distinct tagger count.
        MATCH (tagger:User)-[t:TAGGED]->(u:User)
        WHERE u.name <> $deleted
        WITH t.label AS label, u.id AS user_id, COUNT(t) AS score
        WITH label, COLLECT([toFloat(score), user_id]) AS sorted_set
        RETURN label, sorted_set
        ",
    );
    reveal_strlit("(");
    reveal_strlit(")");
    reveal_strlit(")-[");
    reveal_strlit("]->(");
    reveal_strlit("t:TAGGED");
    reveal_strlit("tagger:User");
    reveal_strlit("u.name <> $deleted");
    reveal_strlit("u:User");
    let part = arrow("tagger:User"@, "t:TAGGED"@, "u:User"@);
    assert(t.subrange(147, 181) =~= part);
    assert(stands_at(t, part, 147));
    assert(t.subrange(196, 214) =~= "u.name <> $deleted"@);
    assert(stands_at(t, "u.name <> $deleted"@, 196));
}

/// Where the parts of a text stand.
proof fn lemma_get_user_tag_pairs_cypher()
    ensures
        draws(GET_USER_TAG_PAIRS_CYPHER@, ":User"@, "t:TAGGED"@, "u:User"@),
        holds(GET_USER_TAG_PAIRS_CYPHER@, "u.name <> $deleted"@),
        holds(GET_USER_TAG_PAIRS_CYPHER@, "u.id AS user_id, t.label AS label"@),
{
    let t = GET_USER_TAG_PAIRS_CYPHER@;
    reveal_strlit(
        "
        MATCH (:User)-[t:TAGGED]->(u:User)
        WHERE u.name <> $deleted
        RETURN DISTINCT u.id AS user_id, t.label AS label
        ",
    );
    reveal_strlit("(");
    reveal_strlit(")");
    reveal_strlit(")-[");
    reveal_strlit(":User");
    reveal_strlit("]->(");
    reveal_strlit("t:TAGGED");
    reveal_strlit("u.id AS user_id, t.label AS label");
    reveal_strlit("u.name <> $deleted");
    reveal_strlit("u:User");
    let part = arrow(":User"@, "t:TAGGED"@, "u:User"@);
    assert(t.subrange(15, 43) =~= part);
    assert(stands_at(t, part, 15));
    assert(t.subrange(58, 76) =~= "u.name <> $deleted"@);
    assert(stands_at(t, "u.name <> $deleted"@, 58));
    assert(t.subrange(101, 134) =~= "u.id AS user_id, t.label AS label"@);
    assert(stands_at(t, "u.id AS user_id, t.label AS label"@, 101));
}

/// Where the parts of a text stand.
proof fn lemma_global_tags_by_post_cypher()
    ensures
        draws(GLOBAL_TAGS_BY_POST_CYPHER@, "tagger:User"@, "t:TAGGED"@, "post:Post"@),
        draws(GLOBAL_TAGS_BY_POST_CYPHER@, "author:User"@, ":AUTHORED"@, "post:Post"@),
        holds(GLOBAL_TAGS_BY_POST_CYPHER@, "author.id + ':' + post.id AS post_id, post.indexed_at AS score"@),
{
    let t = GLOBAL_TAGS_BY_POST_CYPHER@;
    reveal_strlit(
        "
        MATCH (tagger:User)-[t:TAGGED]->(post:Post)<-[:AUTHORED]-(author:User)
        WITH t.label AS label, author.id + ':' + post.id AS post_id, post.indexed_at AS score
        WITH DISTINCT post_id, label, score
        WITH label, COLLECT([toFloat(score), post_id ]) AS sorted_set
        RETURN label, sorted_set
        ",
    );
    reveal_strlit("(");
    reveal_strlit(")");
    reveal_strlit(")-[");
    reveal_strlit(")<-[");
    reveal_strlit(":AUTHORED");
    reveal_strlit("]-(");
    reveal_strlit("]->(");
    reveal_strlit("author.id + ':' + post.id AS post_id, post.indexed_at AS score");
    reveal_strlit("author:User");
    reveal_strlit("post:Post");
    reveal_strlit("t:TAGGED");
    reveal_strlit("tagger:User");
    let part = arrow("tagger:User"@, "t:TAGGED"@, "post:Post"@);
    assert(t.subrange(15, 52) =~= part);
    assert(stands_at(t, part, 15));
    let part = arrow_back("author:User"@, ":AUTHORED"@, "post:Post"@);
    assert(t.subrange(41, 79) =~= part);
    assert(stands_at(t, part, 41));
    assert(t.subrange(111, 173) =~= "author.id + ':' + post.id AS post_id, post.indexed_at AS score"@);
    assert(stands_at(t, "author.id + ':' + post.id AS post_id, post.indexed_at AS score"@, 111));
}

/// Where the parts of a text stand.
proof fn lemma_get_all_homeservers_with_active_users_cypher()
    ensures
        draws(GET_ALL_HOMESERVERS_WITH_ACTIVE_USERS_CYPHER@, "u:User"@, "r:HOSTED_BY"@, "hs:Homeserver"@),
        holds(GET_ALL_HOMESERVERS_WITH_ACTIVE_USERS_CYPHER@, "WHERE u.name <> '[DELETED]' AND NOT coalesce(r.stale, false)"@),
        holds(GET_ALL_HOMESERVERS_WITH_ACTIVE_USERS_CYPHER@, "ORDER BY active_users DESC"@),
{
    let t = GET_ALL_HOMESERVERS_WITH_ACTIVE_USERS_CYPHER@;
    reveal_strlit(
        "MATCH (u:User)-[r:HOSTED_BY]->(hs:Homeserver)
        WHERE u.name <> '[DELETED]' AND NOT coalesce(r.stale, false)
        WITH hs.id AS id, count(u) AS active_users
        ORDER BY active_users DESC
        RETURN collect(id) AS homeservers_list",
    );
    reveal_strlit("(");
    reveal_strlit(")");
    reveal_strlit(")-[");
    reveal_strlit("ORDER BY active_users DESC");
    reveal_strlit("WHERE u.name <> '[DELETED]' AND NOT coalesce(r.stale, false)");
    reveal_strlit("]->(");
    reveal_strlit("hs:Homeserver");
    reveal_strlit("r:HOSTED_BY");
    reveal_strlit("u:User");
    let part = arrow("u:User"@, "r:HOSTED_BY"@, "hs:Homeserver"@);
    assert(t.subrange(6, 45) =~= part);
    assert(stands_at(t, part, 6));
    assert(t.subrange(54, 114) =~= "WHERE u.name <> '[DELETED]' AND NOT coalesce(r.stale, false)"@);
    assert(stands_at(t, "WHERE u.name <> '[DELETED]' AND NOT coalesce(r.stale, false)"@, 54));
    assert(t.subrange(174, 200) =~= "ORDER BY active_users DESC"@);
    assert(stands_at(t, "ORDER BY active_users DESC"@, 174));
}

/// Where the parts of a text stand.
proof fn lemma_get_active_users_by_homeserver_cypher()
    ensures
        draws(GET_ACTIVE_USERS_BY_HOMESERVER_CYPHER@, "u:User"@, "r:HOSTED_BY"@, ":Homeserver {id: $hs_id}"@),
        holds(GET_ACTIVE_USERS_BY_HOMESERVER_CYPHER@, "WHERE u.name <> '[DELETED]' AND NOT coalesce(r.stale, false)"@),
        holds(GET_ACTIVE_USERS_BY_HOMESERVER_CYPHER@, "collect(u.id) AS user_ids"@),
{
    let t = GET_ACTIVE_USERS_BY_HOMESERVER_CYPHER@;
    reveal_strlit(
        "MATCH (u:User)-[r:HOSTED_BY]->(:Homeserver {id: $hs_id})
         WHERE u.name <> '[DELETED]' AND NOT coalesce(r.stale, false)
         RETURN collect(u.id) AS user_ids",
    );
    reveal_strlit("(");
    reveal_strlit(")");
    reveal_strlit(")-[");
    reveal_strlit(":Homeserver {id: $hs_id}");
    reveal_strlit("WHERE u.name <> '[DELETED]' AND NOT coalesce(r.stale, false)");
    reveal_strlit("]->(");
    reveal_strlit("collect(u.id) AS user_ids");
    reveal_strlit("r:HOSTED_BY");
    reveal_strlit("u:User");
    let part = arrow("u:User"@, "r:HOSTED_BY"@, ":Homeserver {id: $hs_id}"@);
    assert(t.subrange(6, 56) =~= part);
    assert(stands_at(t, part, 6));
    assert(t.subrange(66, 126) =~= "WHERE u.name <> '[DELETED]' AND NOT coalesce(r.stale, false)"@);
    assert(stands_at(t, "WHERE u.name <> '[DELETED]' AND NOT coalesce(r.stale, false)"@, 66));
    assert(t.subrange(143, 168) =~= "collect(u.id) AS user_ids"@);
    assert(stands_at(t, "collect(u.id) AS user_ids"@, 143));
}

/// Where the parts of a text stand.
proof fn lemma_get_user_homeserver_cypher()
    ensures
        draws(GET_USER_HOMESERVER_CYPHER@, "u:User {id: $user_id}"@, "r:HOSTED_BY"@, "hs:Homeserver"@),
        holds(GET_USER_HOMESERVER_CYPHER@, "hs.id AS homeserver_id, coalesce(r.stale, false) AS stale"@),
{
    let t = GET_USER_HOMESERVER_CYPHER@;
    reveal_strlit(
        "MATCH (u:User {id: $user_id})-[r:HOSTED_BY]->(hs:Homeserver)
         RETURN hs.id AS homeserver_id, coalesce(r.stale, false) AS stale",
    );
    reveal_strlit("(");
    reveal_strlit(")");
    reveal_strlit(")-[");
    reveal_strlit("]->(");
    reveal_strlit("hs.id AS homeserver_id, coalesce(r.stale, false) AS stale");
    reveal_strlit("hs:Homeserver");
    reveal_strlit("r:HOSTED_BY");
    reveal_strlit("u:User {id: $user_id}");
    let part = arrow("u:User {id: $user_id}"@, "r:HOSTED_BY"@, "hs:Homeserver"@);
    assert(t.subrange(6, 60) =~= part);
    assert(stands_at(t, part, 6));
    assert(t.subrange(77, 134) =~= "hs.id AS homeserver_id, coalesce(r.stale, false) AS stale"@);
    assert(stands_at(t, "hs.id AS homeserver_id, coalesce(r.stale, false) AS stale"@, 77));
}

/// Where the parts of a text stand.
proof fn lemma_get_users_needing_hs_resolution_cypher()
    ensures
        holds(GET_USERS_NEEDING_HS_RESOLUTION_CYPHER@, "WHERE u.name <> '[DELETED]'"@),
        holds(GET_USERS_NEEDING_HS_RESOLUTION_CYPHER@, "OPTIONAL MATCH (u)-[r:HOSTED_BY]->(:Homeserver)"@),
        holds(GET_USERS_NEEDING_HS_RESOLUTION_CYPHER@, "r.resolved_at < (timestamp() - $ttl_ms)"@),
        holds(GET_USERS_NEEDING_HS_RESOLUTION_CYPHER@, "WHERE r IS NULL"@),
{
    let t = GET_USERS_NEEDING_HS_RESOLUTION_CYPHER@;
    reveal_strlit(
        "MATCH (u:User)
         WHERE u.name <> '[DELETED]'
         OPTIONAL MATCH (u)-[r:HOSTED_BY]->(:Homeserver)
         WITH u, r
         WHERE r IS NULL
            OR r.resolved_at IS NULL
            OR r.resolved_at < (timestamp() - $ttl_ms)
         RETURN collect(u.id) AS user_ids",
    );
    reveal_strlit("OPTIONAL MATCH (u)-[r:HOSTED_BY]->(:Homeserver)");
    reveal_strlit("WHERE r IS NULL");
    reveal_strlit("WHERE u.name <> '[DELETED]'");
    reveal_strlit("r.resolved_at < (timestamp() - $ttl_ms)");
    assert(t.subrange(24, 51) =~= "WHERE u.name <> '[DELETED]'"@);
    assert(stands_at(t, "WHERE u.name <> '[DELETED]'"@, 24));
    assert(t.subrange(61, 108) =~= "OPTIONAL MATCH (u)-[r:HOSTED_BY]->(:Homeserver)"@);
    assert(stands_at(t, "OPTIONAL MATCH (u)-[r:HOSTED_BY]->(:Homeserver)"@, 61));
    assert(t.subrange(205, 244) =~= "r.resolved_at < (timestamp() - $ttl_ms)"@);
    assert(stands_at(t, "r.resolved_at < (timestamp() - $ttl_ms)"@, 205));
    assert(t.subrange(137, 152) =~= "WHERE r IS NULL"@);
    assert(stands_at(t, "WHERE r IS NULL"@, 137));
}

/// Where the parts of a text stand.
proof fn lemma_recommend_users_cypher()
    ensures
        draws(RECOMMEND_USERS_CYPHER@, "user"@, ":FOLLOWS*1..3"@, "potential:User"@),
        holds(RECOMMEND_USERS_CYPHER@, "WHERE NOT (user)-[:FOLLOWS]->(potential)"@),
        holds(RECOMMEND_USERS_CYPHER@, "AND potential.id <> $user_id"@),
        holds(RECOMMEND_USERS_CYPHER@, "WHERE post_count >= 5"@),
{
    let t = RECOMMEND_USERS_CYPHER@;
    reveal_strlit(
        "
        MATCH (user:User {id: $user_id})
        MATCH (user)-[:FOLLOWS*1..3]->(potential:User)
        WHERE NOT (user)-[:FOLLOWS]->(potential)
        AND potential.id <> $user_id
        WITH DISTINCT potential
        MATCH (potential)-[:AUTHORED]->(post:Post)
        WITH potential, COUNT(post) AS post_count
        WHERE post_count >= 5
        RETURN potential.id AS recommended_user_id, potential.name AS recommended_user_name
        LIMIT $limit
    ",
    );
    reveal_strlit("(");
    reveal_strlit(")");
    reveal_strlit(")-[");
    reveal_strlit(":FOLLOWS*1..3");
    reveal_strlit("AND potential.id <> $user_id");
    reveal_strlit("WHERE NOT (user)-[:FOLLOWS]->(potential)");
    reveal_strlit("WHERE post_count >= 5");
    reveal_strlit("]->(");
    reveal_strlit("potential:User");
    reveal_strlit("user");
    let part = arrow("user"@, ":FOLLOWS*1..3"@, "potential:User"@);
    assert(t.subrange(56, 96) =~= part);
    assert(stands_at(t, part, 56));
    assert(t.subrange(105, 145) =~= "WHERE NOT (user)-[:FOLLOWS]->(potential)"@);
    assert(stands_at(t, "WHERE NOT (user)-[:FOLLOWS]->(potential)"@, 105));
    assert(t.subrange(154, 182) =~= "AND potential.id <> $user_id"@);
    assert(stands_at(t, "AND potential.id <> $user_id"@, 154));
    assert(t.subrange(324, 345) =~= "WHERE post_count >= 5"@);
    assert(stands_at(t, "WHERE post_count >= 5"@, 324));
}

/// Where the parts of a text stand.
proof fn lemma_get_global_influencers_cypher()
    ensures
        draws(GET_GLOBAL_INFLUENCERS_CYPHER@, "others:User"@, "follow:FOLLOWS"@, "user"@),
        draws(GET_GLOBAL_INFLUENCERS_CYPHER@, "user"@, "tag:TAGGED"@, ":Post"@),
        draws(GET_GLOBAL_INFLUENCERS_CYPHER@, "user"@, "authored:AUTHORED"@, "post:Post"@),
        holds(GET_GLOBAL_INFLUENCERS_CYPHER@, "score: (tags_count + posts_count) * sqrt(followers_count)"@),
        holds(GET_GLOBAL_INFLUENCERS_CYPHER@, "ORDER BY influencer.score DESC, influencer.id ASC"@),
        holds(GET_GLOBAL_INFLUENCERS_CYPHER@, "follow.indexed_at >= $from AND follow.indexed_at < $to"@),
{
    let t = GET_GLOBAL_INFLUENCERS_CYPHER@;
    reveal_strlit(
        "
        MATCH (user:User)
        WHERE user.name <> '[DELETED]'
        WITH DISTINCT user

        // Each count is a scoped CALL(user){} subquery so it stays per-user
        // instead of multiplying into a cartesian product. Mirrors
        // get_influencers_by_reach.
        CALL (user) {
            MATCH (others:User)-[follow:FOLLOWS]->(user)
            WHERE follow.indexed_at >= $from AND follow.indexed_at < $to
            RETURN count(DISTINCT follow) AS followers_count
        }
        CALL (user) {
            MATCH (user)-[tag:TAGGED]->(:Post)
            WHERE tag.indexed_at >= $from AND tag.indexed_at < $to
            RETURN count(DISTINCT tag) AS tags_count
        }
        CALL (user) {
            MATCH (user)-[authored:AUTHORED]->(post:Post)
            WHERE authored.indexed_at >= $from AND authored.indexed_at < $to
            RETURN count(DISTINCT post) AS posts_count
        }
        WITH {
            id: user.id,
            score: (tags_count + posts_count) * sqrt(followers_count)
        } AS influencer
        WHERE influencer.id IS NOT NULL

        ORDER BY influencer.score DESC, influencer.id ASC
        SKIP $skip
        LIMIT $limit
        RETURN COLLECT([influencer.id, influencer.score]) as influencers
    ",
    );
    reveal_strlit("(");
    reveal_strlit(")");
    reveal_strlit(")-[");
    reveal_strlit(":Post");
    reveal_strlit("ORDER BY influencer.score DESC, influencer.id ASC");
    reveal_strlit("]->(");
    reveal_strlit("authored:AUTHORED");
    reveal_strlit("follow.indexed_at >= $from AND follow.indexed_at < $to");
    reveal_strlit("follow:FOLLOWS");
    reveal_strlit("others:User");
    reveal_strlit("post:Post");
    reveal_strlit("score: (tags_count + posts_count) * sqrt(followers_count)");
    reveal_strlit("tag:TAGGED");
    reveal_strlit("user");
    let part = arrow("others:User"@, "follow:FOLLOWS"@, "user"@);
    assert(t.subrange(316, 354) =~= part);
    assert(stands_at(t, part, 316));
    let part = arrow("user"@, "tag:TAGGED"@, ":Post"@);
    assert(t.subrange(539, 567) =~= part);
    assert(stands_at(t, part, 539));
    let part = arrow("user"@, "authored:AUTHORED"@, "post:Post"@);
    assert(t.subrange(738, 777) =~= part);
    assert(stands_at(t, part, 738));
    assert(t.subrange(972, 1029) =~= "score: (tags_count + posts_count) * sqrt(followers_count)"@);
    assert(stands_at(t, "score: (tags_count + posts_count) * sqrt(followers_count)"@, 972));
    assert(t.subrange(1103, 1152) =~= "ORDER BY influencer.score DESC, influencer.id ASC"@);
    assert(stands_at(t, "ORDER BY influencer.score DESC, influencer.id ASC"@, 1103));
    assert(t.subrange(373, 427) =~= "follow.indexed_at >= $from AND follow.indexed_at < $to"@);
    assert(stands_at(t, "follow.indexed_at >= $from AND follow.indexed_at < $to"@, 373));
}

/// Where the parts of a text stand.
proof fn lemma_starter_pack_users_cypher()
    ensures
        draws(STARTER_PACK_USERS_CYPHER@, "tagger:User"@, "t:TAGGED"@, "candidate:User"@),
        holds(STARTER_PACK_USERS_CYPHER@, "MATCH (tagger:User)-[t:TAGGED]->(:Post)<-[:AUTHORED]-(candidate:User)"@),
        holds(STARTER_PACK_USERS_CYPHER@, "sum(coalesce(tagger.trust, 0.0)) AS trust_score"@),
        holds(STARTER_PACK_USERS_CYPHER@, "candidate <> user AND NOT (user)-[:FOLLOWS]->(candidate)"@),
        holds(STARTER_PACK_USERS_CYPHER@, "ORDER BY trust_score DESC, endorsers DESC, id ASC"@),
        holds(STARTER_PACK_USERS_CYPHER@, "p.indexed_at >= $since"@),
        holds(STARTER_PACK_USERS_CYPHER@, "LIMIT $per_label"@),
{
    let t = STARTER_PACK_USERS_CYPHER@;
    reveal_strlit(
        "
        // Bound once, so the follows check stays a lookup.
        OPTIONAL MATCH (user:User {id: $user_id})
        UNWIND $labels AS label
        WITH DISTINCT user, label
        // Ranking per label in its own subquery so ORDER BY + LIMIT plans as Top. Collecting
        // first and slicing after sorts every candidate of every label instead.
        CALL (user, label) {
            CALL (label) {
                MATCH (tagger:User)-[t:TAGGED]->(candidate:User)
                WHERE t.label = label
                RETURN candidate, tagger
              UNION
                MATCH (tagger:User)-[t:TAGGED]->(:Post)<-[:AUTHORED]-(candidate:User)
                WHERE t.label = label
                RETURN candidate, tagger
            }
            // UNION, not UNION ALL: it is what makes this one vote per endorser.
            WITH user, candidate,
                 sum(coalesce(tagger.trust, 0.0)) AS trust_score,
                 count(DISTINCT tagger) AS endorsers
            // Cheaper here than against every endorsement row.
            // TODO: drop the name check once nothing writes the [DELETED] sentinel.
            WHERE candidate.name <> '[DELETED]' AND NOT coalesce(candidate.deleted, false)
              AND (user IS NULL OR (candidate <> user AND NOT (user)-[:FOLLOWS]->(candidate)))
              AND EXISTS { MATCH (candidate)-[:AUTHORED]->(p:Post) WHERE p.indexed_at >= $since }
            WITH candidate.id AS id, trust_score, endorsers
            ORDER BY trust_score DESC, endorsers DESC, id ASC
            LIMIT $per_label
            RETURN collect(id) AS candidates
        }
        // A label with no candidates stays absent, as the caller expects.
        WITH label, candidates
        WHERE candidates <> []
        RETURN label, candidates
        ",
    );
    reveal_strlit("(");
    reveal_strlit(")");
    reveal_strlit(")-[");
    reveal_strlit("LIMIT $per_label");
    reveal_strlit("MATCH (tagger:User)-[t:TAGGED]->(:Post)<-[:AUTHORED]-(candidate:User)");
    reveal_strlit("ORDER BY trust_score DESC, endorsers DESC, id ASC");
    reveal_strlit("]->(");
    reveal_strlit("candidate <> user AND NOT (user)-[:FOLLOWS]->(candidate)");
    reveal_strlit("candidate:User");
    reveal_strlit("p.indexed_at >= $since");
    reveal_strlit("sum(coalesce(tagger.trust, 0.0)) AS trust_score");
    reveal_strlit("t:TAGGED");
    reveal_strlit("tagger:User");
    let part = arrow("tagger:User"@, "t:TAGGED"@, "candidate:User"@);
    assert(t.subrange(430, 472) =~= part);
    assert(stands_at(t, part, 430));
    assert(t.subrange(588, 657) =~= "MATCH (tagger:User)-[t:TAGGED]->(:Post)<-[:AUTHORED]-(candidate:User)"@);
    assert(stands_at(t, "MATCH (tagger:User)-[t:TAGGED]->(:Post)<-[:AUTHORED]-(candidate:User)"@, 588));
    assert(t.subrange(884, 931) =~= "sum(coalesce(tagger.trust, 0.0)) AS trust_score"@);
    assert(stands_at(t, "sum(coalesce(tagger.trust, 0.0)) AS trust_score"@, 884));
    assert(t.subrange(1262, 1318) =~= "candidate <> user AND NOT (user)-[:FOLLOWS]->(candidate)"@);
    assert(stands_at(t, "candidate <> user AND NOT (user)-[:FOLLOWS]->(candidate)"@, 1262));
    assert(t.subrange(1491, 1540) =~= "ORDER BY trust_score DESC, endorsers DESC, id ASC"@);
    assert(stands_at(t, "ORDER BY trust_score DESC, endorsers DESC, id ASC"@, 1491));
    assert(t.subrange(1394, 1416) =~= "p.indexed_at >= $since"@);
    assert(stands_at(t, "p.indexed_at >= $since"@, 1394));
    assert(t.subrange(1553, 1569) =~= "LIMIT $per_label"@);
    assert(stands_at(t, "LIMIT $per_label"@, 1553));
}

/// Where the parts of a text stand.
proof fn lemma_global_tags_by_post_engagement_cypher()
    ensures
        draws(GLOBAL_TAGS_BY_POST_ENGAGEMENT_CYPHER@, "author:User"@, ":AUTHORED"@, "post:Post"@),
        draws(GLOBAL_TAGS_BY_POST_ENGAGEMENT_CYPHER@, "tagger:User"@, "tag:TAGGED"@, "post:Post"@),
        holds(GLOBAL_TAGS_BY_POST_ENGAGEMENT_CYPHER@, "COUNT { (post)<-[:TAGGED]-() } AS taggers"@),
        holds(GLOBAL_TAGS_BY_POST_ENGAGEMENT_CYPHER@, "COUNT { (post)<-[:REPLIED]-() } AS replies_count"@),
        holds(GLOBAL_TAGS_BY_POST_ENGAGEMENT_CYPHER@, "COUNT { (post)<-[:REPOSTED]-() } AS reposts_count"@),
        holds(GLOBAL_TAGS_BY_POST_ENGAGEMENT_CYPHER@, "COUNT { (post)-[:MENTIONED]->() } AS mention_count"@),
        holds(GLOBAL_TAGS_BY_POST_ENGAGEMENT_CYPHER@, "toFloat(taggers + replies_count + reposts_count + mention_count)"@),
{
    let t = GLOBAL_TAGS_BY_POST_ENGAGEMENT_CYPHER@;
    reveal_strlit(
        "
        MATCH (author:User)-[:AUTHORED]->(post:Post)<-[tag:TAGGED]-(tagger:User)
        WITH post, COUNT(tag) AS tags_count, tag.label AS label, author.id + ':' + post.id AS key
        WITH DISTINCT key, label, post, tags_count
        WHERE tags_count > 0
        // Each engagement count is its own COUNT{} subquery, so they don't
        // multiply into a cartesian product per post.
        WITH key, label,
             COUNT { (post)<-[:TAGGED]-() } AS taggers,
             COUNT { (post)<-[:REPLIED]-() } AS replies_count,
             COUNT { (post)<-[:REPOSTED]-() } AS reposts_count,
             COUNT { (post)-[:MENTIONED]->() } AS mention_count
        WITH label, COLLECT([toFloat(taggers + replies_count + reposts_count + mention_count), key ]) AS sorted_set
        RETURN label, sorted_set
        order by label
        ",
    );
    reveal_strlit("(");
    reveal_strlit(")");
    reveal_strlit(")-[");
    reveal_strlit(")<-[");
    reveal_strlit(":AUTHORED");
    reveal_strlit("COUNT { (post)-[:MENTIONED]->() } AS mention_count");
    reveal_strlit("COUNT { (post)<-[:REPLIED]-() } AS replies_count");
    reveal_strlit("COUNT { (post)<-[:REPOSTED]-() } AS reposts_count");
    reveal_strlit("COUNT { (post)<-[:TAGGED]-() } AS taggers");
    reveal_strlit("]-(");
    reveal_strlit("]->(");
    reveal_strlit("author:User");
    reveal_strlit("post:Post");
    reveal_strlit("tag:TAGGED");
    reveal_strlit("tagger:User");
    reveal_strlit("toFloat(taggers + replies_count + reposts_count + mention_count)");
    let part = arrow("author:User"@, ":AUTHORED"@, "post:Post"@);
    assert(t.subrange(15, 53) =~= part);
    assert(stands_at(t, part, 15));
    let part = arrow_back("tagger:User"@, "tag:TAGGED"@, "post:Post"@);
    assert(t.subrange(42, 81) =~= part);
    assert(stands_at(t, part, 42));
    assert(t.subrange(429, 470) =~= "COUNT { (post)<-[:TAGGED]-() } AS taggers"@);
    assert(stands_at(t, "COUNT { (post)<-[:TAGGED]-() } AS taggers"@, 429));
    assert(t.subrange(485, 533) =~= "COUNT { (post)<-[:REPLIED]-() } AS replies_count"@);
    assert(stands_at(t, "COUNT { (post)<-[:REPLIED]-() } AS replies_count"@, 485));
    assert(t.subrange(548, 597) =~= "COUNT { (post)<-[:REPOSTED]-() } AS reposts_count"@);
    assert(stands_at(t, "COUNT { (post)<-[:REPOSTED]-() } AS reposts_count"@, 548));
    assert(t.subrange(612, 662) =~= "COUNT { (post)-[:MENTIONED]->() } AS mention_count"@);
    assert(stands_at(t, "COUNT { (post)-[:MENTIONED]->() } AS mention_count"@, 612));
    assert(t.subrange(692, 756) =~= "toFloat(taggers + replies_count + reposts_count + mention_count)"@);
    assert(stands_at(t, "toFloat(taggers + replies_count + reposts_count + mention_count)"@, 692));
}

/// Where the parts of a text stand.
proof fn lemma_get_users_details_by_ids_cypher()
    ensures
        holds(GET_USERS_DETAILS_BY_IDS_CYPHER@, "UNWIND $ids AS id"@),
        holds(GET_USERS_DETAILS_BY_IDS_CYPHER@, "(record:User {id: id})"@),
{
    let t = GET_USERS_DETAILS_BY_IDS_CYPHER@;
    reveal_strlit(
        "
        UNWIND $ids AS id
        OPTIONAL MATCH (record:User {id: id})
        RETURN
            id,
            CASE
                WHEN record IS NOT NULL
                    THEN record
                    ELSE null
                END AS record
        ",
    );
    reveal_strlit("(record:User {id: id})");
    reveal_strlit("UNWIND $ids AS id");
    assert(t.subrange(9, 26) =~= "UNWIND $ids AS id"@);
    assert(stands_at(t, "UNWIND $ids AS id"@, 9));
    assert(t.subrange(50, 72) =~= "(record:User {id: id})"@);
    assert(stands_at(t, "(record:User {id: id})"@, 50));
}

/// Where the parts of a text stand.
proof fn lemma_get_files_by_ids_cypher()
    ensures
        holds(GET_FILES_BY_IDS_CYPHER@, "UNWIND $pairs AS pair"@),
        holds(GET_FILES_BY_IDS_CYPHER@, "(record:File {owner_id: pair[0], id: pair[1]})"@),
{
    let t = GET_FILES_BY_IDS_CYPHER@;
    reveal_strlit(
        "
        UNWIND $pairs AS pair
        OPTIONAL MATCH (record:File {owner_id: pair[0], id: pair[1]})
        RETURN record
        ",
    );
    reveal_strlit("(record:File {owner_id: pair[0], id: pair[1]})");
    reveal_strlit("UNWIND $pairs AS pair");
    assert(t.subrange(9, 30) =~= "UNWIND $pairs AS pair"@);
    assert(stands_at(t, "UNWIND $pairs AS pair"@, 9));
    assert(t.subrange(54, 100) =~= "(record:File {owner_id: pair[0], id: pair[1]})"@);
    assert(stands_at(t, "(record:File {owner_id: pair[0], id: pair[1]})"@, 54));
}

/// Where the parts of a text stand.
proof fn lemma_get_resource_by_id_cypher()
    ensures
        holds(GET_RESOURCE_BY_ID_CYPHER@, "(r:Resource {id: $resource_id})"@),
        holds(GET_RESOURCE_BY_ID_CYPHER@, "r.id AS id, r.uri AS uri, r.scheme AS scheme, r.indexed_at AS indexed_at"@),
{
    let t = GET_RESOURCE_BY_ID_CYPHER@;
    reveal_strlit(
        "
        MATCH (r:Resource {id: $resource_id})
        RETURN r.id AS id, r.uri AS uri, r.scheme AS scheme, r.indexed_at AS indexed_at
    ",
    );
    reveal_strlit("(r:Resource {id: $resource_id})");
    reveal_strlit("r.id AS id, r.uri AS uri, r.scheme AS scheme, r.indexed_at AS indexed_at");
    assert(t.subrange(15, 46) =~= "(r:Resource {id: $resource_id})"@);
    assert(stands_at(t, "(r:Resource {id: $resource_id})"@, 15));
    assert(t.subrange(62, 134) =~= "r.id AS id, r.uri AS uri, r.scheme AS scheme, r.indexed_at AS indexed_at"@);
    assert(stands_at(t, "r.id AS id, r.uri AS uri, r.scheme AS scheme, r.indexed_at AS indexed_at"@, 62));
}

/// Where the parts of a text stand.
proof fn lemma_get_homeserver_by_id_cypher()
    ensures
        holds(GET_HOMESERVER_BY_ID_CYPHER@, "(hs:Homeserver {id: $id})"@),
        holds(GET_HOMESERVER_BY_ID_CYPHER@, "hs.id AS id"@),
{
    let t = GET_HOMESERVER_BY_ID_CYPHER@;
    reveal_strlit(
        "MATCH (hs:Homeserver {id: $id})
        WITH hs.id AS id
        RETURN id",
    );
    reveal_strlit("(hs:Homeserver {id: $id})");
    reveal_strlit("hs.id AS id");
    assert(t.subrange(6, 31) =~= "(hs:Homeserver {id: $id})"@);
    assert(stands_at(t, "(hs:Homeserver {id: $id})"@, 6));
    assert(t.subrange(45, 56) =~= "hs.id AS id"@);
    assert(stands_at(t, "hs.id AS id"@, 45));
}

/// Where the parts of a text stand.
proof fn lemma_get_tags_by_label_prefix_cypher()
    ensures
        holds(GET_TAGS_BY_LABEL_PREFIX_CYPHER@, "WHERE t.label STARTS WITH $label_prefix"@),
        holds(GET_TAGS_BY_LABEL_PREFIX_CYPHER@, "COLLECT(DISTINCT t.label) AS tag_labels"@),
{
    let t = GET_TAGS_BY_LABEL_PREFIX_CYPHER@;
    reveal_strlit(
        "
        MATCH ()-[t:TAGGED]->()
        WHERE t.label STARTS WITH $label_prefix
        RETURN COLLECT(DISTINCT t.label) AS tag_labels
        ",
    );
    reveal_strlit("COLLECT(DISTINCT t.label) AS tag_labels");
    reveal_strlit("WHERE t.label STARTS WITH $label_prefix");
    assert(t.subrange(41, 80) =~= "WHERE t.label STARTS WITH $label_prefix"@);
    assert(stands_at(t, "WHERE t.label STARTS WITH $label_prefix"@, 41));
    assert(t.subrange(96, 135) =~= "COLLECT(DISTINCT t.label) AS tag_labels"@);
    assert(stands_at(t, "COLLECT(DISTINCT t.label) AS tag_labels"@, 96));
}

/// Where the parts of a text stand.
proof fn lemma_get_tags_cypher()
    ensures
        holds(GET_TAGS_CYPHER@, "MATCH ()-[t:TAGGED]->()"@),
        holds(GET_TAGS_CYPHER@, "COLLECT(DISTINCT t.label) AS tag_labels"@),
{
    let t = GET_TAGS_CYPHER@;
    reveal_strlit(
        "
        MATCH ()-[t:TAGGED]->()
        RETURN COLLECT(DISTINCT t.label) AS tag_labels
        ",
    );
    reveal_strlit("COLLECT(DISTINCT t.label) AS tag_labels");
    reveal_strlit("MATCH ()-[t:TAGGED]->()");
    assert(t.subrange(9, 32) =~= "MATCH ()-[t:TAGGED]->()"@);
    assert(stands_at(t, "MATCH ()-[t:TAGGED]->()"@, 9));
    assert(t.subrange(48, 87) =~= "COLLECT(DISTINCT t.label) AS tag_labels"@);
    assert(stands_at(t, "COLLECT(DISTINCT t.label) AS tag_labels"@, 48));
}

/// Where the parts of a text stand.
proof fn lemma_user_is_safe_to_delete_cypher()
    ensures
        holds(USER_IS_SAFE_TO_DELETE_CYPHER@, "RETURN EXISTS { (u)-[]-() } AS flag"@),
{
    let t = USER_IS_SAFE_TO_DELETE_CYPHER@;
    reveal_strlit(
        "
        MATCH (u:User {id: $user_id})
        // EXISTS stops at the first relationship, so this is O(1) on high-degree
        // users rather than scanning every edge.
        RETURN EXISTS { (u)-[]-() } AS flag
",
    );
    reveal_strlit("RETURN EXISTS { (u)-[]-() } AS flag");
    assert(t.subrange(179, 214) =~= "RETURN EXISTS { (u)-[]-() } AS flag"@);
    assert(stands_at(t, "RETURN EXISTS { (u)-[]-() } AS flag"@, 179));
}

/// Where the parts of a text stand.
proof fn lemma_post_is_safe_to_delete_cypher()
    ensures
        holds(POST_IS_SAFE_TO_DELETE_CYPHER@, "RETURN EXISTS {\n            MATCH (p)-[r]-()\n            WHERE NOT ("@),
        holds(POST_IS_SAFE_TO_DELETE_CYPHER@, "(type(r) = 'AUTHORED' AND startNode(r).id = $author_id AND endNode(r) = p)"@),
        holds(POST_IS_SAFE_TO_DELETE_CYPHER@, "(type(r) = 'REPOSTED' AND startNode(r) = p)"@),
        holds(POST_IS_SAFE_TO_DELETE_CYPHER@, "(type(r) = 'REPLIED' AND startNode(r) = p)"@),
{
    let t = POST_IS_SAFE_TO_DELETE_CYPHER@;
    reveal_strlit(
        "
        MATCH (u:User {id: $author_id})-[:AUTHORED]->(p:Post {id: $post_id})
        // EXISTS stops at the first disallowed relationship, so this is O(1) on
        // high-degree posts rather than scanning every edge.
        RETURN EXISTS {
            MATCH (p)-[r]-()
            WHERE NOT (
                // Allowed relationships:
                // 1. Incoming AUTHORED relationship from the specified user
                (type(r) = 'AUTHORED' AND startNode(r).id = $author_id AND endNode(r) = p)
                OR
                // 2. Outgoing REPOSTED relationship to another post
                (type(r) = 'REPOSTED' AND startNode(r) = p)
                OR
                // 3. Outgoing REPLIED relationship to another post
                (type(r) = 'REPLIED' AND startNode(r) = p)
            )
        } AS flag
",
    );
    reveal_strlit("(type(r) = 'AUTHORED' AND startNode(r).id = $author_id AND endNode(r) = p)");
    reveal_strlit("(type(r) = 'REPLIED' AND startNode(r) = p)");
    reveal_strlit("(type(r) = 'REPOSTED' AND startNode(r) = p)");
    reveal_strlit("RETURN EXISTS {\n            MATCH (p)-[r]-()\n            WHERE NOT (");
    assert(t.subrange(229, 297) =~= "RETURN EXISTS {\n            MATCH (p)-[r]-()\n            WHERE NOT ("@);
    assert(stands_at(t, "RETURN EXISTS {\n            MATCH (p)-[r]-()\n            WHERE NOT ("@, 229));
    assert(t.subrange(433, 507) =~= "(type(r) = 'AUTHORED' AND startNode(r).id = $author_id AND endNode(r) = p)"@);
    assert(stands_at(t, "(type(r) = 'AUTHORED' AND startNode(r).id = $author_id AND endNode(r) = p)"@, 433));
    assert(t.subrange(612, 655) =~= "(type(r) = 'REPOSTED' AND startNode(r) = p)"@);
    assert(stands_at(t, "(type(r) = 'REPOSTED' AND startNode(r) = p)"@, 612));
    assert(t.subrange(759, 801) =~= "(type(r) = 'REPLIED' AND startNode(r) = p)"@);
    assert(stands_at(t, "(type(r) = 'REPLIED' AND startNode(r) = p)"@, 759));
}

/// The texts of the count fields with a name.
pub open spec fn counts_named(fields: Seq<(Seq<char>, Seq<char>)>, name: Seq<char>) -> Seq<
    Seq<char>,
>
    decreases fields.len(),
{
    if fields.len() == 0 {
        Seq::empty()
    } else if fields.last().0 == name {
        counts_named(fields.drop_last(), name).push(fields.last().1)
    } else {
        counts_named(fields.drop_last(), name)
    }
}

/// The texts of the count fields of a user with a name.
pub open spec fn counts_of(name: Seq<char>) -> Seq<Seq<char>> {
    counts_named(user_count_fields_view(), name)
}

/// A name that one field of a list has is that of its text alone.
proof fn lemma_counts_named(fields: Seq<(Seq<char>, Seq<char>)>, name: Seq<char>, k: int)
    requires
        0 <= k < fields.len(),
        fields[k].0 == name,
        forall|i: int| 0 <= i < fields.len() && i != k ==> (#[trigger] fields[i]).0 != name,
    ensures
        counts_named(fields, name) == seq![fields[k].1],
    decreases fields.len(),
{
    let rest = fields.drop_last();
    if k < rest.len() {
        lemma_counts_named(rest, name, k);
    } else {
        lemma_no_count_named(rest, name);
        assert(counts_named(fields, name) =~= seq![fields[k].1]);
    }
}

/// A name that no field of a list has is that of no text.
proof fn lemma_no_count_named(fields: Seq<(Seq<char>, Seq<char>)>, name: Seq<char>)
    requires
        forall|i: int| 0 <= i < fields.len() ==> (#[trigger] fields[i]).0 != name,
    ensures
        counts_named(fields, name) == Seq::<Seq<char>>::empty(),
    decreases fields.len(),
{
    if fields.len() > 0 {
        lemma_no_count_named(fields.drop_last(), name);
    }
}

/// Each count of a user is listed once and counts what its name says: followings from the user,
/// followers to the user, friends both ways, what the user wrote and bookmarked, the tags that the
/// user put and those that were put on the user. A collection-follow is no bookmark.
pub proof fn law_counts_count_what_they_name()
    ensures
        counts_of("following"@).len() == 1,
        draws(counts_of("following"@)[0], "u"@, ":FOLLOWS"@, ":User"@),
        counts_of("followers"@).len() == 1,
        draws(counts_of("followers"@)[0], ":User"@, ":FOLLOWS"@, "u"@),
        counts_of("friends"@).len() == 1,
        draws(counts_of("friends"@)[0], "u"@, ":FOLLOWS"@, "friend:User"@),
        draws(counts_of("friends"@)[0], "friend"@, ":FOLLOWS"@, "u"@),
        counts_of("posts"@).len() == 1,
        draws(counts_of("posts"@)[0], "u"@, ":AUTHORED"@, ":Post"@),
        counts_of("replies"@).len() == 1,
        draws(counts_of("replies"@)[0], "u"@, ":AUTHORED"@, ":Post"@),
        draws(counts_of("replies"@)[0], ":Post"@, ":REPLIED"@, ":Post"@),
        counts_of("collections"@).len() == 1,
        draws(counts_of("collections"@)[0], "u"@, ":AUTHORED"@, "p:Post"@),
        holds(counts_of("collections"@)[0], "p.kind = 'collection'"@),
        counts_of("bookmarks"@).len() == 1,
        draws(counts_of("bookmarks"@)[0], "u"@, ":BOOKMARKED"@, "bp:Post"@),
        holds(counts_of("bookmarks"@)[0], "bp.kind IS NULL OR bp.kind <> 'collection'"@),
        counts_of("tagged"@).len() == 1,
        draws(counts_of("tagged"@)[0], "u"@, ":TAGGED"@, ":User"@),
        draws(counts_of("tagged"@)[0], "u"@, ":TAGGED"@, ":Post"@),
        counts_of("tags"@).len() == 1,
        draws(counts_of("tags"@)[0], ":User"@, ":TAGGED"@, "u"@),
        counts_of("unique_tags"@).len() == 1,
        draws(counts_of("unique_tags"@)[0], ":User"@, "t:TAGGED"@, "u"@),
        holds(counts_of("unique_tags"@)[0], "RETURN DISTINCT t.label"@),
{
    let fields = user_count_fields_view();
    reveal_strlit("following");
    reveal_strlit("followers");
    reveal_strlit("friends");
    reveal_strlit("posts");
    reveal_strlit("replies");
    reveal_strlit("collections");
    reveal_strlit("bookmarks");
    reveal_strlit("tagged");
    reveal_strlit("tags");
    reveal_strlit("unique_tags");
    assert("following"@.len() == 9 && "followers"@.len() == 9 && "friends"@.len() == 7 && "posts"@.len() == 5 && "replies"@.len() == 7 && "collections"@.len() == 11 && "bookmarks"@.len() == 9 && "tagged"@.len() == 6 && "tags"@.len() == 4 && "unique_tags"@.len() == 11);
    assert("following"@[0] == 'f' && "followers"@[0] == 'f' && "friends"@[0] == 'f' && "posts"@[0] == 'p' && "replies"@[0] == 'r' && "collections"@[0] == 'c' && "bookmarks"@[0] == 'b' && "tagged"@[0] == 't' && "tags"@[0] == 't' && "unique_tags"@[0] == 'u');
    assert("following"@[6] == 'i' && "followers"@[6] == 'e' && "friends"@[1] == 'r');
    assert(fields[0].0 == "following"@);
    assert(fields[1].0 == "followers"@);
    assert(fields[2].0 == "friends"@);
    assert(fields[3].0 == "posts"@);
    assert(fields[4].0 == "replies"@);
    assert(fields[5].0 == "collections"@);
    assert(fields[6].0 == "bookmarks"@);
    assert(fields[7].0 == "tagged"@);
    assert(fields[8].0 == "tags"@);
    assert(fields[9].0 == "unique_tags"@);
    lemma_counts_named(fields, "following"@, 0);
    lemma_counts_named(fields, "followers"@, 1);
    lemma_counts_named(fields, "friends"@, 2);
    lemma_counts_named(fields, "posts"@, 3);
    lemma_counts_named(fields, "replies"@, 4);
    lemma_counts_named(fields, "collections"@, 5);
    lemma_counts_named(fields, "bookmarks"@, 6);
    lemma_counts_named(fields, "tagged"@, 7);
    lemma_counts_named(fields, "tags"@, 8);
    lemma_counts_named(fields, "unique_tags"@, 9);
    lemma_count_of_following();
    lemma_count_of_followers();
    lemma_count_of_friends();
    lemma_count_of_posts();
    lemma_count_of_replies();
    lemma_count_of_collections();
    lemma_count_of_bookmarks();
    lemma_count_of_tagged();
    lemma_count_of_tags();
    lemma_count_of_unique_tags();
}

/// What the count of following counts.
proof fn lemma_count_of_following()
    ensures
        draws("COUNT { (u)-[:FOLLOWS]->(:User) }"@, "u"@, ":FOLLOWS"@, ":User"@),
{
    let t = "COUNT { (u)-[:FOLLOWS]->(:User) }"@;
    reveal_strlit("(");
    reveal_strlit(")");
    reveal_strlit(")-[");
    reveal_strlit(":FOLLOWS");
    reveal_strlit(":User");
    reveal_strlit("COUNT { (u)-[:FOLLOWS]->(:User) }");
    reveal_strlit("]->(");
    reveal_strlit("u");
    let part = arrow("u"@, ":FOLLOWS"@, ":User"@);
    assert(t.subrange(8, 31) =~= part);
    assert(stands_at(t, part, 8));
}

/// What the count of followers counts.
proof fn lemma_count_of_followers()
    ensures
        draws("COUNT { (:User)-[:FOLLOWS]->(u) }"@, ":User"@, ":FOLLOWS"@, "u"@),
{
    let t = "COUNT { (:User)-[:FOLLOWS]->(u) }"@;
    reveal_strlit("(");
    reveal_strlit(")");
    reveal_strlit(")-[");
    reveal_strlit(":FOLLOWS");
    reveal_strlit(":User");
    reveal_strlit("COUNT { (:User)-[:FOLLOWS]->(u) }");
    reveal_strlit("]->(");
    reveal_strlit("u");
    let part = arrow(":User"@, ":FOLLOWS"@, "u"@);
    assert(t.subrange(8, 31) =~= part);
    assert(stands_at(t, part, 8));
}

/// What the count of friends counts.
proof fn lemma_count_of_friends()
    ensures
        draws("COUNT { (u)-[:FOLLOWS]->(friend:User) WHERE (friend)-[:FOLLOWS]->(u) }"@, "u"@, ":FOLLOWS"@, "friend:User"@),
        draws("COUNT { (u)-[:FOLLOWS]->(friend:User) WHERE (friend)-[:FOLLOWS]->(u) }"@, "friend"@, ":FOLLOWS"@, "u"@),
{
    let t = "COUNT { (u)-[:FOLLOWS]->(friend:User) WHERE (friend)-[:FOLLOWS]->(u) }"@;
    reveal_strlit("(");
    reveal_strlit(")");
    reveal_strlit(")-[");
    reveal_strlit(":FOLLOWS");
    reveal_strlit("COUNT { (u)-[:FOLLOWS]->(friend:User) WHERE (friend)-[:FOLLOWS]->(u) }");
    reveal_strlit("]->(");
    reveal_strlit("friend");
    reveal_strlit("friend:User");
    reveal_strlit("u");
    let part = arrow("u"@, ":FOLLOWS"@, "friend:User"@);
    assert(t.subrange(8, 37) =~= part);
    assert(stands_at(t, part, 8));
    let part = arrow("friend"@, ":FOLLOWS"@, "u"@);
    assert(t.subrange(44, 68) =~= part);
    assert(stands_at(t, part, 44));
}

/// What the count of posts counts.
proof fn lemma_count_of_posts()
    ensures
        draws("COUNT { (u)-[:AUTHORED]->(:Post) }"@, "u"@, ":AUTHORED"@, ":Post"@),
{
    let t = "COUNT { (u)-[:AUTHORED]->(:Post) }"@;
    reveal_strlit("(");
    reveal_strlit(")");
    reveal_strlit(")-[");
    reveal_strlit(":AUTHORED");
    reveal_strlit(":Post");
    reveal_strlit("COUNT { (u)-[:AUTHORED]->(:Post) }");
    reveal_strlit("]->(");
    reveal_strlit("u");
    let part = arrow("u"@, ":AUTHORED"@, ":Post"@);
    assert(t.subrange(8, 32) =~= part);
    assert(stands_at(t, part, 8));
}

/// What the count of replies counts.
proof fn lemma_count_of_replies()
    ensures
        draws("COUNT { (u)-[:AUTHORED]->(:Post)-[:REPLIED]->(:Post) }"@, "u"@, ":AUTHORED"@, ":Post"@),
        draws("COUNT { (u)-[:AUTHORED]->(:Post)-[:REPLIED]->(:Post) }"@, ":Post"@, ":REPLIED"@, ":Post"@),
{
    let t = "COUNT { (u)-[:AUTHORED]->(:Post)-[:REPLIED]->(:Post) }"@;
    reveal_strlit("(");
    reveal_strlit(")");
    reveal_strlit(")-[");
    reveal_strlit(":AUTHORED");
    reveal_strlit(":Post");
    reveal_strlit(":REPLIED");
    reveal_strlit("COUNT { (u)-[:AUTHORED]->(:Post)-[:REPLIED]->(:Post) }");
    reveal_strlit("]->(");
    reveal_strlit("u");
    let part = arrow("u"@, ":AUTHORED"@, ":Post"@);
    assert(t.subrange(8, 32) =~= part);
    assert(stands_at(t, part, 8));
    let part = arrow(":Post"@, ":REPLIED"@, ":Post"@);
    assert(t.subrange(25, 52) =~= part);
    assert(stands_at(t, part, 25));
}

/// What the count of collections counts.
proof fn lemma_count_of_collections()
    ensures
        draws("COUNT { (u)-[:AUTHORED]->(p:Post) WHERE p.kind = 'collection' }"@, "u"@, ":AUTHORED"@, "p:Post"@),
        holds("COUNT { (u)-[:AUTHORED]->(p:Post) WHERE p.kind = 'collection' }"@, "p.kind = 'collection'"@),
{
    let t = "COUNT { (u)-[:AUTHORED]->(p:Post) WHERE p.kind = 'collection' }"@;
    reveal_strlit("(");
    reveal_strlit(")");
    reveal_strlit(")-[");
    reveal_strlit(":AUTHORED");
    reveal_strlit("COUNT { (u)-[:AUTHORED]->(p:Post) WHERE p.kind = 'collection' }");
    reveal_strlit("]->(");
    reveal_strlit("p.kind = 'collection'");
    reveal_strlit("p:Post");
    reveal_strlit("u");
    let part = arrow("u"@, ":AUTHORED"@, "p:Post"@);
    assert(t.subrange(8, 33) =~= part);
    assert(stands_at(t, part, 8));
    assert(t.subrange(40, 61) =~= "p.kind = 'collection'"@);
    assert(stands_at(t, "p.kind = 'collection'"@, 40));
}

/// What the count of bookmarks counts.
proof fn lemma_count_of_bookmarks()
    ensures
        draws("COUNT { (u)-[:BOOKMARKED]->(bp:Post) WHERE (bp.kind IS NULL OR bp.kind <> 'collection') }"@, "u"@, ":BOOKMARKED"@, "bp:Post"@),
        holds("COUNT { (u)-[:BOOKMARKED]->(bp:Post) WHERE (bp.kind IS NULL OR bp.kind <> 'collection') }"@, "bp.kind IS NULL OR bp.kind <> 'collection'"@),
{
    let t = "COUNT { (u)-[:BOOKMARKED]->(bp:Post) WHERE (bp.kind IS NULL OR bp.kind <> 'collection') }"@;
    reveal_strlit("(");
    reveal_strlit(")");
    reveal_strlit(")-[");
    reveal_strlit(":BOOKMARKED");
    reveal_strlit("COUNT { (u)-[:BOOKMARKED]->(bp:Post) WHERE (bp.kind IS NULL OR bp.kind <> 'collection') }");
    reveal_strlit("]->(");
    reveal_strlit("bp.kind IS NULL OR bp.kind <> 'collection'");
    reveal_strlit("bp:Post");
    reveal_strlit("u");
    let part = arrow("u"@, ":BOOKMARKED"@, "bp:Post"@);
    assert(t.subrange(8, 36) =~= part);
    assert(stands_at(t, part, 8));
    assert(t.subrange(44, 86) =~= "bp.kind IS NULL OR bp.kind <> 'collection'"@);
    assert(stands_at(t, "bp.kind IS NULL OR bp.kind <> 'collection'"@, 44));
}

/// What the count of tagged counts.
proof fn lemma_count_of_tagged()
    ensures
        draws("COUNT { (u)-[:TAGGED]->(:User) } + COUNT { (u)-[:TAGGED]->(:Post) }"@, "u"@, ":TAGGED"@, ":User"@),
        draws("COUNT { (u)-[:TAGGED]->(:User) } + COUNT { (u)-[:TAGGED]->(:Post) }"@, "u"@, ":TAGGED"@, ":Post"@),
{
    let t = "COUNT { (u)-[:TAGGED]->(:User) } + COUNT { (u)-[:TAGGED]->(:Post) }"@;
    reveal_strlit("(");
    reveal_strlit(")");
    reveal_strlit(")-[");
    reveal_strlit(":Post");
    reveal_strlit(":TAGGED");
    reveal_strlit(":User");
    reveal_strlit("COUNT { (u)-[:TAGGED]->(:User) } + COUNT { (u)-[:TAGGED]->(:Post) }");
    reveal_strlit("]->(");
    reveal_strlit("u");
    let part = arrow("u"@, ":TAGGED"@, ":User"@);
    assert(t.subrange(8, 30) =~= part);
    assert(stands_at(t, part, 8));
    let part = arrow("u"@, ":TAGGED"@, ":Post"@);
    assert(t.subrange(43, 65) =~= part);
    assert(stands_at(t, part, 43));
}

/// What the count of tags counts.
proof fn lemma_count_of_tags()
    ensures
        draws("COUNT { (:User)-[:TAGGED]->(u) }"@, ":User"@, ":TAGGED"@, "u"@),
{
    let t = "COUNT { (:User)-[:TAGGED]->(u) }"@;
    reveal_strlit("(");
    reveal_strlit(")");
    reveal_strlit(")-[");
    reveal_strlit(":TAGGED");
    reveal_strlit(":User");
    reveal_strlit("COUNT { (:User)-[:TAGGED]->(u) }");
    reveal_strlit("]->(");
    reveal_strlit("u");
    let part = arrow(":User"@, ":TAGGED"@, "u"@);
    assert(t.subrange(8, 30) =~= part);
    assert(stands_at(t, part, 8));
}

/// What the count of unique tags counts.
proof fn lemma_count_of_unique_tags()
    ensures
        draws("COUNT { MATCH (u)<-[t:TAGGED]-(:User) RETURN DISTINCT t.label }"@, ":User"@, "t:TAGGED"@, "u"@),
        holds("COUNT { MATCH (u)<-[t:TAGGED]-(:User) RETURN DISTINCT t.label }"@, "RETURN DISTINCT t.label"@),
{
    let t = "COUNT { MATCH (u)<-[t:TAGGED]-(:User) RETURN DISTINCT t.label }"@;
    reveal_strlit("(");
    reveal_strlit(")");
    reveal_strlit(")<-[");
    reveal_strlit(":User");
    reveal_strlit("COUNT { MATCH (u)<-[t:TAGGED]-(:User) RETURN DISTINCT t.label }");
    reveal_strlit("RETURN DISTINCT t.label");
    reveal_strlit("]-(");
    reveal_strlit("t:TAGGED");
    reveal_strlit("u");
    let part = arrow_back(":User"@, "t:TAGGED"@, "u"@);
    assert(t.subrange(14, 37) =~= part);
    assert(stands_at(t, part, 14));
    assert(t.subrange(38, 61) =~= "RETURN DISTINCT t.label"@);
    assert(stands_at(t, "RETURN DISTINCT t.label"@, 38));
}

} // verus!
