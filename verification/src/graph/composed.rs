//! What the texts ask that are put together from parts: the parts stand in them, and what is asked for
//! stands where the parts meet.
use crate::graph::get::{
    GET_TAG_TARGET_HEAD, GET_TAG_TARGET_TAIL, GLOBAL_HOT_TAGS_HEAD, GLOBAL_HOT_TAGS_TAGGERS,
    GLOBAL_HOT_TAGS_TAIL, HOT_TAGS_BY_REACH_HEAD, HOT_TAGS_BY_REACH_TAGGED,
    HOT_TAGS_BY_REACH_TAGGERS, HOT_TAGS_BY_REACH_TAIL, INFLUENCERS_BY_REACH_HEAD,
    INFLUENCERS_BY_REACH_TAIL, RESOURCE_STREAM_HEAD, RESOURCE_STREAM_MATCH, RESOURCE_STREAM_TAIL,
    TAG_TAGGERS_BY_REACH_HEAD, TAG_TAGGERS_BY_REACH_TAIL, TRUSTED_NETWORK_POST_TAGS_HEAD,
    TRUSTED_NETWORK_POST_TAGS_TAIL, TRUSTED_NETWORK_TAGS_HEAD, TRUSTED_NETWORK_TAGS_TAIL,
    USER_COUNTS_HEAD, USER_COUNTS_TAIL, app_filter, get_global_hot_tags_query,
    get_hot_tags_by_reach_query, get_influencers_by_reach_query, get_tag_taggers_by_reach_query,
    get_tag_target_query, get_viewer_trusted_network_post_tags_query,
    get_viewer_trusted_network_tags_query, global_hot_tags_text, hot_tags_text, reach_subquery,
    resource_filter, resource_sort_key, resource_stream_query, tagged_labels,
    user_count_map_entries, user_counts_query,
};
use crate::graph::pattern::{
    arrow, draws, holds, lemma_holds_in_sum, lemma_holds_in_three, lemma_holds_itself, stands_at,
};
use crate::graph::post_stream::direction;
use crate::text::{decimal, joined};
use crate::types::{
    HotTagsInputDTO, ResourceSorting, SortOrder, StreamReach, TaggedType, TimestampRange, WotDepth,
};
use vstd::prelude::*;

verus! {

/// The target of a tag is what the user's tag under that id is on: a user, a post of an author or a
/// resource, each under its own name. Only tags of the app are looked at, or only tags of no app.
pub proof fn law_tag_targets_are_told_apart(user_id: Seq<char>, tag_id: Seq<char>, app: Option<&str>)
    ensures
        ({
            let text = get_tag_target_query(user_id, tag_id, app).cypher;
            &&& holds(text, "(user:User {id: $user_id})-[tag:TAGGED {id: $tag_id}]->(target)"@)
            &&& holds(text, "OPTIONAL MATCH (target)<-[:AUTHORED]-(author:User)"@)
            &&& holds(text, "CASE WHEN target:User THEN target.id ELSE null END AS user_id"@)
            &&& holds(text, "CASE WHEN target:Post THEN target.id ELSE null END AS post_id"@)
            &&& holds(text, "CASE WHEN target:Post THEN author.id ELSE null END AS author_id"@)
            &&& holds(text, "CASE WHEN target:Resource THEN target.id ELSE null END AS resource_id"@)
            &&& holds(text, "tag.label AS label"@)
            &&& holds(text, "tag.app AS app"@)
            &&& app is Some ==> holds(text, "WHERE tag.app = $app"@)
            &&& app is None ==> holds(text, "WHERE tag.app IS NULL"@)
        }),
{
    lemma_get_tag_target_head();
    lemma_get_tag_target_tail();
    let filter = app_filter(app);
    reveal_strlit("\n    WHERE tag.app = $app");
    reveal_strlit("\n    WHERE tag.app IS NULL");
    reveal_strlit("WHERE tag.app = $app");
    reveal_strlit("WHERE tag.app IS NULL");
    if app is Some {
        assert(filter.subrange(5, 25) =~= "WHERE tag.app = $app"@);
        assert(stands_at(filter, "WHERE tag.app = $app"@, 5));
        lemma_holds_in_three(
            GET_TAG_TARGET_HEAD@,
            filter,
            GET_TAG_TARGET_TAIL@,
            "WHERE tag.app = $app"@,
        );
    } else {
        assert(filter.subrange(5, 26) =~= "WHERE tag.app IS NULL"@);
        assert(stands_at(filter, "WHERE tag.app IS NULL"@, 5));
        lemma_holds_in_three(
            GET_TAG_TARGET_HEAD@,
            filter,
            GET_TAG_TARGET_TAIL@,
            "WHERE tag.app IS NULL"@,
        );
    }
    lemma_holds_in_three(GET_TAG_TARGET_HEAD@, filter, GET_TAG_TARGET_TAIL@, "(user:User {id: $user_id})-[tag:TAGGED {id: $tag_id}]->(target)"@);
    lemma_holds_in_three(GET_TAG_TARGET_HEAD@, filter, GET_TAG_TARGET_TAIL@, "OPTIONAL MATCH (target)<-[:AUTHORED]-(author:User)"@);
    lemma_holds_in_three(GET_TAG_TARGET_HEAD@, filter, GET_TAG_TARGET_TAIL@, "CASE WHEN target:User THEN target.id ELSE null END AS user_id"@);
    lemma_holds_in_three(GET_TAG_TARGET_HEAD@, filter, GET_TAG_TARGET_TAIL@, "CASE WHEN target:Post THEN target.id ELSE null END AS post_id"@);
    lemma_holds_in_three(GET_TAG_TARGET_HEAD@, filter, GET_TAG_TARGET_TAIL@, "CASE WHEN target:Post THEN author.id ELSE null END AS author_id"@);
    lemma_holds_in_three(GET_TAG_TARGET_HEAD@, filter, GET_TAG_TARGET_TAIL@, "CASE WHEN target:Resource THEN target.id ELSE null END AS resource_id"@);
    lemma_holds_in_three(GET_TAG_TARGET_HEAD@, filter, GET_TAG_TARGET_TAIL@, "tag.label AS label"@);
    lemma_holds_in_three(GET_TAG_TARGET_HEAD@, filter, GET_TAG_TARGET_TAIL@, "tag.app AS app"@);
}

/// The tags that a viewer's network put on a user come from users that the viewer reaches by follows in
/// at most as many steps as asked, and never from the viewer.
pub proof fn law_network_tags_come_from_the_network(
    user_id: Seq<char>,
    viewer_id: Seq<char>,
    depth: WotDepth,
)
    ensures
        ({
            let text = get_viewer_trusted_network_tags_query(user_id, viewer_id, depth).cypher;
            &&& draws(text, "viewer"@, ":FOLLOWS*1.."@ + decimal(depth.depth() as nat), "tagger:User"@)
            &&& holds(text, "MATCH (tagged:User {id: $user_id})"@)
            &&& holds(text, "OPTIONAL MATCH (viewer:User {id: $viewer_id})"@)
            &&& holds(text, "(tagger:User)-[tag:TAGGED]->(tagged)"@)
            &&& holds(text, "WHERE tagger.id <> viewer.id"@)
        }),
{
    lemma_trusted_network_tags_head();
    lemma_trusted_network_tags_tail();
    let head = TRUSTED_NETWORK_TAGS_HEAD@;
    let n = decimal(depth.depth() as nat);
    let tail = TRUSTED_NETWORK_TAGS_TAIL@;
    let text = head + n + tail;
    lemma_holds_in_three(head, n, tail, "MATCH (tagged:User {id: $user_id})"@);
    lemma_holds_in_three(head, n, tail, "OPTIONAL MATCH (viewer:User {id: $viewer_id})"@);
    lemma_holds_in_three(head, n, tail, "(tagger:User)-[tag:TAGGED]->(tagged)"@);
    lemma_holds_in_three(head, n, tail, "WHERE tagger.id <> viewer.id"@);
    let edge = ":FOLLOWS*1.."@ + n;
    let part = arrow("viewer"@, edge, "tagger:User"@);
    reveal_strlit(
        "
        MATCH (tagged:User {id: $user_id})
        // Viewer is optional: an unknown viewer is NULL, so the CALL's expand finds
        // no taggers and `tags` collects to [] (existing user with no trusted tags
        // -> 200 []), rather than dropping the row and 404-ing.
        OPTIONAL MATCH (viewer:User {id: $viewer_id})
        CALL {
            WITH viewer, tagged
            MATCH (viewer)-[:FOLLOWS*1..",
    );
    reveal_strlit(
        "]->(tagger:User)-[tag:TAGGED]->(tagged)
            WHERE tagger.id <> viewer.id
            WITH tag.label AS label, collect(DISTINCT tagger.id) AS taggerIds
            RETURN collect({
                label: label,
                taggers: taggerIds,
                taggers_count: SIZE(taggerIds)
            }) AS tags
        }
        RETURN tagged IS NOT NULL AS exists, tags
        ",
    );
    reveal_strlit("(");
    reveal_strlit("viewer");
    reveal_strlit(")-[");
    reveal_strlit(":FOLLOWS*1..");
    reveal_strlit("]->(");
    reveal_strlit("tagger:User");
    reveal_strlit(")");
    let k: int = 397;
    assert(part.len() == 38 + n.len());
    assert(text.subrange(k, k + part.len()) =~= part);
    assert(stands_at(text, part, k));
}

/// The tags that a viewer's network put on a post come from users that the viewer reaches by follows in
/// at most as many steps as asked, and never from the viewer. Tags by most users come first.
pub proof fn law_network_post_tags_come_from_the_network(
    author_id: Seq<char>,
    post_id: Seq<char>,
    viewer_id: Seq<char>,
    depth: WotDepth,
    skip_tags: usize,
    limit_tags: usize,
    limit_taggers: usize,
)
    ensures
        ({
            let text = get_viewer_trusted_network_post_tags_query(
                author_id,
                post_id,
                viewer_id,
                depth,
                skip_tags,
                limit_tags,
                limit_taggers,
            ).cypher;
            &&& draws(text, "viewer"@, ":FOLLOWS*1.."@ + decimal(depth.depth() as nat), "tagger:User"@)
            &&& holds(text, "(:User {id: $author_id})-[:AUTHORED]->(p:Post {id: $post_id})"@)
            &&& holds(text, "OPTIONAL MATCH (viewer:User {id: $viewer_id})"@)
            &&& holds(text, "(tagger:User)-[tag:TAGGED]->(p)"@)
            &&& holds(text, "WHERE tagger.id <> viewer.id"@)
            &&& holds(text, "ORDER BY taggersCount DESC, label ASC"@)
            &&& holds(text, "SKIP $skip_tags"@)
            &&& holds(text, "LIMIT $limit_tags"@)
            &&& holds(text, "taggers: taggerIds[0..$limit_taggers]"@)
        }),
{
    lemma_trusted_network_post_tags_head();
    lemma_trusted_network_post_tags_tail();
    let head = TRUSTED_NETWORK_POST_TAGS_HEAD@;
    let n = decimal(depth.depth() as nat);
    let tail = TRUSTED_NETWORK_POST_TAGS_TAIL@;
    let text = head + n + tail;
    lemma_holds_in_three(head, n, tail, "(:User {id: $author_id})-[:AUTHORED]->(p:Post {id: $post_id})"@);
    lemma_holds_in_three(head, n, tail, "OPTIONAL MATCH (viewer:User {id: $viewer_id})"@);
    lemma_holds_in_three(head, n, tail, "(tagger:User)-[tag:TAGGED]->(p)"@);
    lemma_holds_in_three(head, n, tail, "WHERE tagger.id <> viewer.id"@);
    lemma_holds_in_three(head, n, tail, "ORDER BY taggersCount DESC, label ASC"@);
    lemma_holds_in_three(head, n, tail, "SKIP $skip_tags"@);
    lemma_holds_in_three(head, n, tail, "LIMIT $limit_tags"@);
    lemma_holds_in_three(head, n, tail, "taggers: taggerIds[0..$limit_taggers]"@);
    let edge = ":FOLLOWS*1.."@ + n;
    let part = arrow("viewer"@, edge, "tagger:User"@);
    reveal_strlit(
        "
        MATCH (:User {id: $author_id})-[:AUTHORED]->(p:Post {id: $post_id})
        OPTIONAL MATCH (viewer:User {id: $viewer_id})
        CALL {
            WITH viewer, p
            MATCH (viewer)-[:FOLLOWS*1..",
    );
    reveal_strlit(
        "]->(tagger:User)-[tag:TAGGED]->(p)
            WHERE tagger.id <> viewer.id
            WITH tag.label AS label, collect(DISTINCT tagger.id) AS taggerIds
            WITH label, taggerIds, SIZE(taggerIds) AS taggersCount
            ORDER BY taggersCount DESC, label ASC
            SKIP $skip_tags
            LIMIT $limit_tags
            RETURN collect({
                label: label,
                taggers: taggerIds[0..$limit_taggers],
                taggers_count: taggersCount
            }) AS tags
        }
        RETURN p IS NOT NULL AS exists, tags
        ",
    );
    reveal_strlit("(");
    reveal_strlit("viewer");
    reveal_strlit(")-[");
    reveal_strlit(":FOLLOWS*1..");
    reveal_strlit("]->(");
    reveal_strlit("tagger:User");
    reveal_strlit(")");
    let k: int = 191;
    assert(part.len() == 38 + n.len());
    assert(text.subrange(k, k + part.len()) =~= part);
    assert(stands_at(text, part, k));
}

/// Within its reach, a query for taggers looks at who put the label on posts, the latest first, and a
/// query for influencers at the follows, tags and posts of the time span, the highest score first.
pub proof fn law_reaches_are_searched_for_what_is_asked(
    user_id: Seq<char>,
    label: Seq<char>,
    reach: StreamReach,
    skip: usize,
    limit: usize,
    timeframe: TimestampRange,
)
    ensures
        ({
            let text = get_tag_taggers_by_reach_query(label, user_id, reach, skip, limit).cypher;
            &&& holds(text, reach_subquery(reach))
            &&& holds(text, "(reach)-[tag:TAGGED]->(tagged:Post)"@)
            &&& holds(text, "WHERE user.id = $user_id AND tag.label = $label"@)
            &&& holds(text, "ORDER BY latest_tag_time DESC"@)
            &&& holds(text, "[$skip..$skip + $limit]"@)
        }),
        ({
            let text = get_influencers_by_reach_query(user_id, reach, skip, limit, timeframe).cypher;
            &&& holds(text, reach_subquery(reach))
            &&& holds(text, "(others:User)-[follow:FOLLOWS]->(reach)"@)
            &&& holds(text, "(reach)-[tag:TAGGED]->(:Post)"@)
            &&& holds(text, "(reach)-[:AUTHORED]->(post:Post)"@)
            &&& holds(text, "tag.indexed_at >= $from AND tag.indexed_at < $to"@)
            &&& holds(text, "post.indexed_at >= $from AND post.indexed_at < $to"@)
            &&& holds(text, "score: (tags_count + posts_count) * sqrt(followers_count)"@)
            &&& holds(text, "ORDER BY influencer.score DESC"@)
            &&& holds(text, "SKIP $skip"@)
            &&& holds(text, "LIMIT $limit"@)
        }),
{
    lemma_tag_taggers_by_reach_tail();
    lemma_influencers_by_reach_tail();
    let bound = reach_subquery(reach);
    lemma_holds_itself(bound);
    lemma_holds_in_three(TAG_TAGGERS_BY_REACH_HEAD@, bound, TAG_TAGGERS_BY_REACH_TAIL@, bound);
    lemma_holds_in_three(INFLUENCERS_BY_REACH_HEAD@, bound, INFLUENCERS_BY_REACH_TAIL@, bound);
    lemma_holds_in_three(TAG_TAGGERS_BY_REACH_HEAD@, bound, TAG_TAGGERS_BY_REACH_TAIL@, "(reach)-[tag:TAGGED]->(tagged:Post)"@);
    lemma_holds_in_three(TAG_TAGGERS_BY_REACH_HEAD@, bound, TAG_TAGGERS_BY_REACH_TAIL@, "WHERE user.id = $user_id AND tag.label = $label"@);
    lemma_holds_in_three(TAG_TAGGERS_BY_REACH_HEAD@, bound, TAG_TAGGERS_BY_REACH_TAIL@, "ORDER BY latest_tag_time DESC"@);
    lemma_holds_in_three(TAG_TAGGERS_BY_REACH_HEAD@, bound, TAG_TAGGERS_BY_REACH_TAIL@, "[$skip..$skip + $limit]"@);
    lemma_holds_in_three(INFLUENCERS_BY_REACH_HEAD@, bound, INFLUENCERS_BY_REACH_TAIL@, "(others:User)-[follow:FOLLOWS]->(reach)"@);
    lemma_holds_in_three(INFLUENCERS_BY_REACH_HEAD@, bound, INFLUENCERS_BY_REACH_TAIL@, "(reach)-[tag:TAGGED]->(:Post)"@);
    lemma_holds_in_three(INFLUENCERS_BY_REACH_HEAD@, bound, INFLUENCERS_BY_REACH_TAIL@, "(reach)-[:AUTHORED]->(post:Post)"@);
    lemma_holds_in_three(INFLUENCERS_BY_REACH_HEAD@, bound, INFLUENCERS_BY_REACH_TAIL@, "tag.indexed_at >= $from AND tag.indexed_at < $to"@);
    lemma_holds_in_three(INFLUENCERS_BY_REACH_HEAD@, bound, INFLUENCERS_BY_REACH_TAIL@, "post.indexed_at >= $from AND post.indexed_at < $to"@);
    lemma_holds_in_three(INFLUENCERS_BY_REACH_HEAD@, bound, INFLUENCERS_BY_REACH_TAIL@, "score: (tags_count + posts_count) * sqrt(followers_count)"@);
    lemma_holds_in_three(INFLUENCERS_BY_REACH_HEAD@, bound, INFLUENCERS_BY_REACH_TAIL@, "ORDER BY influencer.score DESC"@);
    lemma_holds_in_three(INFLUENCERS_BY_REACH_HEAD@, bound, INFLUENCERS_BY_REACH_TAIL@, "SKIP $skip"@);
    lemma_holds_in_three(INFLUENCERS_BY_REACH_HEAD@, bound, INFLUENCERS_BY_REACH_TAIL@, "LIMIT $limit"@);
}

/// Tags on posts are looked at unless only users are asked for, and tags on users unless only posts are.
pub proof fn law_tagged_types_name_their_nodes(tagged_type: Option<TaggedType>)
    ensures
        holds(tagged_labels(tagged_type), "Post"@) <==> tagged_type != Some(TaggedType::User),
        holds(tagged_labels(tagged_type), "User"@) <==> tagged_type != Some(TaggedType::Post),
{
    lemma_holds_itself("Post"@);
    lemma_holds_itself("User"@);
    lemma_node_words();
}

/// Hot tags are those of the time span, of everyone or within a reach. They are counted by what they are
/// on and by who put them, and those on most come first.
pub proof fn law_hot_tags_are_counted_by_what_they_are_on(
    user_id: Seq<char>,
    reach: StreamReach,
    input: HotTagsInputDTO,
)
    ensures
        ({
            let text = get_global_hot_tags_query(input).cypher;
            &&& holds(
                text,
                "(user: User)-[tag:TAGGED]->(tagged:"@ + tagged_labels(input.tagged_type) + ")"@,
            )
            &&& holds(text, "[.."@ + decimal(input.taggers_limit as nat) + "] AS taggers"@)
            &&& holds(text, "WHERE tag.indexed_at >= $from AND tag.indexed_at < $to"@)
            &&& holds(text, "COUNT(DISTINCT tagged) AS uniqueTaggedCount"@)
            &&& holds(text, "COUNT(DISTINCT user.id) AS taggers_count"@)
            &&& holds(text, "tagged_count: uniqueTaggedCount"@)
            &&& holds(text, "ORDER BY hot_tag.tagged_count DESC, hot_tag.label ASC"@)
            &&& holds(text, "SKIP $skip LIMIT $limit"@)
        }),
        ({
            let text = get_hot_tags_by_reach_query(user_id, reach, input).cypher;
            &&& text == hot_tags_text(reach, input.tagged_type, input.taggers_limit as nat)
            &&& holds(text, "WHERE user.id = $user_id AND tag.indexed_at >= $from AND tag.indexed_at < $to"@)
            &&& holds(text, "COUNT(DISTINCT tagged) AS uniqueTaggedCount"@)
            &&& holds(text, "COUNT(DISTINCT reach.id) AS taggers_count"@)
            &&& holds(text, "tagged_count: uniqueTaggedCount"@)
            &&& holds(text, "ORDER BY hot_tag.tagged_count DESC, hot_tag.label ASC"@)
            &&& holds(text, "SKIP $skip LIMIT $limit"@)
        }),
{
    lemma_global_hot_tags(input.tagged_type, input.taggers_limit as nat);
    lemma_hot_tags(reach, input.tagged_type, input.taggers_limit as nat);
}

/// A stream of resources looks at the tags on resources, filtered as asked, and is sorted by what is
/// asked and in the direction asked, one page of it.
pub proof fn law_resources_are_sorted_as_asked(
    app: Option<&str>,
    labels: Option<&[String]>,
    sorting: ResourceSorting,
    order: SortOrder,
    skip: usize,
    limit: usize,
)
    ensures
        ({
            let text = resource_stream_query(app, labels, sorting, order, skip, limit).cypher;
            let key = if sorting is Timeline {
                "r.indexed_at"@
            } else {
                "taggers_count"@
            };
            let word = if order is Ascending {
                "ASC"@
            } else {
                "DESC"@
            };
            &&& holds(text, "ORDER BY "@ + key + " "@ + word)
            &&& holds(text, resource_filter(app is Some, labels is Some))
            &&& holds(text, "(tagger:User)-[t:TAGGED]->(r:Resource)"@)
            &&& holds(text, "COUNT(DISTINCT tagger) AS taggers_count"@)
            &&& holds(text, "SKIP $skip LIMIT $limit"@)
            &&& holds(text, "r.id AS resource_id, r.indexed_at AS indexed_at, taggers_count"@)
        }),
{
    lemma_resource_stream_match();
    lemma_resource_stream_head();
    lemma_resource_stream_tail();
    let a = RESOURCE_STREAM_MATCH@;
    let b = resource_filter(app is Some, labels is Some);
    let c = RESOURCE_STREAM_HEAD@;
    let d = resource_sort_key(sorting);
    let e = " "@;
    let f = direction(order);
    let g = RESOURCE_STREAM_TAIL@;
    let text = a + b + c + d + e + f + g;
    lemma_holds_in_sum(a, b, "(tagger:User)-[t:TAGGED]->(r:Resource)"@);
    lemma_holds_in_sum(a + b, c, "(tagger:User)-[t:TAGGED]->(r:Resource)"@);
    lemma_holds_in_sum(a + b + c, d, "(tagger:User)-[t:TAGGED]->(r:Resource)"@);
    lemma_holds_in_sum(a + b + c + d, e, "(tagger:User)-[t:TAGGED]->(r:Resource)"@);
    lemma_holds_in_sum(a + b + c + d + e, f, "(tagger:User)-[t:TAGGED]->(r:Resource)"@);
    lemma_holds_in_sum(a + b + c + d + e + f, g, "(tagger:User)-[t:TAGGED]->(r:Resource)"@);
    lemma_holds_in_sum(a + b, c, "COUNT(DISTINCT tagger) AS taggers_count"@);
    lemma_holds_in_sum(a + b + c, d, "COUNT(DISTINCT tagger) AS taggers_count"@);
    lemma_holds_in_sum(a + b + c + d, e, "COUNT(DISTINCT tagger) AS taggers_count"@);
    lemma_holds_in_sum(a + b + c + d + e, f, "COUNT(DISTINCT tagger) AS taggers_count"@);
    lemma_holds_in_sum(a + b + c + d + e + f, g, "COUNT(DISTINCT tagger) AS taggers_count"@);
    lemma_holds_in_sum(a + b + c + d + e + f, g, "SKIP $skip LIMIT $limit"@);
    lemma_holds_in_sum(a + b + c + d + e + f, g, "r.id AS resource_id, r.indexed_at AS indexed_at, taggers_count"@);
    lemma_holds_itself(b);
    lemma_holds_in_sum(a, b, b);
    lemma_holds_in_sum(a + b, c, b);
    lemma_holds_in_sum(a + b + c, d, b);
    lemma_holds_in_sum(a + b + c + d, e, b);
    lemma_holds_in_sum(a + b + c + d + e, f, b);
    lemma_holds_in_sum(a + b + c + d + e + f, g, b);
    reveal_strlit(
        "WITH DISTINCT r, COUNT(DISTINCT tagger) AS taggers_count
         ORDER BY ",
    );
    reveal_strlit("ORDER BY ");
    let part = "ORDER BY "@ + d + " "@ + f;
    let k = (a.len() + b.len() + c.len() - 9) as int;
    assert(text.subrange(k, k + part.len()) =~= part);
    assert(stands_at(text, part, k));
}

/// The counts of a user are those of the user asked for, each under its own name.
pub proof fn law_counts_are_of_the_user(user_id: Seq<char>)
    ensures
        ({
            let text = user_counts_query(user_id).cypher;
            &&& holds(text, "MATCH (u:User {id: $user_id})"@)
            &&& holds(text, joined(user_count_map_entries(), ", "@))
        }),
{
    lemma_user_counts_head();
    let counts = joined(user_count_map_entries(), ", "@);
    lemma_holds_itself(counts);
    lemma_holds_in_three(USER_COUNTS_HEAD@, counts, USER_COUNTS_TAIL@, counts);
    lemma_holds_in_three(USER_COUNTS_HEAD@, counts, USER_COUNTS_TAIL@, "MATCH (u:User {id: $user_id})"@);
}

/// Parts of the text.
proof fn lemma_get_tag_target_head()
    ensures
        holds(GET_TAG_TARGET_HEAD@, "(user:User {id: $user_id})-[tag:TAGGED {id: $tag_id}]->(target)"@),
{
    let t = GET_TAG_TARGET_HEAD@;
    reveal_strlit("MATCH (user:User {id: $user_id})-[tag:TAGGED {id: $tag_id}]->(target)");
    reveal_strlit("(user:User {id: $user_id})-[tag:TAGGED {id: $tag_id}]->(target)");
    assert(t.subrange(6, 69) =~= "(user:User {id: $user_id})-[tag:TAGGED {id: $tag_id}]->(target)"@);
    assert(stands_at(t, "(user:User {id: $user_id})-[tag:TAGGED {id: $tag_id}]->(target)"@, 6));
}

/// Parts of the text.
proof fn lemma_get_tag_target_tail()
    ensures
        holds(GET_TAG_TARGET_TAIL@, "OPTIONAL MATCH (target)<-[:AUTHORED]-(author:User)"@),
        holds(GET_TAG_TARGET_TAIL@, "CASE WHEN target:User THEN target.id ELSE null END AS user_id"@),
        holds(GET_TAG_TARGET_TAIL@, "CASE WHEN target:Post THEN target.id ELSE null END AS post_id"@),
        holds(GET_TAG_TARGET_TAIL@, "CASE WHEN target:Post THEN author.id ELSE null END AS author_id"@),
        holds(GET_TAG_TARGET_TAIL@, "CASE WHEN target:Resource THEN target.id ELSE null END AS resource_id"@),
        holds(GET_TAG_TARGET_TAIL@, "tag.label AS label"@),
        holds(GET_TAG_TARGET_TAIL@, "tag.app AS app"@),
{
    let t = GET_TAG_TARGET_TAIL@;
    reveal_strlit(
        "
         OPTIONAL MATCH (target)<-[:AUTHORED]-(author:User)
         WITH CASE WHEN target:User THEN target.id ELSE null END AS user_id,
              CASE WHEN target:Post THEN target.id ELSE null END AS post_id,
              CASE WHEN target:Post THEN author.id ELSE null END AS author_id,
              CASE WHEN target:Resource THEN target.id ELSE null END AS resource_id,
              tag.label AS label,
              tag.app AS app
         RETURN user_id, post_id, author_id, resource_id, label, app",
    );
    reveal_strlit("OPTIONAL MATCH (target)<-[:AUTHORED]-(author:User)");
    assert(t.subrange(10, 60) =~= "OPTIONAL MATCH (target)<-[:AUTHORED]-(author:User)"@);
    assert(stands_at(t, "OPTIONAL MATCH (target)<-[:AUTHORED]-(author:User)"@, 10));
    reveal_strlit("CASE WHEN target:User THEN target.id ELSE null END AS user_id");
    assert(t.subrange(75, 136) =~= "CASE WHEN target:User THEN target.id ELSE null END AS user_id"@);
    assert(stands_at(t, "CASE WHEN target:User THEN target.id ELSE null END AS user_id"@, 75));
    reveal_strlit("CASE WHEN target:Post THEN target.id ELSE null END AS post_id");
    assert(t.subrange(152, 213) =~= "CASE WHEN target:Post THEN target.id ELSE null END AS post_id"@);
    assert(stands_at(t, "CASE WHEN target:Post THEN target.id ELSE null END AS post_id"@, 152));
    reveal_strlit("CASE WHEN target:Post THEN author.id ELSE null END AS author_id");
    assert(t.subrange(229, 292) =~= "CASE WHEN target:Post THEN author.id ELSE null END AS author_id"@);
    assert(stands_at(t, "CASE WHEN target:Post THEN author.id ELSE null END AS author_id"@, 229));
    reveal_strlit("CASE WHEN target:Resource THEN target.id ELSE null END AS resource_id");
    assert(t.subrange(308, 377) =~= "CASE WHEN target:Resource THEN target.id ELSE null END AS resource_id"@);
    assert(stands_at(t, "CASE WHEN target:Resource THEN target.id ELSE null END AS resource_id"@, 308));
    reveal_strlit("tag.label AS label");
    assert(t.subrange(393, 411) =~= "tag.label AS label"@);
    assert(stands_at(t, "tag.label AS label"@, 393));
    reveal_strlit("tag.app AS app");
    assert(t.subrange(427, 441) =~= "tag.app AS app"@);
    assert(stands_at(t, "tag.app AS app"@, 427));
}

/// Parts of the text.
proof fn lemma_trusted_network_tags_head()
    ensures
        holds(TRUSTED_NETWORK_TAGS_HEAD@, "MATCH (tagged:User {id: $user_id})"@),
        holds(TRUSTED_NETWORK_TAGS_HEAD@, "OPTIONAL MATCH (viewer:User {id: $viewer_id})"@),
{
    let t = TRUSTED_NETWORK_TAGS_HEAD@;
    reveal_strlit(
        "
        MATCH (tagged:User {id: $user_id})
        // Viewer is optional: an unknown viewer is NULL, so the CALL's expand finds
        // no taggers and `tags` collects to [] (existing user with no trusted tags
        // -> 200 []), rather than dropping the row and 404-ing.
        OPTIONAL MATCH (viewer:User {id: $viewer_id})
        CALL {
            WITH viewer, tagged
            MATCH (viewer)-[:FOLLOWS*1..",
    );
    reveal_strlit("MATCH (tagged:User {id: $user_id})");
    assert(t.subrange(9, 43) =~= "MATCH (tagged:User {id: $user_id})"@);
    assert(stands_at(t, "MATCH (tagged:User {id: $user_id})"@, 9));
    reveal_strlit("OPTIONAL MATCH (viewer:User {id: $viewer_id})");
    assert(t.subrange(286, 331) =~= "OPTIONAL MATCH (viewer:User {id: $viewer_id})"@);
    assert(stands_at(t, "OPTIONAL MATCH (viewer:User {id: $viewer_id})"@, 286));
}

/// Parts of the text.
proof fn lemma_trusted_network_tags_tail()
    ensures
        holds(TRUSTED_NETWORK_TAGS_TAIL@, "(tagger:User)-[tag:TAGGED]->(tagged)"@),
        holds(TRUSTED_NETWORK_TAGS_TAIL@, "WHERE tagger.id <> viewer.id"@),
{
    let t = TRUSTED_NETWORK_TAGS_TAIL@;
    reveal_strlit(
        "]->(tagger:User)-[tag:TAGGED]->(tagged)
            WHERE tagger.id <> viewer.id
            WITH tag.label AS label, collect(DISTINCT tagger.id) AS taggerIds
            RETURN collect({
                label: label,
                taggers: taggerIds,
                taggers_count: SIZE(taggerIds)
            }) AS tags
        }
        RETURN tagged IS NOT NULL AS exists, tags
        ",
    );
    reveal_strlit("(tagger:User)-[tag:TAGGED]->(tagged)");
    assert(t.subrange(3, 39) =~= "(tagger:User)-[tag:TAGGED]->(tagged)"@);
    assert(stands_at(t, "(tagger:User)-[tag:TAGGED]->(tagged)"@, 3));
    reveal_strlit("WHERE tagger.id <> viewer.id");
    assert(t.subrange(52, 80) =~= "WHERE tagger.id <> viewer.id"@);
    assert(stands_at(t, "WHERE tagger.id <> viewer.id"@, 52));
}

/// Parts of the text.
proof fn lemma_trusted_network_post_tags_head()
    ensures
        holds(TRUSTED_NETWORK_POST_TAGS_HEAD@, "(:User {id: $author_id})-[:AUTHORED]->(p:Post {id: $post_id})"@),
        holds(TRUSTED_NETWORK_POST_TAGS_HEAD@, "OPTIONAL MATCH (viewer:User {id: $viewer_id})"@),
{
    let t = TRUSTED_NETWORK_POST_TAGS_HEAD@;
    reveal_strlit(
        "
        MATCH (:User {id: $author_id})-[:AUTHORED]->(p:Post {id: $post_id})
        OPTIONAL MATCH (viewer:User {id: $viewer_id})
        CALL {
            WITH viewer, p
            MATCH (viewer)-[:FOLLOWS*1..",
    );
    reveal_strlit("(:User {id: $author_id})-[:AUTHORED]->(p:Post {id: $post_id})");
    assert(t.subrange(15, 76) =~= "(:User {id: $author_id})-[:AUTHORED]->(p:Post {id: $post_id})"@);
    assert(stands_at(t, "(:User {id: $author_id})-[:AUTHORED]->(p:Post {id: $post_id})"@, 15));
    reveal_strlit("OPTIONAL MATCH (viewer:User {id: $viewer_id})");
    assert(t.subrange(85, 130) =~= "OPTIONAL MATCH (viewer:User {id: $viewer_id})"@);
    assert(stands_at(t, "OPTIONAL MATCH (viewer:User {id: $viewer_id})"@, 85));
}

/// Parts of the text.
proof fn lemma_trusted_network_post_tags_tail()
    ensures
        holds(TRUSTED_NETWORK_POST_TAGS_TAIL@, "(tagger:User)-[tag:TAGGED]->(p)"@),
        holds(TRUSTED_NETWORK_POST_TAGS_TAIL@, "WHERE tagger.id <> viewer.id"@),
        holds(TRUSTED_NETWORK_POST_TAGS_TAIL@, "ORDER BY taggersCount DESC, label ASC"@),
        holds(TRUSTED_NETWORK_POST_TAGS_TAIL@, "SKIP $skip_tags"@),
        holds(TRUSTED_NETWORK_POST_TAGS_TAIL@, "LIMIT $limit_tags"@),
        holds(TRUSTED_NETWORK_POST_TAGS_TAIL@, "taggers: taggerIds[0..$limit_taggers]"@),
{
    let t = TRUSTED_NETWORK_POST_TAGS_TAIL@;
    reveal_strlit(
        "]->(tagger:User)-[tag:TAGGED]->(p)
            WHERE tagger.id <> viewer.id
            WITH tag.label AS label, collect(DISTINCT tagger.id) AS taggerIds
            WITH label, taggerIds, SIZE(taggerIds) AS taggersCount
            ORDER BY taggersCount DESC, label ASC
            SKIP $skip_tags
            LIMIT $limit_tags
            RETURN collect({
                label: label,
                taggers: taggerIds[0..$limit_taggers],
                taggers_count: taggersCount
            }) AS tags
        }
        RETURN p IS NOT NULL AS exists, tags
        ",
    );
    reveal_strlit("(tagger:User)-[tag:TAGGED]->(p)");
    assert(t.subrange(3, 34) =~= "(tagger:User)-[tag:TAGGED]->(p)"@);
    assert(stands_at(t, "(tagger:User)-[tag:TAGGED]->(p)"@, 3));
    reveal_strlit("WHERE tagger.id <> viewer.id");
    assert(t.subrange(47, 75) =~= "WHERE tagger.id <> viewer.id"@);
    assert(stands_at(t, "WHERE tagger.id <> viewer.id"@, 47));
    reveal_strlit("ORDER BY taggersCount DESC, label ASC");
    assert(t.subrange(233, 270) =~= "ORDER BY taggersCount DESC, label ASC"@);
    assert(stands_at(t, "ORDER BY taggersCount DESC, label ASC"@, 233));
    reveal_strlit("SKIP $skip_tags");
    assert(t.subrange(283, 298) =~= "SKIP $skip_tags"@);
    assert(stands_at(t, "SKIP $skip_tags"@, 283));
    reveal_strlit("LIMIT $limit_tags");
    assert(t.subrange(311, 328) =~= "LIMIT $limit_tags"@);
    assert(stands_at(t, "LIMIT $limit_tags"@, 311));
    reveal_strlit("taggers: taggerIds[0..$limit_taggers]");
    assert(t.subrange(404, 441) =~= "taggers: taggerIds[0..$limit_taggers]"@);
    assert(stands_at(t, "taggers: taggerIds[0..$limit_taggers]"@, 404));
}

/// Parts of the text.
proof fn lemma_tag_taggers_by_reach_tail()
    ensures
        holds(TAG_TAGGERS_BY_REACH_TAIL@, "(reach)-[tag:TAGGED]->(tagged:Post)"@),
        holds(TAG_TAGGERS_BY_REACH_TAIL@, "WHERE user.id = $user_id AND tag.label = $label"@),
        holds(TAG_TAGGERS_BY_REACH_TAIL@, "ORDER BY latest_tag_time DESC"@),
        holds(TAG_TAGGERS_BY_REACH_TAIL@, "[$skip..$skip + $limit]"@),
{
    let t = TAG_TAGGERS_BY_REACH_TAIL@;
    reveal_strlit(
        "
            // The tagged node can be generic, representing either a Post, a User, or both.
            // For now, it will be a Post to align with UX requirements.
            MATCH (reach)-[tag:TAGGED]->(tagged:Post)
            WHERE user.id = $user_id AND tag.label = $label

            // Get the latest tagged timestamp per `reach` user
            WITH DISTINCT reach, MAX(tag.indexed_at) AS latest_tag_time
            ORDER BY latest_tag_time DESC

            // Use slice notation instead of SKIP and LIMIT
            WITH COLLECT({ reach_id: reach.id })[$skip..$skip + $limit] AS paginated
            UNWIND paginated AS row

            RETURN COLLECT(row.reach_id) AS tagger_ids
            ",
    );
    reveal_strlit("(reach)-[tag:TAGGED]->(tagged:Post)");
    assert(t.subrange(184, 219) =~= "(reach)-[tag:TAGGED]->(tagged:Post)"@);
    assert(stands_at(t, "(reach)-[tag:TAGGED]->(tagged:Post)"@, 184));
    reveal_strlit("WHERE user.id = $user_id AND tag.label = $label");
    assert(t.subrange(232, 279) =~= "WHERE user.id = $user_id AND tag.label = $label"@);
    assert(stands_at(t, "WHERE user.id = $user_id AND tag.label = $label"@, 232));
    reveal_strlit("ORDER BY latest_tag_time DESC");
    assert(t.subrange(429, 458) =~= "ORDER BY latest_tag_time DESC"@);
    assert(stands_at(t, "ORDER BY latest_tag_time DESC"@, 429));
    reveal_strlit("[$skip..$skip + $limit]");
    assert(t.subrange(568, 591) =~= "[$skip..$skip + $limit]"@);
    assert(stands_at(t, "[$skip..$skip + $limit]"@, 568));
}

/// Parts of the text.
proof fn lemma_influencers_by_reach_tail()
    ensures
        holds(INFLUENCERS_BY_REACH_TAIL@, "(others:User)-[follow:FOLLOWS]->(reach)"@),
        holds(INFLUENCERS_BY_REACH_TAIL@, "(reach)-[tag:TAGGED]->(:Post)"@),
        holds(INFLUENCERS_BY_REACH_TAIL@, "(reach)-[:AUTHORED]->(post:Post)"@),
        holds(INFLUENCERS_BY_REACH_TAIL@, "tag.indexed_at >= $from AND tag.indexed_at < $to"@),
        holds(INFLUENCERS_BY_REACH_TAIL@, "post.indexed_at >= $from AND post.indexed_at < $to"@),
        holds(INFLUENCERS_BY_REACH_TAIL@, "score: (tags_count + posts_count) * sqrt(followers_count)"@),
        holds(INFLUENCERS_BY_REACH_TAIL@, "ORDER BY influencer.score DESC"@),
        holds(INFLUENCERS_BY_REACH_TAIL@, "SKIP $skip"@),
        holds(INFLUENCERS_BY_REACH_TAIL@, "LIMIT $limit"@),
{
    let t = INFLUENCERS_BY_REACH_TAIL@;
    reveal_strlit(
        "
        WHERE user.id = $user_id
        WITH DISTINCT reach
        WHERE reach.name <> '[DELETED]'

        CALL (reach) {
            MATCH (others:User)-[follow:FOLLOWS]->(reach)
            RETURN count(DISTINCT follow) as followers_count
        }
        CALL (reach) {
            MATCH (reach)-[tag:TAGGED]->(:Post)
            WHERE tag.indexed_at >= $from AND tag.indexed_at < $to
            RETURN count(DISTINCT tag) as tags_count
        }
        CALL (reach) {
            MATCH (reach)-[:AUTHORED]->(post:Post)
            WHERE post.indexed_at >= $from AND post.indexed_at < $to
            RETURN count(DISTINCT post) as posts_count
        }

        WITH reach, followers_count, tags_count, posts_count
        WITH {
            id: reach.id,
            score: (tags_count + posts_count) * sqrt(followers_count)
        } AS influencer
        ORDER BY influencer.score DESC
        SKIP $skip
        LIMIT $limit
        RETURN COLLECT([influencer.id, influencer.score]) as influencers
    ",
    );
    reveal_strlit("(others:User)-[follow:FOLLOWS]->(reach)");
    assert(t.subrange(144, 183) =~= "(others:User)-[follow:FOLLOWS]->(reach)"@);
    assert(stands_at(t, "(others:User)-[follow:FOLLOWS]->(reach)"@, 144));
    reveal_strlit("(reach)-[tag:TAGGED]->(:Post)");
    assert(t.subrange(296, 325) =~= "(reach)-[tag:TAGGED]->(:Post)"@);
    assert(stands_at(t, "(reach)-[tag:TAGGED]->(:Post)"@, 296));
    reveal_strlit("(reach)-[:AUTHORED]->(post:Post)");
    assert(t.subrange(497, 529) =~= "(reach)-[:AUTHORED]->(post:Post)"@);
    assert(stands_at(t, "(reach)-[:AUTHORED]->(post:Post)"@, 497));
    reveal_strlit("tag.indexed_at >= $from AND tag.indexed_at < $to");
    assert(t.subrange(344, 392) =~= "tag.indexed_at >= $from AND tag.indexed_at < $to"@);
    assert(stands_at(t, "tag.indexed_at >= $from AND tag.indexed_at < $to"@, 344));
    reveal_strlit("post.indexed_at >= $from AND post.indexed_at < $to");
    assert(t.subrange(548, 598) =~= "post.indexed_at >= $from AND post.indexed_at < $to"@);
    assert(stands_at(t, "post.indexed_at >= $from AND post.indexed_at < $to"@, 548));
    reveal_strlit("score: (tags_count + posts_count) * sqrt(followers_count)");
    assert(t.subrange(779, 836) =~= "score: (tags_count + posts_count) * sqrt(followers_count)"@);
    assert(stands_at(t, "score: (tags_count + posts_count) * sqrt(followers_count)"@, 779));
    reveal_strlit("ORDER BY influencer.score DESC");
    assert(t.subrange(869, 899) =~= "ORDER BY influencer.score DESC"@);
    assert(stands_at(t, "ORDER BY influencer.score DESC"@, 869));
    reveal_strlit("SKIP $skip");
    assert(t.subrange(908, 918) =~= "SKIP $skip"@);
    assert(stands_at(t, "SKIP $skip"@, 908));
    reveal_strlit("LIMIT $limit");
    assert(t.subrange(927, 939) =~= "LIMIT $limit"@);
    assert(stands_at(t, "LIMIT $limit"@, 927));
}

/// Parts of the text.
proof fn lemma_hot_tags_by_reach_taggers()
    ensures
        holds(HOT_TAGS_BY_REACH_TAGGERS@, "WHERE user.id = $user_id AND tag.indexed_at >= $from AND tag.indexed_at < $to"@),
{
    let t = HOT_TAGS_BY_REACH_TAGGERS@;
    reveal_strlit(
        ")
        WHERE user.id = $user_id AND tag.indexed_at >= $from AND tag.indexed_at < $to
        WITH
            tag.label AS label,
            COLLECT(DISTINCT reach.id)[..",
    );
    reveal_strlit("WHERE user.id = $user_id AND tag.indexed_at >= $from AND tag.indexed_at < $to");
    assert(t.subrange(10, 87) =~= "WHERE user.id = $user_id AND tag.indexed_at >= $from AND tag.indexed_at < $to"@);
    assert(stands_at(t, "WHERE user.id = $user_id AND tag.indexed_at >= $from AND tag.indexed_at < $to"@, 10));
}

/// Parts of the text.
proof fn lemma_hot_tags_by_reach_tail()
    ensures
        holds(HOT_TAGS_BY_REACH_TAIL@, "COUNT(DISTINCT tagged) AS uniqueTaggedCount"@),
        holds(HOT_TAGS_BY_REACH_TAIL@, "COUNT(DISTINCT reach.id) AS taggers_count"@),
        holds(HOT_TAGS_BY_REACH_TAIL@, "tagged_count: uniqueTaggedCount"@),
        holds(HOT_TAGS_BY_REACH_TAIL@, "ORDER BY hot_tag.tagged_count DESC, hot_tag.label ASC"@),
        holds(HOT_TAGS_BY_REACH_TAIL@, "SKIP $skip LIMIT $limit"@),
{
    let t = HOT_TAGS_BY_REACH_TAIL@;
    reveal_strlit(
        "] AS taggers,
            COUNT(DISTINCT tagged) AS uniqueTaggedCount,
            COUNT(DISTINCT reach.id) AS taggers_count
        WITH {
            label: label,
            taggers_id: taggers,
            tagged_count: uniqueTaggedCount,
            taggers_count: taggers_count
        } AS hot_tag
        ORDER BY hot_tag.tagged_count DESC, hot_tag.label ASC
        SKIP $skip LIMIT $limit
        RETURN COLLECT(hot_tag) as hot_tags
    ",
    );
    reveal_strlit("COUNT(DISTINCT tagged) AS uniqueTaggedCount");
    assert(t.subrange(26, 69) =~= "COUNT(DISTINCT tagged) AS uniqueTaggedCount"@);
    assert(stands_at(t, "COUNT(DISTINCT tagged) AS uniqueTaggedCount"@, 26));
    reveal_strlit("COUNT(DISTINCT reach.id) AS taggers_count");
    assert(t.subrange(83, 124) =~= "COUNT(DISTINCT reach.id) AS taggers_count"@);
    assert(stands_at(t, "COUNT(DISTINCT reach.id) AS taggers_count"@, 83));
    reveal_strlit("tagged_count: uniqueTaggedCount");
    assert(t.subrange(211, 242) =~= "tagged_count: uniqueTaggedCount"@);
    assert(stands_at(t, "tagged_count: uniqueTaggedCount"@, 211));
    reveal_strlit("ORDER BY hot_tag.tagged_count DESC, hot_tag.label ASC");
    assert(t.subrange(314, 367) =~= "ORDER BY hot_tag.tagged_count DESC, hot_tag.label ASC"@);
    assert(stands_at(t, "ORDER BY hot_tag.tagged_count DESC, hot_tag.label ASC"@, 314));
    reveal_strlit("SKIP $skip LIMIT $limit");
    assert(t.subrange(376, 399) =~= "SKIP $skip LIMIT $limit"@);
    assert(stands_at(t, "SKIP $skip LIMIT $limit"@, 376));
}

/// Parts of the text.
proof fn lemma_global_hot_tags_taggers()
    ensures
        holds(GLOBAL_HOT_TAGS_TAGGERS@, "WHERE tag.indexed_at >= $from AND tag.indexed_at < $to"@),
{
    let t = GLOBAL_HOT_TAGS_TAGGERS@;
    reveal_strlit(
        ")
        WHERE tag.indexed_at >= $from AND tag.indexed_at < $to
        WITH
            tag.label AS label,
            COLLECT(DISTINCT user.id)[..",
    );
    reveal_strlit("WHERE tag.indexed_at >= $from AND tag.indexed_at < $to");
    assert(t.subrange(10, 64) =~= "WHERE tag.indexed_at >= $from AND tag.indexed_at < $to"@);
    assert(stands_at(t, "WHERE tag.indexed_at >= $from AND tag.indexed_at < $to"@, 10));
}

/// Parts of the text.
proof fn lemma_global_hot_tags_tail()
    ensures
        holds(GLOBAL_HOT_TAGS_TAIL@, "COUNT(DISTINCT tagged) AS uniqueTaggedCount"@),
        holds(GLOBAL_HOT_TAGS_TAIL@, "COUNT(DISTINCT user.id) AS taggers_count"@),
        holds(GLOBAL_HOT_TAGS_TAIL@, "tagged_count: uniqueTaggedCount"@),
        holds(GLOBAL_HOT_TAGS_TAIL@, "ORDER BY hot_tag.tagged_count DESC, hot_tag.label ASC"@),
        holds(GLOBAL_HOT_TAGS_TAIL@, "SKIP $skip LIMIT $limit"@),
{
    let t = GLOBAL_HOT_TAGS_TAIL@;
    reveal_strlit(
        "] AS taggers,
            COUNT(DISTINCT tagged) AS uniqueTaggedCount,
            COUNT(DISTINCT user.id) AS taggers_count
        WITH {
            label: label,
            taggers_id: taggers,
            tagged_count: uniqueTaggedCount,
            taggers_count: taggers_count
        } AS hot_tag
        ORDER BY hot_tag.tagged_count DESC, hot_tag.label ASC
        SKIP $skip LIMIT $limit
        RETURN COLLECT(hot_tag) as hot_tags
    ",
    );
    reveal_strlit("COUNT(DISTINCT tagged) AS uniqueTaggedCount");
    assert(t.subrange(26, 69) =~= "COUNT(DISTINCT tagged) AS uniqueTaggedCount"@);
    assert(stands_at(t, "COUNT(DISTINCT tagged) AS uniqueTaggedCount"@, 26));
    reveal_strlit("COUNT(DISTINCT user.id) AS taggers_count");
    assert(t.subrange(83, 123) =~= "COUNT(DISTINCT user.id) AS taggers_count"@);
    assert(stands_at(t, "COUNT(DISTINCT user.id) AS taggers_count"@, 83));
    reveal_strlit("tagged_count: uniqueTaggedCount");
    assert(t.subrange(210, 241) =~= "tagged_count: uniqueTaggedCount"@);
    assert(stands_at(t, "tagged_count: uniqueTaggedCount"@, 210));
    reveal_strlit("ORDER BY hot_tag.tagged_count DESC, hot_tag.label ASC");
    assert(t.subrange(313, 366) =~= "ORDER BY hot_tag.tagged_count DESC, hot_tag.label ASC"@);
    assert(stands_at(t, "ORDER BY hot_tag.tagged_count DESC, hot_tag.label ASC"@, 313));
    reveal_strlit("SKIP $skip LIMIT $limit");
    assert(t.subrange(375, 398) =~= "SKIP $skip LIMIT $limit"@);
    assert(stands_at(t, "SKIP $skip LIMIT $limit"@, 375));
}

/// Parts of the text.
proof fn lemma_resource_stream_match()
    ensures
        holds(RESOURCE_STREAM_MATCH@, "(tagger:User)-[t:TAGGED]->(r:Resource)"@),
{
    let t = RESOURCE_STREAM_MATCH@;
    reveal_strlit("MATCH (tagger:User)-[t:TAGGED]->(r:Resource)\n");
    reveal_strlit("(tagger:User)-[t:TAGGED]->(r:Resource)");
    assert(t.subrange(6, 44) =~= "(tagger:User)-[t:TAGGED]->(r:Resource)"@);
    assert(stands_at(t, "(tagger:User)-[t:TAGGED]->(r:Resource)"@, 6));
}

/// Parts of the text.
proof fn lemma_resource_stream_head()
    ensures
        holds(RESOURCE_STREAM_HEAD@, "COUNT(DISTINCT tagger) AS taggers_count"@),
{
    let t = RESOURCE_STREAM_HEAD@;
    reveal_strlit(
        "WITH DISTINCT r, COUNT(DISTINCT tagger) AS taggers_count
         ORDER BY ",
    );
    reveal_strlit("COUNT(DISTINCT tagger) AS taggers_count");
    assert(t.subrange(17, 56) =~= "COUNT(DISTINCT tagger) AS taggers_count"@);
    assert(stands_at(t, "COUNT(DISTINCT tagger) AS taggers_count"@, 17));
}

/// Parts of the text.
proof fn lemma_resource_stream_tail()
    ensures
        holds(RESOURCE_STREAM_TAIL@, "SKIP $skip LIMIT $limit"@),
        holds(RESOURCE_STREAM_TAIL@, "r.id AS resource_id, r.indexed_at AS indexed_at, taggers_count"@),
{
    let t = RESOURCE_STREAM_TAIL@;
    reveal_strlit(
        "
         SKIP $skip LIMIT $limit
         RETURN r.id AS resource_id, r.indexed_at AS indexed_at, taggers_count",
    );
    reveal_strlit("SKIP $skip LIMIT $limit");
    assert(t.subrange(10, 33) =~= "SKIP $skip LIMIT $limit"@);
    assert(stands_at(t, "SKIP $skip LIMIT $limit"@, 10));
    reveal_strlit("r.id AS resource_id, r.indexed_at AS indexed_at, taggers_count");
    assert(t.subrange(50, 112) =~= "r.id AS resource_id, r.indexed_at AS indexed_at, taggers_count"@);
    assert(stands_at(t, "r.id AS resource_id, r.indexed_at AS indexed_at, taggers_count"@, 50));
}

/// Parts of the text.
proof fn lemma_user_counts_head()
    ensures
        holds(USER_COUNTS_HEAD@, "MATCH (u:User {id: $user_id})"@),
{
    let t = USER_COUNTS_HEAD@;
    reveal_strlit(
        "MATCH (u:User {id: $user_id})
         RETURN
             u IS NOT NULL AS exists,
             { ",
    );
    reveal_strlit("MATCH (u:User {id: $user_id})");
    assert(t.subrange(0, 29) =~= "MATCH (u:User {id: $user_id})"@);
    assert(stands_at(t, "MATCH (u:User {id: $user_id})"@, 0));
}

/// The names of the two kinds of nodes, alone and together.
proof fn lemma_node_words()
    ensures
        !holds("Post"@, "User"@),
        !holds("User"@, "Post"@),
        holds("Post|User"@, "Post"@),
        holds("Post|User"@, "User"@),
{
    let post = "Post"@;
    let user = "User"@;
    let both = "Post|User"@;
    reveal_strlit("Post");
    reveal_strlit("User");
    reveal_strlit("Post|User");
    assert(post.len() == 4 && user.len() == 4);
    assert(post[0] == 'P' && user[0] == 'U');
    assert forall|i: int| !stands_at(post, user, i) by {
        if stands_at(post, user, i) {
            assert(post.subrange(i, i + 4)[0] == post[0]);
        }
    }
    assert forall|i: int| !stands_at(user, post, i) by {
        if stands_at(user, post, i) {
            assert(user.subrange(i, i + 4)[0] == user[0]);
        }
    }
    assert(both.subrange(0, 4) =~= post);
    assert(stands_at(both, post, 0));
    assert(both.subrange(5, 9) =~= user);
    assert(stands_at(both, user, 5));
}

/// The text for the hot tags of everyone.
proof fn lemma_global_hot_tags(tagged_type: Option<TaggedType>, taggers_limit: nat)
    ensures
        ({
            let text = global_hot_tags_text(tagged_type, taggers_limit);
            &&& holds(
                text,
                "(user: User)-[tag:TAGGED]->(tagged:"@ + tagged_labels(tagged_type) + ")"@,
            )
            &&& holds(text, "[.."@ + decimal(taggers_limit) + "] AS taggers"@)
            &&& holds(text, "WHERE tag.indexed_at >= $from AND tag.indexed_at < $to"@)
            &&& holds(text, "COUNT(DISTINCT tagged) AS uniqueTaggedCount"@)
            &&& holds(text, "COUNT(DISTINCT user.id) AS taggers_count"@)
            &&& holds(text, "tagged_count: uniqueTaggedCount"@)
            &&& holds(text, "ORDER BY hot_tag.tagged_count DESC, hot_tag.label ASC"@)
            &&& holds(text, "SKIP $skip LIMIT $limit"@)
        }),
{
    lemma_global_hot_tags_taggers();
    lemma_global_hot_tags_tail();
    let a = GLOBAL_HOT_TAGS_HEAD@;
    let b = tagged_labels(tagged_type);
    let c = GLOBAL_HOT_TAGS_TAGGERS@;
    let d = decimal(taggers_limit);
    let e = GLOBAL_HOT_TAGS_TAIL@;
    let text = a + b + c + d + e;
    lemma_holds_in_sum(a + b, c, "WHERE tag.indexed_at >= $from AND tag.indexed_at < $to"@);
    lemma_holds_in_sum(a + b + c, d, "WHERE tag.indexed_at >= $from AND tag.indexed_at < $to"@);
    lemma_holds_in_sum(a + b + c + d, e, "WHERE tag.indexed_at >= $from AND tag.indexed_at < $to"@);
    lemma_holds_in_sum(a + b + c + d, e, "COUNT(DISTINCT tagged) AS uniqueTaggedCount"@);
    lemma_holds_in_sum(a + b + c + d, e, "COUNT(DISTINCT user.id) AS taggers_count"@);
    lemma_holds_in_sum(a + b + c + d, e, "tagged_count: uniqueTaggedCount"@);
    lemma_holds_in_sum(a + b + c + d, e, "ORDER BY hot_tag.tagged_count DESC, hot_tag.label ASC"@);
    lemma_holds_in_sum(a + b + c + d, e, "SKIP $skip LIMIT $limit"@);
    reveal_strlit("\n        MATCH (user: User)-[tag:TAGGED]->(tagged:");
    reveal_strlit("(user: User)-[tag:TAGGED]->(tagged:");
    reveal_strlit(")");
    reveal_strlit("[..");
    reveal_strlit("] AS taggers");
    reveal_strlit(
        ")
        WHERE tag.indexed_at >= $from AND tag.indexed_at < $to
        WITH
            tag.label AS label,
            COLLECT(DISTINCT user.id)[..",
    );
    reveal_strlit(
        "] AS taggers,
            COUNT(DISTINCT tagged) AS uniqueTaggedCount,
            COUNT(DISTINCT user.id) AS taggers_count
        WITH {
            label: label,
            taggers_id: taggers,
            tagged_count: uniqueTaggedCount,
            taggers_count: taggers_count
        } AS hot_tag
        ORDER BY hot_tag.tagged_count DESC, hot_tag.label ASC
        SKIP $skip LIMIT $limit
        RETURN COLLECT(hot_tag) as hot_tags
    ",
    );
    let node = "(user: User)-[tag:TAGGED]->(tagged:"@ + b + ")"@;
    assert(text.subrange(15, (15 + node.len()) as int) =~= node);
    assert(stands_at(text, node, 15));
    let slice = "[.."@ + d + "] AS taggers"@;
    let k = (a.len() + b.len() + c.len() - 3) as int;
    assert(text.subrange(k, k + slice.len()) =~= slice);
    assert(stands_at(text, slice, k));
}

/// The text for the hot tags of a reach.
proof fn lemma_hot_tags(reach: StreamReach, tagged_type: Option<TaggedType>, taggers_limit: nat)
    ensures
        ({
            let text = hot_tags_text(reach, tagged_type, taggers_limit);
            &&& holds(text, "WHERE user.id = $user_id AND tag.indexed_at >= $from AND tag.indexed_at < $to"@)
            &&& holds(text, "COUNT(DISTINCT tagged) AS uniqueTaggedCount"@)
            &&& holds(text, "COUNT(DISTINCT reach.id) AS taggers_count"@)
            &&& holds(text, "tagged_count: uniqueTaggedCount"@)
            &&& holds(text, "ORDER BY hot_tag.tagged_count DESC, hot_tag.label ASC"@)
            &&& holds(text, "SKIP $skip LIMIT $limit"@)
        }),
{
    lemma_hot_tags_by_reach_taggers();
    lemma_hot_tags_by_reach_tail();
    let a = HOT_TAGS_BY_REACH_HEAD@ + reach_subquery(reach);
    let b = HOT_TAGS_BY_REACH_TAGGED@;
    let c = tagged_labels(tagged_type);
    let d = HOT_TAGS_BY_REACH_TAGGERS@;
    let e = decimal(taggers_limit);
    let f = HOT_TAGS_BY_REACH_TAIL@;
    lemma_holds_in_sum(a + b + c, d, "WHERE user.id = $user_id AND tag.indexed_at >= $from AND tag.indexed_at < $to"@);
    lemma_holds_in_sum(a + b + c + d, e, "WHERE user.id = $user_id AND tag.indexed_at >= $from AND tag.indexed_at < $to"@);
    lemma_holds_in_sum(a + b + c + d + e, f, "WHERE user.id = $user_id AND tag.indexed_at >= $from AND tag.indexed_at < $to"@);
    lemma_holds_in_sum(a + b + c + d + e, f, "COUNT(DISTINCT tagged) AS uniqueTaggedCount"@);
    lemma_holds_in_sum(a + b + c + d + e, f, "COUNT(DISTINCT reach.id) AS taggers_count"@);
    lemma_holds_in_sum(a + b + c + d + e, f, "tagged_count: uniqueTaggedCount"@);
    lemma_holds_in_sum(a + b + c + d + e, f, "ORDER BY hot_tag.tagged_count DESC, hot_tag.label ASC"@);
    lemma_holds_in_sum(a + b + c + d + e, f, "SKIP $skip LIMIT $limit"@);
}

} // verus!
