//! The catalogue of reads: for each question to the graph its label, its text and its
//! parameters.
use crate::graph::post_stream::{
    append_capped, direction, only_if, window_clause, MAX_QUERY_LIMIT, MAX_QUERY_SKIP,
};
use crate::graph::query::{
    rows_view, strs_view, text_or_null_view, texts_view, BoltType, BoltView, Query, QueryView,
    TelemetryValue, TelemetryView,
};
use crate::text::{decimal, decimal_text, join, joined, lemma_views_push, views};
use crate::types::{
    HotTagsInputDTO, ResourceSorting, SortOrder, StreamReach, TaggedType, TimestampRange, WotDepth,
};
use vstd::prelude::*;

verus! {

/// Name of a deleted user.
pub const USER_DELETED_SENTINEL: &'static str = "[DELETED]";

/// `n`, or `cap` where `n` is larger.
pub open spec fn at_most(n: usize, cap: usize) -> usize {
    if n < cap {
        n
    } else {
        cap
    }
}

/// `n`, or `cap` where `n` is larger.
fn capped(n: usize, cap: usize) -> (r: usize)
    ensures
        r == at_most(n, cap),
{
    if n < cap {
        n
    } else {
        cap
    }
}

/// Text of [`get_post_by_id`].
pub const GET_POST_BY_ID_CYPHER: &'static str = "
            // The WITH barrier is load-bearing: without it the planner anchors on the
            // author and expands all their posts instead of seeking the post by id.
            MATCH (p:Post {id: $post_id})
            WITH p
            MATCH (u:User {id: $author_id}) WHERE (u)-[:AUTHORED]->(p)
            OPTIONAL MATCH (p)-[replied:REPLIED]->(parent_post:Post)<-[:AUTHORED]-(author:User)
            WITH u, p, parent_post, author
            RETURN {
                uri: 'pubky://' + u.id + '/pub/pubky.app/posts/' + p.id,
                content: p.content,
                id: p.id,
                indexed_at: p.indexed_at,
                author: u.id,
                // default value when the specified property is null
                // Avoids enum deserialization ERROR
                kind: COALESCE(p.kind, 'short'),
                attachments: p.attachments,
                lock: p.lock
            } as details,
            COLLECT([author.id, parent_post.id]) AS reply

        ";

/// What [`get_post_by_id`] asks.
pub open spec fn get_post_by_id_query(author_id: Seq<char>, post_id: Seq<char>) -> QueryView {
    QueryView::plain("get_post_by_id"@, GET_POST_BY_ID_CYPHER@)
        .param("author_id"@, BoltView::Text(author_id))
        .param("post_id"@, BoltView::Text(post_id))
}

/// Retrieve post node by post id and author id
pub fn get_post_by_id(author_id: &str, post_id: &str) -> (r: Query)
    ensures
        r@ == get_post_by_id_query(author_id@, post_id@),
{
    Query::new("get_post_by_id", GET_POST_BY_ID_CYPHER)
        .param("author_id", BoltType::text(author_id))
        .param("post_id", BoltType::text(post_id))
}

/// Text of [`post_counts`].
pub const POST_COUNTS_CYPHER: &'static str = "
        // Anchor on the post's unique id: matching via the author would make the
        // planner expand every post they wrote.
        MATCH (p:Post {id: $post_id})
        WHERE EXISTS { (:User {id: $author_id})-[:AUTHORED]->(p) }
        WITH p
        OPTIONAL MATCH (p)<-[t:TAGGED]-()
        WITH p, COUNT (t) AS tags_count, COUNT(DISTINCT t.label) AS unique_tags_count
        RETURN p IS NOT NULL AS exists,
            {
                tags: tags_count,
                unique_tags: unique_tags_count,
                replies: COUNT { (p)<-[:REPLIED]-() },
                reposts: COUNT { (p)<-[:REPOSTED]-() }
            } AS counts,
            EXISTS { (p)-[:REPLIED]->(:Post) } AS is_reply
    ";

/// What [`post_counts`] asks.
pub open spec fn post_counts_query(author_id: Seq<char>, post_id: Seq<char>) -> QueryView {
    QueryView::plain("post_counts"@, POST_COUNTS_CYPHER@)
        .param("author_id"@, BoltView::Text(author_id))
        .param("post_id"@, BoltView::Text(post_id))
}

/// Counts of the tags, replies and reposts of a post, and whether it is a reply.
pub fn post_counts(author_id: &str, post_id: &str) -> (r: Query)
    ensures
        r@ == post_counts_query(author_id@, post_id@),
{
    Query::new("post_counts", POST_COUNTS_CYPHER)
        .param("author_id", BoltType::text(author_id))
        .param("post_id", BoltType::text(post_id))
}

/// Text of [`post_bookmark`].
pub const POST_BOOKMARK_CYPHER: &'static str = "MATCH (u:User {id: $author_id})-[:AUTHORED]->(p:Post {id: $post_id})
         MATCH (viewer:User {id: $viewer_id})-[b:BOOKMARKED]->(p)
         RETURN b";

/// What [`post_bookmark`] asks.
pub open spec fn post_bookmark_query(
    author_id: Seq<char>,
    post_id: Seq<char>,
    viewer_id: Seq<char>,
) -> QueryView {
    QueryView::plain("post_bookmark"@, POST_BOOKMARK_CYPHER@)
        .param("author_id"@, BoltView::Text(author_id))
        .param("post_id"@, BoltView::Text(post_id))
        .param("viewer_id"@, BoltView::Text(viewer_id))
}

/// Check if the viewer_id has a bookmark in the post
pub fn post_bookmark(author_id: &str, post_id: &str, viewer_id: &str) -> (r: Query)
    ensures
        r@ == post_bookmark_query(author_id@, post_id@, viewer_id@),
{
    Query::new("post_bookmark", POST_BOOKMARK_CYPHER)
        .param("author_id", BoltType::text(author_id))
        .param("post_id", BoltType::text(post_id))
        .param("viewer_id", BoltType::text(viewer_id))
}

/// Text of [`user_bookmarks`].
pub const USER_BOOKMARKS_CYPHER: &'static str = "MATCH (u:User {id: $user_id})-[b:BOOKMARKED]->(p:Post)<-[:AUTHORED]-(author:User)
         RETURN b, p.id AS post_id, author.id AS author_id";

/// What [`user_bookmarks`] asks.
pub open spec fn user_bookmarks_query(user_id: Seq<char>) -> QueryView {
    QueryView::plain("user_bookmarks"@, USER_BOOKMARKS_CYPHER@)
        .param("user_id"@, BoltView::Text(user_id))
}

/// Check all the bookmarks that user creates
pub fn user_bookmarks(user_id: &str) -> (r: Query)
    ensures
        r@ == user_bookmarks_query(user_id@),
{
    Query::new("user_bookmarks", USER_BOOKMARKS_CYPHER)
        .param("user_id", BoltType::text(user_id))
}

/// Text of [`get_post_bookmarks`].
pub const GET_POST_BOOKMARKS_CYPHER: &'static str = "MATCH (bookmarker:User)-[b:BOOKMARKED]->(p:Post {id: $post_id})<-[:AUTHORED]-(author:User {id: $author_id})
         RETURN b.id AS bookmark_id, bookmarker.id AS bookmarker_id";

/// What [`get_post_bookmarks`] asks.
pub open spec fn get_post_bookmarks_query(author_id: Seq<char>, post_id: Seq<char>) -> QueryView {
    QueryView::plain("get_post_bookmarks"@, GET_POST_BOOKMARKS_CYPHER@)
        .param("author_id"@, BoltView::Text(author_id))
        .param("post_id"@, BoltView::Text(post_id))
}

/// Get all the bookmarks that a post has received (used for edit/delete notifications)
pub fn get_post_bookmarks(author_id: &str, post_id: &str) -> (r: Query)
    ensures
        r@ == get_post_bookmarks_query(author_id@, post_id@),
{
    Query::new("get_post_bookmarks", GET_POST_BOOKMARKS_CYPHER)
        .param("author_id", BoltType::text(author_id))
        .param("post_id", BoltType::text(post_id))
}

/// Text of [`get_bookmark_target`].
pub const GET_BOOKMARK_TARGET_CYPHER: &'static str = "MATCH (u:User {id: $user_id})-[b:BOOKMARKED {id: $bookmark_id}]->(post:Post)<-[:AUTHORED]-(author:User)
         RETURN post.id AS post_id, author.id AS author_id";

/// What [`get_bookmark_target`] asks.
pub open spec fn get_bookmark_target_query(
    user_id: Seq<char>,
    bookmark_id: Seq<char>,
) -> QueryView {
    QueryView::plain("get_bookmark_target"@, GET_BOOKMARK_TARGET_CYPHER@)
        .param("user_id"@, BoltView::Text(user_id))
        .param("bookmark_id"@, BoltView::Text(bookmark_id))
}

/// Read the target (post_id, author_id) for a bookmark without deleting the edge.
/// Used in sync_del to read before graph-last deletion.
pub fn get_bookmark_target(user_id: &str, bookmark_id: &str) -> (r: Query)
    ensures
        r@ == get_bookmark_target_query(user_id@, bookmark_id@),
{
    Query::new("get_bookmark_target", GET_BOOKMARK_TARGET_CYPHER)
        .param("user_id", BoltType::text(user_id))
        .param("bookmark_id", BoltType::text(bookmark_id))
}

/// Text of [`get_post_reposts`].
pub const GET_POST_REPOSTS_CYPHER: &'static str = "MATCH (reposter:User)-[:AUTHORED]->(repost:Post)-[:REPOSTED]->(p:Post {id: $post_id})<-[:AUTHORED]-(author:User {id: $author_id})
         RETURN reposter.id AS reposter_id, repost.id AS repost_id";

/// What [`get_post_reposts`] asks.
pub open spec fn get_post_reposts_query(author_id: Seq<char>, post_id: Seq<char>) -> QueryView {
    QueryView::plain("get_post_reposts"@, GET_POST_REPOSTS_CYPHER@)
        .param("author_id"@, BoltView::Text(author_id))
        .param("post_id"@, BoltView::Text(post_id))
}

/// Get all the reposts that a post has received (used for edit/delete notifications)
pub fn get_post_reposts(author_id: &str, post_id: &str) -> (r: Query)
    ensures
        r@ == get_post_reposts_query(author_id@, post_id@),
{
    Query::new("get_post_reposts", GET_POST_REPOSTS_CYPHER)
        .param("author_id", BoltType::text(author_id))
        .param("post_id", BoltType::text(post_id))
}

/// Text of [`get_post_replies`].
pub const GET_POST_REPLIES_CYPHER: &'static str = "MATCH (replier:User)-[:AUTHORED]->(reply:Post)-[:REPLIED]->(p:Post {id: $post_id})<-[:AUTHORED]-(author:User {id: $author_id})
         RETURN replier.id AS replier_id, reply.id AS reply_id";

/// What [`get_post_replies`] asks.
pub open spec fn get_post_replies_query(author_id: Seq<char>, post_id: Seq<char>) -> QueryView {
    QueryView::plain("get_post_replies"@, GET_POST_REPLIES_CYPHER@)
        .param("author_id"@, BoltView::Text(author_id))
        .param("post_id"@, BoltView::Text(post_id))
}

/// Get all the replies that a post has received (used for edit/delete notifications)
pub fn get_post_replies(author_id: &str, post_id: &str) -> (r: Query)
    ensures
        r@ == get_post_replies_query(author_id@, post_id@),
{
    Query::new("get_post_replies", GET_POST_REPLIES_CYPHER)
        .param("author_id", BoltType::text(author_id))
        .param("post_id", BoltType::text(post_id))
}

/// Text of [`get_post_tags`].
pub const GET_POST_TAGS_CYPHER: &'static str = "MATCH (p:Post {id: $post_id})
         WHERE EXISTS { (:User {id: $author_id})-[:AUTHORED]->(p) }
         MATCH (tagger:User)-[t:TAGGED]->(p)
         RETURN tagger.id AS tagger_id, t.id AS tag_id";

/// What [`get_post_tags`] asks.
pub open spec fn get_post_tags_query(author_id: Seq<char>, post_id: Seq<char>) -> QueryView {
    QueryView::plain("get_post_tags"@, GET_POST_TAGS_CYPHER@)
        .param("author_id"@, BoltView::Text(author_id))
        .param("post_id"@, BoltView::Text(post_id))
}

/// Get all the tags/taggers that a post has received (used for edit/delete notifications)
pub fn get_post_tags(author_id: &str, post_id: &str) -> (r: Query)
    ensures
        r@ == get_post_tags_query(author_id@, post_id@),
{
    Query::new("get_post_tags", GET_POST_TAGS_CYPHER)
        .param("author_id", BoltType::text(author_id))
        .param("post_id", BoltType::text(post_id))
}

/// Text of [`post_relationships`].
pub const POST_RELATIONSHIPS_CYPHER: &'static str = "MATCH (p:Post {id: $post_id})
        WHERE EXISTS { (:User {id: $author_id})-[:AUTHORED]->(p) }
        OPTIONAL MATCH (p)-[:REPLIED]->(replied_post:Post)<-[:AUTHORED]-(replied_author:User)
        OPTIONAL MATCH (p)-[:REPOSTED]->(reposted_post:Post)<-[:AUTHORED]-(reposted_author:User)
        OPTIONAL MATCH (p)-[:MENTIONED]->(mentioned_user:User)
        RETURN
          replied_post.id AS replied_post_id,
          replied_author.id AS replied_author_id,
          reposted_post.id AS reposted_post_id,
          reposted_author.id AS reposted_author_id,
          COLLECT(mentioned_user.id) AS mentioned_user_ids";

/// What [`post_relationships`] asks.
pub open spec fn post_relationships_query(author_id: Seq<char>, post_id: Seq<char>) -> QueryView {
    QueryView::plain("post_relationships"@, POST_RELATIONSHIPS_CYPHER@)
        .param("author_id"@, BoltView::Text(author_id))
        .param("post_id"@, BoltView::Text(post_id))
}

/// What a post replies to, reposts and mentions.
pub fn post_relationships(author_id: &str, post_id: &str) -> (r: Query)
    ensures
        r@ == post_relationships_query(author_id@, post_id@),
{
    Query::new("post_relationships", POST_RELATIONSHIPS_CYPHER)
        .param("author_id", BoltType::text(author_id))
        .param("post_id", BoltType::text(post_id))
}

/// Text of [`get_users_details_by_ids`].
pub const GET_USERS_DETAILS_BY_IDS_CYPHER: &'static str = "
        UNWIND $ids AS id
        OPTIONAL MATCH (record:User {id: id})
        RETURN
            id,
            CASE
                WHEN record IS NOT NULL
                    THEN record
                    ELSE null
                END AS record
        ";

/// What [`get_users_details_by_ids`] asks.
pub open spec fn get_users_details_by_ids_query(user_ids: Seq<&str>) -> QueryView {
    QueryView::plain("get_users_details_by_ids"@, GET_USERS_DETAILS_BY_IDS_CYPHER@)
        .param("ids"@, BoltView::List(strs_view(user_ids)))
}

/// Retrieve many users by id
/// We return also id if not we will not get not found users
pub fn get_users_details_by_ids(user_ids: &[&str]) -> (r: Query)
    ensures
        r@ == get_users_details_by_ids_query(user_ids@),
{
    Query::new("get_users_details_by_ids", GET_USERS_DETAILS_BY_IDS_CYPHER)
        .param("ids", BoltType::strs(user_ids))
}

/// Text of [`global_tags_by_post`].
pub const GLOBAL_TAGS_BY_POST_CYPHER: &'static str = "
        MATCH (tagger:User)-[t:TAGGED]->(post:Post)<-[:AUTHORED]-(author:User)
        WITH t.label AS label, author.id + ':' + post.id AS post_id, post.indexed_at AS score
        WITH DISTINCT post_id, label, score
        WITH label, COLLECT([toFloat(score), post_id ]) AS sorted_set
        RETURN label, sorted_set
        ";

/// Retrieves unique global tags for posts, returning a list of `post_ids` and `timestamp` pairs for each tag label.
pub fn global_tags_by_post() -> (r: Query)
    ensures
        r@ == QueryView::plain("global_tags_by_post"@, GLOBAL_TAGS_BY_POST_CYPHER@),
{
    Query::new("global_tags_by_post", GLOBAL_TAGS_BY_POST_CYPHER)
}

/// Text of [`global_tags_by_post_engagement`].
pub const GLOBAL_TAGS_BY_POST_ENGAGEMENT_CYPHER: &'static str = "
        MATCH (author:User)-[:AUTHORED]->(post:Post)<-[tag:TAGGED]-(tagger:User)
        WITH post, COUNT(tag) AS tags_count, tag.label AS label, author.id + ':' + post.id AS key
        WITH DISTINCT key, label, post, tags_count
        WHERE tags_count > 0
        // Each engagement count is its own COUNT{} subquery, so they don't
        // multiply into a cartesian product per post.
        WITH key, label,
             COUNT { (post)<-[:TAGGED]-() } AS taggers,
             COUNT { (post)<-[:REPLIED]-() } AS replies_count,
             COUNT { (post)<-[:REPOSTED]-() } AS reposts_count,
             COUNT { (post)-[:MENTIONED]->() } AS mention_count
        WITH label, COLLECT([toFloat(taggers + replies_count + reposts_count + mention_count), key ]) AS sorted_set
        RETURN label, sorted_set
        order by label
        ";

/// Retrieves unique global tags for posts, calculating an engagement score based on tag counts,
/// replies, reposts and mentions. The query returns a `key` by combining author's ID
/// and post's ID, along with a sorted set of engagement scores for each tag label.
pub fn global_tags_by_post_engagement() -> (r: Query)
    ensures
        r@ == QueryView::plain("global_tags_by_post_engagement"@, GLOBAL_TAGS_BY_POST_ENGAGEMENT_CYPHER@),
{
    Query::new("global_tags_by_post_engagement", GLOBAL_TAGS_BY_POST_ENGAGEMENT_CYPHER)
}

/// Text of [`global_tags_by_user`].
pub const GLOBAL_TAGS_BY_USER_CYPHER: &'static str = "
        // create_user_tag MERGEs one TAGGED edge per (tagger, tagged, label),
        // so COUNT(t) is the distinct tagger count.
        MATCH (tagger:User)-[t:TAGGED]->(u:User)
        WHERE u.name <> $deleted
        WITH t.label AS label, u.id AS user_id, COUNT(t) AS score
        WITH label, COLLECT([toFloat(score), user_id]) AS sorted_set
        RETURN label, sorted_set
        ";

/// What [`global_tags_by_user`] asks.
pub open spec fn global_tags_by_user_query() -> QueryView {
    QueryView::plain("global_tags_by_user"@, GLOBAL_TAGS_BY_USER_CYPHER@)
        .param("deleted"@, BoltView::Text(USER_DELETED_SENTINEL@))
}

/// Retrieves unique global tags on user profiles, returning per label the tagged
/// user ids paired with their distinct tagger counts.
pub fn global_tags_by_user() -> (r: Query)
    ensures
        r@ == global_tags_by_user_query(),
{
    Query::new("global_tags_by_user", GLOBAL_TAGS_BY_USER_CYPHER)
        .param("deleted", BoltType::text(USER_DELETED_SENTINEL))
}

/// Text of [`get_user_tag_pairs`].
pub const GET_USER_TAG_PAIRS_CYPHER: &'static str = "
        MATCH (:User)-[t:TAGGED]->(u:User)
        WHERE u.name <> $deleted
        RETURN DISTINCT u.id AS user_id, t.label AS label
        ";

/// What [`get_user_tag_pairs`] asks.
pub open spec fn get_user_tag_pairs_query() -> QueryView {
    QueryView::plain("get_user_tag_pairs"@, GET_USER_TAG_PAIRS_CYPHER@)
        .param("deleted"@, BoltView::Text(USER_DELETED_SENTINEL@))
}

/// Enumerates the distinct (tagged user, label) pairs carried by user
/// profiles, without counts: backfills derive each score from the live
/// taggers set instead of trusting a snapshot value.
pub fn get_user_tag_pairs() -> (r: Query)
    ensures
        r@ == get_user_tag_pairs_query(),
{
    Query::new("get_user_tag_pairs", GET_USER_TAG_PAIRS_CYPHER)
        .param("deleted", BoltType::text(USER_DELETED_SENTINEL))
}

/// Text of [`post_tags`].
pub const POST_TAGS_CYPHER: &'static str = "
        // Anchor on the post's unique id: matching via the author would make the
        // planner expand every post they wrote.
        MATCH (p:Post {id: $post_id})
        WITH p
        MATCH (u:User {id: $user_id}) WHERE (u)-[:AUTHORED]->(p)
        CALL {
            WITH p
            MATCH (tagger:User)-[tag:TAGGED]->(p)
            WITH tag.label AS name, collect(DISTINCT tagger.id) AS tagger_ids
            RETURN collect({
                label: name,
                taggers: tagger_ids,
                taggers_count: SIZE(tagger_ids)
            }) AS tags
        }
        RETURN
            u IS NOT NULL AS exists,
            tags
    ";

/// What [`post_tags`] asks.
pub open spec fn post_tags_query(user_id: Seq<char>, post_id: Seq<char>) -> QueryView {
    QueryView::plain("post_tags"@, POST_TAGS_CYPHER@)
        .param("user_id"@, BoltView::Text(user_id))
        .param("post_id"@, BoltView::Text(post_id))
}

/// Retrieve all the tags of the post
pub fn post_tags(user_id: &str, post_id: &str) -> (r: Query)
    ensures
        r@ == post_tags_query(user_id@, post_id@),
{
    Query::new("post_tags", POST_TAGS_CYPHER)
        .param("user_id", BoltType::text(user_id))
        .param("post_id", BoltType::text(post_id))
}

/// Text of [`user_tags`].
pub const USER_TAGS_CYPHER: &'static str = "
        MATCH (u:User {id: $user_id})
        CALL {
            WITH u
            MATCH (p:User)-[t:TAGGED]->(u)
            WITH t.label AS name, collect(DISTINCT p.id) AS tagger_ids
            RETURN collect({
                label: name,
                taggers: tagger_ids,
                taggers_count: SIZE(tagger_ids)
            }) AS tags
        }
        RETURN
            u IS NOT NULL AS exists,
            tags
    ";

/// What [`user_tags`] asks.
pub open spec fn user_tags_query(user_id: Seq<char>) -> QueryView {
    QueryView::plain("user_tags"@, USER_TAGS_CYPHER@)
        .param("user_id"@, BoltView::Text(user_id))
}

/// Retrieve all the tags of the user
pub fn user_tags(user_id: &str) -> (r: Query)
    ensures
        r@ == user_tags_query(user_id@),
{
    Query::new("user_tags", USER_TAGS_CYPHER)
        .param("user_id", BoltType::text(user_id))
}

/// Text of [`get_resource_by_id`].
pub const GET_RESOURCE_BY_ID_CYPHER: &'static str = "
        MATCH (r:Resource {id: $resource_id})
        RETURN r.id AS id, r.uri AS uri, r.scheme AS scheme, r.indexed_at AS indexed_at
    ";

/// What [`get_resource_by_id`] asks.
pub open spec fn get_resource_by_id_query(resource_id: Seq<char>) -> QueryView {
    QueryView::plain("get_resource_by_id"@, GET_RESOURCE_BY_ID_CYPHER@)
        .param("resource_id"@, BoltView::Text(resource_id))
}

/// Retrieve Resource node details by ID
pub fn get_resource_by_id(resource_id: &str) -> (r: Query)
    ensures
        r@ == get_resource_by_id_query(resource_id@),
{
    Query::new("get_resource_by_id", GET_RESOURCE_BY_ID_CYPHER)
        .param("resource_id", BoltType::text(resource_id))
}

/// Text of [`resource_tags`].
pub const RESOURCE_TAGS_CYPHER: &'static str = "
        OPTIONAL MATCH (r:Resource {id: $resource_id})
        CALL {
            WITH r
            MATCH (tagger:User)-[tag:TAGGED]->(r)
            WITH tag.label AS name, collect(DISTINCT tagger.id) AS tagger_ids
            RETURN collect({
                label: name,
                taggers: tagger_ids,
                taggers_count: SIZE(tagger_ids)
            }) AS tags
        }
        RETURN
            r IS NOT NULL AS exists,
            tags
    ";

/// What [`resource_tags`] asks.
pub open spec fn resource_tags_query(resource_id: Seq<char>) -> QueryView {
    QueryView::plain("resource_tags"@, RESOURCE_TAGS_CYPHER@)
        .param("resource_id"@, BoltView::Text(resource_id))
}

/// Retrieve all tags on a Resource node
pub fn resource_tags(resource_id: &str) -> (r: Query)
    ensures
        r@ == resource_tags_query(resource_id@),
{
    Query::new("resource_tags", RESOURCE_TAGS_CYPHER)
        .param("resource_id", BoltType::text(resource_id))
}

/// Text of [`get_homeserver_by_id`].
pub const GET_HOMESERVER_BY_ID_CYPHER: &'static str = "MATCH (hs:Homeserver {id: $id})
        WITH hs.id AS id
        RETURN id";

/// What [`get_homeserver_by_id`] asks.
pub open spec fn get_homeserver_by_id_query(id: Seq<char>) -> QueryView {
    QueryView::plain("get_homeserver_by_id"@, GET_HOMESERVER_BY_ID_CYPHER@)
        .param("id"@, BoltView::Text(id))
}

/// Retrieve a homeserver by ID
pub fn get_homeserver_by_id(id: &str) -> (r: Query)
    ensures
        r@ == get_homeserver_by_id_query(id@),
{
    Query::new("get_homeserver_by_id", GET_HOMESERVER_BY_ID_CYPHER)
        .param("id", BoltType::text(id))
}

/// Text of [`get_all_homeservers_with_active_users`].
pub const GET_ALL_HOMESERVERS_WITH_ACTIVE_USERS_CYPHER: &'static str = "MATCH (u:User)-[r:HOSTED_BY]->(hs:Homeserver)
        WHERE u.name <> '[DELETED]' AND NOT coalesce(r.stale, false)
        WITH hs.id AS id, count(u) AS active_users
        ORDER BY active_users DESC
        RETURN collect(id) AS homeservers_list";

/// Retrieves all homeserver IDs that have at least one active user
/// (incoming `HOSTED_BY` relationships from `User` nodes).
///
/// The results are sorted by the number of active users in descending order.
/// Returns a single `homeservers_list` column containing the collected IDs.
pub fn get_all_homeservers_with_active_users() -> (r: Query)
    ensures
        r@ == QueryView::plain("get_all_homeservers_with_active_users"@, GET_ALL_HOMESERVERS_WITH_ACTIVE_USERS_CYPHER@),
{
    Query::new("get_all_homeservers_with_active_users", GET_ALL_HOMESERVERS_WITH_ACTIVE_USERS_CYPHER)
}

/// Text of [`get_users_needing_hs_resolution`].
pub const GET_USERS_NEEDING_HS_RESOLUTION_CYPHER: &'static str = "MATCH (u:User)
         WHERE u.name <> '[DELETED]'
         OPTIONAL MATCH (u)-[r:HOSTED_BY]->(:Homeserver)
         WITH u, r
         WHERE r IS NULL
            OR r.resolved_at IS NULL
            OR r.resolved_at < (timestamp() - $ttl_ms)
         RETURN collect(u.id) AS user_ids";

/// What [`get_users_needing_hs_resolution`] asks.
pub open spec fn get_users_needing_hs_resolution_query(ttl_ms: u64) -> QueryView {
    QueryView::plain("get_users_needing_hs_resolution"@, GET_USERS_NEEDING_HS_RESOLUTION_CYPHER@)
        .param("ttl_ms"@, BoltView::Integer((ttl_ms as i64) as int))
}

/// Retrieves user IDs whose homeserver mapping is stale
/// (`resolved_at` is older than `ttl_ms`) or missing (no `HOSTED_BY` edge).
pub fn get_users_needing_hs_resolution(ttl_ms: u64) -> (r: Query)
    ensures
        r@ == get_users_needing_hs_resolution_query(ttl_ms),
{
    Query::new("get_users_needing_hs_resolution", GET_USERS_NEEDING_HS_RESOLUTION_CYPHER)
        .param("ttl_ms", BoltType::Integer(ttl_ms as i64))
}

/// Text of [`get_user_homeserver`].
pub const GET_USER_HOMESERVER_CYPHER: &'static str = "MATCH (u:User {id: $user_id})-[r:HOSTED_BY]->(hs:Homeserver)
         RETURN hs.id AS homeserver_id, coalesce(r.stale, false) AS stale";

/// What [`get_user_homeserver`] asks.
pub open spec fn get_user_homeserver_query(user_id: Seq<char>) -> QueryView {
    QueryView::plain("get_user_homeserver"@, GET_USER_HOMESERVER_CYPHER@)
        .param("user_id"@, BoltView::Text(user_id))
}

/// Retrieves the homeserver ID a user is currently hosted on, if any, along with
/// whether that `HOSTED_BY` mapping is marked `stale`.
pub fn get_user_homeserver(user_id: &str) -> (r: Query)
    ensures
        r@ == get_user_homeserver_query(user_id@),
{
    Query::new("get_user_homeserver", GET_USER_HOMESERVER_CYPHER)
        .param("user_id", BoltType::text(user_id))
}

/// Text of [`get_active_users_by_homeserver`].
pub const GET_ACTIVE_USERS_BY_HOMESERVER_CYPHER: &'static str = "MATCH (u:User)-[r:HOSTED_BY]->(:Homeserver {id: $hs_id})
         WHERE u.name <> '[DELETED]' AND NOT coalesce(r.stale, false)
         RETURN collect(u.id) AS user_ids";

/// What [`get_active_users_by_homeserver`] asks.
pub open spec fn get_active_users_by_homeserver_query(hs_id: Seq<char>) -> QueryView {
    QueryView::plain("get_active_users_by_homeserver"@, GET_ACTIVE_USERS_BY_HOMESERVER_CYPHER@)
        .param("hs_id"@, BoltView::Text(hs_id))
}

/// Retrieves all user IDs actively hosted on a given homeserver.
///
/// Excludes users whose mapping is marked `stale` — i.e. whose published
/// homeserver has diverged from the stored one — so the watcher stops
/// indexing them until the mapping realigns.
pub fn get_active_users_by_homeserver(hs_id: &str) -> (r: Query)
    ensures
        r@ == get_active_users_by_homeserver_query(hs_id@),
{
    Query::new("get_active_users_by_homeserver", GET_ACTIVE_USERS_BY_HOMESERVER_CYPHER)
        .param("hs_id", BoltType::text(hs_id))
}

/// Text of [`get_user_followers`].
pub const GET_USER_FOLLOWERS_CYPHER: &'static str = "MATCH (u:User {id: $user_id})
         OPTIONAL MATCH (u)<-[:FOLLOWS]-(follower:User)
         RETURN COUNT(u) > 0 AS user_exists,
                COLLECT(follower.id) AS follower_ids";

/// What [`get_user_followers`] asks.
pub open spec fn get_user_followers_query(user_id: Seq<char>) -> QueryView {
    QueryView::plain("get_user_followers"@, GET_USER_FOLLOWERS_CYPHER@)
        .param("user_id"@, BoltView::Text(user_id))
}

/// These queries aggregate into a single row, so SKIP/LIMIT cannot paginate the
/// collected list; callers slice in Rust instead.
pub fn get_user_followers(user_id: &str) -> (r: Query)
    ensures
        r@ == get_user_followers_query(user_id@),
{
    Query::new("get_user_followers", GET_USER_FOLLOWERS_CYPHER)
        .param("user_id", BoltType::text(user_id))
}

/// Text of [`get_user_following`].
pub const GET_USER_FOLLOWING_CYPHER: &'static str = "MATCH (u:User {id: $user_id})
         OPTIONAL MATCH (u)-[:FOLLOWS]->(following:User)
         RETURN COUNT(u) > 0 AS user_exists,
                COLLECT(following.id) AS following_ids";

/// What [`get_user_following`] asks.
pub open spec fn get_user_following_query(user_id: Seq<char>) -> QueryView {
    QueryView::plain("get_user_following"@, GET_USER_FOLLOWING_CYPHER@)
        .param("user_id"@, BoltView::Text(user_id))
}

/// Users that a user follows.
pub fn get_user_following(user_id: &str) -> (r: Query)
    ensures
        r@ == get_user_following_query(user_id@),
{
    Query::new("get_user_following", GET_USER_FOLLOWING_CYPHER)
        .param("user_id", BoltType::text(user_id))
}

/// Text of [`get_tags_by_label_prefix`].
pub const GET_TAGS_BY_LABEL_PREFIX_CYPHER: &'static str = "
        MATCH ()-[t:TAGGED]->()
        WHERE t.label STARTS WITH $label_prefix
        RETURN COLLECT(DISTINCT t.label) AS tag_labels
        ";

/// What [`get_tags_by_label_prefix`] asks.
pub open spec fn get_tags_by_label_prefix_query(label_prefix: Seq<char>) -> QueryView {
    QueryView::plain("get_tags_by_label_prefix"@, GET_TAGS_BY_LABEL_PREFIX_CYPHER@)
        .param("label_prefix"@, BoltView::Text(label_prefix))
}

/// Tag labels that begin with a prefix.
pub fn get_tags_by_label_prefix(label_prefix: &str) -> (r: Query)
    ensures
        r@ == get_tags_by_label_prefix_query(label_prefix@),
{
    Query::new("get_tags_by_label_prefix", GET_TAGS_BY_LABEL_PREFIX_CYPHER)
        .param("label_prefix", BoltType::text(label_prefix))
}

/// Text of [`get_tags`].
pub const GET_TAGS_CYPHER: &'static str = "
        MATCH ()-[t:TAGGED]->()
        RETURN COLLECT(DISTINCT t.label) AS tag_labels
        ";

/// All tag labels.
pub fn get_tags() -> (r: Query)
    ensures
        r@ == QueryView::plain("get_tags"@, GET_TAGS_CYPHER@),
{
    Query::new("get_tags", GET_TAGS_CYPHER)
}

/// Text of [`get_global_influencers`].
pub const GET_GLOBAL_INFLUENCERS_CYPHER: &'static str = "
        MATCH (user:User)
        WHERE user.name <> '[DELETED]'
        WITH DISTINCT user

        // Each count is a scoped CALL(user){} subquery so it stays per-user
        // instead of multiplying into a cartesian product. Mirrors
        // get_influencers_by_reach.
        CALL (user) {
            MATCH (others:User)-[follow:FOLLOWS]->(user)
            WHERE follow.indexed_at >= $from AND follow.indexed_at < $to
            RETURN count(DISTINCT follow) AS followers_count
        }
        CALL (user) {
            MATCH (user)-[tag:TAGGED]->(:Post)
            WHERE tag.indexed_at >= $from AND tag.indexed_at < $to
            RETURN count(DISTINCT tag) AS tags_count
        }
        CALL (user) {
            MATCH (user)-[authored:AUTHORED]->(post:Post)
            WHERE authored.indexed_at >= $from AND authored.indexed_at < $to
            RETURN count(DISTINCT post) AS posts_count
        }
        WITH {
            id: user.id,
            score: (tags_count + posts_count) * sqrt(followers_count)
        } AS influencer
        WHERE influencer.id IS NOT NULL

        ORDER BY influencer.score DESC, influencer.id ASC
        SKIP $skip
        LIMIT $limit
        RETURN COLLECT([influencer.id, influencer.score]) as influencers
    ";

/// What [`get_global_influencers`] asks.
pub open spec fn get_global_influencers_query(
    skip: usize,
    limit: usize,
    timeframe: TimestampRange,
) -> QueryView {
    QueryView::plain("get_global_influencers"@, GET_GLOBAL_INFLUENCERS_CYPHER@)
        .param("skip"@, BoltView::Integer((skip as i64) as int))
        .param("limit"@, BoltView::Integer((limit as i64) as int))
        .param("from"@, BoltView::Integer(timeframe.from as int))
        .param("to"@, BoltView::Integer(timeframe.to as int))
}

/// Users ranked by their influence on everybody.
pub fn get_global_influencers(skip: usize, limit: usize, timeframe: TimestampRange) -> (r: Query)
    ensures
        r@ == get_global_influencers_query(skip, limit, timeframe),
{
    Query::new("get_global_influencers", GET_GLOBAL_INFLUENCERS_CYPHER)
        .param("skip", BoltType::Integer(skip as i64))
        .param("limit", BoltType::Integer(limit as i64))
        .param("from", BoltType::Integer(timeframe.from))
        .param("to", BoltType::Integer(timeframe.to))
}

/// Text of [`get_files_by_ids`].
pub const GET_FILES_BY_IDS_CYPHER: &'static str = "
        UNWIND $pairs AS pair
        OPTIONAL MATCH (record:File {owner_id: pair[0], id: pair[1]})
        RETURN record
        ";

/// What [`get_files_by_ids`] asks.
pub open spec fn get_files_by_ids_query(key_pair: Seq<&[&str]>) -> QueryView {
    QueryView::plain("get_files_by_ids"@, GET_FILES_BY_IDS_CYPHER@)
        .param("pairs"@, BoltView::List(rows_view(key_pair)))
}

/// Files by owner and id.
pub fn get_files_by_ids(key_pair: &[&[&str]]) -> (r: Query)
    ensures
        r@ == get_files_by_ids_query(key_pair@),
{
    Query::new("get_files_by_ids", GET_FILES_BY_IDS_CYPHER)
        .param("pairs", BoltType::rows(key_pair))
}

/// Text of [`user_is_safe_to_delete`].
pub const USER_IS_SAFE_TO_DELETE_CYPHER: &'static str = "
        MATCH (u:User {id: $user_id})
        // EXISTS stops at the first relationship, so this is O(1) on high-degree
        // users rather than scanning every edge.
        RETURN EXISTS { (u)-[]-() } AS flag
";

/// What [`user_is_safe_to_delete`] asks.
pub open spec fn user_is_safe_to_delete_query(user_id: Seq<char>) -> QueryView {
    QueryView::plain("user_is_safe_to_delete"@, USER_IS_SAFE_TO_DELETE_CYPHER@)
        .param("user_id"@, BoltView::Text(user_id))
}

/// Determines whether a user has any relationships
/// # Arguments
/// * `user_id` - The unique identifier of the user
pub fn user_is_safe_to_delete(user_id: &str) -> (r: Query)
    ensures
        r@ == user_is_safe_to_delete_query(user_id@),
{
    Query::new("user_is_safe_to_delete", USER_IS_SAFE_TO_DELETE_CYPHER)
        .param("user_id", BoltType::text(user_id))
}

/// Text of [`post_is_safe_to_delete`].
pub const POST_IS_SAFE_TO_DELETE_CYPHER: &'static str = "
        MATCH (u:User {id: $author_id})-[:AUTHORED]->(p:Post {id: $post_id})
        // EXISTS stops at the first disallowed relationship, so this is O(1) on
        // high-degree posts rather than scanning every edge.
        RETURN EXISTS {
            MATCH (p)-[r]-()
            WHERE NOT (
                // Allowed relationships:
                // 1. Incoming AUTHORED relationship from the specified user
                (type(r) = 'AUTHORED' AND startNode(r).id = $author_id AND endNode(r) = p)
                OR
                // 2. Outgoing REPOSTED relationship to another post
                (type(r) = 'REPOSTED' AND startNode(r) = p)
                OR
                // 3. Outgoing REPLIED relationship to another post
                (type(r) = 'REPLIED' AND startNode(r) = p)
            )
        } AS flag
";

/// What [`post_is_safe_to_delete`] asks.
pub open spec fn post_is_safe_to_delete_query(
    author_id: Seq<char>,
    post_id: Seq<char>,
) -> QueryView {
    QueryView::plain("post_is_safe_to_delete"@, POST_IS_SAFE_TO_DELETE_CYPHER@)
        .param("author_id"@, BoltView::Text(author_id))
        .param("post_id"@, BoltView::Text(post_id))
}

/// Checks if a post has any relationships that aren't in the set of allowed
/// relationships for post deletion. If the post has such relationships,
/// the query returns `true`; otherwise, `false`
/// If the user or post does not exist, the query returns no rows.
/// # Arguments
/// * `author_id` - The unique identifier of the user who authored the post
/// * `post_id` - The unique identifier of the post
pub fn post_is_safe_to_delete(author_id: &str, post_id: &str) -> (r: Query)
    ensures
        r@ == post_is_safe_to_delete_query(author_id@, post_id@),
{
    Query::new("post_is_safe_to_delete", POST_IS_SAFE_TO_DELETE_CYPHER)
        .param("author_id", BoltType::text(author_id))
        .param("post_id", BoltType::text(post_id))
}

/// Text of [`recommend_users`].
pub const RECOMMEND_USERS_CYPHER: &'static str = "
        MATCH (user:User {id: $user_id})
        MATCH (user)-[:FOLLOWS*1..3]->(potential:User)
        WHERE NOT (user)-[:FOLLOWS]->(potential)
        AND potential.id <> $user_id
        WITH DISTINCT potential
        MATCH (potential)-[:AUTHORED]->(post:Post)
        WITH potential, COUNT(post) AS post_count
        WHERE post_count >= 5
        RETURN potential.id AS recommended_user_id, potential.name AS recommended_user_name
        LIMIT $limit
    ";

/// What [`recommend_users`] asks.
pub open spec fn recommend_users_query(user_id: Seq<char>, limit: usize) -> QueryView {
    QueryView::plain("recommend_users"@, RECOMMEND_USERS_CYPHER@)
        .param("user_id"@, BoltView::Text(user_id))
        .param("limit"@, BoltView::Integer((limit as i64) as int))
}

/// Find user recommendations: active users (with 5+ posts) who are 1-3 degrees of separation away
/// from the given user, but not directly followed by them
pub fn recommend_users(user_id: &str, limit: usize) -> (r: Query)
    ensures
        r@ == recommend_users_query(user_id@, limit),
{
    Query::new("recommend_users", RECOMMEND_USERS_CYPHER)
        .param("user_id", BoltType::text(user_id))
        .param("limit", BoltType::Integer(limit as i64))
}

/// Text of [`starter_pack_users`].
pub const STARTER_PACK_USERS_CYPHER: &'static str = "
        // Bound once, so the follows check stays a lookup.
        OPTIONAL MATCH (user:User {id: $user_id})
        UNWIND $labels AS label
        WITH DISTINCT user, label
        // Ranking per label in its own subquery so ORDER BY + LIMIT plans as Top. Collecting
        // first and slicing after sorts every candidate of every label instead.
        CALL (user, label) {
            CALL (label) {
                MATCH (tagger:User)-[t:TAGGED]->(candidate:User)
                WHERE t.label = label
                RETURN candidate, tagger
              UNION
                MATCH (tagger:User)-[t:TAGGED]->(:Post)<-[:AUTHORED]-(candidate:User)
                WHERE t.label = label
                RETURN candidate, tagger
            }
            // UNION, not UNION ALL: it is what makes this one vote per endorser.
            WITH user, candidate,
                 sum(coalesce(tagger.trust, 0.0)) AS trust_score,
                 count(DISTINCT tagger) AS endorsers
            // Cheaper here than against every endorsement row.
            // TODO: drop the name check once nothing writes the [DELETED] sentinel.
            WHERE candidate.name <> '[DELETED]' AND NOT coalesce(candidate.deleted, false)
              AND (user IS NULL OR (candidate <> user AND NOT (user)-[:FOLLOWS]->(candidate)))
              AND EXISTS { MATCH (candidate)-[:AUTHORED]->(p:Post) WHERE p.indexed_at >= $since }
            WITH candidate.id AS id, trust_score, endorsers
            ORDER BY trust_score DESC, endorsers DESC, id ASC
            LIMIT $per_label
            RETURN collect(id) AS candidates
        }
        // A label with no candidates stays absent, as the caller expects.
        WITH label, candidates
        WHERE candidates <> []
        RETURN label, candidates
        ";

/// What [`starter_pack_users`] asks.
pub open spec fn starter_pack_users_query(
    labels: Seq<String>,
    user_id: Option<&str>,
    since: i64,
    per_label: usize,
) -> QueryView {
    QueryView::plain("starter_pack_users"@, STARTER_PACK_USERS_CYPHER@)
        .param("labels"@, BoltView::List(texts_view(labels)))
        .param("user_id"@, text_or_null_view(user_id))
        .param("since"@, BoltView::Integer(since as int))
        .param("per_label"@, BoltView::Integer(at_most(per_label, MAX_QUERY_LIMIT) as int))
}

/// Ranks the users the network associates with each label, one list per label.
///
/// Both arms are needed: profile tags skew to identity, so most interests only appear on posts.
/// Summing endorser trust rather than counting keeps a few prolific taggers from minting
/// reputation. `since` is a liveness threshold, not a measurement window, so it has no upper
/// bound. It reads `Post.indexed_at`, since the `AUTHORED` edge carries none; pass 0 for "has
/// ever posted".
pub fn starter_pack_users(labels: &[String], user_id: Option<&str>, since: i64, per_label: usize) -> (r: Query)
    ensures
        r@ == starter_pack_users_query(labels@, user_id, since, per_label),
{
    Query::new("starter_pack_users", STARTER_PACK_USERS_CYPHER)
        .param("labels", BoltType::texts(labels))
        .param("user_id", BoltType::text_or_null(user_id))
        .param("since", BoltType::Integer(since))
        .param("per_label", BoltType::Integer(capped(per_label, MAX_QUERY_LIMIT) as i64))
}

/// Text of [`get_tag_by_tagger_and_id`].
pub const GET_TAG_BY_TAGGER_AND_ID_CYPHER: &'static str = "
        MATCH (tagger:User { id: $tagger_id})-[tag:TAGGED {id: $tag_id }]->(tagged)
        OPTIONAL MATCH (author:User)-[:AUTHORED]->(tagged)
        RETURN
            labels(tagged) as tagged_labels,
            tagged.id as tagged_id,
            author.id as author_id,
            tag.id as id,
            tag.indexed_at as indexed_at,
            tag.label as label
        ";

/// What [`get_tag_by_tagger_and_id`] asks.
pub open spec fn get_tag_by_tagger_and_id_query(
    tagger_id: Seq<char>,
    tag_id: Seq<char>,
) -> QueryView {
    QueryView::plain("get_tag_by_tagger_and_id"@, GET_TAG_BY_TAGGER_AND_ID_CYPHER@)
        .param("tagger_id"@, BoltView::Text(tagger_id))
        .param("tag_id"@, BoltView::Text(tag_id))
}

/// Retrieve specific tag created by the user
pub fn get_tag_by_tagger_and_id(tagger_id: &str, tag_id: &str) -> (r: Query)
    ensures
        r@ == get_tag_by_tagger_and_id_query(tagger_id@, tag_id@),
{
    Query::new("get_tag_by_tagger_and_id", GET_TAG_BY_TAGGER_AND_ID_CYPHER)
        .param("tagger_id", BoltType::text(tagger_id))
        .param("tag_id", BoltType::text(tag_id))
}

/// Text of [`get_tag_target`], up to the filter by app.
pub const GET_TAG_TARGET_HEAD: &'static str = "MATCH (user:User {id: $user_id})-[tag:TAGGED {id: $tag_id}]->(target)";

/// Text of [`get_tag_target`], after the filter by app.
pub const GET_TAG_TARGET_TAIL: &'static str = "
         OPTIONAL MATCH (target)<-[:AUTHORED]-(author:User)
         WITH CASE WHEN target:User THEN target.id ELSE null END AS user_id,
              CASE WHEN target:Post THEN target.id ELSE null END AS post_id,
              CASE WHEN target:Post THEN author.id ELSE null END AS author_id,
              CASE WHEN target:Resource THEN target.id ELSE null END AS resource_id,
              tag.label AS label,
              tag.app AS app
         RETURN user_id, post_id, author_id, resource_id, label, app";

/// Filter of [`get_tag_target`]: tags of one app, or tags of none.
pub open spec fn app_filter(app: Option<&str>) -> Seq<char> {
    match app {
        Some(_) => "\n    WHERE tag.app = $app"@,
        None => "\n    WHERE tag.app IS NULL"@,
    }
}

/// What [`get_tag_target`] asks.
pub open spec fn get_tag_target_query(
    user_id: Seq<char>,
    tag_id: Seq<char>,
    app: Option<&str>,
) -> QueryView {
    ({
        let q = QueryView::plain(
            "get_tag_target"@,
            GET_TAG_TARGET_HEAD@ + app_filter(app) + GET_TAG_TARGET_TAIL@,
        ).param("user_id"@, BoltView::Text(user_id)).param("tag_id"@, BoltView::Text(tag_id));
        match app {
            Some(a) => q.param("app"@, BoltView::Text(a@)),
            None => q,
        }
    })
}

/// Read the target details for a tag without deleting the TAGGED edge.
/// Used in tag del to read before graph-last deletion.
pub fn get_tag_target(user_id: &str, tag_id: &str, app: Option<&str>) -> (r: Query)
    ensures
        r@ == get_tag_target_query(user_id@, tag_id@, app),
{
    let filter = match app {
        Some(_) => "\n    WHERE tag.app = $app",
        None => "\n    WHERE tag.app IS NULL",
    };
    let cypher = GET_TAG_TARGET_HEAD.to_owned().concat(filter).concat(GET_TAG_TARGET_TAIL);
    let query = Query::new("get_tag_target", cypher.as_str())
        .param("user_id", BoltType::text(user_id))
        .param("tag_id", BoltType::text(tag_id));
    match app {
        Some(a) => query.param("app", BoltType::text(a)),
        None => query,
    }
}

/// Text of [`search_users_by_tags`], up to the window.
pub const SEARCH_USERS_BY_TAGS_CYPHER: &'static str = "
        MATCH (tagger:User)-[tag:TAGGED]->(u:User)
        WHERE tag.label IN $labels AND u.name <> $deleted
        WITH u, COUNT(tag) AS score
        RETURN u.id AS user_id, score
        // id DESC matches how Redis breaks equal scores (reverse-lex member
        // order), keeping pagination windows identical across both paths
        ORDER BY score DESC, u.id DESC
        ";

/// What [`search_users_by_tags`] asks.
pub open spec fn search_users_by_tags_query(
    labels: Seq<String>,
    skip: Option<usize>,
    limit: Option<usize>,
) -> QueryView {
    QueryView::plain(
        "search_users_by_tags"@,
        SEARCH_USERS_BY_TAGS_CYPHER@ + window_clause(skip, limit),
    )
        .param("labels"@, BoltView::List(texts_view(labels)))
        .param("deleted"@, BoltView::Text(USER_DELETED_SENTINEL@))
}

/// Users whose profile carries any of the given tag labels, scored by distinct
/// tagger count summed across the searched labels.
pub fn search_users_by_tags(labels: &[String], skip: Option<usize>, limit: Option<usize>) -> (r: Query)
    ensures
        r@ == search_users_by_tags_query(labels@, skip, limit),
{
    let mut cypher = SEARCH_USERS_BY_TAGS_CYPHER.to_owned();
    append_capped(&mut cypher, "SKIP ", skip, MAX_QUERY_SKIP);
    append_capped(&mut cypher, "LIMIT ", limit, MAX_QUERY_LIMIT);
    assert(cypher@ =~= SEARCH_USERS_BY_TAGS_CYPHER@ + window_clause(skip, limit));
    Query::new("search_users_by_tags", cypher.as_str())
        .param("labels", BoltType::texts(labels))
        .param("deleted", BoltType::text(USER_DELETED_SENTINEL))
}

/// Tags on resources.
pub const RESOURCE_STREAM_MATCH: &'static str = "MATCH (tagger:User)-[t:TAGGED]->(r:Resource)\n";

/// Text of [`resource_stream`], up to the sort key.
pub const RESOURCE_STREAM_HEAD: &'static str = "WITH DISTINCT r, COUNT(DISTINCT tagger) AS taggers_count
         ORDER BY ";

/// Text of [`resource_stream`], after the sort's direction.
pub const RESOURCE_STREAM_TAIL: &'static str = "
         SKIP $skip LIMIT $limit
         RETURN r.id AS resource_id, r.indexed_at AS indexed_at, taggers_count";

/// The sort key of a stream of resources.
pub open spec fn resource_sort_key(sorting: ResourceSorting) -> Seq<char> {
    match sorting {
        ResourceSorting::Timeline => "r.indexed_at"@,
        ResourceSorting::TaggersCount => "taggers_count"@,
    }
}

/// The filters of a stream of resources: by app, by label, by both or by none.
pub open spec fn resource_filter(app: bool, labels: bool) -> Seq<char> {
    let conditions = only_if(app, "t.app = $app"@) + only_if(labels, "t.label IN $labels"@);
    if conditions.len() == 0 {
        Seq::empty()
    } else {
        "WHERE "@ + joined(conditions, " AND "@) + "\n"@
    }
}

/// What [`resource_stream`] asks.
pub open spec fn resource_stream_query(
    app: Option<&str>,
    labels: Option<&[String]>,
    sorting: ResourceSorting,
    order: SortOrder,
    skip: usize,
    limit: usize,
) -> QueryView {
    ({
        let q = QueryView::plain(
            "resource_stream"@,
            RESOURCE_STREAM_MATCH@ + resource_filter(app is Some, labels is Some)
                + RESOURCE_STREAM_HEAD@ + resource_sort_key(sorting) + " "@ + direction(order)
                + RESOURCE_STREAM_TAIL@,
        ).param("skip"@, BoltView::Integer((skip as i64) as int)).param(
            "limit"@,
            BoltView::Integer((limit as i64) as int),
        );
        let q = match app {
            Some(a) => q.param("app"@, BoltView::Text(a@)),
            None => q,
        };
        match labels {
            Some(l) => q.param("labels"@, BoltView::List(texts_view(l@))),
            None => q,
        }
    })
}

/// Query a stream of Resources with optional app and tag filters.
/// Falls back to this when the sorted sets can't satisfy the query. The sort key and the
/// direction are fixed words, never text of the request.
pub fn resource_stream(
    app: Option<&str>,
    labels: Option<&[String]>,
    sorting: &ResourceSorting,
    order: &SortOrder,
    skip: usize,
    limit: usize,
) -> (r: Query)
    ensures
        r@ == resource_stream_query(app, labels, *sorting, *order, skip, limit),
{
    let sorting_field = match sorting {
        ResourceSorting::Timeline => "r.indexed_at",
        ResourceSorting::TaggersCount => "taggers_count",
    };
    let order_direction = match order {
        SortOrder::Ascending => "ASC",
        SortOrder::Descending => "DESC",
    };
    let mut cypher = RESOURCE_STREAM_MATCH.to_owned();
    let mut where_clauses: Vec<String> = Vec::new();
    if app.is_some() {
        where_clauses.push("t.app = $app".to_owned());
    }
    if labels.is_some() {
        where_clauses.push("t.label IN $labels".to_owned());
    }
    assert(views(where_clauses@) =~= only_if(app is Some, "t.app = $app"@) + only_if(
        labels is Some,
        "t.label IN $labels"@,
    ));
    if where_clauses.len() > 0 {
        let text = join(&where_clauses, " AND ");
        cypher.append("WHERE ");
        cypher.append(text.as_str());
        cypher.append("\n");
    }
    assert(cypher@ =~= RESOURCE_STREAM_MATCH@ + resource_filter(app is Some, labels is Some));
    cypher.append(RESOURCE_STREAM_HEAD);
    cypher.append(sorting_field);
    cypher.append(" ");
    cypher.append(order_direction);
    cypher.append(RESOURCE_STREAM_TAIL);
    let mut query = Query::new("resource_stream", cypher.as_str())
        .param("skip", BoltType::Integer(skip as i64))
        .param("limit", BoltType::Integer(limit as i64));
    if let Some(a) = app {
        query = query.param("app", BoltType::text(a));
    }
    if let Some(l) = labels {
        query = query.param("labels", BoltType::texts(l));
    }
    query
}

/// Text of [`get_viewer_trusted_network_tags`], up to the depth.
pub const TRUSTED_NETWORK_TAGS_HEAD: &'static str = "
        MATCH (tagged:User {id: $user_id})
        // Viewer is optional: an unknown viewer is NULL, so the CALL's expand finds
        // no taggers and `tags` collects to [] (existing user with no trusted tags
        // -> 200 []), rather than dropping the row and 404-ing.
        OPTIONAL MATCH (viewer:User {id: $viewer_id})
        CALL {
            WITH viewer, tagged
            MATCH (viewer)-[:FOLLOWS*1..";

/// Text of [`get_viewer_trusted_network_tags`], after the depth.
pub const TRUSTED_NETWORK_TAGS_TAIL: &'static str = "]->(tagger:User)-[tag:TAGGED]->(tagged)
            WHERE tagger.id <> viewer.id
            WITH tag.label AS label, collect(DISTINCT tagger.id) AS taggerIds
            RETURN collect({
                label: label,
                taggers: taggerIds,
                taggers_count: SIZE(taggerIds)
            }) AS tags
        }
        RETURN tagged IS NOT NULL AS exists, tags
        ";

/// What [`get_viewer_trusted_network_tags`] asks.
pub open spec fn get_viewer_trusted_network_tags_query(
    user_id: Seq<char>,
    viewer_id: Seq<char>,
    depth: WotDepth,
) -> QueryView {
    QueryView::plain(
        "get_viewer_trusted_network_tags"@,
        TRUSTED_NETWORK_TAGS_HEAD@ + decimal(depth.depth() as nat) + TRUSTED_NETWORK_TAGS_TAIL@,
    )
        .param("user_id"@, BoltView::Text(user_id))
        .param("viewer_id"@, BoltView::Text(viewer_id))
}

/// Tags on a user applied by users in the viewer's Web of Trust (transitive
/// FOLLOWS, 1..=depth). A follow cycle that reaches the viewer again does not add
/// the viewer to the trusted tagger set. User existence is the anchor: the user
/// is matched first and the viewer with `OPTIONAL MATCH`, so an existing user
/// always returns one row with `tags` (`[]` when no trusted tagger tagged them,
/// or the viewer is unknown); only a missing user returns zero rows.
pub fn get_viewer_trusted_network_tags(user_id: &str, viewer_id: &str, depth: WotDepth) -> (r: Query)
    ensures
        r@ == get_viewer_trusted_network_tags_query(user_id@, viewer_id@, depth),
{
    let n = depth.text();
    let cypher = TRUSTED_NETWORK_TAGS_HEAD.to_owned().concat(n.as_str()).concat(
        TRUSTED_NETWORK_TAGS_TAIL,
    );
    Query::new("get_viewer_trusted_network_tags", cypher.as_str())
        .param("user_id", BoltType::text(user_id))
        .param("viewer_id", BoltType::text(viewer_id))
}

/// Text of [`get_viewer_trusted_network_post_tags`], up to the depth.
pub const TRUSTED_NETWORK_POST_TAGS_HEAD: &'static str = "
        MATCH (:User {id: $author_id})-[:AUTHORED]->(p:Post {id: $post_id})
        OPTIONAL MATCH (viewer:User {id: $viewer_id})
        CALL {
            WITH viewer, p
            MATCH (viewer)-[:FOLLOWS*1..";

/// Text of [`get_viewer_trusted_network_post_tags`], after the depth.
pub const TRUSTED_NETWORK_POST_TAGS_TAIL: &'static str = "]->(tagger:User)-[tag:TAGGED]->(p)
            WHERE tagger.id <> viewer.id
            WITH tag.label AS label, collect(DISTINCT tagger.id) AS taggerIds
            WITH label, taggerIds, SIZE(taggerIds) AS taggersCount
            ORDER BY taggersCount DESC, label ASC
            SKIP $skip_tags
            LIMIT $limit_tags
            RETURN collect({
                label: label,
                taggers: taggerIds[0..$limit_taggers],
                taggers_count: taggersCount
            }) AS tags
        }
        RETURN p IS NOT NULL AS exists, tags
        ";

/// What [`get_viewer_trusted_network_post_tags`] asks.
pub open spec fn get_viewer_trusted_network_post_tags_query(
    author_id: Seq<char>,
    post_id: Seq<char>,
    viewer_id: Seq<char>,
    depth: WotDepth,
    skip_tags: usize,
    limit_tags: usize,
    limit_taggers: usize,
) -> QueryView {
    QueryView::plain(
        "get_viewer_trusted_network_post_tags"@,
        TRUSTED_NETWORK_POST_TAGS_HEAD@ + decimal(depth.depth() as nat)
            + TRUSTED_NETWORK_POST_TAGS_TAIL@,
    )
        .param("author_id"@, BoltView::Text(author_id))
        .param("post_id"@, BoltView::Text(post_id))
        .param("viewer_id"@, BoltView::Text(viewer_id))
        .param("skip_tags"@, BoltView::Integer((skip_tags as i64) as int))
        .param("limit_tags"@, BoltView::Integer((limit_tags as i64) as int))
        .param("limit_taggers"@, BoltView::Integer((limit_taggers as i64) as int))
}

/// Tags on a single post applied by users in the viewer's Web of Trust
/// (transitive FOLLOWS, 1..=depth). A follow cycle that reaches the viewer again
/// does not add the viewer to the trusted tagger set. Post existence is the
/// anchor: the post is matched first and the viewer with `OPTIONAL MATCH`, so an
/// existing post always returns one row with `tags`; only a missing post returns
/// zero rows. Labels are ordered by tagger count and paginated with
/// `skip_tags`/`limit_tags`; each label's taggers are capped at `limit_taggers`.
pub fn get_viewer_trusted_network_post_tags(
    author_id: &str,
    post_id: &str,
    viewer_id: &str,
    depth: WotDepth,
    skip_tags: usize,
    limit_tags: usize,
    limit_taggers: usize,
) -> (r: Query)
    ensures
        r@ == get_viewer_trusted_network_post_tags_query(
            author_id@,
            post_id@,
            viewer_id@,
            depth,
            skip_tags,
            limit_tags,
            limit_taggers,
        ),
{
    let n = depth.text();
    let cypher = TRUSTED_NETWORK_POST_TAGS_HEAD.to_owned().concat(n.as_str()).concat(
        TRUSTED_NETWORK_POST_TAGS_TAIL,
    );
    Query::new("get_viewer_trusted_network_post_tags", cypher.as_str())
        .param("author_id", BoltType::text(author_id))
        .param("post_id", BoltType::text(post_id))
        .param("viewer_id", BoltType::text(viewer_id))
        .param("skip_tags", BoltType::Integer(skip_tags as i64))
        .param("limit_tags", BoltType::Integer(limit_tags as i64))
        .param("limit_taggers", BoltType::Integer(limit_taggers as i64))
}

/// Per-user count fields, as alias and COUNT {} subquery bound to the node variable `u`.
/// Single source of truth shared by [`user_counts`] (map form) and the trust report
/// (column form), so their filters, especially the collection/bookmark rules, can't drift
/// between the two queries.
pub open spec fn user_count_fields_view() -> Seq<(Seq<char>, Seq<char>)> {
    seq![
        ("following"@, "COUNT { (u)-[:FOLLOWS]->(:User) }"@),
        ("followers"@, "COUNT { (:User)-[:FOLLOWS]->(u) }"@),
        ("friends"@, "COUNT { (u)-[:FOLLOWS]->(friend:User) WHERE (friend)-[:FOLLOWS]->(u) }"@),
        ("posts"@, "COUNT { (u)-[:AUTHORED]->(:Post) }"@),
        ("replies"@, "COUNT { (u)-[:AUTHORED]->(:Post)-[:REPLIED]->(:Post) }"@),
        ("collections"@, "COUNT { (u)-[:AUTHORED]->(p:Post) WHERE p.kind = 'collection' }"@),
        ("bookmarks"@, "COUNT { (u)-[:BOOKMARKED]->(bp:Post) WHERE (bp.kind IS NULL OR bp.kind <> 'collection') }"@),
        ("tagged"@, "COUNT { (u)-[:TAGGED]->(:User) } + COUNT { (u)-[:TAGGED]->(:Post) }"@),
        ("tags"@, "COUNT { (:User)-[:TAGGED]->(u) }"@),
        ("unique_tags"@, "COUNT { MATCH (u)<-[t:TAGGED]-(:User) RETURN DISTINCT t.label }"@),
    ]
}

/// Per-user count fields, as alias and COUNT {} subquery. A collection-follow is stored as
/// a bookmark and kept out of that count; `tagged` counts the tags that the user put on
/// users and on posts.
fn user_count_fields() -> (r: Vec<(&'static str, &'static str)>)
    ensures
        r@.map_values(|f: (&'static str, &'static str)| (f.0@, f.1@)) == user_count_fields_view(),
{
    let mut fields: Vec<(&'static str, &'static str)> = Vec::new();
    fields.push(("following", "COUNT { (u)-[:FOLLOWS]->(:User) }"));
    fields.push(("followers", "COUNT { (:User)-[:FOLLOWS]->(u) }"));
    fields.push(("friends", "COUNT { (u)-[:FOLLOWS]->(friend:User) WHERE (friend)-[:FOLLOWS]->(u) }"));
    fields.push(("posts", "COUNT { (u)-[:AUTHORED]->(:Post) }"));
    fields.push(("replies", "COUNT { (u)-[:AUTHORED]->(:Post)-[:REPLIED]->(:Post) }"));
    fields.push(("collections", "COUNT { (u)-[:AUTHORED]->(p:Post) WHERE p.kind = 'collection' }"));
    fields.push(("bookmarks", "COUNT { (u)-[:BOOKMARKED]->(bp:Post) WHERE (bp.kind IS NULL OR bp.kind <> 'collection') }"));
    fields.push(("tagged", "COUNT { (u)-[:TAGGED]->(:User) } + COUNT { (u)-[:TAGGED]->(:Post) }"));
    fields.push(("tags", "COUNT { (:User)-[:TAGGED]->(u) }"));
    fields.push(("unique_tags", "COUNT { MATCH (u)<-[t:TAGGED]-(:User) RETURN DISTINCT t.label }"));
    assert(fields@.map_values(|f: (&'static str, &'static str)| (f.0@, f.1@))
        =~= user_count_fields_view());
    fields
}

/// The count fields in map form: `field: COUNT {…}`.
pub open spec fn user_count_map_entries() -> Seq<Seq<char>> {
    user_count_fields_view().map_values(|f: (Seq<char>, Seq<char>)| f.0 + ": "@ + f.1)
}

/// The count fields in column form: `COUNT {…} AS field`.
pub open spec fn user_count_columns() -> Seq<Seq<char>> {
    user_count_fields_view().map_values(|f: (Seq<char>, Seq<char>)| f.1 + " AS "@ + f.0)
}

/// Renders the count fields as `field: COUNT {…}, …` for a Cypher map literal.
pub fn user_count_fields_map() -> (r: String)
    ensures
        r@ == joined(user_count_map_entries(), ", "@),
{
    let fields = user_count_fields();
    let mut parts: Vec<String> = Vec::new();
    let mut i: usize = 0;
    let ghost all = user_count_map_entries();
    assert(all.take(0) == Seq::<Seq<char>>::empty());
    assert(views(parts@) =~= all.take(0));
    while i < fields.len()
        invariant
            i <= fields.len(),
            all == user_count_map_entries(),
            fields@.map_values(|f: (&'static str, &'static str)| (f.0@, f.1@))
                == user_count_fields_view(),
            views(parts@) == all.take(i as int),
        decreases fields.len() - i,
    {
        let (name, expr) = fields[i];
        let part = name.to_owned().concat(": ").concat(expr);
        proof {
            let pairs = fields@.map_values(|f: (&'static str, &'static str)| (f.0@, f.1@));
            assert(pairs[i as int] == (name@, expr@));
            assert(all[i as int] == part@);
            lemma_views_push(parts@, part);
            assert(all.take(i + 1) =~= all.take(i as int).push(part@));
        }
        parts.push(part);
        i = i + 1;
    }
    assert(fields@.len() == user_count_fields_view().len()) by {
        assert(fields@.map_values(|f: (&'static str, &'static str)| (f.0@, f.1@)).len()
            == fields@.len());
    }
    assert(all.take(i as int) == all);
    join(&parts, ", ")
}

/// Renders the count fields as `COUNT {…} AS field, …` for a flat RETURN.
pub fn user_count_fields_columns() -> (r: String)
    ensures
        r@ == joined(user_count_columns(), ", "@),
{
    let fields = user_count_fields();
    let mut parts: Vec<String> = Vec::new();
    let mut i: usize = 0;
    let ghost all = user_count_columns();
    assert(all.take(0) == Seq::<Seq<char>>::empty());
    assert(views(parts@) =~= all.take(0));
    while i < fields.len()
        invariant
            i <= fields.len(),
            all == user_count_columns(),
            fields@.map_values(|f: (&'static str, &'static str)| (f.0@, f.1@))
                == user_count_fields_view(),
            views(parts@) == all.take(i as int),
        decreases fields.len() - i,
    {
        let (name, expr) = fields[i];
        let part = expr.to_owned().concat(" AS ").concat(name);
        proof {
            let pairs = fields@.map_values(|f: (&'static str, &'static str)| (f.0@, f.1@));
            assert(pairs[i as int] == (name@, expr@));
            assert(all[i as int] == part@);
            lemma_views_push(parts@, part);
            assert(all.take(i + 1) =~= all.take(i as int).push(part@));
        }
        parts.push(part);
        i = i + 1;
    }
    assert(fields@.len() == user_count_fields_view().len()) by {
        assert(fields@.map_values(|f: (&'static str, &'static str)| (f.0@, f.1@)).len()
            == fields@.len());
    }
    assert(all.take(i as int) == all);
    join(&parts, ", ")
}

/// Text of [`user_counts`], up to the count fields.
pub const USER_COUNTS_HEAD: &'static str = "MATCH (u:User {id: $user_id})
         RETURN
             u IS NOT NULL AS exists,
             { ";

/// Text of [`user_counts`], after the count fields.
pub const USER_COUNTS_TAIL: &'static str = " } AS counts;";

/// What [`user_counts`] asks.
pub open spec fn user_counts_query(user_id: Seq<char>) -> QueryView {
    QueryView::plain(
        "user_counts"@,
        USER_COUNTS_HEAD@ + joined(user_count_map_entries(), ", "@) + USER_COUNTS_TAIL@,
    ).param("user_id"@, BoltView::Text(user_id))
}

/// Counts of a user. Each field is an independent COUNT { } subquery off the single (u)
/// row; a row-multiplying OPTIONAL MATCH before it would make every subquery a per-row
/// grouping key, so that the whole block ran once per received tag.
pub fn user_counts(user_id: &str) -> (r: Query)
    ensures
        r@ == user_counts_query(user_id@),
{
    let fields = user_count_fields_map();
    let cypher = USER_COUNTS_HEAD.to_owned().concat(fields.as_str()).concat(USER_COUNTS_TAIL);
    Query::new("user_counts", cypher.as_str()).param("user_id", BoltType::text(user_id))
}

/// How a reach binds the users around a user.
pub open spec fn reach_subquery(reach: StreamReach) -> Seq<char> {
    match reach {
        StreamReach::Followers => "MATCH (user:User)<-[:FOLLOWS]-(reach:User)"@,
        StreamReach::Following => "MATCH (user:User)-[:FOLLOWS]->(reach:User)"@,
        StreamReach::Friends =>
            "MATCH (user:User)-[:FOLLOWS]->(reach:User), (user)<-[:FOLLOWS]-(reach)"@,
        StreamReach::Wot(depth) => "MATCH (user:User)-[:FOLLOWS*1.."@ + decimal(
            depth.depth() as nat,
        ) + "]->(reach:User)"@,
    }
}

/// How a reach binds the users around a user.
pub fn stream_reach_to_graph_subquery(reach: &StreamReach) -> (r: String)
    ensures
        r@ == reach_subquery(*reach),
{
    match reach {
        StreamReach::Followers => "MATCH (user:User)<-[:FOLLOWS]-(reach:User)".to_owned(),
        StreamReach::Following => "MATCH (user:User)-[:FOLLOWS]->(reach:User)".to_owned(),
        StreamReach::Friends =>
            "MATCH (user:User)-[:FOLLOWS]->(reach:User), (user)<-[:FOLLOWS]-(reach)".to_owned(),
        StreamReach::Wot(depth) => {
            let n = depth.text();
            "MATCH (user:User)-[:FOLLOWS*1..".to_owned().concat(n.as_str()).concat("]->(reach:User)")
        },
    }
}

/// `query` with the telemetry attributes of a reach.
pub open spec fn with_reach_attrs(query: QueryView, reach: StreamReach) -> QueryView {
    query.attr("reach"@, TelemetryView::Str(reach.name())).attr_opt("depth"@, reach.wot_depth())
}

/// Attaches the telemetry attributes of a reach.
fn reach_attrs(query: Query, reach: &StreamReach) -> (r: Query)
    ensures
        r@ == with_reach_attrs(query@, *reach),
{
    let (name, depth) = reach.telemetry_dimensions();
    query.telemetry_attr("reach", TelemetryValue::Str(name)).telemetry_attr_opt("depth", depth)
}

/// Text of [`get_tag_taggers_by_reach`], up to the reach.
pub const TAG_TAGGERS_BY_REACH_HEAD: &'static str = "
            ";

/// Text of [`get_tag_taggers_by_reach`], after the reach.
pub const TAG_TAGGERS_BY_REACH_TAIL: &'static str = "
            // The tagged node can be generic, representing either a Post, a User, or both.
            // For now, it will be a Post to align with UX requirements.
            MATCH (reach)-[tag:TAGGED]->(tagged:Post)
            WHERE user.id = $user_id AND tag.label = $label

            // Get the latest tagged timestamp per `reach` user
            WITH DISTINCT reach, MAX(tag.indexed_at) AS latest_tag_time
            ORDER BY latest_tag_time DESC

            // Use slice notation instead of SKIP and LIMIT
            WITH COLLECT({ reach_id: reach.id })[$skip..$skip + $limit] AS paginated
            UNWIND paginated AS row

            RETURN COLLECT(row.reach_id) AS tagger_ids
            ";

/// The text of [`get_tag_taggers_by_reach`].
pub open spec fn tag_taggers_text(reach: StreamReach) -> Seq<char> {
    TAG_TAGGERS_BY_REACH_HEAD@ + reach_subquery(reach) + TAG_TAGGERS_BY_REACH_TAIL@
}

/// What [`get_tag_taggers_by_reach`] asks.
pub open spec fn get_tag_taggers_by_reach_query(
    label: Seq<char>,
    user_id: Seq<char>,
    reach: StreamReach,
    skip: usize,
    limit: usize,
) -> QueryView {
    with_reach_attrs(
        QueryView::plain("get_tag_taggers_by_reach"@, tag_taggers_text(reach)),
        reach,
    )
        .param("label"@, BoltView::Text(label))
        .param("user_id"@, BoltView::Text(user_id))
        .param("skip"@, BoltView::Integer((skip as i64) as int))
        .param("limit"@, BoltView::Integer((limit as i64) as int))
}

/// Users in reach that tagged a post with a label, the latest first.
pub fn get_tag_taggers_by_reach(
    label: &str,
    user_id: &str,
    reach: StreamReach,
    skip: usize,
    limit: usize,
) -> (r: Query)
    ensures
        r@ == get_tag_taggers_by_reach_query(label@, user_id@, reach, skip, limit),
{
    let sub = stream_reach_to_graph_subquery(&reach);
    let cypher = TAG_TAGGERS_BY_REACH_HEAD.to_owned().concat(sub.as_str()).concat(
        TAG_TAGGERS_BY_REACH_TAIL,
    );
    reach_attrs(Query::new("get_tag_taggers_by_reach", cypher.as_str()), &reach)
        .param("label", BoltType::text(label))
        .param("user_id", BoltType::text(user_id))
        .param("skip", BoltType::Integer(skip as i64))
        .param("limit", BoltType::Integer(limit as i64))
}

/// The node labels that a tag may be on.
pub open spec fn tagged_labels(tagged_type: Option<TaggedType>) -> Seq<char> {
    match tagged_type {
        Some(TaggedType::Post) => "Post"@,
        Some(TaggedType::User) => "User"@,
        None => "Post|User"@,
    }
}

/// The node labels that a tag may be on.
fn tagged_labels_text(tagged_type: Option<TaggedType>) -> (r: &'static str)
    ensures
        r@ == tagged_labels(tagged_type),
{
    match tagged_type {
        Some(TaggedType::Post) => "Post",
        Some(TaggedType::User) => "User",
        None => "Post|User",
    }
}

/// Text of [`get_hot_tags_by_reach`], up to the reach.
pub const HOT_TAGS_BY_REACH_HEAD: &'static str = "
        ";

/// Text of [`get_hot_tags_by_reach`], up to what is tagged.
pub const HOT_TAGS_BY_REACH_TAGGED: &'static str = "
        MATCH (reach)-[tag:TAGGED]->(tagged:";

/// Text of [`get_hot_tags_by_reach`], up to the number of taggers.
pub const HOT_TAGS_BY_REACH_TAGGERS: &'static str = ")
        WHERE user.id = $user_id AND tag.indexed_at >= $from AND tag.indexed_at < $to
        WITH
            tag.label AS label,
            COLLECT(DISTINCT reach.id)[..";

/// Text of [`get_hot_tags_by_reach`], after the number of taggers.
pub const HOT_TAGS_BY_REACH_TAIL: &'static str = "] AS taggers,
            COUNT(DISTINCT tagged) AS uniqueTaggedCount,
            COUNT(DISTINCT reach.id) AS taggers_count
        WITH {
            label: label,
            taggers_id: taggers,
            tagged_count: uniqueTaggedCount,
            taggers_count: taggers_count
        } AS hot_tag
        ORDER BY hot_tag.tagged_count DESC, hot_tag.label ASC
        SKIP $skip LIMIT $limit
        RETURN COLLECT(hot_tag) as hot_tags
    ";

/// The text of [`get_hot_tags_by_reach`].
pub open spec fn hot_tags_text(
    reach: StreamReach,
    tagged_type: Option<TaggedType>,
    taggers_limit: nat,
) -> Seq<char> {
    HOT_TAGS_BY_REACH_HEAD@ + reach_subquery(reach) + HOT_TAGS_BY_REACH_TAGGED@ + tagged_labels(
        tagged_type,
    ) + HOT_TAGS_BY_REACH_TAGGERS@ + decimal(taggers_limit) + HOT_TAGS_BY_REACH_TAIL@
}

/// What [`get_hot_tags_by_reach`] asks.
pub open spec fn get_hot_tags_by_reach_query(
    user_id: Seq<char>,
    reach: StreamReach,
    tags_query: HotTagsInputDTO,
) -> QueryView {
    with_reach_attrs(
        QueryView::plain(
            "get_hot_tags_by_reach"@,
            hot_tags_text(reach, tags_query.tagged_type, tags_query.taggers_limit as nat),
        ),
        reach,
    )
        .param("user_id"@, BoltView::Text(user_id))
        .param("skip"@, BoltView::Integer((tags_query.skip as i64) as int))
        .param("limit"@, BoltView::Integer((tags_query.limit as i64) as int))
        .param("from"@, BoltView::Integer(tags_query.timeframe.from as int))
        .param("to"@, BoltView::Integer(tags_query.timeframe.to as int))
}

/// Tags that users in reach put most in a span of time.
pub fn get_hot_tags_by_reach(
    user_id: &str,
    reach: StreamReach,
    tags_query: &HotTagsInputDTO,
) -> (r: Query)
    ensures
        r@ == get_hot_tags_by_reach_query(user_id@, reach, *tags_query),
{
    let sub = stream_reach_to_graph_subquery(&reach);
    let taggers = decimal_text(tags_query.taggers_limit as u64);
    let cypher = HOT_TAGS_BY_REACH_HEAD.to_owned().concat(sub.as_str()).concat(
        HOT_TAGS_BY_REACH_TAGGED,
    ).concat(tagged_labels_text(tags_query.tagged_type)).concat(HOT_TAGS_BY_REACH_TAGGERS).concat(
        taggers.as_str(),
    ).concat(HOT_TAGS_BY_REACH_TAIL);
    reach_attrs(Query::new("get_hot_tags_by_reach", cypher.as_str()), &reach)
        .param("user_id", BoltType::text(user_id))
        .param("skip", BoltType::Integer(tags_query.skip as i64))
        .param("limit", BoltType::Integer(tags_query.limit as i64))
        .param("from", BoltType::Integer(tags_query.timeframe.from))
        .param("to", BoltType::Integer(tags_query.timeframe.to))
}

/// Text of [`get_global_hot_tags`], up to what is tagged.
pub const GLOBAL_HOT_TAGS_HEAD: &'static str = "
        MATCH (user: User)-[tag:TAGGED]->(tagged:";

/// Text of [`get_global_hot_tags`], up to the number of taggers.
pub const GLOBAL_HOT_TAGS_TAGGERS: &'static str = ")
        WHERE tag.indexed_at >= $from AND tag.indexed_at < $to
        WITH
            tag.label AS label,
            COLLECT(DISTINCT user.id)[..";

/// Text of [`get_global_hot_tags`], after the number of taggers.
pub const GLOBAL_HOT_TAGS_TAIL: &'static str = "] AS taggers,
            COUNT(DISTINCT tagged) AS uniqueTaggedCount,
            COUNT(DISTINCT user.id) AS taggers_count
        WITH {
            label: label,
            taggers_id: taggers,
            tagged_count: uniqueTaggedCount,
            taggers_count: taggers_count
        } AS hot_tag
        ORDER BY hot_tag.tagged_count DESC, hot_tag.label ASC
        SKIP $skip LIMIT $limit
        RETURN COLLECT(hot_tag) as hot_tags
    ";

/// The text of [`get_global_hot_tags`].
pub open spec fn global_hot_tags_text(tagged_type: Option<TaggedType>, taggers_limit: nat) -> Seq<
    char,
> {
    GLOBAL_HOT_TAGS_HEAD@ + tagged_labels(tagged_type) + GLOBAL_HOT_TAGS_TAGGERS@ + decimal(
        taggers_limit,
    ) + GLOBAL_HOT_TAGS_TAIL@
}

/// What [`get_global_hot_tags`] asks.
pub open spec fn get_global_hot_tags_query(tags_query: HotTagsInputDTO) -> QueryView {
    QueryView::plain(
        "get_global_hot_tags"@,
        global_hot_tags_text(tags_query.tagged_type, tags_query.taggers_limit as nat),
    )
        .param("skip"@, BoltView::Integer((tags_query.skip as i64) as int))
        .param("limit"@, BoltView::Integer((tags_query.limit as i64) as int))
        .param("from"@, BoltView::Integer(tags_query.timeframe.from as int))
        .param("to"@, BoltView::Integer(tags_query.timeframe.to as int))
}

/// Tags that users put most in a span of time.
pub fn get_global_hot_tags(tags_query: &HotTagsInputDTO) -> (r: Query)
    ensures
        r@ == get_global_hot_tags_query(*tags_query),
{
    let taggers = decimal_text(tags_query.taggers_limit as u64);
    let cypher = GLOBAL_HOT_TAGS_HEAD.to_owned().concat(
        tagged_labels_text(tags_query.tagged_type),
    ).concat(GLOBAL_HOT_TAGS_TAGGERS).concat(taggers.as_str()).concat(GLOBAL_HOT_TAGS_TAIL);
    Query::new("get_global_hot_tags", cypher.as_str())
        .param("skip", BoltType::Integer(tags_query.skip as i64))
        .param("limit", BoltType::Integer(tags_query.limit as i64))
        .param("from", BoltType::Integer(tags_query.timeframe.from))
        .param("to", BoltType::Integer(tags_query.timeframe.to))
}

/// Text of [`get_influencers_by_reach`], up to the reach.
pub const INFLUENCERS_BY_REACH_HEAD: &'static str = "
        ";

/// Text of [`get_influencers_by_reach`], after the reach.
pub const INFLUENCERS_BY_REACH_TAIL: &'static str = "
        WHERE user.id = $user_id
        WITH DISTINCT reach
        WHERE reach.name <> '[DELETED]'

        CALL (reach) {
            MATCH (others:User)-[follow:FOLLOWS]->(reach)
            RETURN count(DISTINCT follow) as followers_count
        }
        CALL (reach) {
            MATCH (reach)-[tag:TAGGED]->(:Post)
            WHERE tag.indexed_at >= $from AND tag.indexed_at < $to
            RETURN count(DISTINCT tag) as tags_count
        }
        CALL (reach) {
            MATCH (reach)-[:AUTHORED]->(post:Post)
            WHERE post.indexed_at >= $from AND post.indexed_at < $to
            RETURN count(DISTINCT post) as posts_count
        }

        WITH reach, followers_count, tags_count, posts_count
        WITH {
            id: reach.id,
            score: (tags_count + posts_count) * sqrt(followers_count)
        } AS influencer
        ORDER BY influencer.score DESC
        SKIP $skip
        LIMIT $limit
        RETURN COLLECT([influencer.id, influencer.score]) as influencers
    ";

/// The text of [`get_influencers_by_reach`].
pub open spec fn influencers_text(reach: StreamReach) -> Seq<char> {
    INFLUENCERS_BY_REACH_HEAD@ + reach_subquery(reach) + INFLUENCERS_BY_REACH_TAIL@
}

/// What [`get_influencers_by_reach`] asks.
pub open spec fn get_influencers_by_reach_query(
    user_id: Seq<char>,
    reach: StreamReach,
    skip: usize,
    limit: usize,
    timeframe: TimestampRange,
) -> QueryView {
    with_reach_attrs(
        QueryView::plain("get_influencers_by_reach"@, influencers_text(reach)),
        reach,
    )
        .param("user_id"@, BoltView::Text(user_id))
        .param("skip"@, BoltView::Integer((skip as i64) as int))
        .param("limit"@, BoltView::Integer((limit as i64) as int))
        .param("from"@, BoltView::Integer(timeframe.from as int))
        .param("to"@, BoltView::Integer(timeframe.to as int))
}

/// Users in reach ranked by their influence in a span of time.
pub fn get_influencers_by_reach(
    user_id: &str,
    reach: StreamReach,
    skip: usize,
    limit: usize,
    timeframe: TimestampRange,
) -> (r: Query)
    ensures
        r@ == get_influencers_by_reach_query(user_id@, reach, skip, limit, timeframe),
{
    let sub = stream_reach_to_graph_subquery(&reach);
    let cypher = INFLUENCERS_BY_REACH_HEAD.to_owned().concat(sub.as_str()).concat(
        INFLUENCERS_BY_REACH_TAIL,
    );
    reach_attrs(Query::new("get_influencers_by_reach", cypher.as_str()), &reach)
        .param("user_id", BoltType::text(user_id))
        .param("skip", BoltType::Integer(skip as i64))
        .param("limit", BoltType::Integer(limit as i64))
        .param("from", BoltType::Integer(timeframe.from))
        .param("to", BoltType::Integer(timeframe.to))
}

/// Telemetry of a reach query: the name of the reach, and the depth of a web-of-trust
/// reach and of no other.
pub proof fn law_reach_telemetry(query: QueryView, reach: StreamReach)
    requires
        query.telemetry == Seq::<(Seq<char>, TelemetryView)>::empty(),
    ensures
        with_reach_attrs(query, reach).telemetry == (match reach {
            StreamReach::Wot(d) => seq![
                ("reach"@, TelemetryView::Str("wot"@)),
                ("depth"@, TelemetryView::Int(d.depth())),
            ],
            _ => seq![("reach"@, TelemetryView::Str(reach.name()))],
        }),
{
    assert(with_reach_attrs(query, reach).telemetry =~= (match reach {
        StreamReach::Wot(d) => seq![
            ("reach"@, TelemetryView::Str("wot"@)),
            ("depth"@, TelemetryView::Int(d.depth())),
        ],
        _ => seq![("reach"@, TelemetryView::Str(reach.name()))],
    }));
}

} // verus!
