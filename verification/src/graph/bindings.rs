//! What the reads of the catalogue bind: each value that is asked for stands under the name that the
//! text of the query reads it by.
use crate::graph::get::{
    GET_ACTIVE_USERS_BY_HOMESERVER_CYPHER, GET_BOOKMARK_TARGET_CYPHER, GET_FILES_BY_IDS_CYPHER,
    GET_GLOBAL_INFLUENCERS_CYPHER, GET_HOMESERVER_BY_ID_CYPHER, GET_POST_BOOKMARKS_CYPHER,
    GET_POST_BY_ID_CYPHER, GET_POST_REPLIES_CYPHER, GET_POST_REPOSTS_CYPHER, GET_POST_TAGS_CYPHER,
    GET_RESOURCE_BY_ID_CYPHER, GET_TAGS_BY_LABEL_PREFIX_CYPHER, GET_TAG_BY_TAGGER_AND_ID_CYPHER,
    GET_USERS_DETAILS_BY_IDS_CYPHER, GET_USERS_NEEDING_HS_RESOLUTION_CYPHER,
    GET_USER_FOLLOWERS_CYPHER, GET_USER_FOLLOWING_CYPHER, GET_USER_HOMESERVER_CYPHER,
    GET_USER_TAG_PAIRS_CYPHER, GLOBAL_TAGS_BY_USER_CYPHER, POST_BOOKMARK_CYPHER,
    POST_COUNTS_CYPHER, POST_IS_SAFE_TO_DELETE_CYPHER, POST_RELATIONSHIPS_CYPHER, POST_TAGS_CYPHER,
    RECOMMEND_USERS_CYPHER, RESOURCE_TAGS_CYPHER, SEARCH_USERS_BY_TAGS_CYPHER,
    STARTER_PACK_USERS_CYPHER, USER_BOOKMARKS_CYPHER, USER_IS_SAFE_TO_DELETE_CYPHER,
    USER_TAGS_CYPHER, get_active_users_by_homeserver_query,
    get_bookmark_target_query, get_files_by_ids_query, get_global_hot_tags_query,
    get_global_influencers_query, get_homeserver_by_id_query, get_hot_tags_by_reach_query,
    get_influencers_by_reach_query, get_post_bookmarks_query, get_post_by_id_query,
    get_post_replies_query, get_post_reposts_query, get_post_tags_query, get_resource_by_id_query,
    get_tag_by_tagger_and_id_query, get_tag_taggers_by_reach_query, get_tag_target_query,
    get_tags_by_label_prefix_query, get_user_followers_query, get_user_following_query,
    get_user_homeserver_query, get_user_tag_pairs_query, get_users_details_by_ids_query,
    get_users_needing_hs_resolution_query, get_viewer_trusted_network_post_tags_query,
    get_viewer_trusted_network_tags_query, global_tags_by_user_query, post_bookmark_query,
    post_counts_query, post_is_safe_to_delete_query, post_relationships_query, post_tags_query,
    recommend_users_query, resource_stream_query, resource_tags_query, search_users_by_tags_query,
    starter_pack_users_query, user_bookmarks_query, user_counts_query,
    user_is_safe_to_delete_query, user_tags_query,
};
use crate::graph::post_stream::{MAX_QUERY_LIMIT, window_clause};
use crate::graph::query::{TelemetryView, rows_view, strs_view, texts_view, BoltView};
use crate::types::{
    WotDepth, SortOrder, TimestampRange, StreamReach, HotTagsInputDTO, ResourceSorting,
};
use vstd::prelude::*;

verus! {

/// What is read of one post is read of the post of that author under that id.
pub proof fn law_post_reads_are_of_the_post_asked_for(author_id: Seq<char>, post_id: Seq<char>)
    ensures
        ({
            let q = get_post_by_id_query(author_id, post_id);
            &&& q.label == "get_post_by_id"@
            &&& q.cypher == GET_POST_BY_ID_CYPHER@
            &&& q.params.dom() =~= set!["author_id"@, "post_id"@]
            &&& q.params["author_id"@] == BoltView::Text(author_id)
            &&& q.params["post_id"@] == BoltView::Text(post_id)
        }),
        ({
            let q = post_counts_query(author_id, post_id);
            &&& q.label == "post_counts"@
            &&& q.cypher == POST_COUNTS_CYPHER@
            &&& q.params.dom() =~= set!["author_id"@, "post_id"@]
            &&& q.params["author_id"@] == BoltView::Text(author_id)
            &&& q.params["post_id"@] == BoltView::Text(post_id)
        }),
        ({
            let q = get_post_bookmarks_query(author_id, post_id);
            &&& q.label == "get_post_bookmarks"@
            &&& q.cypher == GET_POST_BOOKMARKS_CYPHER@
            &&& q.params.dom() =~= set!["author_id"@, "post_id"@]
            &&& q.params["author_id"@] == BoltView::Text(author_id)
            &&& q.params["post_id"@] == BoltView::Text(post_id)
        }),
        ({
            let q = get_post_reposts_query(author_id, post_id);
            &&& q.label == "get_post_reposts"@
            &&& q.cypher == GET_POST_REPOSTS_CYPHER@
            &&& q.params.dom() =~= set!["author_id"@, "post_id"@]
            &&& q.params["author_id"@] == BoltView::Text(author_id)
            &&& q.params["post_id"@] == BoltView::Text(post_id)
        }),
        ({
            let q = get_post_replies_query(author_id, post_id);
            &&& q.label == "get_post_replies"@
            &&& q.cypher == GET_POST_REPLIES_CYPHER@
            &&& q.params.dom() =~= set!["author_id"@, "post_id"@]
            &&& q.params["author_id"@] == BoltView::Text(author_id)
            &&& q.params["post_id"@] == BoltView::Text(post_id)
        }),
        ({
            let q = get_post_tags_query(author_id, post_id);
            &&& q.label == "get_post_tags"@
            &&& q.cypher == GET_POST_TAGS_CYPHER@
            &&& q.params.dom() =~= set!["author_id"@, "post_id"@]
            &&& q.params["author_id"@] == BoltView::Text(author_id)
            &&& q.params["post_id"@] == BoltView::Text(post_id)
        }),
        ({
            let q = post_relationships_query(author_id, post_id);
            &&& q.label == "post_relationships"@
            &&& q.cypher == POST_RELATIONSHIPS_CYPHER@
            &&& q.params.dom() =~= set!["author_id"@, "post_id"@]
            &&& q.params["author_id"@] == BoltView::Text(author_id)
            &&& q.params["post_id"@] == BoltView::Text(post_id)
        }),
        ({
            let q = post_is_safe_to_delete_query(author_id, post_id);
            &&& q.label == "post_is_safe_to_delete"@
            &&& q.cypher == POST_IS_SAFE_TO_DELETE_CYPHER@
            &&& q.params.dom() =~= set!["author_id"@, "post_id"@]
            &&& q.params["author_id"@] == BoltView::Text(author_id)
            &&& q.params["post_id"@] == BoltView::Text(post_id)
        }),
{
    reveal_strlit("author_id");
    reveal_strlit("post_id");
    assert("author_id"@.len() != "post_id"@.len());
}

/// What is read of one user is read of the user under that id.
pub proof fn law_user_reads_are_of_the_user_asked_for(user_id: Seq<char>)
    ensures
        ({
            let q = user_bookmarks_query(user_id);
            &&& q.label == "user_bookmarks"@
            &&& q.cypher == USER_BOOKMARKS_CYPHER@
            &&& q.params.dom() =~= set!["user_id"@]
            &&& q.params["user_id"@] == BoltView::Text(user_id)
        }),
        ({
            let q = user_tags_query(user_id);
            &&& q.label == "user_tags"@
            &&& q.cypher == USER_TAGS_CYPHER@
            &&& q.params.dom() =~= set!["user_id"@]
            &&& q.params["user_id"@] == BoltView::Text(user_id)
        }),
        ({
            let q = get_user_homeserver_query(user_id);
            &&& q.label == "get_user_homeserver"@
            &&& q.cypher == GET_USER_HOMESERVER_CYPHER@
            &&& q.params.dom() =~= set!["user_id"@]
            &&& q.params["user_id"@] == BoltView::Text(user_id)
        }),
        ({
            let q = get_user_followers_query(user_id);
            &&& q.label == "get_user_followers"@
            &&& q.cypher == GET_USER_FOLLOWERS_CYPHER@
            &&& q.params.dom() =~= set!["user_id"@]
            &&& q.params["user_id"@] == BoltView::Text(user_id)
        }),
        ({
            let q = get_user_following_query(user_id);
            &&& q.label == "get_user_following"@
            &&& q.cypher == GET_USER_FOLLOWING_CYPHER@
            &&& q.params.dom() =~= set!["user_id"@]
            &&& q.params["user_id"@] == BoltView::Text(user_id)
        }),
        ({
            let q = user_is_safe_to_delete_query(user_id);
            &&& q.label == "user_is_safe_to_delete"@
            &&& q.cypher == USER_IS_SAFE_TO_DELETE_CYPHER@
            &&& q.params.dom() =~= set!["user_id"@]
            &&& q.params["user_id"@] == BoltView::Text(user_id)
        }),
        ({
            let q = user_counts_query(user_id);
            &&& q.label == "user_counts"@
            &&& q.params.dom() =~= set!["user_id"@]
            &&& q.params["user_id"@] == BoltView::Text(user_id)
        }),
{
    reveal_strlit("user_id");
}

/// A read that involves more than one user binds each to its own name: the author of a post and the
/// viewer who bookmarked it, the tagger and the tag, the user whose tags are read and the viewer whose
/// network they come from.
pub proof fn law_reads_for_a_viewer_keep_the_roles(
    author_id: Seq<char>,
    post_id: Seq<char>,
    viewer_id: Seq<char>,
    user_id: Seq<char>,
    tag_id: Seq<char>,
    bookmark_id: Seq<char>,
    depth: WotDepth,
)
    ensures
        ({
            let q = post_bookmark_query(author_id, post_id, viewer_id);
            &&& q.label == "post_bookmark"@
            &&& q.cypher == POST_BOOKMARK_CYPHER@
            &&& q.params.dom() =~= set!["author_id"@, "post_id"@, "viewer_id"@]
            &&& q.params["author_id"@] == BoltView::Text(author_id)
            &&& q.params["post_id"@] == BoltView::Text(post_id)
            &&& q.params["viewer_id"@] == BoltView::Text(viewer_id)
        }),
        ({
            let q = get_bookmark_target_query(user_id, bookmark_id);
            &&& q.label == "get_bookmark_target"@
            &&& q.cypher == GET_BOOKMARK_TARGET_CYPHER@
            &&& q.params.dom() =~= set!["user_id"@, "bookmark_id"@]
            &&& q.params["user_id"@] == BoltView::Text(user_id)
            &&& q.params["bookmark_id"@] == BoltView::Text(bookmark_id)
        }),
        ({
            let q = post_tags_query(user_id, post_id);
            &&& q.label == "post_tags"@
            &&& q.cypher == POST_TAGS_CYPHER@
            &&& q.params.dom() =~= set!["user_id"@, "post_id"@]
            &&& q.params["user_id"@] == BoltView::Text(user_id)
            &&& q.params["post_id"@] == BoltView::Text(post_id)
        }),
        ({
            let q = get_tag_by_tagger_and_id_query(user_id, tag_id);
            &&& q.label == "get_tag_by_tagger_and_id"@
            &&& q.cypher == GET_TAG_BY_TAGGER_AND_ID_CYPHER@
            &&& q.params.dom() =~= set!["tagger_id"@, "tag_id"@]
            &&& q.params["tagger_id"@] == BoltView::Text(user_id)
            &&& q.params["tag_id"@] == BoltView::Text(tag_id)
        }),
        ({
            let q = get_viewer_trusted_network_tags_query(user_id, viewer_id, depth);
            &&& q.label == "get_viewer_trusted_network_tags"@
            &&& q.params.dom() =~= set!["user_id"@, "viewer_id"@]
            &&& q.params["user_id"@] == BoltView::Text(user_id)
            &&& q.params["viewer_id"@] == BoltView::Text(viewer_id)
        }),
{
    reveal_strlit("author_id");
    reveal_strlit("post_id");
    reveal_strlit("viewer_id");
    reveal_strlit("user_id");
    reveal_strlit("bookmark_id");
    reveal_strlit("tagger_id");
    reveal_strlit("tag_id");
    assert("author_id"@.len() != "post_id"@.len());
    assert("author_id"@[0] != "viewer_id"@[0]);
    assert("author_id"@.len() != "user_id"@.len());
    assert("author_id"@.len() != "bookmark_id"@.len());
    assert("author_id"@[0] != "tagger_id"@[0]);
    assert("author_id"@.len() != "tag_id"@.len());
    assert("post_id"@.len() != "viewer_id"@.len());
    assert("post_id"@[0] != "user_id"@[0]);
    assert("post_id"@.len() != "bookmark_id"@.len());
    assert("post_id"@.len() != "tagger_id"@.len());
    assert("post_id"@.len() != "tag_id"@.len());
    assert("viewer_id"@.len() != "user_id"@.len());
    assert("viewer_id"@.len() != "bookmark_id"@.len());
    assert("viewer_id"@[0] != "tagger_id"@[0]);
    assert("viewer_id"@.len() != "tag_id"@.len());
    assert("user_id"@.len() != "bookmark_id"@.len());
    assert("user_id"@.len() != "tagger_id"@.len());
    assert("user_id"@.len() != "tag_id"@.len());
    assert("bookmark_id"@.len() != "tagger_id"@.len());
    assert("bookmark_id"@.len() != "tag_id"@.len());
    assert("tagger_id"@.len() != "tag_id"@.len());
}

/// A read by one key binds that key.
pub proof fn law_reads_by_one_key_bind_it(
    key: Seq<char>,
    user_ids: Seq<&str>,
    pairs: Seq<&[&str]>,
    ttl_ms: u64,
)
    ensures
        ({
            let q = get_resource_by_id_query(key);
            &&& q.label == "get_resource_by_id"@
            &&& q.cypher == GET_RESOURCE_BY_ID_CYPHER@
            &&& q.params.dom() =~= set!["resource_id"@]
            &&& q.params["resource_id"@] == BoltView::Text(key)
        }),
        ({
            let q = resource_tags_query(key);
            &&& q.label == "resource_tags"@
            &&& q.cypher == RESOURCE_TAGS_CYPHER@
            &&& q.params.dom() =~= set!["resource_id"@]
            &&& q.params["resource_id"@] == BoltView::Text(key)
        }),
        ({
            let q = get_homeserver_by_id_query(key);
            &&& q.label == "get_homeserver_by_id"@
            &&& q.cypher == GET_HOMESERVER_BY_ID_CYPHER@
            &&& q.params.dom() =~= set!["id"@]
            &&& q.params["id"@] == BoltView::Text(key)
        }),
        ({
            let q = get_active_users_by_homeserver_query(key);
            &&& q.label == "get_active_users_by_homeserver"@
            &&& q.cypher == GET_ACTIVE_USERS_BY_HOMESERVER_CYPHER@
            &&& q.params.dom() =~= set!["hs_id"@]
            &&& q.params["hs_id"@] == BoltView::Text(key)
        }),
        ({
            let q = get_tags_by_label_prefix_query(key);
            &&& q.label == "get_tags_by_label_prefix"@
            &&& q.cypher == GET_TAGS_BY_LABEL_PREFIX_CYPHER@
            &&& q.params.dom() =~= set!["label_prefix"@]
            &&& q.params["label_prefix"@] == BoltView::Text(key)
        }),
        ({
            let q = get_users_details_by_ids_query(user_ids);
            &&& q.label == "get_users_details_by_ids"@
            &&& q.cypher == GET_USERS_DETAILS_BY_IDS_CYPHER@
            &&& q.params.dom() =~= set!["ids"@]
            &&& q.params["ids"@] == BoltView::List(strs_view(user_ids))
        }),
        ({
            let q = get_files_by_ids_query(pairs);
            &&& q.label == "get_files_by_ids"@
            &&& q.cypher == GET_FILES_BY_IDS_CYPHER@
            &&& q.params.dom() =~= set!["pairs"@]
            &&& q.params["pairs"@] == BoltView::List(rows_view(pairs))
        }),
        ({
            let q = get_users_needing_hs_resolution_query(ttl_ms);
            &&& q.label == "get_users_needing_hs_resolution"@
            &&& q.cypher == GET_USERS_NEEDING_HS_RESOLUTION_CYPHER@
            &&& q.params.dom() =~= set!["ttl_ms"@]
            &&& q.params["ttl_ms"@] == BoltView::Integer((ttl_ms as i64) as int)
        }),
        ({
            let q = global_tags_by_user_query();
            &&& q.label == "global_tags_by_user"@
            &&& q.cypher == GLOBAL_TAGS_BY_USER_CYPHER@
            &&& q.params.dom() =~= set!["deleted"@]
            &&& q.params["deleted"@] == BoltView::Text("[DELETED]"@)
        }),
        ({
            let q = get_user_tag_pairs_query();
            &&& q.label == "get_user_tag_pairs"@
            &&& q.cypher == GET_USER_TAG_PAIRS_CYPHER@
            &&& q.params.dom() =~= set!["deleted"@]
            &&& q.params["deleted"@] == BoltView::Text("[DELETED]"@)
        }),
{
    reveal_strlit("resource_id");
    reveal_strlit("id");
    reveal_strlit("hs_id");
    reveal_strlit("label_prefix");
    reveal_strlit("ids");
    reveal_strlit("pairs");
    reveal_strlit("ttl_ms");
    reveal_strlit("deleted");
    assert("resource_id"@.len() != "id"@.len());
    assert("resource_id"@.len() != "hs_id"@.len());
    assert("resource_id"@.len() != "label_prefix"@.len());
    assert("resource_id"@.len() != "ids"@.len());
    assert("resource_id"@.len() != "pairs"@.len());
    assert("resource_id"@.len() != "ttl_ms"@.len());
    assert("resource_id"@.len() != "deleted"@.len());
    assert("id"@.len() != "hs_id"@.len());
    assert("id"@.len() != "label_prefix"@.len());
    assert("id"@.len() != "ids"@.len());
    assert("id"@.len() != "pairs"@.len());
    assert("id"@.len() != "ttl_ms"@.len());
    assert("id"@.len() != "deleted"@.len());
    assert("hs_id"@.len() != "label_prefix"@.len());
    assert("hs_id"@.len() != "ids"@.len());
    assert("hs_id"@[0] != "pairs"@[0]);
    assert("hs_id"@.len() != "ttl_ms"@.len());
    assert("hs_id"@.len() != "deleted"@.len());
    assert("label_prefix"@.len() != "ids"@.len());
    assert("label_prefix"@.len() != "pairs"@.len());
    assert("label_prefix"@.len() != "ttl_ms"@.len());
    assert("label_prefix"@.len() != "deleted"@.len());
    assert("ids"@.len() != "pairs"@.len());
    assert("ids"@.len() != "ttl_ms"@.len());
    assert("ids"@.len() != "deleted"@.len());
    assert("pairs"@.len() != "ttl_ms"@.len());
    assert("pairs"@.len() != "deleted"@.len());
    assert("ttl_ms"@.len() != "deleted"@.len());
}

/// Recommendations are for the user asked for, as many as asked for. Starter packs are for the labels,
/// the viewer and the time asked for, with as many users per label as asked for and no more than any
/// query may ask for.
pub proof fn law_recommendations_are_bounded_as_asked(
    user_id: Seq<char>,
    limit: usize,
    labels: Seq<String>,
    viewer_id: Option<&str>,
    since: i64,
    per_label: usize,
)
    ensures
        ({
            let q = recommend_users_query(user_id, limit);
            &&& q.label == "recommend_users"@
            &&& q.cypher == RECOMMEND_USERS_CYPHER@
            &&& q.params.dom() =~= set!["user_id"@, "limit"@]
            &&& q.params["user_id"@] == BoltView::Text(user_id)
            &&& q.params["limit"@] == BoltView::Integer((limit as i64) as int)
        }),
        ({
            let q = starter_pack_users_query(labels, viewer_id, since, per_label);
            &&& q.label == "starter_pack_users"@
            &&& q.cypher == STARTER_PACK_USERS_CYPHER@
            &&& q.params.dom() =~= set!["labels"@, "user_id"@, "since"@, "per_label"@]
            &&& q.params["labels"@] == BoltView::List(texts_view(labels))
            &&& q.params["user_id"@] == (match viewer_id {
                Some(v) => BoltView::Text(v@),
                None => BoltView::Null,
            })
            &&& q.params["since"@] == BoltView::Integer(since as int)
            &&& q.params["per_label"@] == BoltView::Integer(
                if per_label <= MAX_QUERY_LIMIT {
                    per_label as int
                } else {
                    MAX_QUERY_LIMIT as int
                },
            )
        }),
{
    reveal_strlit("user_id");
    reveal_strlit("limit");
    reveal_strlit("labels");
    reveal_strlit("since");
    reveal_strlit("per_label");
    assert("user_id"@.len() != "limit"@.len());
    assert("user_id"@.len() != "labels"@.len());
    assert("user_id"@.len() != "since"@.len());
    assert("user_id"@.len() != "per_label"@.len());
    assert("limit"@.len() != "labels"@.len());
    assert("limit"@[0] != "since"@[0]);
    assert("limit"@.len() != "per_label"@.len());
    assert("labels"@.len() != "since"@.len());
    assert("labels"@.len() != "per_label"@.len());
    assert("since"@.len() != "per_label"@.len());
}

/// A page of a read begins where asked and is as long as asked, over the time span asked for, from its
/// start to its end.
pub proof fn law_windows_of_reads_are_those_asked_for(
    user_id: Seq<char>,
    label: Seq<char>,
    reach: StreamReach,
    skip: usize,
    limit: usize,
    timeframe: TimestampRange,
    input: HotTagsInputDTO,
)
    ensures
        ({
            let q = get_global_influencers_query(skip, limit, timeframe);
            &&& q.label == "get_global_influencers"@
            &&& q.cypher == GET_GLOBAL_INFLUENCERS_CYPHER@
            &&& q.params.dom() =~= set!["skip"@, "limit"@, "from"@, "to"@]
            &&& q.params["skip"@] == BoltView::Integer((skip as i64) as int)
            &&& q.params["limit"@] == BoltView::Integer((limit as i64) as int)
            &&& q.params["from"@] == BoltView::Integer(timeframe.from as int)
            &&& q.params["to"@] == BoltView::Integer(timeframe.to as int)
        }),
        ({
            let q = get_influencers_by_reach_query(user_id, reach, skip, limit, timeframe);
            &&& q.label == "get_influencers_by_reach"@
            &&& q.params.dom() =~= set!["user_id"@, "skip"@, "limit"@, "from"@, "to"@]
            &&& q.params["user_id"@] == BoltView::Text(user_id)
            &&& q.params["skip"@] == BoltView::Integer((skip as i64) as int)
            &&& q.params["limit"@] == BoltView::Integer((limit as i64) as int)
            &&& q.params["from"@] == BoltView::Integer(timeframe.from as int)
            &&& q.params["to"@] == BoltView::Integer(timeframe.to as int)
        }),
        ({
            let q = get_tag_taggers_by_reach_query(label, user_id, reach, skip, limit);
            &&& q.label == "get_tag_taggers_by_reach"@
            &&& q.params.dom() =~= set!["label"@, "user_id"@, "skip"@, "limit"@]
            &&& q.params["label"@] == BoltView::Text(label)
            &&& q.params["user_id"@] == BoltView::Text(user_id)
            &&& q.params["skip"@] == BoltView::Integer((skip as i64) as int)
            &&& q.params["limit"@] == BoltView::Integer((limit as i64) as int)
        }),
        ({
            let q = get_hot_tags_by_reach_query(user_id, reach, input);
            &&& q.label == "get_hot_tags_by_reach"@
            &&& q.params.dom() =~= set!["user_id"@, "skip"@, "limit"@, "from"@, "to"@]
            &&& q.params["user_id"@] == BoltView::Text(user_id)
            &&& q.params["skip"@] == BoltView::Integer((input.skip as i64) as int)
            &&& q.params["limit"@] == BoltView::Integer((input.limit as i64) as int)
            &&& q.params["from"@] == BoltView::Integer(input.timeframe.from as int)
            &&& q.params["to"@] == BoltView::Integer(input.timeframe.to as int)
        }),
        ({
            let q = get_global_hot_tags_query(input);
            &&& q.label == "get_global_hot_tags"@
            &&& q.params.dom() =~= set!["skip"@, "limit"@, "from"@, "to"@]
            &&& q.params["skip"@] == BoltView::Integer((input.skip as i64) as int)
            &&& q.params["limit"@] == BoltView::Integer((input.limit as i64) as int)
            &&& q.params["from"@] == BoltView::Integer(input.timeframe.from as int)
            &&& q.params["to"@] == BoltView::Integer(input.timeframe.to as int)
        }),
{
    reveal_strlit("skip");
    reveal_strlit("limit");
    reveal_strlit("from");
    reveal_strlit("to");
    reveal_strlit("user_id");
    reveal_strlit("label");
    assert("skip"@.len() != "limit"@.len());
    assert("skip"@[0] != "from"@[0]);
    assert("skip"@.len() != "to"@.len());
    assert("skip"@.len() != "user_id"@.len());
    assert("skip"@.len() != "label"@.len());
    assert("limit"@.len() != "from"@.len());
    assert("limit"@.len() != "to"@.len());
    assert("limit"@.len() != "user_id"@.len());
    assert("limit"@[1] != "label"@[1]);
    assert("from"@.len() != "to"@.len());
    assert("from"@.len() != "user_id"@.len());
    assert("from"@.len() != "label"@.len());
    assert("to"@.len() != "user_id"@.len());
    assert("to"@.len() != "label"@.len());
    assert("user_id"@.len() != "label"@.len());
}

/// The tags that a viewer's network put on a post are those of that post, for that viewer, in the window
/// of tags and with as many taggers as asked for.
pub proof fn law_network_tags_of_a_post_are_bounded_as_asked(
    author_id: Seq<char>,
    post_id: Seq<char>,
    viewer_id: Seq<char>,
    depth: WotDepth,
    skip_tags: usize,
    limit_tags: usize,
    limit_taggers: usize,
)
    ensures
        ({
            let q = get_viewer_trusted_network_post_tags_query(author_id, post_id, viewer_id, depth, skip_tags, limit_tags, limit_taggers);
            &&& q.label == "get_viewer_trusted_network_post_tags"@
            &&& q.params.dom() =~= set!["author_id"@, "post_id"@, "viewer_id"@, "skip_tags"@, "limit_tags"@, "limit_taggers"@]
            &&& q.params["author_id"@] == BoltView::Text(author_id)
            &&& q.params["post_id"@] == BoltView::Text(post_id)
            &&& q.params["viewer_id"@] == BoltView::Text(viewer_id)
            &&& q.params["skip_tags"@] == BoltView::Integer((skip_tags as i64) as int)
            &&& q.params["limit_tags"@] == BoltView::Integer((limit_tags as i64) as int)
            &&& q.params["limit_taggers"@] == BoltView::Integer((limit_taggers as i64) as int)
        }),
{
    reveal_strlit("author_id");
    reveal_strlit("post_id");
    reveal_strlit("viewer_id");
    reveal_strlit("skip_tags");
    reveal_strlit("limit_tags");
    reveal_strlit("limit_taggers");
    assert("author_id"@.len() != "post_id"@.len());
    assert("author_id"@[0] != "viewer_id"@[0]);
    assert("author_id"@[0] != "skip_tags"@[0]);
    assert("author_id"@.len() != "limit_tags"@.len());
    assert("author_id"@.len() != "limit_taggers"@.len());
    assert("post_id"@.len() != "viewer_id"@.len());
    assert("post_id"@.len() != "skip_tags"@.len());
    assert("post_id"@.len() != "limit_tags"@.len());
    assert("post_id"@.len() != "limit_taggers"@.len());
    assert("viewer_id"@[0] != "skip_tags"@[0]);
    assert("viewer_id"@.len() != "limit_tags"@.len());
    assert("viewer_id"@.len() != "limit_taggers"@.len());
    assert("skip_tags"@.len() != "limit_tags"@.len());
    assert("skip_tags"@.len() != "limit_taggers"@.len());
    assert("limit_tags"@.len() != "limit_taggers"@.len());
}

/// The target of a tag is that of the tagger's tag under that id. Where an app is asked for it is bound
/// and filtered by, and where none is asked for neither.
pub proof fn law_tag_targets_are_those_of_the_app(
    user_id: Seq<char>,
    tag_id: Seq<char>,
    app: Option<&str>,
)
    ensures
        ({
            let q = get_tag_target_query(user_id, tag_id, app);
            &&& q.label == "get_tag_target"@
            &&& q.params.dom() =~= (if app is Some {
                set!["user_id"@, "tag_id"@, "app"@]
            } else {
                set!["user_id"@, "tag_id"@]
            })
            &&& q.params["user_id"@] == BoltView::Text(user_id)
            &&& q.params["tag_id"@] == BoltView::Text(tag_id)
            &&& app matches Some(a) ==> q.params["app"@] == BoltView::Text(a@)
        }),
{
    reveal_strlit("user_id");
    reveal_strlit("tag_id");
    reveal_strlit("app");
    assert("user_id"@.len() != "tag_id"@.len());
    assert("user_id"@.len() != "app"@.len());
    assert("tag_id"@.len() != "app"@.len());
}

/// A page of resources begins where asked and is as long as asked. The app and the labels are bound
/// exactly where they are asked for.
pub proof fn law_resource_pages_are_those_asked_for(
    app: Option<&str>,
    labels: Option<&[String]>,
    sorting: ResourceSorting,
    order: SortOrder,
    skip: usize,
    limit: usize,
)
    ensures
        ({
            let q = resource_stream_query(app, labels, sorting, order, skip, limit);
            &&& q.label == "resource_stream"@
            &&& q.params.contains_key("app"@) <==> app is Some
            &&& q.params.contains_key("labels"@) <==> labels is Some
            &&& q.params["skip"@] == BoltView::Integer((skip as i64) as int)
            &&& q.params["limit"@] == BoltView::Integer((limit as i64) as int)
            &&& app matches Some(a) ==> q.params["app"@] == BoltView::Text(a@)
            &&& labels matches Some(l) ==> q.params["labels"@] == BoltView::List(texts_view(l@))
        }),
{
    reveal_strlit("skip");
    reveal_strlit("limit");
    reveal_strlit("app");
    reveal_strlit("labels");
    assert("skip"@.len() != "limit"@.len());
    assert("skip"@.len() != "app"@.len());
    assert("skip"@.len() != "labels"@.len());
    assert("limit"@.len() != "app"@.len());
    assert("limit"@.len() != "labels"@.len());
    assert("app"@.len() != "labels"@.len());
}

/// A search for users by tags looks for the labels asked for, leaves deleted users out, and is cut to
/// the window asked for.
pub proof fn law_tag_searches_bind_their_labels(
    labels: Seq<String>,
    skip: Option<usize>,
    limit: Option<usize>,
)
    ensures
        ({
            let q = search_users_by_tags_query(labels, skip, limit);
            &&& q.label == "search_users_by_tags"@
            &&& q.cypher == SEARCH_USERS_BY_TAGS_CYPHER@ + window_clause(skip, limit)
            &&& q.params.dom() =~= set!["labels"@, "deleted"@]
            &&& q.params["labels"@] == BoltView::List(texts_view(labels))
            &&& q.params["deleted"@] == BoltView::Text("[DELETED]"@)
        }),
{
    reveal_strlit("labels");
    reveal_strlit("deleted");
    assert("labels"@.len() != "deleted"@.len());
}

/// A read within a reach records the reach by its name, and its depth exactly where it has one.
pub proof fn law_reaches_are_recorded(
    user_id: Seq<char>,
    label: Seq<char>,
    reach: StreamReach,
    skip: usize,
    limit: usize,
    timeframe: TimestampRange,
    input: HotTagsInputDTO,
)
    ensures
        ({
            let name = ("reach"@, TelemetryView::Str(reach.name()));
            let recorded = match reach {
                StreamReach::Wot(depth) => seq![
                    name,
                    ("depth"@, TelemetryView::Int(depth.depth())),
                ],
                _ => seq![name],
            };
            &&& get_tag_taggers_by_reach_query(label, user_id, reach, skip, limit).telemetry
                =~= recorded
            &&& get_hot_tags_by_reach_query(user_id, reach, input).telemetry =~= recorded
            &&& get_influencers_by_reach_query(user_id, reach, skip, limit, timeframe).telemetry
                =~= recorded
        }),
{
}

} // verus!
