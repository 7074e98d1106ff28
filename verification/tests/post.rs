use nexus::graph::error::GraphError;
use nexus::post::index::{PostCounts, PostDetails};
use nexus::post::source::{KindFilter, PostKind, StreamSource};
use nexus::post::stream::{
    page_of_keys, IndexPlan, PostKeyStream, PostStream, PostView, ReachSource, ScoredEntry,
    StreamPlan, UserPosts, WotResult,
};
use nexus::sort::stable_order;
use nexus::types::{DomainTrust, Float, Pagination, SortOrder, StreamSorting, WotDepth};

const USER: &str = "8um71us3fyw6h8wbcxb5ar3rwusy1a6u49956ikzojg3gcwd1dty";

fn s(text: &str) -> String {
    text.to_string()
}

#[test]
fn test_can_use_index_returns_false_for_any_kind_filter() {
    let kinds_to_test = [
        PostKind::Short,
        PostKind::Long,
        PostKind::Image,
        PostKind::Video,
        PostKind::Link,
        PostKind::File,
        PostKind::Collection,
    ];

    // Combinations that would normally return `true` when kind is None.
    let index_eligible_combos = [
        (StreamSorting::Timeline, StreamSource::All),
        (StreamSorting::TotalEngagement, StreamSource::All),
        (StreamSorting::Timeline, StreamSource::Author { author_id: s("author") }),
        (StreamSorting::Timeline, StreamSource::Bookmarks { observer_id: s("observer") }),
    ];

    for kind in &kinds_to_test {
        for (sorting, source) in &index_eligible_combos {
            for filter in [
                KindFilter::Kind(kind.clone()),
                KindFilter::Exclude(vec![kind.clone()]),
            ] {
                assert!(
                    !PostStream::can_use_index(sorting, source, &None, &Some(filter.clone())),
                    "can_use_index({:?}, {:?}, None, Some({:?})) must return false",
                    sorting,
                    source,
                    filter
                );
            }
            assert!(PostStream::can_use_index(sorting, source, &None, &None));
        }
    }
}

#[test]
fn test_can_use_index_returns_true_for_no_kind_filter() {
    assert!(PostStream::can_use_index(
        &StreamSorting::Timeline,
        &StreamSource::All,
        &None,
        &None,
    ));
}

#[test]
fn tags_leave_the_index_but_for_one_on_all_posts() {
    let one = Some(vec![s("a")]);
    let two = Some(vec![s("a"), s("b")]);
    let timeline = StreamSorting::Timeline;
    assert!(PostStream::can_use_index(&timeline, &StreamSource::All, &one, &None));
    assert!(!PostStream::can_use_index(&timeline, &StreamSource::All, &two, &None));
    let author = StreamSource::Author { author_id: s("a") };
    assert!(!PostStream::can_use_index(&timeline, &author, &one, &None));
    assert!(!PostStream::can_use_index(&StreamSorting::TotalEngagement, &author, &None, &None));
    let wot = StreamSource::Wot { observer_id: s("o"), depth: WotDepth::default() };
    assert!(!PostStream::can_use_index(&timeline, &wot, &None, &None));
}

fn plan(source: StreamSource, tags: Option<Vec<String>>, kind: Option<KindFilter>) -> StreamPlan {
    PostStream::collect_post_keys(
        source,
        Pagination { skip: Some(1), limit: Some(2), ..Pagination::default() },
        SortOrder::Descending,
        StreamSorting::Timeline,
        tags,
        kind,
    )
}

#[test]
fn streams_are_read_from_where_they_are_kept() {
    match plan(StreamSource::Collection { author_id: s("a"), post_id: s("p") }, None, None) {
        StreamPlan::Collection { author_id, post_id, skip, limit } => {
            assert_eq!((author_id, post_id), (s("a"), s("p")));
            assert_eq!((skip, limit), (Some(1), Some(2)));
        }
        other => panic!("{other:?}"),
    }
    match plan(StreamSource::All, None, None) {
        StreamPlan::Index(IndexPlan::Keys(read)) => {
            assert_eq!(read.key_parts, vec!["Posts", "Global", "Timeline"]);
            assert_eq!((read.skip, read.limit), (Some(1), Some(2)));
            assert_eq!(read.order, SortOrder::Descending);
        }
        other => panic!("{other:?}"),
    }
    match plan(StreamSource::All, Some(vec![s("tag")]), None) {
        StreamPlan::Index(IndexPlan::ByTag { label, pagination, .. }) => {
            assert_eq!(label, "tag");
            assert_eq!(pagination.skip, Some(1));
        }
        other => panic!("{other:?}"),
    }
    match plan(StreamSource::Friends { observer_id: s("o") }, None, None) {
        StreamPlan::Index(IndexPlan::ByReach { source, user_limit, .. }) => {
            assert_eq!(source, ReachSource::Friends { observer_id: s("o") });
            assert_eq!(user_limit, 200);
        }
        other => panic!("{other:?}"),
    }
    match plan(StreamSource::All, None, Some(KindFilter::Kind(PostKind::Long))) {
        StreamPlan::Graph { query, budget_secs } => {
            assert_eq!(query.label(), "post_stream");
            assert_eq!(budget_secs, 10);
        }
        other => panic!("{other:?}"),
    }
}

#[test]
fn searches_by_tag_default_to_ten() {
    match PostStream::get_posts_keys_by_tag("t", StreamSorting::Timeline, None, None, None, None) {
        IndexPlan::ByTag { pagination, .. } => {
            assert_eq!((pagination.skip, pagination.limit), (Some(0), Some(10)));
        }
        other => panic!("{other:?}"),
    }
}

#[test]
fn sources_know_observer_author_and_tags() {
    let domain = StreamSource::WotDomain {
        observer_id: s("o"),
        trust: DomainTrust::Me,
        domain_tags: vec![s("bitcoin")],
    };
    assert_eq!(domain.get_observer(), Some("o"));
    assert_eq!(domain.get_author(), None);
    assert_eq!(domain.get_domain_tags(), Some(&[s("bitcoin")][..]));
    assert_eq!(domain.telemetry_dimensions(), ("wot_domain", Some(0)));
    assert_eq!(PostStream::wot_dimensions(&domain), Some(("wot_domain", 0)));
    let replies = StreamSource::PostReplies { post_id: s("p"), author_id: s("a") };
    assert_eq!(replies.get_author(), Some("a"));
    assert_eq!(replies.get_observer(), None);
    assert_eq!(PostStream::wot_dimensions(&replies), None);
    assert_eq!(StreamSource::default(), StreamSource::All);
}

fn entry(member: &str, rank: i64) -> ScoredEntry {
    ScoredEntry { member: s(member), rank, score: rank as u64 }
}

#[test]
fn merged_streams_descend_and_keep_ties_in_order() {
    let users = vec![
        UserPosts { user_id: s("a"), posts: vec![entry("1", 5), entry("2", 9)] },
        UserPosts { user_id: s("b"), posts: vec![entry("3", 9), entry("4", 1)] },
    ];
    let all = PostStream::get_posts_for_user_ids(&users, None, None);
    assert_eq!(
        all,
        vec![(s("a:2"), 9), (s("b:3"), 9), (s("a:1"), 5), (s("b:4"), 1)]
    );
    let page = PostStream::get_posts_for_user_ids(&users, Some(1), Some(2));
    assert_eq!(page, vec![(s("b:3"), 9), (s("a:1"), 5)]);
    assert!(PostStream::get_posts_for_user_ids(&users, Some(9), Some(2)).is_empty());
}

#[test]
fn orders_agree_with_a_stable_sort() {
    let ranks: Vec<i64> = vec![3, -1, 3, 7, 0, 7, i64::MIN, i64::MAX, 3];
    let mut expected: Vec<usize> = (0..ranks.len()).collect();
    expected.sort_by(|a, b| ranks[*b].cmp(&ranks[*a]));
    assert_eq!(stable_order(&ranks), expected);
    assert!(stable_order(&vec![]).is_empty());
}

#[test]
fn observers_are_left_out_of_their_streams() {
    let ids = vec![s("a"), s("o"), s("b"), s("o")];
    assert_eq!(PostStream::related_users(&ids, "o"), vec![s("a"), s("b")]);
    let found: Vec<UserPosts> = ids
        .iter()
        .enumerate()
        .map(|(i, id)| UserPosts { user_id: id.clone(), posts: vec![entry("p", i as i64)] })
        .collect();
    let stream = PostStream::get_posts_by_source(&found, "o", None, None);
    assert_eq!(stream.post_keys, vec![s("b:p"), s("a:p")]);
    assert_eq!(stream.last_post_score, Some(0));
    let page = PostStream::get_posts_by_source(&found, "o", None, Some(1));
    assert_eq!(page.post_keys, vec![s("b:p")]);
    assert_eq!(page.last_post_score, Some(2));
}

#[test]
fn no_more_than_the_first_users_are_merged() {
    let found: Vec<UserPosts> = (0..250)
        .map(|i| UserPosts { user_id: format!("u{i}"), posts: vec![entry("p", i)] })
        .collect();
    let merged = PostStream::get_posts_for_user_ids(&found, None, None);
    assert_eq!(merged.len(), 200);
    assert_eq!(merged[0], (s("u199:p"), 199));
    assert_eq!(merged[199], (s("u0:p"), 0));
    let page = PostStream::get_posts_for_user_ids(&found, Some(198), Some(5));
    assert_eq!(page, vec![(s("u1:p"), 1), (s("u0:p"), 0)]);
    let stream = PostStream::get_posts_by_source(&found, "u0", None, None);
    assert_eq!(stream.post_keys.len(), 200);
    assert_eq!(stream.post_keys[0], "u200:p");
    let ids: Vec<String> = found.iter().map(|u| u.user_id.clone()).collect();
    let start = Some(Float { text: s("9") });
    let reads = PostStream::user_reads(&ids, SortOrder::Ascending, start.clone(), None);
    assert_eq!(reads.len(), 200);
    assert_eq!(reads[3].key_parts, vec!["Posts", "AuthorParents", "u3"]);
    assert_eq!((reads[3].start.clone(), reads[3].end.clone()), (start, None));
    assert_eq!((reads[3].skip, reads[3].limit), (None, None));
    assert_eq!(reads[3].order, SortOrder::Ascending);
}

#[test]
fn graph_streams_have_a_budget() {
    let rows = vec![(s("u"), s("p"), 3)];
    assert_eq!(
        PostStream::get_from_graph(Some(Ok(rows.clone()))),
        Ok(PostStream::from_graph_rows(&rows))
    );
    assert_eq!(PostStream::get_from_graph(None), Err(GraphError::QueryTimeout));
    let down = GraphError::Database(s("down"));
    assert_eq!(PostStream::get_from_graph(Some(Err(down.clone()))), Err(down));
}

#[test]
fn trust_streams_are_recorded_on_both_outcomes() {
    let keys = PostKeyStream::new(vec![s("u:p")], None);
    let record = |posts| WotResult { source: "wot", depth: 2, elapsed: 7, posts };
    let dimensions = Some(("wot", 2));
    assert_eq!(
        PostStream::wot_result::<String>(dimensions, 7, &Ok(keys.clone())),
        Some(record(Some(1)))
    );
    assert_eq!(PostStream::wot_result(dimensions, 7, &Err(s("e"))), Some(record(None)));
    assert_eq!(PostStream::wot_result::<String>(None, 7, &Ok(keys)), None);
}

#[test]
fn pages_join_to_the_whole() {
    let keys: Vec<String> = (0..5).map(|i| i.to_string()).collect();
    let first = page_of_keys(&keys, Some(0), Some(2));
    let second = page_of_keys(&keys, Some(2), Some(2));
    let third = page_of_keys(&keys, Some(4), Some(2));
    assert_eq!([first, second, third].concat(), keys);
    assert_eq!(page_of_keys(&keys, Some(usize::MAX), Some(usize::MAX)), Vec::<String>::new());
    assert_eq!(page_of_keys(&keys, None, None), keys);
}

#[test]
fn collections_list_the_posts_of_their_envelope() {
    let post = |id: &str| format!("pubky://{USER}/pub/pubky.app/posts/{id}");
    let content = format!(
        r#"{{"name":"n","items":["{}","https://example.com","{}","{}"]}}"#,
        post("P1"),
        post("P2"),
        post("P3")
    );
    let page = PostStream::get_collection_items_post_keys(
        Some((PostKind::Collection, content.clone())),
        Some(1),
        Some(2),
    );
    assert_eq!(page.post_keys, vec![format!("{USER}:P2"), format!("{USER}:P3")]);
    assert_eq!(page.last_post_score, None);
    let short =
        PostStream::get_collection_items_post_keys(Some((PostKind::Short, content)), None, None);
    assert!(short.is_empty());
    let broken = PostStream::get_collection_items_post_keys(
        Some((PostKind::Collection, s("not an envelope"))),
        None,
        None,
    );
    assert!(broken.is_empty());
    assert!(PostStream::get_collection_items_post_keys(None, None, None).is_empty());
}

#[test]
fn key_streams_resume_from_their_last_score() {
    let stream = PostKeyStream::from_scored_entries(vec![(s("a:1"), 9), (s("a:2"), 4)]);
    assert_eq!(stream.post_keys, vec![s("a:1"), s("a:2")]);
    assert_eq!(stream.last_post_score, Some(4));
    assert!(PostKeyStream::default().is_empty());
    assert_eq!(PostStream::get_post_keys(PostKeyStream::default()), None);
    assert_eq!(PostStream::get_post_keys(stream.clone()), Some(stream.clone()));
    assert_eq!(PostStream::get_posts(&PostKeyStream::default()), None);
    assert_eq!(
        PostStream::get_posts(&stream),
        Some(PostStream::from_listed_post_ids(&stream.post_keys))
    );
    let author = PostStream::author_post_keys("u", &vec![(s("p"), 3)]);
    assert_eq!(author.post_keys, vec![s("u:p")]);
    let graph = PostStream::from_graph_rows(&vec![(s("u"), s("p"), 3), (s("v"), s("q"), 2)]);
    assert_eq!(graph.post_keys, vec![s("u:p"), s("v:q")]);
    assert_eq!(graph.last_post_score, Some(2));
}

#[test]
fn keys_name_their_posts() {
    let posts = PostStream::from_listed_post_ids(&vec![s("u:p"), s("broken"), s("v:q:r")]);
    assert_eq!(
        posts,
        vec![
            PostView { author_id: s("u"), post_id: s("p") },
            PostView { author_id: s("v"), post_id: s("q:r") },
        ]
    );
    let mut stream = PostStream(posts.clone());
    stream.extend(PostStream(posts.clone()));
    assert_eq!(stream.0.len(), 4);
}

#[test]
fn removals_undo_writes() {
    let details = PostDetails { author: s("u"), id: s("p"), indexed_at: 7 };
    let write = PostStream::add_to_timeline_sorted_set(&details);
    assert_eq!(write.key_parts, vec!["Posts", "Global", "Timeline"]);
    assert_eq!(write.member, "u:p");
    assert_eq!(write.score, 7);
    let removal = PostStream::remove_from_timeline_sorted_set("u", "p");
    assert_eq!(removal.key_parts, write.key_parts);
    assert_eq!(removal.member, write.member);
    let counts = PostCounts { replies: 1, tags: 2, reposts: 3 };
    let write = PostStream::add_to_engagement_sorted_set(&counts, "u", "p");
    assert_eq!(write.score, 6);
    let removal = PostStream::delete_from_engagement_sorted_set("u", "p");
    assert_eq!(removal.key_parts, write.key_parts);
}

#[test]
fn engagement_changes_name_the_post_and_the_change() {
    let change = PostStream::update_index_score("u", "p", -1i8);
    assert_eq!(change.key_parts, vec!["Posts", "Global", "TotalEngagement"]);
    assert_eq!(change.member_parts, vec!["u", "p"]);
    assert_eq!(change.action, -1);
}

#[test]
fn replies_and_bookmarks_are_put_and_removed_alike() {
    let details = PostDetails { author: s("u"), id: s("r"), indexed_at: 7 };
    let write = PostStream::add_to_post_reply_sorted_set("a", "p", "u", "r", 7);
    assert_eq!(write.key_parts, vec!["Posts", "PostReplies", "a", "p"]);
    assert_eq!((write.member.as_str(), write.score), ("u:r", 7));
    let removal = PostStream::remove_from_post_reply_sorted_set("a", "p", "u", "r");
    assert_eq!((removal.key_parts, removal.member), (write.key_parts, write.member));

    let write = PostStream::add_to_replies_per_user_sorted_set(&details);
    assert_eq!(write.key_parts, vec!["Posts", "AuthorReplies", "u"]);
    assert_eq!((write.member.as_str(), write.score), ("r", 7));
    let removal = PostStream::remove_from_replies_per_user_sorted_set("u", "r");
    assert_eq!((removal.key_parts, removal.member), (write.key_parts, write.member));

    let write = PostStream::add_to_bookmarks_sorted_set(9, "b", "p", "a");
    assert_eq!(write.key_parts, vec!["Bookmarks", "User", "b"]);
    assert_eq!((write.member.as_str(), write.score), ("a:p", 9));
    let removal = PostStream::remove_from_bookmarks_sorted_set("b", "p", "a");
    assert_eq!((removal.key_parts, removal.member), (write.key_parts, write.member));
}
