use nexus::graph::get::{
    get_files_by_ids, get_global_hot_tags, get_hot_tags_by_reach, get_influencers_by_reach,
    get_post_by_id, get_tag_taggers_by_reach, get_tag_target, get_users_needing_hs_resolution,
    get_viewer_trusted_network_post_tags, get_viewer_trusted_network_tags, resource_stream,
    search_users_by_tags, starter_pack_users, user_count_fields_columns, user_count_fields_map,
};
use nexus::graph::post_stream::post_stream;
use nexus::graph::query::{Query, TelemetryValue};
use nexus::post::source::{KindFilter, PostKind, StreamSource};
use nexus::types::{
    DomainTrust, Float, HotTagsInputDTO, Pagination, ResourceSorting, SortOrder, StreamReach,
    StreamSorting, TaggedType, TimestampRange, WotDepth,
};

const ALL_TIME: TimestampRange = TimestampRange { from: 0, to: i64::MAX };

fn str_attr(key: &'static str, value: &'static str) -> (&'static str, TelemetryValue) {
    (key, TelemetryValue::Str(value))
}

fn int_attr(key: &'static str, value: u8) -> (&'static str, TelemetryValue) {
    (key, TelemetryValue::Int(value))
}

fn build_query(source: StreamSource) -> Query {
    post_stream(
        source,
        StreamSorting::Timeline,
        SortOrder::Descending,
        &None,
        Pagination { limit: Some(10), ..Pagination::default() },
        None,
    )
    .unwrap()
}

fn build(source: StreamSource) -> String {
    build_query(source).to_cypher_populated()
}

#[test]
fn reach_queries_use_base_label_with_reach_and_depth_attrs() {
    let cases = vec![
        (StreamReach::Followers, vec![str_attr("reach", "followers")]),
        (StreamReach::Following, vec![str_attr("reach", "following")]),
        (StreamReach::Friends, vec![str_attr("reach", "friends")]),
        (
            StreamReach::Wot(WotDepth::new(1).unwrap()),
            vec![str_attr("reach", "wot"), int_attr("depth", 1)],
        ),
        (
            StreamReach::Wot(WotDepth::new(2).unwrap()),
            vec![str_attr("reach", "wot"), int_attr("depth", 2)],
        ),
        (
            StreamReach::Wot(WotDepth::new(3).unwrap()),
            vec![str_attr("reach", "wot"), int_attr("depth", 3)],
        ),
    ];
    for (reach, expected) in cases {
        let influencers = get_influencers_by_reach("user", reach.clone(), 0, 10, ALL_TIME);
        assert_eq!(influencers.label(), "get_influencers_by_reach");
        assert_eq!(influencers.telemetry_attrs(), expected.as_slice());

        let taggers = get_tag_taggers_by_reach("tag", "user", reach.clone(), 0, 10);
        assert_eq!(taggers.label(), "get_tag_taggers_by_reach");
        assert_eq!(taggers.telemetry_attrs(), expected.as_slice());

        let hot_tags_input = HotTagsInputDTO::new(ALL_TIME, 10, 0, 5, None);
        let hot_tags = get_hot_tags_by_reach("user", reach.clone(), &hot_tags_input);
        assert_eq!(hot_tags.label(), "get_hot_tags_by_reach");
        assert_eq!(hot_tags.telemetry_attrs(), expected.as_slice());
    }
}

#[test]
fn post_stream_uses_base_label_with_source_and_depth_attrs() {
    let observer = || "obs".to_string();
    let cases: Vec<(StreamSource, Vec<(&'static str, TelemetryValue)>)> = vec![
        (StreamSource::All, vec![str_attr("source", "all")]),
        (
            StreamSource::Following { observer_id: observer() },
            vec![str_attr("source", "following")],
        ),
        (
            StreamSource::Followers { observer_id: observer() },
            vec![str_attr("source", "followers")],
        ),
        (
            StreamSource::Friends { observer_id: observer() },
            vec![str_attr("source", "friends")],
        ),
        (
            StreamSource::Bookmarks { observer_id: observer() },
            vec![str_attr("source", "bookmarks")],
        ),
        (
            StreamSource::Author { author_id: observer() },
            vec![str_attr("source", "author")],
        ),
        (
            StreamSource::AuthorReplies { author_id: observer() },
            vec![str_attr("source", "author_replies")],
        ),
        (
            StreamSource::PostReplies { post_id: "post".to_string(), author_id: observer() },
            vec![str_attr("source", "post_replies")],
        ),
        (
            StreamSource::Wot { observer_id: observer(), depth: WotDepth::new(1).unwrap() },
            vec![str_attr("source", "wot"), int_attr("depth", 1)],
        ),
        (
            StreamSource::Wot { observer_id: observer(), depth: WotDepth::new(3).unwrap() },
            vec![str_attr("source", "wot"), int_attr("depth", 3)],
        ),
        (
            StreamSource::WotDomain {
                observer_id: observer(),
                trust: DomainTrust::Me,
                domain_tags: vec!["bitcoin".to_string()],
            },
            vec![str_attr("source", "wot_domain"), int_attr("depth", 0)],
        ),
        (
            StreamSource::WotDomain {
                observer_id: observer(),
                trust: DomainTrust::Network(WotDepth::new(2).unwrap()),
                domain_tags: vec!["bitcoin".to_string()],
            },
            vec![str_attr("source", "wot_domain"), int_attr("depth", 2)],
        ),
    ];
    for (source, expected) in cases {
        let query = build_query(source);
        assert_eq!(query.label(), "post_stream");
        assert_eq!(query.telemetry_attrs(), expected.as_slice());
    }
}

/// The trust traversal must bind and dedupe authors before the posts MATCH.
#[test]
fn wot_sources_bind_authors_before_posts() {
    let observer = || "obs".to_string();
    let tags = || vec!["bitcoin".to_string()];
    for source in vec![
        StreamSource::Wot { observer_id: observer(), depth: WotDepth::default() },
        StreamSource::WotDomain {
            observer_id: observer(),
            trust: DomainTrust::Me,
            domain_tags: tags(),
        },
        StreamSource::WotDomain {
            observer_id: observer(),
            trust: DomainTrust::Network(WotDepth::default()),
            domain_tags: tags(),
        },
    ] {
        let cypher = build(source);
        let dedup = cypher.find("WITH DISTINCT author").expect("wot sources dedupe authors");
        let posts = cypher.find("MATCH (p:Post)").expect("posts match");
        assert!(dedup < posts, "author dedup must precede the posts MATCH:\n{cypher}");
    }
}

#[test]
fn trusted_network_tag_queries_exclude_viewer_reached_through_cycle() {
    let user_tags = get_viewer_trusted_network_tags("user", "viewer", WotDepth::default())
        .to_cypher_populated();
    let post_tags = get_viewer_trusted_network_post_tags(
        "author",
        "post",
        "viewer",
        WotDepth::default(),
        0,
        10,
        10,
    )
    .to_cypher_populated();

    for cypher in [user_tags, post_tags] {
        assert!(
            cypher.contains("WHERE tagger.id <> viewer.id"),
            "trusted-network tag queries must exclude a viewer reached through a follow cycle:\n{cypher}"
        );
    }
}

/// All parameters of a query are bound: nothing is left to fill in.
#[test]
fn built_queries_leave_no_parameter_open() {
    let reach = StreamReach::Wot(WotDepth::default());
    let input = HotTagsInputDTO::new(ALL_TIME, 10, 0, 5, Some(TaggedType::Post));
    let queries = vec![
        get_post_by_id("a", "p"),
        get_influencers_by_reach("u", reach.clone(), 0, 10, ALL_TIME),
        get_tag_taggers_by_reach("t", "u", reach.clone(), 0, 10),
        get_hot_tags_by_reach("u", reach.clone(), &input),
        get_global_hot_tags(&input),
        get_tag_target("u", "t", Some("app")),
        get_tag_target("u", "t", None),
        get_users_needing_hs_resolution(1_000),
        search_users_by_tags(&["a".to_string(), "b".to_string()], Some(1), Some(2)),
        starter_pack_users(&["a".to_string()], Some("u"), 5, 3),
        starter_pack_users(&["a".to_string()], None, 5, 3),
        get_files_by_ids(&[&["u", "f"], &["v", "g"]]),
        resource_stream(Some("app"), Some(&["a".to_string()]), &ResourceSorting::Timeline, &SortOrder::Ascending, 0, 10),
        resource_stream(None, None, &ResourceSorting::TaggersCount, &SortOrder::Descending, 0, 10),
    ];
    for q in queries {
        let populated = q.to_cypher_populated();
        assert!(!populated.contains('$'), "{populated}");
    }
}

#[test]
fn queries_bind_what_they_are_given() {
    let q = get_post_by_id("author", "it's").to_cypher_populated();
    assert!(q.contains("'author'"));
    assert!(q.contains("'it\\'s'"));
    let files = get_files_by_ids(&[&["u", "f"], &["v", "g"]]).to_cypher_populated();
    assert!(files.contains("[['u', 'f'], ['v', 'g']]"), "{files}");
}

#[test]
fn user_counts_are_listed_alike() {
    let map = user_count_fields_map();
    let columns = user_count_fields_columns();
    for field in ["following", "followers", "friends", "posts", "replies", "tagged", "bookmarks"] {
        assert!(map.contains(field), "{map}");
        assert!(columns.contains(field), "{columns}");
    }
}

fn full_pagination() -> Pagination {
    Pagination {
        start: Some(Float { text: "20.0".to_string() }),
        end: Some(Float { text: "10.0".to_string() }),
        skip: Some(2),
        limit: Some(5),
    }
}

#[test]
fn post_stream_text_of_an_author() {
    let q = post_stream(
        StreamSource::Author { author_id: "author".to_string() },
        StreamSorting::Timeline,
        SortOrder::Descending,
        &Some(vec!["tag".to_string()]),
        full_pagination(),
        Some(KindFilter::Kind(PostKind::Long)),
    )
    .unwrap();
    let populated = q.to_cypher_populated();
    assert!(!populated.contains('$'), "{populated}");
    assert!(populated.contains("'author'"));
    assert!(populated.contains("['tag']"));
    assert!(populated.contains("'long'"));
    assert!(populated.contains("SKIP 2"));
    assert!(populated.contains("LIMIT 5"));
    assert!(populated.contains("20.0"));
    assert!(populated.contains("10.0"));
}

#[test]
fn post_stream_caps_its_window() {
    let q = post_stream(
        StreamSource::All,
        StreamSorting::TotalEngagement,
        SortOrder::Ascending,
        &None,
        Pagination { start: None, end: None, skip: Some(usize::MAX), limit: Some(usize::MAX) },
        None,
    )
    .unwrap();
    let populated = q.to_cypher_populated();
    assert!(populated.contains(&format!("SKIP {}", nexus::graph::post_stream::MAX_QUERY_SKIP)));
    assert!(populated.contains(&format!("LIMIT {}", nexus::graph::post_stream::MAX_QUERY_LIMIT)));
}

/// Unknown kinds are never excluded, so that excluding one changes nothing.
#[test]
fn unknown_kinds_are_never_excluded() {
    let with = |kinds: Vec<PostKind>| {
        post_stream(
            StreamSource::All,
            StreamSorting::Timeline,
            SortOrder::Descending,
            &None,
            Pagination::default(),
            Some(KindFilter::Exclude(kinds)),
        )
        .unwrap()
        .to_cypher_populated()
    };
    assert_eq!(
        with(vec![PostKind::Short, PostKind::Unknown]),
        with(vec![PostKind::Short])
    );
    assert_ne!(with(vec![PostKind::Short]), with(vec![PostKind::Long]));
}
