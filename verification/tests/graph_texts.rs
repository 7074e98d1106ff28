use nexus::graph::error::GraphError;
use nexus::graph::get::{
    get_global_hot_tags, get_hot_tags_by_reach, get_influencers_by_reach, get_tag_taggers_by_reach,
    get_tag_target, get_viewer_trusted_network_post_tags, get_viewer_trusted_network_tags,
    resource_stream, user_count_fields_columns, user_count_fields_map, user_counts,
};
use nexus::graph::post_stream::post_stream;
use nexus::graph::query::Query;
use nexus::post::source::{KindFilter, PostKind, StreamSource};
use nexus::types::{
    DomainTrust, Float, HotTagsInputDTO, Pagination, ResourceSorting, SortOrder, StreamReach,
    StreamSorting, TaggedType, TimestampRange, WotDepth,
};

const RANGE: TimestampRange = TimestampRange { from: 1, to: 2 };

fn hot(tagged_type: Option<TaggedType>) -> HotTagsInputDTO {
    HotTagsInputDTO::new(RANGE, 10, 0, 5, tagged_type)
}

fn float(text: &str) -> Option<Float> {
    Some(Float { text: text.to_string() })
}

fn stream(
    source: StreamSource,
    sorting: StreamSorting,
    order: SortOrder,
    tags: Option<Vec<String>>,
    pagination: Pagination,
    kind: Option<KindFilter>,
) -> Query {
    post_stream(source, sorting, order, &tags, pagination, kind).unwrap()
}

#[test]
fn trusted_network_tags() {
    assert_eq!(
        get_viewer_trusted_network_tags("u", "v", WotDepth::new(3).unwrap())
        .cypher(),
        r#"
        MATCH (tagged:User {id: $user_id})
        // Viewer is optional: an unknown viewer is NULL, so the CALL's expand finds
        // no taggers and `tags` collects to [] (existing user with no trusted tags
        // -> 200 []), rather than dropping the row and 404-ing.
        OPTIONAL MATCH (viewer:User {id: $viewer_id})
        CALL {
            WITH viewer, tagged
            MATCH (viewer)-[:FOLLOWS*1..3]->(tagger:User)-[tag:TAGGED]->(tagged)
            WHERE tagger.id <> viewer.id
            WITH tag.label AS label, collect(DISTINCT tagger.id) AS taggerIds
            RETURN collect({
                label: label,
                taggers: taggerIds,
                taggers_count: SIZE(taggerIds)
            }) AS tags
        }
        RETURN tagged IS NOT NULL AS exists, tags
        "#
    );
}

#[test]
fn trusted_network_post_tags() {
    assert_eq!(
        get_viewer_trusted_network_post_tags("a", "p", "v", WotDepth::new(1).unwrap(), 0, 10, 5)
        .cypher(),
        r#"
        MATCH (:User {id: $author_id})-[:AUTHORED]->(p:Post {id: $post_id})
        OPTIONAL MATCH (viewer:User {id: $viewer_id})
        CALL {
            WITH viewer, p
            MATCH (viewer)-[:FOLLOWS*1..1]->(tagger:User)-[tag:TAGGED]->(p)
            WHERE tagger.id <> viewer.id
            WITH tag.label AS label, collect(DISTINCT tagger.id) AS taggerIds
            WITH label, taggerIds, SIZE(taggerIds) AS taggersCount
            ORDER BY taggersCount DESC, label ASC
            SKIP $skip_tags
            LIMIT $limit_tags
            RETURN collect({
                label: label,
                taggers: taggerIds[0..$limit_taggers],
                taggers_count: taggersCount
            }) AS tags
        }
        RETURN p IS NOT NULL AS exists, tags
        "#
    );
}

#[test]
fn taggers_in_reach() {
    assert_eq!(
        get_tag_taggers_by_reach("t", "u", StreamReach::Wot(WotDepth::new(3).unwrap()), 0, 10)
        .cypher(),
        r#"
            MATCH (user:User)-[:FOLLOWS*1..3]->(reach:User)
            // The tagged node can be generic, representing either a Post, a User, or both.
            // For now, it will be a Post to align with UX requirements.
            MATCH (reach)-[tag:TAGGED]->(tagged:Post)
            WHERE user.id = $user_id AND tag.label = $label

            // Get the latest tagged timestamp per `reach` user
            WITH DISTINCT reach, MAX(tag.indexed_at) AS latest_tag_time
            ORDER BY latest_tag_time DESC

            // Use slice notation instead of SKIP and LIMIT
            WITH COLLECT({ reach_id: reach.id })[$skip..$skip + $limit] AS paginated
            UNWIND paginated AS row

            RETURN COLLECT(row.reach_id) AS tagger_ids
            "#
    );
}

#[test]
fn hot_tags_in_reach() {
    assert_eq!(
        get_hot_tags_by_reach("u", StreamReach::Wot(WotDepth::new(3).unwrap()), &hot(Some(TaggedType::Post)))
        .cypher(),
        r#"
        MATCH (user:User)-[:FOLLOWS*1..3]->(reach:User)
        MATCH (reach)-[tag:TAGGED]->(tagged:Post)
        WHERE user.id = $user_id AND tag.indexed_at >= $from AND tag.indexed_at < $to
        WITH
            tag.label AS label,
            COLLECT(DISTINCT reach.id)[..5] AS taggers,
            COUNT(DISTINCT tagged) AS uniqueTaggedCount,
            COUNT(DISTINCT reach.id) AS taggers_count
        WITH {
            label: label,
            taggers_id: taggers,
            tagged_count: uniqueTaggedCount,
            taggers_count: taggers_count
        } AS hot_tag
        ORDER BY hot_tag.tagged_count DESC, hot_tag.label ASC
        SKIP $skip LIMIT $limit
        RETURN COLLECT(hot_tag) as hot_tags
    "#
    );
}

#[test]
fn global_hot_tags() {
    assert_eq!(
        get_global_hot_tags(&hot(Some(TaggedType::User)))
        .cypher(),
        r#"
        MATCH (user: User)-[tag:TAGGED]->(tagged:User)
        WHERE tag.indexed_at >= $from AND tag.indexed_at < $to
        WITH
            tag.label AS label,
            COLLECT(DISTINCT user.id)[..5] AS taggers,
            COUNT(DISTINCT tagged) AS uniqueTaggedCount,
            COUNT(DISTINCT user.id) AS taggers_count
        WITH {
            label: label,
            taggers_id: taggers,
            tagged_count: uniqueTaggedCount,
            taggers_count: taggers_count
        } AS hot_tag
        ORDER BY hot_tag.tagged_count DESC, hot_tag.label ASC
        SKIP $skip LIMIT $limit
        RETURN COLLECT(hot_tag) as hot_tags
    "#
    );
}

#[test]
fn influencers_in_reach() {
    assert_eq!(
        get_influencers_by_reach("u", StreamReach::Wot(WotDepth::new(3).unwrap()), 0, 10, RANGE)
        .cypher(),
        r#"
        MATCH (user:User)-[:FOLLOWS*1..3]->(reach:User)
        WHERE user.id = $user_id
        WITH DISTINCT reach
        WHERE reach.name <> '[DELETED]'

        CALL (reach) {
            MATCH (others:User)-[follow:FOLLOWS]->(reach)
            RETURN count(DISTINCT follow) as followers_count
        }
        CALL (reach) {
            MATCH (reach)-[tag:TAGGED]->(:Post)
            WHERE tag.indexed_at >= $from AND tag.indexed_at < $to
            RETURN count(DISTINCT tag) as tags_count
        }
        CALL (reach) {
            MATCH (reach)-[:AUTHORED]->(post:Post)
            WHERE post.indexed_at >= $from AND post.indexed_at < $to
            RETURN count(DISTINCT post) as posts_count
        }

        WITH reach, followers_count, tags_count, posts_count
        WITH {
            id: reach.id,
            score: (tags_count + posts_count) * sqrt(followers_count)
        } AS influencer
        ORDER BY influencer.score DESC
        SKIP $skip
        LIMIT $limit
        RETURN COLLECT([influencer.id, influencer.score]) as influencers
    "#
    );
}

#[test]
fn tag_target_of_an_app() {
    assert_eq!(
        get_tag_target("u", "t", Some("app"))
        .cypher(),
        r#"MATCH (user:User {id: $user_id})-[tag:TAGGED {id: $tag_id}]->(target)
    WHERE tag.app = $app
         OPTIONAL MATCH (target)<-[:AUTHORED]-(author:User)
         WITH CASE WHEN target:User THEN target.id ELSE null END AS user_id,
              CASE WHEN target:Post THEN target.id ELSE null END AS post_id,
              CASE WHEN target:Post THEN author.id ELSE null END AS author_id,
              CASE WHEN target:Resource THEN target.id ELSE null END AS resource_id,
              tag.label AS label,
              tag.app AS app
         RETURN user_id, post_id, author_id, resource_id, label, app"#
    );
}

#[test]
fn tag_target_of_no_app() {
    assert_eq!(
        get_tag_target("u", "t", None)
        .cypher(),
        r#"MATCH (user:User {id: $user_id})-[tag:TAGGED {id: $tag_id}]->(target)
    WHERE tag.app IS NULL
         OPTIONAL MATCH (target)<-[:AUTHORED]-(author:User)
         WITH CASE WHEN target:User THEN target.id ELSE null END AS user_id,
              CASE WHEN target:Post THEN target.id ELSE null END AS post_id,
              CASE WHEN target:Post THEN author.id ELSE null END AS author_id,
              CASE WHEN target:Resource THEN target.id ELSE null END AS resource_id,
              tag.label AS label,
              tag.app AS app
         RETURN user_id, post_id, author_id, resource_id, label, app"#
    );
}

#[test]
fn resources_of_an_app_with_labels() {
    assert_eq!(
        resource_stream(Some("app"), Some(&["a".to_string()]), &ResourceSorting::Timeline, &SortOrder::Ascending, 0, 10)
        .cypher(),
        r#"MATCH (tagger:User)-[t:TAGGED]->(r:Resource)
WHERE t.app = $app AND t.label IN $labels
WITH DISTINCT r, COUNT(DISTINCT tagger) AS taggers_count
         ORDER BY r.indexed_at ASC
         SKIP $skip LIMIT $limit
         RETURN r.id AS resource_id, r.indexed_at AS indexed_at, taggers_count"#
    );
}

#[test]
fn resources_by_taggers() {
    assert_eq!(
        resource_stream(None, None, &ResourceSorting::TaggersCount, &SortOrder::Descending, 0, 10)
        .cypher(),
        r#"MATCH (tagger:User)-[t:TAGGED]->(r:Resource)
WITH DISTINCT r, COUNT(DISTINCT tagger) AS taggers_count
         ORDER BY taggers_count DESC
         SKIP $skip LIMIT $limit
         RETURN r.id AS resource_id, r.indexed_at AS indexed_at, taggers_count"#
    );
}

#[test]
fn posts_of_followed_users() {
    assert_eq!(
        stream(
            StreamSource::Following { observer_id: "o".to_string() },
            StreamSorting::Timeline,
            SortOrder::Descending,
            None,
            Pagination { start: float("9"), end: float("3"), skip: Some(2), limit: Some(5) },
            None,
        )
        .cypher(),
        r#"MATCH (observer:User {id: $observer_id})
MATCH (observer)-[:FOLLOWS]->(author)
WHERE author.id <> $observer_id
MATCH (p:Post)<-[:AUTHORED]-(author:User)
WHERE NOT ( (p)-[:REPLIED]->(:Post) )
AND p.indexed_at <= $start
AND p.indexed_at >= $end
WITH DISTINCT p, author
RETURN author.id AS author_id, p.id AS post_id, p.indexed_at AS score
ORDER BY p.indexed_at DESC, p.id DESC
SKIP 2
LIMIT 5
"#
    );
}

#[test]
fn bookmarked_posts_by_engagement() {
    assert_eq!(
        stream(
            StreamSource::Bookmarks { observer_id: "o".to_string() },
            StreamSorting::TotalEngagement,
            SortOrder::Ascending,
            Some(vec!["t".to_string()]),
            Pagination { start: float("9"), end: float("3"), skip: None, limit: None },
            Some(KindFilter::Exclude(vec![PostKind::Short])),
        )
        .cypher(),
        r#"MATCH (observer:User {id: $observer_id})
MATCH (observer)-[:BOOKMARKED]->(p)
MATCH (p:Post)<-[:AUTHORED]-(author:User)
MATCH (:User)-[tag:TAGGED]->(p)
WHERE tag.label IN $labels
AND (p.kind IS NULL OR NOT p.kind IN $exclude_kinds)
WITH DISTINCT p, author

                WITH p, author,
                    COUNT { (p)<-[:TAGGED]-(:User) }
                    + COUNT { (p)<-[:REPLIED]-(:Post) }
                    + COUNT { (p)<-[:REPOSTED]-(:Post) } AS total_engagement
                WHERE total_engagement >= $start
AND total_engagement <= $end
RETURN author.id AS author_id, p.id AS post_id, total_engagement AS score
ORDER BY total_engagement ASC, p.id ASC
"#
    );
}

#[test]
fn posts_of_a_trusted_domain() {
    assert_eq!(
        stream(
            StreamSource::WotDomain {
                observer_id: "o".to_string(),
                trust: DomainTrust::Network(WotDepth::new(3).unwrap()),
                domain_tags: vec!["bitcoin".to_string()],
            },
            StreamSorting::Timeline,
            SortOrder::Ascending,
            None,
            Pagination { start: float("1"), ..Pagination::default() },
            Some(KindFilter::Kind(PostKind::Long)),
        )
        .cypher(),
        r#"MATCH (observer:User {id: $observer_id})
CALL { WITH observer MATCH (observer)-[:FOLLOWS*1..3]->(tagger:User) WHERE tagger.id <> observer.id RETURN DISTINCT tagger }
MATCH (tagger)-[endorsement:TAGGED]->(author:User)
WHERE endorsement.label IN $domain_tags
WITH DISTINCT author
MATCH (p:Post)<-[:AUTHORED]-(author:User)
WHERE p.kind = $kind
AND NOT ( (p)-[:REPLIED]->(:Post) )
AND p.indexed_at >= $start
WITH DISTINCT p, author
RETURN author.id AS author_id, p.id AS post_id, p.indexed_at AS score
ORDER BY p.indexed_at ASC, p.id ASC
"#
    );
}

#[test]
fn posts_of_a_web_of_trust() {
    assert_eq!(
        stream(
            StreamSource::Wot { observer_id: "o".to_string(), depth: WotDepth::new(2).unwrap() },
            StreamSorting::Timeline,
            SortOrder::Descending,
            None,
            Pagination::default(),
            None,
        )
        .cypher(),
        r#"MATCH (observer:User {id: $observer_id})
MATCH (observer)-[:FOLLOWS*1..2]->(author:User)
WHERE author.id <> $observer_id
WITH DISTINCT author
MATCH (p:Post)<-[:AUTHORED]-(author:User)
WHERE NOT ( (p)-[:REPLIED]->(:Post) )
WITH DISTINCT p, author
RETURN author.id AS author_id, p.id AS post_id, p.indexed_at AS score
ORDER BY p.indexed_at DESC, p.id DESC
"#
    );
}

#[test]
fn posts_of_an_author() {
    assert_eq!(
        stream(
            StreamSource::Author { author_id: "a".to_string() },
            StreamSorting::Timeline,
            SortOrder::Descending,
            None,
            Pagination::default(),
            None,
        )
        .cypher(),
        r#"MATCH (p:Post)<-[:AUTHORED]-(author:User)
WHERE author.id = $author_id
AND NOT ( (p)-[:REPLIED]->(:Post) )
WITH DISTINCT p, author
RETURN author.id AS author_id, p.id AS post_id, p.indexed_at AS score
ORDER BY p.indexed_at DESC, p.id DESC
"#
    );
}

#[test]
fn hot_tags_default_to_posts_and_users() {
    let cypher = get_global_hot_tags(&hot(None)).cypher().to_string();
    assert!(cypher.contains("(tagged:Post|User)"), "{cypher}");
}

#[test]
fn counts_of_a_user() {
    let fields = user_count_fields_map();
    assert_eq!(
        user_counts("u").cypher(),
        format!(
            "MATCH (u:User {{id: $user_id}})
         RETURN
             u IS NOT NULL AS exists,
             {{ {fields} }} AS counts;"
        )
    );
    let columns = user_count_fields_columns();
    assert_eq!(fields.matches(": COUNT {").count(), columns.matches(" AS ").count());
    assert!(fields.contains(", tags: COUNT { (:User)-[:TAGGED]->(u) }"), "{fields}");
    assert!(columns.contains(", COUNT { (:User)-[:TAGGED]->(u) } AS tags"), "{columns}");
}

#[test]
fn collections_have_no_query() {
    let source = StreamSource::Collection { author_id: "a".to_string(), post_id: "p".to_string() };
    let r = post_stream(
        source,
        StreamSorting::Timeline,
        SortOrder::Descending,
        &None,
        Pagination::default(),
        None,
    );
    match r {
        Err(GraphError::QueryBuildError(message)) => {
            assert_eq!(message, "StreamSource::Collection must be served by collect_post_keys");
        }
        other => panic!("{other:?}"),
    }
}
