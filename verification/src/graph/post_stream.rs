//! The query behind a stream of posts: its text, built clause by clause from the source,
//! the filters and the window, and the parameters that the clauses name.
use crate::graph::error::GraphError;
use crate::graph::query::{
    list_view, texts_view, BoltType, BoltView, Query, QueryView, TelemetryValue, TelemetryView,
};
use crate::post::source::{
    law_kinds_are_stored_by_their_names, KindFilter, PostKind, StreamSource,
};
use crate::text::{decimal, decimal_text, lemma_views_push, views};
use crate::types::{DomainTrust, Float, Pagination, SortOrder, StreamSorting};
use vstd::prelude::*;

verus! {

/// Cap on the entries that a query skips: keeps a route from producing excessive skip cost.
pub const MAX_QUERY_SKIP: usize = 10_000;

/// Cap on the entries that a query returns: keeps a route from producing runaway results.
pub const MAX_QUERY_LIMIT: usize = 1_000;

/// Binds the observer.
pub const OBSERVER_MATCH: &'static str = "MATCH (observer:User {id: $observer_id})\n";

/// Authors that the observer follows.
pub const FOLLOWING_MATCH: &'static str =
    "MATCH (observer)-[:FOLLOWS]->(author)\nWHERE author.id <> $observer_id\n";

/// Authors that follow the observer.
pub const FOLLOWERS_MATCH: &'static str =
    "MATCH (observer)<-[:FOLLOWS]-(author)\nWHERE author.id <> $observer_id\n";

/// Authors that the observer follows and that follow back.
pub const FRIENDS_MATCH: &'static str =
    "MATCH (observer)-[:FOLLOWS]->(author)-[:FOLLOWS]->(observer)\nWHERE author.id <> $observer_id\n";

/// Posts that the observer bookmarked.
pub const BOOKMARKS_MATCH: &'static str = "MATCH (observer)-[:BOOKMARKED]->(p)\n";

/// Web-of-trust authors, up to the depth.
pub const WOT_MATCH_HEAD: &'static str = "MATCH (observer)-[:FOLLOWS*1..";

/// Web-of-trust authors, after the depth.
pub const WOT_MATCH_TAIL: &'static str = "]->(author:User)\nWHERE author.id <> $observer_id\n";

/// Authors that the observer tagged.
pub const DOMAIN_ME_MATCH: &'static str =
    "MATCH (observer)-[endorsement:TAGGED]->(author:User)\nWHERE endorsement.label IN $domain_tags\n";

/// Taggers reached by the observer, up to the depth.
pub const DOMAIN_NETWORK_MATCH_HEAD: &'static str =
    "CALL { WITH observer MATCH (observer)-[:FOLLOWS*1..";

/// Taggers reached by the observer and the authors that they tagged, after the depth.
pub const DOMAIN_NETWORK_MATCH_TAIL: &'static str =
    "]->(tagger:User) WHERE tagger.id <> observer.id RETURN DISTINCT tagger }\nMATCH (tagger)-[endorsement:TAGGED]->(author:User)\nWHERE endorsement.label IN $domain_tags\n";

/// Keeps each author once.
pub const DISTINCT_AUTHORS: &'static str = "WITH DISTINCT author\n";

/// Posts and their authors. For observer-anchored sources `author` is already bound, so
/// this expands their posts instead of enumerating all posts.
pub const POSTS_MATCH: &'static str = "MATCH (p:Post)<-[:AUTHORED]-(author:User)\n";

/// Tags on the posts.
pub const TAGS_MATCH: &'static str = "MATCH (:User)-[tag:TAGGED]->(p)\n";

/// Posts with one of the labels.
pub const LABELS_CONDITION: &'static str = "tag.label IN $labels";

/// Posts of one author.
pub const AUTHOR_CONDITION: &'static str = "author.id = $author_id";

/// Posts of one kind.
pub const KIND_CONDITION: &'static str = "p.kind = $kind";

/// Posts of any kind but some. The IS NULL guard is load-bearing: with three-valued
/// logic, `NOT p.kind IN [...]` is NULL (row dropped) for posts whose kind was never set.
pub const EXCLUDE_KINDS_CONDITION: &'static str =
    "(p.kind IS NULL OR NOT p.kind IN $exclude_kinds)";

/// Posts that are no reply.
pub const PARENTS_ONLY_CONDITION: &'static str = "NOT ( (p)-[:REPLIED]->(:Post) )";

/// Keeps each post once.
pub const DISTINCT_POSTS: &'static str = "WITH DISTINCT p, author\n";

/// Counts the engagement of each post. Each count is its own COUNT{} subquery, so they
/// don't multiply into a cartesian product per post.
pub const ENGAGEMENT_COUNT: &'static str = "
                WITH p, author,
                    COUNT { (p)<-[:TAGGED]-(:User) }
                    + COUNT { (p)<-[:REPLIED]-(:Post) }
                    + COUNT { (p)<-[:REPOSTED]-(:Post) } AS total_engagement
                ";

/// The condition, if it applies.
pub open spec fn only_if(applies: bool, condition: Seq<char>) -> Seq<Seq<char>> {
    if applies {
        seq![condition]
    } else {
        Seq::empty()
    }
}

/// The conditions, one to a line: the first after `WHERE`, the others after `AND`.
pub open spec fn where_clause(conditions: Seq<Seq<char>>) -> Seq<char>
    decreases conditions.len(),
{
    if conditions.len() == 0 {
        Seq::empty()
    } else {
        where_clause(conditions.drop_last()) + condition_line(
            conditions.last(),
            conditions.len() > 1,
        )
    }
}

/// A condition on its line.
pub open spec fn condition_line(condition: Seq<char>, where_clause_applied: bool) -> Seq<char> {
    (if where_clause_applied {
        "AND "@
    } else {
        "WHERE "@
    }) + condition + "\n"@
}

/// Appends a condition to the query, using `WHERE` if no `WHERE` clause has been applied
/// yet, or `AND` if one is already present.
pub fn append_condition(cypher: &mut String, condition: &str, where_clause_applied: &mut bool)
    ensures
        final(cypher)@ == old(cypher)@ + condition_line(condition@, *old(where_clause_applied)),
        *final(where_clause_applied) == true,
{
    let ghost before = cypher@;
    if *where_clause_applied {
        cypher.append("AND ");
    } else {
        cypher.append("WHERE ");
        *where_clause_applied = true;
    }
    cypher.append(condition);
    cypher.append("\n");
    assert(cypher@ =~= before + condition_line(condition@, *old(where_clause_applied)));
}

/// How the source binds its authors or posts. It precedes the posts MATCH: a CALL subquery
/// executes once per incoming row and the planner cannot hoist it, so emitting it after the
/// posts MATCH would re-run the reach traversal for every post in the graph. The
/// web-of-trust sources bind, filter and dedupe authors here, since variable-length
/// traversals yield one row per path.
pub open spec fn source_clause(source: StreamSource) -> Seq<char> {
    match source {
        StreamSource::Following { .. } => FOLLOWING_MATCH@,
        StreamSource::Followers { .. } => FOLLOWERS_MATCH@,
        StreamSource::Friends { .. } => FRIENDS_MATCH@,
        StreamSource::Bookmarks { .. } => BOOKMARKS_MATCH@,
        StreamSource::Wot { depth, .. } => WOT_MATCH_HEAD@ + decimal(depth.depth() as nat)
            + WOT_MATCH_TAIL@ + DISTINCT_AUTHORS@,
        StreamSource::WotDomain { trust: DomainTrust::Me, .. } => DOMAIN_ME_MATCH@
            + DISTINCT_AUTHORS@,
        StreamSource::WotDomain { trust: DomainTrust::Network(depth), .. } =>
            DOMAIN_NETWORK_MATCH_HEAD@ + decimal(depth.depth() as nat) + DOMAIN_NETWORK_MATCH_TAIL@
            + DISTINCT_AUTHORS@,
        _ => Seq::empty(),
    }
}

/// The observer, where the source has one.
pub open spec fn observer_clause(source: StreamSource) -> Seq<char> {
    if source.observer() is Some {
        OBSERVER_MATCH@
    } else {
        Seq::empty()
    }
}

/// What a filter by kind asks of a post.
pub open spec fn kind_conditions(kind: Option<KindFilter>) -> Seq<Seq<char>> {
    match kind {
        Some(KindFilter::Kind(_)) => seq![KIND_CONDITION@],
        Some(KindFilter::Exclude(_)) => seq![EXCLUDE_KINDS_CONDITION@],
        None => Seq::empty(),
    }
}

/// How a score compares to the resume cursor: paging goes on downward in a descending
/// stream and upward in an ascending one.
pub open spec fn start_operator(order: SortOrder) -> Seq<char> {
    match order {
        SortOrder::Descending => "<="@,
        SortOrder::Ascending => ">="@,
    }
}

/// How a score compares to the hard limit: a floor of a descending stream, a ceiling of
/// an ascending one.
pub open spec fn end_operator(order: SortOrder) -> Seq<char> {
    match order {
        SortOrder::Descending => ">="@,
        SortOrder::Ascending => "<="@,
    }
}

/// The bounds that a window puts on a score.
pub open spec fn score_conditions(
    score: Seq<char>,
    order: SortOrder,
    pagination: Pagination,
) -> Seq<Seq<char>> {
    only_if(pagination.start is Some, score + " "@ + start_operator(order) + " $start"@) + only_if(
        pagination.end is Some,
        score + " "@ + end_operator(order) + " $end"@,
    )
}

/// What a post must meet before its engagement is counted. Only the timeline is bounded
/// here: the engagement score has to be computed first. Bookmarks keep replies: they target
/// specific posts that the user picked.
pub open spec fn post_conditions(
    source: StreamSource,
    sorting: StreamSorting,
    order: SortOrder,
    tagged: bool,
    pagination: Pagination,
    kind: Option<KindFilter>,
) -> Seq<Seq<char>> {
    only_if(tagged, LABELS_CONDITION@) + only_if(source.author() is Some, AUTHOR_CONDITION@)
        + kind_conditions(kind) + only_if(!(source is Bookmarks), PARENTS_ONLY_CONDITION@) + (
    if sorting == StreamSorting::Timeline {
        score_conditions("p.indexed_at"@, order, pagination)
    } else {
        Seq::empty()
    })
}

/// The name of the sort key: the value that the cursor pages on.
pub open spec fn score_name(sorting: StreamSorting) -> Seq<char> {
    match sorting {
        StreamSorting::Timeline => "p.indexed_at"@,
        StreamSorting::TotalEngagement => "total_engagement"@,
    }
}

/// The word of a sort's direction.
pub open spec fn direction(order: SortOrder) -> Seq<char> {
    match order {
        SortOrder::Ascending => "ASC"@,
        SortOrder::Descending => "DESC"@,
    }
}

/// The count of the engagement and its bounds.
pub open spec fn engagement_clause(
    sorting: StreamSorting,
    order: SortOrder,
    pagination: Pagination,
) -> Seq<char> {
    match sorting {
        StreamSorting::Timeline => Seq::empty(),
        StreamSorting::TotalEngagement => ENGAGEMENT_COUNT@ + where_clause(
            score_conditions("total_engagement"@, order, pagination),
        ),
    }
}

/// What is returned and in which order. `p.id` is a deterministic secondary key, so equal
/// scores keep a stable order within a response.
pub open spec fn return_clause(sorting: StreamSorting, order: SortOrder) -> Seq<char> {
    "RETURN author.id AS author_id, p.id AS post_id, "@ + score_name(sorting)
        + " AS score\nORDER BY "@ + score_name(sorting) + " "@ + direction(order) + ", p.id "@
        + direction(order) + "\n"@
}

/// `keyword n`, with `n` no larger than `cap`.
pub open spec fn capped_clause(keyword: Seq<char>, n: Option<usize>, cap: usize) -> Seq<char> {
    match n {
        Some(v) => keyword + decimal(
            (if v < cap {
                v
            } else {
                cap
            }) as nat,
        ) + "\n"@,
        None => Seq::empty(),
    }
}

/// The entries to skip and to return.
pub open spec fn window_clause(skip: Option<usize>, limit: Option<usize>) -> Seq<char> {
    capped_clause("SKIP "@, skip, MAX_QUERY_SKIP) + capped_clause("LIMIT "@, limit, MAX_QUERY_LIMIT)
}

/// The text of the query behind a stream of posts.
pub open spec fn post_stream_cypher(
    source: StreamSource,
    sorting: StreamSorting,
    order: SortOrder,
    tagged: bool,
    pagination: Pagination,
    kind: Option<KindFilter>,
) -> Seq<char> {
    observer_clause(source) + source_clause(source) + POSTS_MATCH@ + (if tagged {
        TAGS_MATCH@
    } else {
        Seq::empty()
    }) + where_clause(post_conditions(source, sorting, order, tagged, pagination, kind))
        + DISTINCT_POSTS@ + engagement_clause(sorting, order, pagination) + return_clause(
        sorting,
        order,
    ) + window_clause(pagination.skip, pagination.limit)
}

/// The stored names of the kinds to exclude; an unrecognized kind is never excluded.
pub open spec fn excluded_names(kinds: Seq<PostKind>) -> Seq<BoltView>
    decreases kinds.len(),
{
    if kinds.len() == 0 {
        Seq::empty()
    } else if kinds.last() == PostKind::Unknown {
        excluded_names(kinds.drop_last())
    } else {
        excluded_names(kinds.drop_last()).push(BoltView::Text(kinds.last().stored_name()))
    }
}

/// `query` with `key` bound where there is a value.
pub open spec fn param_opt(query: QueryView, key: Seq<char>, value: Option<BoltView>) -> QueryView {
    match value {
        Some(v) => query.param(key, v),
        None => query,
    }
}

/// A text as a parameter.
pub open spec fn text_param(s: Option<Seq<char>>) -> Option<BoltView> {
    match s {
        Some(t) => Some(BoltView::Text(t)),
        None => None,
    }
}

/// A list of texts as a parameter.
pub open spec fn texts_param(l: Option<Seq<String>>) -> Option<BoltView> {
    match l {
        Some(t) => Some(BoltView::List(texts_view(t))),
        None => None,
    }
}

/// A double as a parameter.
pub open spec fn float_param(f: Option<Float>) -> Option<BoltView> {
    match f {
        Some(v) => Some(BoltView::Float(v.text@)),
        None => None,
    }
}

/// `query` with the parameters that the clauses of a post stream name.
pub open spec fn with_post_stream_params(
    query: QueryView,
    source: StreamSource,
    tags: Option<Vec<String>>,
    kind: Option<KindFilter>,
    pagination: Pagination,
) -> QueryView {
    let q = param_opt(query, "observer_id"@, text_param(source.observer()));
    let q = param_opt(q, "domain_tags"@, texts_param(source.domain_labels()));
    let q = param_opt(
        q,
        "labels"@,
        texts_param(
            match tags {
                Some(l) => Some(l@),
                None => None,
            },
        ),
    );
    let q = param_opt(q, "author_id"@, text_param(source.author()));
    let q = match kind {
        Some(KindFilter::Kind(k)) => q.param("kind"@, BoltView::Text(k.stored_name())),
        Some(KindFilter::Exclude(l)) => q.param(
            "exclude_kinds"@,
            BoltView::List(excluded_names(l@)),
        ),
        None => q,
    };
    let q = param_opt(q, "start"@, float_param(pagination.start));
    param_opt(q, "end"@, float_param(pagination.end))
}

/// The query behind a stream of posts.
pub open spec fn post_stream_view(
    source: StreamSource,
    sorting: StreamSorting,
    order: SortOrder,
    tags: Option<Vec<String>>,
    pagination: Pagination,
    kind: Option<KindFilter>,
) -> QueryView {
    with_post_stream_params(
        QueryView::plain(
            "post_stream"@,
            post_stream_cypher(source, sorting, order, tags is Some, pagination, kind),
        ).attr("source"@, TelemetryView::Str(source.name())).attr_opt("depth"@, source.wot_hops()),
        source,
        tags,
        kind,
        pagination,
    )
}

/// Appends how the source binds its authors or posts.
fn append_source_clause(cypher: &mut String, source: &StreamSource)
    ensures
        final(cypher)@ == old(cypher)@ + source_clause(*source),
{
    let ghost before = cypher@;
    match source {
        StreamSource::Following { .. } => cypher.append(FOLLOWING_MATCH),
        StreamSource::Followers { .. } => cypher.append(FOLLOWERS_MATCH),
        StreamSource::Friends { .. } => cypher.append(FRIENDS_MATCH),
        StreamSource::Bookmarks { .. } => cypher.append(BOOKMARKS_MATCH),
        StreamSource::Wot { depth, .. } => {
            let n = depth.text();
            cypher.append(WOT_MATCH_HEAD);
            cypher.append(n.as_str());
            cypher.append(WOT_MATCH_TAIL);
            cypher.append(DISTINCT_AUTHORS);
        },
        StreamSource::WotDomain { trust, .. } => match trust {
            DomainTrust::Me => {
                cypher.append(DOMAIN_ME_MATCH);
                cypher.append(DISTINCT_AUTHORS);
            },
            DomainTrust::Network(depth) => {
                let n = depth.text();
                cypher.append(DOMAIN_NETWORK_MATCH_HEAD);
                cypher.append(n.as_str());
                cypher.append(DOMAIN_NETWORK_MATCH_TAIL);
                cypher.append(DISTINCT_AUTHORS);
            },
        },
        _ => {},
    }
    assert(cypher@ =~= before + source_clause(*source));
}

/// Appends the conditions, one to a line.
fn append_conditions(cypher: &mut String, conditions: &Vec<String>)
    ensures
        final(cypher)@ == old(cypher)@ + where_clause(views(conditions@)),
{
    let ghost before = cypher@;
    let ghost all = views(conditions@);
    let mut where_clause_applied: bool = false;
    let mut i: usize = 0;
    assert(all.take(0) == Seq::<Seq<char>>::empty());
    while i < conditions.len()
        invariant
            i <= conditions.len(),
            all == views(conditions@),
            where_clause_applied == (i > 0),
            cypher@ == before + where_clause(all.take(i as int)),
        decreases conditions.len() - i,
    {
        append_condition(cypher, conditions[i].as_str(), &mut where_clause_applied);
        assert(all.take(i + 1).drop_last() == all.take(i as int));
        assert(cypher@ =~= before + where_clause(all.take(i + 1)));
        i = i + 1;
    }
    assert(all.take(i as int) == all);
}

/// Adds a condition to a list of them.
fn push_condition(conditions: &mut Vec<String>, condition: &str)
    ensures
        views(final(conditions)@) == views(old(conditions)@) + seq![condition@],
{
    let text = condition.to_owned();
    proof {
        lemma_views_push(old(conditions)@, text);
    }
    conditions.push(text);
    assert(views(conditions@) =~= views(old(conditions)@) + seq![condition@]);
}

/// Adds the bounds that a window puts on a score.
fn push_score_conditions(
    conditions: &mut Vec<String>,
    score: &str,
    order: SortOrder,
    pagination: &Pagination,
)
    ensures
        views(final(conditions)@) == views(old(conditions)@) + score_conditions(
            score@,
            order,
            *pagination,
        ),
{
    let (start_op, end_op) = match order {
        SortOrder::Descending => ("<=", ">="),
        SortOrder::Ascending => (">=", "<="),
    };
    let ghost before = views(conditions@);
    if pagination.start.is_some() {
        let text = score.to_owned().concat(" ").concat(start_op).concat(" $start");
        push_condition(conditions, text.as_str());
    }
    if pagination.end.is_some() {
        let text = score.to_owned().concat(" ").concat(end_op).concat(" $end");
        push_condition(conditions, text.as_str());
    }
    assert(views(conditions@) =~= before + score_conditions(score@, order, *pagination));
}

/// What a post must meet before its engagement is counted.
fn post_condition_list(
    source: &StreamSource,
    sorting: StreamSorting,
    order: SortOrder,
    tagged: bool,
    pagination: &Pagination,
    kind: &Option<KindFilter>,
) -> (r: Vec<String>)
    ensures
        views(r@) == post_conditions(*source, sorting, order, tagged, *pagination, *kind),
{
    let mut conditions: Vec<String> = Vec::new();
    assert(views(conditions@) =~= Seq::<Seq<char>>::empty());
    if tagged {
        push_condition(&mut conditions, LABELS_CONDITION);
    }
    assert(views(conditions@) =~= only_if(tagged, LABELS_CONDITION@));
    if source.get_author().is_some() {
        push_condition(&mut conditions, AUTHOR_CONDITION);
    }
    let ghost first = only_if(tagged, LABELS_CONDITION@) + only_if(
        source.author() is Some,
        AUTHOR_CONDITION@,
    );
    assert(views(conditions@) =~= first);
    match kind {
        Some(KindFilter::Kind(_)) => push_condition(&mut conditions, KIND_CONDITION),
        Some(KindFilter::Exclude(_)) => push_condition(&mut conditions, EXCLUDE_KINDS_CONDITION),
        None => {},
    }
    assert(views(conditions@) =~= first + kind_conditions(*kind));
    let bookmarks = match source {
        StreamSource::Bookmarks { .. } => true,
        _ => false,
    };
    if !bookmarks {
        push_condition(&mut conditions, PARENTS_ONLY_CONDITION);
    }
    assert(views(conditions@) =~= first + kind_conditions(*kind) + only_if(
        !(source is Bookmarks),
        PARENTS_ONLY_CONDITION@,
    ));
    if sorting == StreamSorting::Timeline {
        push_score_conditions(&mut conditions, "p.indexed_at", order, pagination);
    }
    assert(views(conditions@) =~= post_conditions(
        *source,
        sorting,
        order,
        tagged,
        *pagination,
        *kind,
    ));
    conditions
}

/// Appends `keyword n`, with `n` no larger than `cap`.
pub(crate) fn append_capped(cypher: &mut String, keyword: &str, n: Option<usize>, cap: usize)
    ensures
        final(cypher)@ == old(cypher)@ + capped_clause(keyword@, n, cap),
{
    let ghost before = cypher@;
    if let Some(v) = n {
        let capped: usize = if v < cap {
            v
        } else {
            cap
        };
        let text = decimal_text(capped as u64);
        cypher.append(keyword);
        cypher.append(text.as_str());
        cypher.append("\n");
    }
    assert(cypher@ =~= before + capped_clause(keyword@, n, cap));
}

/// Appends what is returned and in which order.
fn append_return_clause(cypher: &mut String, sorting: StreamSorting, order: SortOrder)
    ensures
        final(cypher)@ == old(cypher)@ + return_clause(sorting, order),
{
    let ghost before = cypher@;
    let score = match sorting {
        StreamSorting::Timeline => "p.indexed_at",
        StreamSorting::TotalEngagement => "total_engagement",
    };
    let dir = match order {
        SortOrder::Ascending => "ASC",
        SortOrder::Descending => "DESC",
    };
    cypher.append("RETURN author.id AS author_id, p.id AS post_id, ");
    cypher.append(score);
    cypher.append(" AS score\nORDER BY ");
    cypher.append(score);
    cypher.append(" ");
    cypher.append(dir);
    cypher.append(", p.id ");
    cypher.append(dir);
    cypher.append("\n");
    assert(cypher@ =~= before + return_clause(sorting, order));
}

/// The text of the query behind a stream of posts.
fn post_stream_text(
    source: &StreamSource,
    sorting: StreamSorting,
    order: SortOrder,
    tagged: bool,
    pagination: &Pagination,
    kind: &Option<KindFilter>,
) -> (r: String)
    ensures
        r@ == post_stream_cypher(*source, sorting, order, tagged, *pagination, *kind),
{
    let mut cypher = String::new();
    if source.get_observer().is_some() {
        cypher.append(OBSERVER_MATCH);
    }
    assert(cypher@ =~= observer_clause(*source));
    append_source_clause(&mut cypher, source);
    cypher.append(POSTS_MATCH);
    if tagged {
        cypher.append(TAGS_MATCH);
    }
    let conditions = post_condition_list(source, sorting, order, tagged, pagination, kind);
    append_conditions(&mut cypher, &conditions);
    cypher.append(DISTINCT_POSTS);
    let ghost before = cypher@;
    if sorting == StreamSorting::TotalEngagement {
        cypher.append(ENGAGEMENT_COUNT);
        let mut bounds: Vec<String> = Vec::new();
        push_score_conditions(&mut bounds, "total_engagement", order, pagination);
        assert(views(bounds@) =~= score_conditions("total_engagement"@, order, *pagination));
        append_conditions(&mut cypher, &bounds);
    }
    assert(cypher@ =~= before + engagement_clause(sorting, order, *pagination));
    append_return_clause(&mut cypher, sorting, order);
    append_capped(&mut cypher, "SKIP ", pagination.skip, MAX_QUERY_SKIP);
    append_capped(&mut cypher, "LIMIT ", pagination.limit, MAX_QUERY_LIMIT);
    assert(cypher@ =~= post_stream_cypher(*source, sorting, order, tagged, *pagination, *kind));
    cypher
}

/// Builds the query behind a stream of posts. A collection has no such query: its items
/// come from its own envelope.
pub fn post_stream(
    source: StreamSource,
    sorting: StreamSorting,
    order: SortOrder,
    tags: &Option<Vec<String>>,
    pagination: Pagination,
    kind: Option<KindFilter>,
) -> (r: Result<Query, GraphError>)
    ensures
        match r {
            Ok(q) => !(source is Collection) && q@ == post_stream_view(
                source,
                sorting,
                order,
                *tags,
                pagination,
                kind,
            ),
            Err(e) => source is Collection && (e matches GraphError::QueryBuildError(m) && m@
                == "StreamSource::Collection must be served by collect_post_keys"@),
        },
{
    if let StreamSource::Collection { .. } = &source {
        return Err(
            GraphError::QueryBuildError(
                "StreamSource::Collection must be served by collect_post_keys".to_owned(),
            ),
        );
    }
    let cypher = post_stream_text(&source, sorting, order, tags.is_some(), &pagination, &kind);
    let (source_attr, depth) = source.telemetry_dimensions();
    let query = Query::new("post_stream", cypher.as_str()).telemetry_attr(
        "source",
        TelemetryValue::Str(source_attr),
    ).telemetry_attr_opt("depth", depth);
    Ok(build_query_with_params(query, &source, tags, kind, &pagination))
}

/// The stored names of the kinds to exclude; an unrecognized kind is never excluded.
fn excluded_kinds(kinds: &Vec<PostKind>) -> (r: BoltType)
    ensures
        r@ == BoltView::List(excluded_names(kinds@)),
{
    let mut names: Vec<BoltType> = Vec::new();
    let mut i: usize = 0;
    assert(kinds@.take(0) == Seq::<PostKind>::empty());
    while i < kinds.len()
        invariant
            i <= kinds.len(),
            list_view(names@) == excluded_names(kinds@.take(i as int)),
        decreases kinds.len() - i,
    {
        let kind = kinds[i];
        assert(kinds@.take(i + 1).drop_last() == kinds@.take(i as int));
        assert(kinds@.take(i + 1).last() == kind);
        if kind != PostKind::Unknown {
            let ghost before = names@;
            names.push(BoltType::text(kind.name()));
            assert(names@.drop_last() == before);
        }
        i = i + 1;
    }
    assert(kinds@.take(i as int) == kinds@);
    BoltType::List(names)
}

/// Applies the necessary parameters to an already-constructed `Query`: those that the
/// source, the tag labels, the filter by kind and the window name.
pub fn build_query_with_params(
    query: Query,
    source: &StreamSource,
    tags: &Option<Vec<String>>,
    kind: Option<KindFilter>,
    pagination: &Pagination,
) -> (r: Query)
    ensures
        r@ == with_post_stream_params(query@, *source, *tags, kind, *pagination),
{
    let mut query = query;
    if let Some(observer_id) = source.get_observer() {
        query = query.param("observer_id", BoltType::text(observer_id));
    }
    if let Some(domain_tags) = source.get_domain_tags() {
        query = query.param("domain_tags", BoltType::texts(domain_tags));
    }
    if let Some(labels) = tags {
        query = query.param("labels", BoltType::texts(labels.as_slice()));
    }
    if let Some(author_id) = source.get_author() {
        query = query.param("author_id", BoltType::text(author_id));
    }
    match &kind {
        Some(KindFilter::Kind(post_kind)) => {
            query = query.param("kind", BoltType::text(post_kind.name()));
        },
        Some(KindFilter::Exclude(kinds)) => {
            query = query.param("exclude_kinds", excluded_kinds(kinds));
        },
        None => {},
    }
    if let Some(start) = &pagination.start {
        query = query.param("start", BoltType::Float(start.text.clone()));
    }
    if let Some(end) = &pagination.end {
        query = query.param("end", BoltType::Float(end.text.clone()));
    }
    query
}

/// Three texts one after another are the same however they are put together.
proof fn lemma_add_associates(a: Seq<char>, b: Seq<char>, c: Seq<char>)
    ensures
        a + b + c == a + (b + c),
{
    assert(a + b + c =~= a + (b + c));
}

/// A web-of-trust source binds its authors and keeps each of them once right before the
/// posts MATCH: the traversal, which yields one row per path, never runs once per post.
pub proof fn law_wot_binds_authors_before_posts(
    source: StreamSource,
    sorting: StreamSorting,
    order: SortOrder,
    tagged: bool,
    pagination: Pagination,
    kind: Option<KindFilter>,
) -> (parts: (Seq<char>, Seq<char>))
    requires
        source is Wot || source is WotDomain,
    ensures
        observer_clause(source) + source_clause(source) == parts.0 + DISTINCT_AUTHORS@,
        post_stream_cypher(source, sorting, order, tagged, pagination, kind) == parts.0
            + DISTINCT_AUTHORS@ + POSTS_MATCH@ + parts.1,
{
    let bound = match source {
        StreamSource::Wot { depth, .. } => WOT_MATCH_HEAD@ + decimal(depth.depth() as nat)
            + WOT_MATCH_TAIL@,
        StreamSource::WotDomain { trust: DomainTrust::Network(depth), .. } =>
            DOMAIN_NETWORK_MATCH_HEAD@ + decimal(depth.depth() as nat) + DOMAIN_NETWORK_MATCH_TAIL@,
        _ => DOMAIN_ME_MATCH@,
    };
    assert(source_clause(source) =~= bound + DISTINCT_AUTHORS@);
    let before = observer_clause(source) + bound;
    lemma_add_associates(observer_clause(source), bound, DISTINCT_AUTHORS@);
    let tags = if tagged {
        TAGS_MATCH@
    } else {
        Seq::empty()
    };
    let conditions = where_clause(
        post_conditions(source, sorting, order, tagged, pagination, kind),
    );
    let engagement = engagement_clause(sorting, order, pagination);
    let returned = return_clause(sorting, order);
    let window = window_clause(pagination.skip, pagination.limit);
    let after = tags + conditions + DISTINCT_POSTS@ + engagement + returned + window;
    let head = before + DISTINCT_AUTHORS@ + POSTS_MATCH@;
    lemma_add_associates(head, tags, conditions);
    lemma_add_associates(head, tags + conditions, DISTINCT_POSTS@);
    lemma_add_associates(head, tags + conditions + DISTINCT_POSTS@, engagement);
    lemma_add_associates(head, tags + conditions + DISTINCT_POSTS@ + engagement, returned);
    lemma_add_associates(
        head,
        tags + conditions + DISTINCT_POSTS@ + engagement + returned,
        window,
    );
    (before, after)
}

/// A parameter is bound exactly where the clause that names it is part of the text: no
/// placeholder is left unbound and nothing else is sent.
pub proof fn law_params_match_clauses(
    source: StreamSource,
    sorting: StreamSorting,
    order: SortOrder,
    tags: Option<Vec<String>>,
    pagination: Pagination,
    kind: Option<KindFilter>,
)
    ensures
        ({
            let bound = post_stream_view(source, sorting, order, tags, pagination, kind).params.dom();
            &&& bound.contains("observer_id"@) <==> source.observer() is Some
            &&& bound.contains("domain_tags"@) <==> source is WotDomain
            &&& bound.contains("labels"@) <==> tags is Some
            &&& bound.contains("author_id"@) <==> source.author() is Some
            &&& bound.contains("kind"@) <==> (kind matches Some(KindFilter::Kind(_)))
            &&& bound.contains("exclude_kinds"@) <==> (kind matches Some(KindFilter::Exclude(_)))
            &&& bound.contains("start"@) <==> pagination.start is Some
            &&& bound.contains("end"@) <==> pagination.end is Some
            &&& forall|name: Seq<char>| #[trigger]
                bound.contains(name) ==> seq![
                    "observer_id"@,
                    "domain_tags"@,
                    "labels"@,
                    "author_id"@,
                    "kind"@,
                    "exclude_kinds"@,
                    "start"@,
                    "end"@,
                ].contains(name)
        }),
{
    reveal_strlit("observer_id");
    reveal_strlit("domain_tags");
    reveal_strlit("labels");
    reveal_strlit("author_id");
    reveal_strlit("kind");
    reveal_strlit("exclude_kinds");
    reveal_strlit("start");
    reveal_strlit("end");
    let names = seq![
        "observer_id"@,
        "domain_tags"@,
        "labels"@,
        "author_id"@,
        "kind"@,
        "exclude_kinds"@,
        "start"@,
        "end"@,
    ];
    assert("observer_id"@[0] == 'o' && "domain_tags"@[0] == 'd');
    assert("observer_id"@.len() == 11 && "domain_tags"@.len() == 11 && "labels"@.len() == 6
        && "author_id"@.len() == 9 && "kind"@.len() == 4 && "exclude_kinds"@.len() == 13
        && "start"@.len() == 5 && "end"@.len() == 3);
    let bound = post_stream_view(source, sorting, order, tags, pagination, kind).params.dom();
    assert forall|name: Seq<char>| #[trigger] bound.contains(name) implies names.contains(name) by {
        assert(names[0] == "observer_id"@ && names[1] == "domain_tags"@ && names[2] == "labels"@
            && names[3] == "author_id"@ && names[4] == "kind"@ && names[5] == "exclude_kinds"@
            && names[6] == "start"@ && names[7] == "end"@);
    }
}

/// Only a stream of bookmarks holds replies: every other source asks for parents alone.
pub proof fn law_only_bookmarks_hold_replies(
    source: StreamSource,
    sorting: StreamSorting,
    order: SortOrder,
    tagged: bool,
    pagination: Pagination,
    kind: Option<KindFilter>,
)
    ensures
        post_conditions(source, sorting, order, tagged, pagination, kind).contains(
            PARENTS_ONLY_CONDITION@,
        ) <==> !(source is Bookmarks),
{
    reveal_strlit("NOT ( (p)-[:REPLIED]->(:Post) )");
    reveal_strlit("tag.label IN $labels");
    reveal_strlit("author.id = $author_id");
    reveal_strlit("p.kind = $kind");
    reveal_strlit("(p.kind IS NULL OR NOT p.kind IN $exclude_kinds)");
    reveal_strlit("p.indexed_at");
    reveal_strlit(" ");
    reveal_strlit("<=");
    reveal_strlit(">=");
    reveal_strlit(" $start");
    reveal_strlit(" $end");
    let all = post_conditions(source, sorting, order, tagged, pagination, kind);
    let head = only_if(tagged, LABELS_CONDITION@) + only_if(source.author() is Some, AUTHOR_CONDITION@)
        + kind_conditions(kind);
    assert(PARENTS_ONLY_CONDITION@.len() == 31 && LABELS_CONDITION@.len() == 20
        && AUTHOR_CONDITION@.len() == 22 && KIND_CONDITION@.len() == 14
        && EXCLUDE_KINDS_CONDITION@.len() == 48);
    if source is Bookmarks {
        let bounds = score_conditions("p.indexed_at"@, order, pagination);
        assert forall|i: int| 0 <= i < bounds.len() implies (#[trigger] bounds[i]).len() != 31 by {}
        assert forall|i: int| 0 <= i < head.len() implies (#[trigger] head[i]).len() != 31 by {}
        assert forall|i: int| 0 <= i < all.len() implies (#[trigger] all[i]).len() != 31 by {
            if i < head.len() {
                assert(all[i] == head[i]);
            } else {
                assert(all[i] == bounds[i - head.len()]);
            }
        }
    } else {
        assert(all[head.len() as int] == PARENTS_ONLY_CONDITION@);
    }
}

/// An unrecognized kind is never excluded, whatever the filter lists.
pub proof fn law_unknown_kind_never_excluded(kinds: Seq<PostKind>)
    ensures
        forall|i: int|
            0 <= i < excluded_names(kinds).len() ==> #[trigger] excluded_names(kinds)[i]
                != BoltView::Text(PostKind::Unknown.stored_name()),
    decreases kinds.len(),
{
    reveal_strlit("short");
    reveal_strlit("long");
    reveal_strlit("image");
    reveal_strlit("video");
    reveal_strlit("link");
    reveal_strlit("file");
    reveal_strlit("collection");
    reveal_strlit("unknown");
    if kinds.len() > 0 {
        law_unknown_kind_never_excluded(kinds.drop_last());
        assert(kinds.last() != PostKind::Unknown ==> kinds.last().stored_name().len()
            != PostKind::Unknown.stored_name().len());
    }
}

/// Turning a sort round swaps the comparison with the cursor and with the limit.
pub proof fn law_bounds_follow_direction()
    ensures
        start_operator(SortOrder::Ascending) == end_operator(SortOrder::Descending),
        start_operator(SortOrder::Descending) == end_operator(SortOrder::Ascending),
        start_operator(SortOrder::Ascending) != start_operator(SortOrder::Descending),
{
    reveal_strlit("<=");
    reveal_strlit(">=");
    assert("<="@[0] == '<' && ">="@[0] == '>');
}

/// However much is asked for, the text skips and returns no more than the caps.
pub proof fn law_window_is_capped(skip: usize, limit: usize)
    ensures
        window_clause(Some(skip), Some(limit)) == window_clause(
            Some(
                if skip < MAX_QUERY_SKIP {
                    skip
                } else {
                    MAX_QUERY_SKIP
                },
            ),
            Some(
                if limit < MAX_QUERY_LIMIT {
                    limit
                } else {
                    MAX_QUERY_LIMIT
                },
            ),
        ),
{
}

/// What stands in two lists put together stands in one of them.
proof fn lemma_contains_sum(a: Seq<Seq<char>>, b: Seq<Seq<char>>, x: Seq<char>)
    ensures
        (a + b).contains(x) <==> a.contains(x) || b.contains(x),
{
    if a.contains(x) {
        let i = choose|i: int| 0 <= i < a.len() && a[i] == x;
        assert((a + b)[i] == x);
    }
    if b.contains(x) {
        let i = choose|i: int| 0 <= i < b.len() && b[i] == x;
        assert((a + b)[a.len() + i] == x);
    }
}

/// A condition stands in its own list exactly where it applies.
proof fn lemma_contains_only_if(applies: bool, condition: Seq<char>, x: Seq<char>)
    ensures
        only_if(applies, condition).contains(x) <==> applies && condition == x,
{
    if applies {
        assert(only_if(applies, condition)[0] == condition);
    }
}

/// What the conditions of a stream of posts are, one by one.
proof fn lemma_post_conditions_contain(
    source: StreamSource,
    sorting: StreamSorting,
    order: SortOrder,
    tagged: bool,
    pagination: Pagination,
    kind: Option<KindFilter>,
    x: Seq<char>,
)
    ensures
        post_conditions(source, sorting, order, tagged, pagination, kind).contains(x) <==> {
            ||| tagged && x == LABELS_CONDITION@
            ||| source.author() is Some && x == AUTHOR_CONDITION@
            ||| (kind matches Some(KindFilter::Kind(_))) && x == KIND_CONDITION@
            ||| (kind matches Some(KindFilter::Exclude(_))) && x == EXCLUDE_KINDS_CONDITION@
            ||| !(source is Bookmarks) && x == PARENTS_ONLY_CONDITION@
            ||| sorting == StreamSorting::Timeline && pagination.start is Some && x
                == "p.indexed_at"@ + " "@ + start_operator(order) + " $start"@
            ||| sorting == StreamSorting::Timeline && pagination.end is Some && x
                == "p.indexed_at"@ + " "@ + end_operator(order) + " $end"@
        },
{
    let a = only_if(tagged, LABELS_CONDITION@);
    let b = only_if(source.author() is Some, AUTHOR_CONDITION@);
    let c = kind_conditions(kind);
    let d = only_if(!(source is Bookmarks), PARENTS_ONLY_CONDITION@);
    let start = only_if(
        pagination.start is Some,
        "p.indexed_at"@ + " "@ + start_operator(order) + " $start"@,
    );
    let end = only_if(
        pagination.end is Some,
        "p.indexed_at"@ + " "@ + end_operator(order) + " $end"@,
    );
    let e = if sorting == StreamSorting::Timeline {
        score_conditions("p.indexed_at"@, order, pagination)
    } else {
        Seq::empty()
    };
    lemma_contains_sum(a + b + c + d, e, x);
    lemma_contains_sum(a + b + c, d, x);
    lemma_contains_sum(a + b, c, x);
    lemma_contains_sum(a, b, x);
    lemma_contains_sum(start, end, x);
    lemma_contains_only_if(tagged, LABELS_CONDITION@, x);
    lemma_contains_only_if(source.author() is Some, AUTHOR_CONDITION@, x);
    lemma_contains_only_if(!(source is Bookmarks), PARENTS_ONLY_CONDITION@, x);
    lemma_contains_only_if(
        pagination.start is Some,
        "p.indexed_at"@ + " "@ + start_operator(order) + " $start"@,
        x,
    );
    lemma_contains_only_if(
        pagination.end is Some,
        "p.indexed_at"@ + " "@ + end_operator(order) + " $end"@,
        x,
    );
    match kind {
        Some(KindFilter::Kind(_)) => {
            assert(c[0] == KIND_CONDITION@);
        },
        Some(KindFilter::Exclude(_)) => {
            assert(c[0] == EXCLUDE_KINDS_CONDITION@);
        },
        None => {},
    }
}

/// A stream asks of its posts exactly what was asked for: labels where it is tagged, the author
/// where its source has one, the kind or the kinds to leave out, parents alone unless they are
/// bookmarks, and by time the bounds of the window: downward from the cursor to a floor, or upward
/// from the cursor to a ceiling.
pub proof fn law_conditions_are_those_asked_for(
    source: StreamSource,
    sorting: StreamSorting,
    order: SortOrder,
    tagged: bool,
    pagination: Pagination,
    kind: Option<KindFilter>,
)
    ensures
        ({
            let asked = post_conditions(source, sorting, order, tagged, pagination, kind);
            let timed = sorting == StreamSorting::Timeline;
            let down = order == SortOrder::Descending;
            &&& asked.contains("tag.label IN $labels"@) <==> tagged
            &&& asked.contains("author.id = $author_id"@) <==> source is Author
                || source is AuthorReplies || source is PostReplies
            &&& asked.contains("p.kind = $kind"@) <==> (kind matches Some(KindFilter::Kind(_)))
            &&& asked.contains("(p.kind IS NULL OR NOT p.kind IN $exclude_kinds)"@) <==> (
            kind matches Some(KindFilter::Exclude(_)))
            &&& asked.contains("NOT ( (p)-[:REPLIED]->(:Post) )"@) <==> !(source is Bookmarks)
            &&& asked.contains("p.indexed_at <= $start"@) <==> timed && down && pagination.start
                is Some
            &&& asked.contains("p.indexed_at >= $start"@) <==> timed && !down && pagination.start
                is Some
            &&& asked.contains("p.indexed_at >= $end"@) <==> timed && down && pagination.end is Some
            &&& asked.contains("p.indexed_at <= $end"@) <==> timed && !down && pagination.end
                is Some
        }),
{
    reveal_strlit("NOT ( (p)-[:REPLIED]->(:Post) )");
    reveal_strlit("tag.label IN $labels");
    reveal_strlit("author.id = $author_id");
    reveal_strlit("p.kind = $kind");
    reveal_strlit("(p.kind IS NULL OR NOT p.kind IN $exclude_kinds)");
    reveal_strlit("p.indexed_at");
    reveal_strlit(" ");
    reveal_strlit("<=");
    reveal_strlit(">=");
    reveal_strlit(" $start");
    reveal_strlit(" $end");
    reveal_strlit("p.indexed_at <= $start");
    reveal_strlit("p.indexed_at >= $start");
    reveal_strlit("p.indexed_at <= $end");
    reveal_strlit("p.indexed_at >= $end");
    let down_start = "p.indexed_at <= $start"@;
    let up_start = "p.indexed_at >= $start"@;
    let down_end = "p.indexed_at >= $end"@;
    let up_end = "p.indexed_at <= $end"@;
    assert("p.indexed_at"@ + " "@ + "<="@ + " $start"@ =~= down_start);
    assert("p.indexed_at"@ + " "@ + ">="@ + " $start"@ =~= up_start);
    assert("p.indexed_at"@ + " "@ + ">="@ + " $end"@ =~= down_end);
    assert("p.indexed_at"@ + " "@ + "<="@ + " $end"@ =~= up_end);
    assert(LABELS_CONDITION@.len() == 20 && LABELS_CONDITION@[0] == 't');
    assert(AUTHOR_CONDITION@.len() == 22 && AUTHOR_CONDITION@[0] == 'a');
    assert(KIND_CONDITION@.len() == 14 && EXCLUDE_KINDS_CONDITION@.len() == 48
        && PARENTS_ONLY_CONDITION@.len() == 31);
    assert(down_start.len() == 22 && down_start[0] == 'p' && down_start[13] == '<');
    assert(up_start.len() == 22 && up_start[0] == 'p' && up_start[13] == '>');
    assert(down_end.len() == 20 && down_end[0] == 'p' && down_end[13] == '>');
    assert(up_end.len() == 20 && up_end[0] == 'p' && up_end[13] == '<');
    let names = seq![
        LABELS_CONDITION@,
        AUTHOR_CONDITION@,
        KIND_CONDITION@,
        EXCLUDE_KINDS_CONDITION@,
        PARENTS_ONLY_CONDITION@,
        down_start,
        up_start,
        down_end,
        up_end,
    ];
    assert forall|k: int| 0 <= k < 9 implies post_conditions(
        source,
        sorting,
        order,
        tagged,
        pagination,
        kind,
    ).contains(#[trigger] names[k]) <==> {
        ||| tagged && names[k] == LABELS_CONDITION@
        ||| source.author() is Some && names[k] == AUTHOR_CONDITION@
        ||| (kind matches Some(KindFilter::Kind(_))) && names[k] == KIND_CONDITION@
        ||| (kind matches Some(KindFilter::Exclude(_))) && names[k] == EXCLUDE_KINDS_CONDITION@
        ||| !(source is Bookmarks) && names[k] == PARENTS_ONLY_CONDITION@
        ||| sorting == StreamSorting::Timeline && pagination.start is Some && names[k]
            == "p.indexed_at"@ + " "@ + start_operator(order) + " $start"@
        ||| sorting == StreamSorting::Timeline && pagination.end is Some && names[k]
            == "p.indexed_at"@ + " "@ + end_operator(order) + " $end"@
    } by {
        lemma_post_conditions_contain(source, sorting, order, tagged, pagination, kind, names[k]);
    }
    assert(names[0] == LABELS_CONDITION@ && names[1] == AUTHOR_CONDITION@ && names[2]
        == KIND_CONDITION@ && names[3] == EXCLUDE_KINDS_CONDITION@ && names[4]
        == PARENTS_ONLY_CONDITION@ && names[5] == down_start && names[6] == up_start && names[7]
        == down_end && names[8] == up_end);
}

/// Every parameter holds what was asked for: the observer, the labels, the author and the kinds of
/// the source and the filters, and the bounds of the window.
pub proof fn law_params_hold_what_was_asked_for(
    source: StreamSource,
    sorting: StreamSorting,
    order: SortOrder,
    tags: Option<Vec<String>>,
    pagination: Pagination,
    kind: Option<KindFilter>,
)
    ensures
        ({
            let params = post_stream_view(source, sorting, order, tags, pagination, kind).params;
            &&& source.observer() matches Some(o) ==> params["observer_id"@] == BoltView::Text(o)
            &&& source.author() matches Some(a) ==> params["author_id"@] == BoltView::Text(a)
            &&& source matches StreamSource::WotDomain { domain_tags, .. } ==> params["domain_tags"@]
                == BoltView::List(texts_view(domain_tags@))
            &&& tags matches Some(l) ==> params["labels"@] == BoltView::List(texts_view(l@))
            &&& kind matches Some(KindFilter::Kind(k)) ==> params["kind"@] == BoltView::Text(
                k.stored_name(),
            )
            &&& kind matches Some(KindFilter::Exclude(l)) ==> params["exclude_kinds"@]
                == BoltView::List(excluded_names(l@))
            &&& pagination.start matches Some(f) ==> params["start"@] == BoltView::Float(f.text@)
            &&& pagination.end matches Some(f) ==> params["end"@] == BoltView::Float(f.text@)
        }),
{
    reveal_strlit("observer_id");
    reveal_strlit("domain_tags");
    reveal_strlit("labels");
    reveal_strlit("author_id");
    reveal_strlit("kind");
    reveal_strlit("exclude_kinds");
    reveal_strlit("start");
    reveal_strlit("end");
    assert("observer_id"@[0] == 'o' && "domain_tags"@[0] == 'd');
    assert("observer_id"@.len() == 11 && "domain_tags"@.len() == 11 && "labels"@.len() == 6
        && "author_id"@.len() == 9 && "kind"@.len() == 4 && "exclude_kinds"@.len() == 13
        && "start"@.len() == 5 && "end"@.len() == 3);
}

/// A kind is left out exactly where the filter lists it; an unrecognized one never is.
pub proof fn law_listed_kinds_are_left_out(kinds: Seq<PostKind>, k: PostKind)
    ensures
        excluded_names(kinds).contains(BoltView::Text(k.stored_name())) <==> kinds.contains(k) && k
            != PostKind::Unknown,
        excluded_names(kinds).len() <= kinds.len(),
    decreases kinds.len(),
{
    if kinds.len() > 0 {
        let rest = kinds.drop_last();
        let last = kinds.last();
        let names = excluded_names(kinds);
        let before = excluded_names(rest);
        let name = BoltView::Text(k.stored_name());
        law_listed_kinds_are_left_out(rest, k);
        law_kinds_are_stored_by_their_names(k);
        law_kinds_are_stored_by_their_names(last);
        if kinds.contains(k) {
            let i = choose|i: int| 0 <= i < kinds.len() && kinds[i] == k;
            if i < rest.len() {
                assert(rest[i] == k);
            }
        }
        if rest.contains(k) {
            let i = choose|i: int| 0 <= i < rest.len() && rest[i] == k;
            assert(kinds[i] == k);
        }
        assert(kinds[kinds.len() - 1] == last);
        if before.contains(name) {
            let i = choose|i: int| 0 <= i < before.len() && before[i] == name;
            assert(names[i] == name);
        }
        if last != PostKind::Unknown {
            assert(names[names.len() - 1] == BoltView::Text(last.stored_name()));
            if names.contains(name) && !before.contains(name) {
                let i = choose|i: int| 0 <= i < names.len() && names[i] == name;
                assert(i == before.len());
            }
        }
    }
}

/// The window is written out in numbers: what is skipped and returned, no more than ten thousand and
/// one thousand, and nothing of either where it was not asked for.
pub proof fn law_window_is_written_out(skip: usize, limit: usize)
    ensures
        window_clause(Some(skip), None) == "SKIP "@ + decimal(
            (if skip < 10_000 {
                skip as nat
            } else {
                10_000
            }),
        ) + "\n"@,
        window_clause(None, Some(limit)) == "LIMIT "@ + decimal(
            (if limit < 1_000 {
                limit as nat
            } else {
                1_000
            }),
        ) + "\n"@,
        window_clause(Some(skip), Some(limit)) == window_clause(Some(skip), None) + window_clause(
            None,
            Some(limit),
        ),
        window_clause(None, None) == Seq::<char>::empty(),
{
    assert(window_clause(Some(skip), None) =~= capped_clause("SKIP "@, Some(skip), MAX_QUERY_SKIP));
    assert(window_clause(None, Some(limit)) =~= capped_clause(
        "LIMIT "@,
        Some(limit),
        MAX_QUERY_LIMIT,
    ));
    assert(window_clause(None, None) =~= Seq::<char>::empty());
}

/// A stream is returned in the order of the very score that it returns, by time or by engagement,
/// upward or downward as asked, with the post's id to tell equal scores apart.
pub proof fn law_streams_are_ordered_by_their_score(sorting: StreamSorting, order: SortOrder)
    ensures
        ({
            let score = if sorting == StreamSorting::Timeline {
                "p.indexed_at"@
            } else {
                "total_engagement"@
            };
            let way = if order == SortOrder::Ascending {
                "ASC"@
            } else {
                "DESC"@
            };
            return_clause(sorting, order) == "RETURN author.id AS author_id, p.id AS post_id, "@
                + score + " AS score\nORDER BY "@ + score + " "@ + way + ", p.id "@ + way + "\n"@
        }),
        start_operator(SortOrder::Descending) == "<="@,
        start_operator(SortOrder::Ascending) == ">="@,
        end_operator(SortOrder::Descending) == ">="@,
        end_operator(SortOrder::Ascending) == "<="@,
{
}

/// The engagement is counted and bounded exactly where a stream is sorted by it, downward from the
/// cursor to a floor or upward from the cursor to a ceiling.
pub proof fn law_engagement_is_bounded_where_it_sorts(
    sorting: StreamSorting,
    order: SortOrder,
    pagination: Pagination,
)
    ensures
        sorting == StreamSorting::Timeline ==> engagement_clause(sorting, order, pagination)
            == Seq::<char>::empty(),
        sorting == StreamSorting::TotalEngagement ==> engagement_clause(sorting, order, pagination)
            == ENGAGEMENT_COUNT@ + where_clause(
            only_if(
                pagination.start is Some,
                "total_engagement"@ + " "@ + (if order == SortOrder::Descending {
                    "<="@
                } else {
                    ">="@
                }) + " $start"@,
            ) + only_if(
                pagination.end is Some,
                "total_engagement"@ + " "@ + (if order == SortOrder::Descending {
                    ">="@
                } else {
                    "<="@
                }) + " $end"@,
            ),
        ),
{
}

} // verus!
