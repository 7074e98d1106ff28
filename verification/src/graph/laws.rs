//! What the texts of the queries ask of the graph: which relationships they follow, in which
//! direction, and between whom.
use crate::graph::get::{
    hot_tags_text, influencers_text, reach_subquery, resource_filter, resource_sort_key,
    tag_taggers_text, tagged_labels,
    HOT_TAGS_BY_REACH_HEAD, HOT_TAGS_BY_REACH_TAGGED, HOT_TAGS_BY_REACH_TAGGERS,
    HOT_TAGS_BY_REACH_TAIL, INFLUENCERS_BY_REACH_HEAD, INFLUENCERS_BY_REACH_TAIL,
    TAG_TAGGERS_BY_REACH_HEAD, TAG_TAGGERS_BY_REACH_TAIL,
};
use crate::graph::pattern::{
    arrow, arrow_back, draws, holds, lemma_decimal_digits, lemma_holds_around, lemma_holds_in_sum,
    lemma_holds_itself, lemma_no_arrow, lemma_no_arrow_back, lemma_no_edge, lemma_pair_stands,
    never_pairs, stands_at,
};
use crate::graph::post_stream::{
    condition_line, engagement_clause, observer_clause, only_if, post_conditions,
    post_stream_cypher, return_clause,
    source_clause, where_clause, window_clause, BOOKMARKS_MATCH, DISTINCT_AUTHORS, DISTINCT_POSTS,
    DOMAIN_ME_MATCH, DOMAIN_NETWORK_MATCH_HEAD, DOMAIN_NETWORK_MATCH_TAIL, FOLLOWERS_MATCH,
    FOLLOWING_MATCH, FRIENDS_MATCH, POSTS_MATCH, TAGS_MATCH, WOT_MATCH_HEAD, WOT_MATCH_TAIL,
};
use crate::post::source::{KindFilter, StreamSource};
use crate::text::{decimal, joined};
use crate::types::{
    DomainTrust, Pagination, ResourceSorting, SortOrder, StreamReach, StreamSorting, TaggedType,
};
use vstd::prelude::*;

verus! {

/// Whether a text asks that one node follows another.
pub open spec fn follows(text: Seq<char>, from: Seq<char>, to: Seq<char>) -> bool {
    draws(text, from, ":FOLLOWS"@, to)
}

/// Whether a text asks for a node within a number of follows from another.
pub open spec fn reaches(text: Seq<char>, from: Seq<char>, hops: u8, to: Seq<char>) -> bool {
    draws(text, from, ":FOLLOWS*1.."@ + decimal(hops as nat), to)
}

/// Whether a text asks that one node endorsed another with a tag.
pub open spec fn endorses(text: Seq<char>, from: Seq<char>, to: Seq<char>) -> bool {
    draws(text, from, "endorsement:TAGGED"@, to)
}

/// Whether a text asks that one node bookmarked another.
pub open spec fn bookmarks(text: Seq<char>, from: Seq<char>, to: Seq<char>) -> bool {
    draws(text, from, ":BOOKMARKED"@, to)
}

/// The last characters of the edges.
proof fn lemma_edges()
    ensures
        ":FOLLOWS"@.len() == 8 && ":FOLLOWS"@.last() == 'S',
        ":BOOKMARKED"@.len() == 11 && ":BOOKMARKED"@.last() == 'D',
        "endorsement:TAGGED"@.len() == 18 && "endorsement:TAGGED"@.last() == 'D',
{
    reveal_strlit(":FOLLOWS");
    reveal_strlit(":BOOKMARKED");
    reveal_strlit("endorsement:TAGGED");
}

/// The authors that the observer follows, and no others.
proof fn lemma_following()
    ensures
        follows(FOLLOWING_MATCH@, "observer"@, "author"@),
        !follows(FOLLOWING_MATCH@, "author"@, "observer"@),
        never_pairs(FOLLOWING_MATCH@, 'D', ']'),
{
    let t = FOLLOWING_MATCH@;
    reveal_strlit("MATCH (observer)-[:FOLLOWS]->(author)\nWHERE author.id <> $observer_id\n");
    reveal_strlit("(");
    reveal_strlit(")-[");
    reveal_strlit("]->(");
    reveal_strlit(")");
    reveal_strlit("observer");
    reveal_strlit("author");
    reveal_strlit(":FOLLOWS");
    let right = arrow("observer"@, ":FOLLOWS"@, "author"@);
    assert(t.subrange(6, 37) =~= right);
    assert(stands_at(t, right, 6));
    lemma_edges();
    assert(never_pairs(t, '<', '-'));
    lemma_no_arrow_back(t, "author"@, ":FOLLOWS"@, "observer"@);
    let wrong = arrow("author"@, ":FOLLOWS"@, "observer"@);
    assert forall|i: int| !stands_at(t, wrong, i) by {
        if stands_at(t, wrong, i) {
            lemma_pair_stands(t, wrong, i, 0);
            lemma_pair_stands(t, wrong, i, 8);
        }
    }
}

/// The authors that follow the observer, and no others.
proof fn lemma_followers()
    ensures
        follows(FOLLOWERS_MATCH@, "author"@, "observer"@),
        !follows(FOLLOWERS_MATCH@, "observer"@, "author"@),
        never_pairs(FOLLOWERS_MATCH@, 'D', ']'),
{
    let t = FOLLOWERS_MATCH@;
    reveal_strlit("MATCH (observer)<-[:FOLLOWS]-(author)\nWHERE author.id <> $observer_id\n");
    reveal_strlit("(");
    reveal_strlit(")<-[");
    reveal_strlit("]-(");
    reveal_strlit(")");
    reveal_strlit("observer");
    reveal_strlit("author");
    reveal_strlit(":FOLLOWS");
    let right = arrow_back("author"@, ":FOLLOWS"@, "observer"@);
    assert(t.subrange(6, 37) =~= right);
    assert(stands_at(t, right, 6));
    lemma_edges();
    assert(never_pairs(t, '-', '>'));
    lemma_no_arrow(t, "observer"@, ":FOLLOWS"@, "author"@);
    let wrong = arrow_back("observer"@, ":FOLLOWS"@, "author"@);
    assert forall|i: int| !stands_at(t, wrong, i) by {
        if stands_at(t, wrong, i) {
            lemma_pair_stands(t, wrong, i, 0);
            lemma_pair_stands(t, wrong, i, 8);
        }
    }
}

/// The authors that the observer follows and that follow back.
proof fn lemma_friends()
    ensures
        follows(FRIENDS_MATCH@, "observer"@, "author"@),
        follows(FRIENDS_MATCH@, "author"@, "observer"@),
        never_pairs(FRIENDS_MATCH@, 'D', ']'),
{
    let t = FRIENDS_MATCH@;
    reveal_strlit(
        "MATCH (observer)-[:FOLLOWS]->(author)-[:FOLLOWS]->(observer)\nWHERE author.id <> $observer_id\n",
    );
    reveal_strlit("(");
    reveal_strlit(")-[");
    reveal_strlit("]->(");
    reveal_strlit(")");
    reveal_strlit("observer");
    reveal_strlit("author");
    reveal_strlit(":FOLLOWS");
    let there = arrow("observer"@, ":FOLLOWS"@, "author"@);
    assert(t.subrange(6, 37) =~= there);
    assert(stands_at(t, there, 6));
    let back = arrow("author"@, ":FOLLOWS"@, "observer"@);
    assert(t.subrange(29, 60) =~= back);
    assert(stands_at(t, back, 29));
}

/// The posts that the observer bookmarked.
proof fn lemma_bookmarks()
    ensures
        bookmarks(BOOKMARKS_MATCH@, "observer"@, "p"@),
        never_pairs(BOOKMARKS_MATCH@, 'S', ']'),
        never_pairs(BOOKMARKS_MATCH@, '<', '-'),
        !holds(BOOKMARKS_MATCH@, "TAGGED]"@),
{
    let t = BOOKMARKS_MATCH@;
    reveal_strlit("MATCH (observer)-[:BOOKMARKED]->(p)\n");
    reveal_strlit("(");
    reveal_strlit(")-[");
    reveal_strlit("]->(");
    reveal_strlit(")");
    reveal_strlit("observer");
    reveal_strlit("p");
    reveal_strlit(":BOOKMARKED");
    reveal_strlit("TAGGED]");
    let right = arrow("observer"@, ":BOOKMARKED"@, "p"@);
    assert(t.subrange(6, 35) =~= right);
    assert(stands_at(t, right, 6));
    let tagged = "TAGGED]"@;
    assert forall|i: int| !stands_at(t, tagged, i) by {
        if stands_at(t, tagged, i) {
            lemma_pair_stands(t, tagged, i, 2);
        }
    }
}

/// The authors that the observer endorsed.
proof fn lemma_domain_me()
    ensures
        endorses(DOMAIN_ME_MATCH@ + DISTINCT_AUTHORS@, "observer"@, "author:User"@),
        !endorses(DOMAIN_ME_MATCH@ + DISTINCT_AUTHORS@, "tagger"@, "author:User"@),
        never_pairs(DOMAIN_ME_MATCH@ + DISTINCT_AUTHORS@, 'S', ']'),
        !bookmarks(DOMAIN_ME_MATCH@ + DISTINCT_AUTHORS@, "observer"@, "p"@),
{
    let t = DOMAIN_ME_MATCH@ + DISTINCT_AUTHORS@;
    reveal_strlit(
        "MATCH (observer)-[endorsement:TAGGED]->(author:User)\nWHERE endorsement.label IN $domain_tags\n",
    );
    reveal_strlit("WITH DISTINCT author\n");
    reveal_strlit("(");
    reveal_strlit(")-[");
    reveal_strlit(")<-[");
    reveal_strlit("]->(");
    reveal_strlit("]-(");
    reveal_strlit(")");
    reveal_strlit("observer");
    reveal_strlit("tagger");
    reveal_strlit("author:User");
    reveal_strlit("p");
    reveal_strlit("endorsement:TAGGED");
    reveal_strlit(":BOOKMARKED");
    let right = arrow("observer"@, "endorsement:TAGGED"@, "author:User"@);
    assert(t.subrange(6, 52) =~= right);
    assert(stands_at(t, right, 6));
    lemma_edges();
    assert(never_pairs(t, '<', '-'));
    lemma_no_arrow_back(t, "tagger"@, "endorsement:TAGGED"@, "author:User"@);
    lemma_no_arrow_back(t, "observer"@, ":BOOKMARKED"@, "p"@);
    let wrong = arrow("tagger"@, "endorsement:TAGGED"@, "author:User"@);
    assert forall|i: int| !stands_at(t, wrong, i) by {
        if stands_at(t, wrong, i) {
            lemma_pair_stands(t, wrong, i, 0);
        }
    }
    let other = arrow("observer"@, ":BOOKMARKED"@, "p"@);
    assert forall|i: int| !stands_at(t, other, i) by {
        if stands_at(t, other, i) {
            lemma_pair_stands(t, other, i, 11);
        }
    }
}

/// The authors within a number of follows from the observer.
proof fn lemma_wot(hops: u8)
    ensures
        ({
            let t = WOT_MATCH_HEAD@ + decimal(hops as nat) + WOT_MATCH_TAIL@ + DISTINCT_AUTHORS@;
            &&& reaches(t, "observer"@, hops, "author:User"@)
            &&& never_pairs(t, 'S', ']')
            &&& never_pairs(t, 'D', ']')
        }),
{
    let n = decimal(hops as nat);
    let t = WOT_MATCH_HEAD@ + n + WOT_MATCH_TAIL@ + DISTINCT_AUTHORS@;
    lemma_decimal_digits(hops as nat);
    reveal_strlit("MATCH (observer)-[:FOLLOWS*1..");
    reveal_strlit("]->(author:User)\nWHERE author.id <> $observer_id\n");
    reveal_strlit("WITH DISTINCT author\n");
    reveal_strlit("(");
    reveal_strlit(")-[");
    reveal_strlit("]->(");
    reveal_strlit(")");
    reveal_strlit("observer");
    reveal_strlit("author:User");
    reveal_strlit(":FOLLOWS*1..");
    let right = arrow("observer"@, ":FOLLOWS*1.."@ + n, "author:User"@);
    assert(WOT_MATCH_HEAD@.len() == 30 && right.len() == 40 + n.len());
    assert(t.subrange(6, (46 + n.len()) as int) =~= right);
    assert(stands_at(t, right, 6));
}

/// How a domain of trust binds the users whom a network endorsed.
spec fn domain_network(hops: u8) -> Seq<char> {
    DOMAIN_NETWORK_MATCH_HEAD@ + decimal(hops as nat) + DOMAIN_NETWORK_MATCH_TAIL@
        + DISTINCT_AUTHORS@
}

/// The taggers are within a number of follows from the observer.
proof fn lemma_domain_network_reaches(hops: u8)
    ensures
        reaches(domain_network(hops), "observer"@, hops, "tagger:User"@),
{
    let n = decimal(hops as nat);
    let head = DOMAIN_NETWORK_MATCH_HEAD@;
    let t = domain_network(hops);
    reveal_strlit("CALL { WITH observer MATCH (observer)-[:FOLLOWS*1..");
    reveal_strlit(
        "]->(tagger:User) WHERE tagger.id <> observer.id RETURN DISTINCT tagger }\nMATCH (tagger)-[endorsement:TAGGED]->(author:User)\nWHERE endorsement.label IN $domain_tags\n",
    );
    reveal_strlit("WITH DISTINCT author\n");
    reveal_strlit("(");
    reveal_strlit(")-[");
    reveal_strlit("]->(");
    reveal_strlit(")");
    reveal_strlit("observer");
    reveal_strlit("tagger:User");
    reveal_strlit(":FOLLOWS*1..");
    let reach = arrow("observer"@, ":FOLLOWS*1.."@ + n, "tagger:User"@);
    assert(head.len() == 51 && reach.len() == 40 + n.len());
    assert(t.subrange(27, (67 + n.len()) as int) =~= reach);
    assert(stands_at(t, reach, 27));
}

/// The taggers endorsed the authors.
proof fn lemma_domain_network_endorses(hops: u8)
    ensures
        endorses(domain_network(hops), "tagger"@, "author:User"@),
{
    let tail = DOMAIN_NETWORK_MATCH_TAIL@;
    reveal_strlit("CALL { WITH observer MATCH (observer)-[:FOLLOWS*1..");
    reveal_strlit(
        "]->(tagger:User) WHERE tagger.id <> observer.id RETURN DISTINCT tagger }\nMATCH (tagger)-[endorsement:TAGGED]->(author:User)\nWHERE endorsement.label IN $domain_tags\n",
    );
    reveal_strlit("WITH DISTINCT author\n");
    reveal_strlit("(");
    reveal_strlit(")-[");
    reveal_strlit("]->(");
    reveal_strlit(")");
    reveal_strlit("tagger");
    reveal_strlit("author:User");
    reveal_strlit("endorsement:TAGGED");
    let right = arrow("tagger"@, "endorsement:TAGGED"@, "author:User"@);
    assert(right.len() == 44);
    assert(tail.subrange(79, 123) =~= right);
    assert(stands_at(tail, right, 79));
    lemma_holds_around(
        DOMAIN_NETWORK_MATCH_HEAD@ + decimal(hops as nat),
        tail,
        DISTINCT_AUTHORS@,
        right,
    );
}

/// What a text that binds such a domain never holds side by side.
proof fn lemma_domain_network_pairs(hops: u8)
    ensures
        never_pairs(domain_network(hops), 'S', ']'),
        never_pairs(domain_network(hops), '<', '-'),
        never_pairs(domain_network(hops), ':', 'B'),
{
    lemma_decimal_digits(hops as nat);
    reveal_strlit("CALL { WITH observer MATCH (observer)-[:FOLLOWS*1..");
    reveal_strlit(
        "]->(tagger:User) WHERE tagger.id <> observer.id RETURN DISTINCT tagger }\nMATCH (tagger)-[endorsement:TAGGED]->(author:User)\nWHERE endorsement.label IN $domain_tags\n",
    );
    reveal_strlit("WITH DISTINCT author\n");
}

/// The observer endorses nobody in such a text, and bookmarks nothing.
proof fn lemma_domain_network_is_not_me(hops: u8)
    ensures
        !endorses(domain_network(hops), "observer"@, "author:User"@),
        !bookmarks(domain_network(hops), "observer"@, "p"@),
{
    let t = domain_network(hops);
    lemma_edges();
    lemma_domain_network_pairs(hops);
    lemma_decimal_digits(hops as nat);
    reveal_strlit("(");
    reveal_strlit(")-[");
    reveal_strlit("]->(");
    reveal_strlit(")");
    reveal_strlit("observer");
    reveal_strlit("author:User");
    reveal_strlit("p");
    reveal_strlit(":BOOKMARKED");
    reveal_strlit("endorsement:TAGGED");
    lemma_no_arrow_back(t, "observer"@, "endorsement:TAGGED"@, "author:User"@);
    lemma_no_arrow_back(t, "observer"@, ":BOOKMARKED"@, "p"@);
    let other = arrow("observer"@, ":BOOKMARKED"@, "p"@);
    assert forall|i: int| !stands_at(t, other, i) by {
        if stands_at(t, other, i) {
            lemma_pair_stands(t, other, i, 12);
        }
    }
    reveal_strlit("CALL { WITH observer MATCH (observer)-[:FOLLOWS*1..");
    reveal_strlit(
        "]->(tagger:User) WHERE tagger.id <> observer.id RETURN DISTINCT tagger }\nMATCH (tagger)-[endorsement:TAGGED]->(author:User)\nWHERE endorsement.label IN $domain_tags\n",
    );
    reveal_strlit("WITH DISTINCT author\n");
    let wrong = arrow("observer"@, "endorsement:TAGGED"@, "author:User"@);
    assert forall|i: int| !stands_at(t, wrong, i) by {
        if stands_at(t, wrong, i) {
            lemma_pair_stands(t, wrong, i, 0);
            lemma_pair_stands(t, wrong, i, 11);
        }
    }
}

/// The text of a stream's query draws the relation of its source, in its direction, and that of no
/// other source: the authors that the observer follows, those that follow the observer, both for
/// friends, the posts that the observer bookmarked, the users within the depth of a web of trust,
/// and those whom the observer, or the observer's network, endorsed. Sources without an observer
/// draw nothing.
pub proof fn law_sources_draw_their_relation(source: StreamSource)
    ensures
        ({
            let t = source_clause(source);
            &&& follows(t, "observer"@, "author"@) <==> source is Following || source is Friends
            &&& follows(t, "author"@, "observer"@) <==> source is Followers || source is Friends
            &&& bookmarks(t, "observer"@, "p"@) <==> source is Bookmarks
            &&& endorses(t, "observer"@, "author:User"@) <==> (
            source matches StreamSource::WotDomain { trust: DomainTrust::Me, .. })
            &&& endorses(t, "tagger"@, "author:User"@) <==> (
            source matches StreamSource::WotDomain { trust: DomainTrust::Network(_), .. })
            &&& source matches StreamSource::Wot { depth, .. } ==> reaches(
                t,
                "observer"@,
                depth.depth(),
                "author:User"@,
            )
            &&& source matches StreamSource::WotDomain {
                trust: DomainTrust::Network(depth),
                ..
            } ==> reaches(t, "observer"@, depth.depth(), "tagger:User"@)
            &&& t.len() == 0 <==> source.observer() is None
        }),
{
    let t = source_clause(source);
    lemma_edges();
    match source {
        StreamSource::Following { .. } => {
            lemma_following();
            lemma_other_edges(t);
        },
        StreamSource::Followers { .. } => {
            lemma_followers();
            lemma_other_edges(t);
        },
        StreamSource::Friends { .. } => {
            lemma_friends();
            lemma_other_edges(t);
        },
        StreamSource::Bookmarks { .. } => {
            lemma_bookmarks();
            lemma_no_edge(t, "observer"@, ":FOLLOWS"@, "author"@);
            lemma_no_edge(t, "author"@, ":FOLLOWS"@, "observer"@);
            lemma_bookmarks_endorse_nobody("observer"@);
            lemma_bookmarks_endorse_nobody("tagger"@);
        },
        StreamSource::Wot { depth, .. } => {
            lemma_wot(depth.depth());
            lemma_no_edge(t, "observer"@, ":FOLLOWS"@, "author"@);
            lemma_no_edge(t, "author"@, ":FOLLOWS"@, "observer"@);
            lemma_other_edges(t);
        },
        StreamSource::WotDomain { trust: DomainTrust::Me, .. } => {
            lemma_domain_me();
            lemma_no_edge(t, "observer"@, ":FOLLOWS"@, "author"@);
            lemma_no_edge(t, "author"@, ":FOLLOWS"@, "observer"@);
        },
        StreamSource::WotDomain { trust: DomainTrust::Network(depth), .. } => {
            lemma_domain_network_reaches(depth.depth());
            lemma_domain_network_endorses(depth.depth());
            lemma_domain_network_pairs(depth.depth());
            lemma_domain_network_is_not_me(depth.depth());
            lemma_no_edge(t, "observer"@, ":FOLLOWS"@, "author"@);
            lemma_no_edge(t, "author"@, ":FOLLOWS"@, "observer"@);
        },
        _ => {
            lemma_no_edge(t, "observer"@, ":FOLLOWS"@, "author"@);
            lemma_no_edge(t, "author"@, ":FOLLOWS"@, "observer"@);
            lemma_other_edges(t);
        },
    }
    reveal_strlit("MATCH (observer)-[:FOLLOWS]->(author)\nWHERE author.id <> $observer_id\n");
    reveal_strlit("MATCH (observer)<-[:FOLLOWS]-(author)\nWHERE author.id <> $observer_id\n");
    reveal_strlit(
        "MATCH (observer)-[:FOLLOWS]->(author)-[:FOLLOWS]->(observer)\nWHERE author.id <> $observer_id\n",
    );
    reveal_strlit("MATCH (observer)-[:BOOKMARKED]->(p)\n");
    reveal_strlit("WITH DISTINCT author\n");
}

/// A text without the end of an edge to a post or of an endorsement draws neither.
proof fn lemma_other_edges(t: Seq<char>)
    requires
        never_pairs(t, 'D', ']'),
    ensures
        !bookmarks(t, "observer"@, "p"@),
        !endorses(t, "observer"@, "author:User"@),
        !endorses(t, "tagger"@, "author:User"@),
{
    lemma_edges();
    lemma_no_edge(t, "observer"@, ":BOOKMARKED"@, "p"@);
    lemma_no_edge(t, "observer"@, "endorsement:TAGGED"@, "author:User"@);
    lemma_no_edge(t, "tagger"@, "endorsement:TAGGED"@, "author:User"@);
}

/// The text that binds bookmarks asks for no endorsement.
proof fn lemma_bookmarks_endorse_nobody(from: Seq<char>)
    ensures
        !endorses(BOOKMARKS_MATCH@, from, "author:User"@),
{
    let t = BOOKMARKS_MATCH@;
    reveal_strlit("MATCH (observer)-[:BOOKMARKED]->(p)\n");
    reveal_strlit("(");
    reveal_strlit(")-[");
    reveal_strlit("]->(");
    reveal_strlit(")");
    reveal_strlit("author:User");
    reveal_strlit("endorsement:TAGGED");
    lemma_edges();
    assert(never_pairs(t, '<', '-'));
    lemma_no_arrow_back(t, from, "endorsement:TAGGED"@, "author:User"@);
    let wrong = arrow(from, "endorsement:TAGGED"@, "author:User"@);
    assert forall|i: int| !stands_at(t, wrong, i) by {
        if stands_at(t, wrong, i) {
            let k = (from.len() + 4) as int;
            assert(wrong[k] == 'e' && wrong[k + 1] == 'n');
            lemma_pair_stands(t, wrong, i, k);
        }
    }
}

/// The text of a stream's query binds its observer and its source's relation: whatever the filters
/// and the window are, both stand in it.
pub proof fn law_streams_are_bound_by_their_source(
    source: StreamSource,
    sorting: StreamSorting,
    order: SortOrder,
    tagged: bool,
    pagination: Pagination,
    kind: Option<KindFilter>,
)
    ensures
        ({
            let text = post_stream_cypher(source, sorting, order, tagged, pagination, kind);
            &&& holds(text, source_clause(source))
            &&& source.observer() is Some ==> holds(text, "(observer:User {id: $observer_id})"@)
            &&& holds(text, "(p:Post)<-[:AUTHORED]-(author:User)"@)
            &&& source is Following || source is Friends ==> follows(text, "observer"@, "author"@)
            &&& source is Followers || source is Friends ==> follows(text, "author"@, "observer"@)
            &&& source is Bookmarks ==> bookmarks(text, "observer"@, "p"@)
        }),
{
    let observer = observer_clause(source);
    let bound = source_clause(source);
    let posts = POSTS_MATCH@;
    let start = observer + bound + posts;
    lemma_holds_itself(bound);
    lemma_holds_around(observer, bound, posts, bound);
    reveal_strlit("MATCH (p:Post)<-[:AUTHORED]-(author:User)\n");
    reveal_strlit("(p:Post)<-[:AUTHORED]-(author:User)");
    let written = "(p:Post)<-[:AUTHORED]-(author:User)"@;
    assert(posts.subrange(6, 41) =~= written);
    assert(stands_at(posts, written, 6));
    lemma_holds_in_sum(observer + bound, posts, written);
    lemma_stream_continues(source, sorting, order, tagged, pagination, kind, bound);
    lemma_stream_continues(source, sorting, order, tagged, pagination, kind, written);
    if source.observer() is Some {
        reveal_strlit("MATCH (observer:User {id: $observer_id})\n");
        reveal_strlit("(observer:User {id: $observer_id})");
        let named = "(observer:User {id: $observer_id})"@;
        assert(observer.subrange(6, 40) =~= named);
        assert(stands_at(observer, named, 6));
        lemma_holds_in_sum(observer, bound, named);
        lemma_holds_in_sum(observer + bound, posts, named);
        lemma_stream_continues(source, sorting, order, tagged, pagination, kind, named);
    }
    law_sources_draw_their_relation(source);
    let parts = seq![
        arrow("observer"@, ":FOLLOWS"@, "author"@),
        arrow_back("observer"@, ":FOLLOWS"@, "author"@),
        arrow("author"@, ":FOLLOWS"@, "observer"@),
        arrow_back("author"@, ":FOLLOWS"@, "observer"@),
        arrow("observer"@, ":BOOKMARKED"@, "p"@),
        arrow_back("observer"@, ":BOOKMARKED"@, "p"@),
    ];
    assert forall|k: int| 0 <= k < 6 && holds(bound, #[trigger] parts[k]) implies holds(
        post_stream_cypher(source, sorting, order, tagged, pagination, kind),
        parts[k],
    ) by {
        lemma_holds_around(observer, bound, posts, parts[k]);
        lemma_stream_continues(source, sorting, order, tagged, pagination, kind, parts[k]);
    }
    assert(parts[0] == arrow("observer"@, ":FOLLOWS"@, "author"@) && parts[1] == arrow_back(
        "observer"@,
        ":FOLLOWS"@,
        "author"@,
    ) && parts[2] == arrow("author"@, ":FOLLOWS"@, "observer"@) && parts[3] == arrow_back(
        "author"@,
        ":FOLLOWS"@,
        "observer"@,
    ) && parts[4] == arrow("observer"@, ":BOOKMARKED"@, "p"@) && parts[5] == arrow_back(
        "observer"@,
        ":BOOKMARKED"@,
        "p"@,
    ));
}

/// What stands in the beginning of a stream's query, up to its posts, stands in the whole of it.
proof fn lemma_stream_continues(
    source: StreamSource,
    sorting: StreamSorting,
    order: SortOrder,
    tagged: bool,
    pagination: Pagination,
    kind: Option<KindFilter>,
    part: Seq<char>,
)
    requires
        holds(observer_clause(source) + source_clause(source) + POSTS_MATCH@, part),
    ensures
        holds(post_stream_cypher(source, sorting, order, tagged, pagination, kind), part),
{
    let start = observer_clause(source) + source_clause(source) + POSTS_MATCH@;
    let tags = if tagged {
        TAGS_MATCH@
    } else {
        Seq::empty()
    };
    let conditions = where_clause(
        post_conditions(source, sorting, order, tagged, pagination, kind),
    );
    let engagement = engagement_clause(sorting, order, pagination);
    let returned = return_clause(sorting, order);
    let window = window_clause(pagination.skip, pagination.limit);
    lemma_holds_in_sum(start, tags, part);
    lemma_holds_in_sum(start + tags, conditions, part);
    lemma_holds_in_sum(start + tags + conditions, DISTINCT_POSTS@, part);
    lemma_holds_in_sum(start + tags + conditions + DISTINCT_POSTS@, engagement, part);
    lemma_holds_in_sum(start + tags + conditions + DISTINCT_POSTS@ + engagement, returned, part);
    lemma_holds_in_sum(
        start + tags + conditions + DISTINCT_POSTS@ + engagement + returned,
        window,
        part,
    );
}

/// A reach draws its relation, in its direction, and that of no other reach: the users whom the
/// user follows, those who follow the user, both for friends, and the users within the depth of a
/// web of trust.
pub proof fn law_reaches_draw_their_relation(reach: StreamReach)
    ensures
        ({
            let t = reach_subquery(reach);
            &&& follows(t, "user:User"@, "reach:User"@) <==> reach is Following || reach is Friends
            &&& (follows(t, "reach:User"@, "user:User"@) || follows(t, "reach"@, "user"@))
                <==> reach is Followers || reach is Friends
            &&& reach matches StreamReach::Wot(depth) ==> reaches(
                t,
                "user:User"@,
                depth.depth(),
                "reach:User"@,
            )
        }),
{
    let t = reach_subquery(reach);
    reveal_strlit("(");
    reveal_strlit(")-[");
    reveal_strlit(")<-[");
    reveal_strlit("]->(");
    reveal_strlit("]-(");
    reveal_strlit(")");
    reveal_strlit("user:User");
    reveal_strlit("reach:User");
    reveal_strlit("user");
    reveal_strlit("reach");
    reveal_strlit(":FOLLOWS");
    lemma_edges();
    let there = arrow("user:User"@, ":FOLLOWS"@, "reach:User"@);
    let there_back = arrow_back("user:User"@, ":FOLLOWS"@, "reach:User"@);
    let back = arrow("reach:User"@, ":FOLLOWS"@, "user:User"@);
    let back_back = arrow_back("reach:User"@, ":FOLLOWS"@, "user:User"@);
    let short = arrow("reach"@, ":FOLLOWS"@, "user"@);
    let short_back = arrow_back("reach"@, ":FOLLOWS"@, "user"@);
    match reach {
        StreamReach::Followers => {
            reveal_strlit("MATCH (user:User)<-[:FOLLOWS]-(reach:User)");
            assert(t.subrange(6, 42) =~= back_back);
            assert(stands_at(t, back_back, 6));
            assert(never_pairs(t, '-', '>'));
            lemma_no_arrow(t, "user:User"@, ":FOLLOWS"@, "reach:User"@);
            assert forall|i: int| !stands_at(t, there_back, i) by {
                if stands_at(t, there_back, i) {
                    lemma_pair_stands(t, there_back, i, 0);
                    lemma_pair_stands(t, there_back, i, 11);
                }
            }
        },
        StreamReach::Following => {
            reveal_strlit("MATCH (user:User)-[:FOLLOWS]->(reach:User)");
            assert(t.subrange(6, 42) =~= there);
            assert(stands_at(t, there, 6));
            assert(never_pairs(t, '<', '-'));
            lemma_no_arrow_back(t, "reach:User"@, ":FOLLOWS"@, "user:User"@);
            lemma_no_arrow_back(t, "reach"@, ":FOLLOWS"@, "user"@);
            assert forall|i: int| !stands_at(t, back, i) && !stands_at(t, short, i) by {
                if stands_at(t, back, i) {
                    lemma_pair_stands(t, back, i, 0);
                    lemma_pair_stands(t, back, i, 11);
                }
                if stands_at(t, short, i) {
                    lemma_pair_stands(t, short, i, 0);
                    lemma_pair_stands(t, short, i, 6);
                }
            }
        },
        StreamReach::Friends => {
            reveal_strlit("MATCH (user:User)-[:FOLLOWS]->(reach:User), (user)<-[:FOLLOWS]-(reach)");
            assert(t.subrange(6, 42) =~= there);
            assert(stands_at(t, there, 6));
            assert(t.subrange(44, 70) =~= short_back);
            assert(stands_at(t, short_back, 44));
        },
        StreamReach::Wot(depth) => {
            let n = decimal(depth.depth() as nat);
            lemma_decimal_digits(depth.depth() as nat);
            reveal_strlit("MATCH (user:User)-[:FOLLOWS*1..");
            reveal_strlit("]->(reach:User)");
            reveal_strlit(":FOLLOWS*1..");
            let right = arrow("user:User"@, ":FOLLOWS*1.."@ + n, "reach:User"@);
            assert(right.len() == 40 + n.len());
            assert(t.subrange(6, (46 + n.len()) as int) =~= right);
            assert(stands_at(t, right, 6));
            assert(never_pairs(t, 'S', ']'));
            lemma_no_edge(t, "user:User"@, ":FOLLOWS"@, "reach:User"@);
            lemma_no_edge(t, "reach:User"@, ":FOLLOWS"@, "user:User"@);
            lemma_no_edge(t, "reach"@, ":FOLLOWS"@, "user"@);
        },
    }
}

/// The queries for taggers, hot tags and influencers look at the users in reach of the user who is
/// named, and at what is tagged as asked.
pub proof fn law_reach_queries_look_at_their_reach(
    reach: StreamReach,
    tagged_type: Option<TaggedType>,
    taggers_limit: nat,
)
    ensures
        holds(tag_taggers_text(reach), reach_subquery(reach)),
        holds(hot_tags_text(reach, tagged_type, taggers_limit), reach_subquery(reach)),
        holds(influencers_text(reach), reach_subquery(reach)),
        holds(
            hot_tags_text(reach, tagged_type, taggers_limit),
            "(reach)-[tag:TAGGED]->(tagged:"@ + tagged_labels(tagged_type) + ")"@,
        ),
        holds(
            hot_tags_text(reach, tagged_type, taggers_limit),
            "[.."@ + decimal(taggers_limit) + "] AS taggers"@,
        ),
{
    let bound = reach_subquery(reach);
    lemma_holds_itself(bound);
    lemma_holds_around(TAG_TAGGERS_BY_REACH_HEAD@, bound, TAG_TAGGERS_BY_REACH_TAIL@, bound);
    lemma_holds_around(INFLUENCERS_BY_REACH_HEAD@, bound, INFLUENCERS_BY_REACH_TAIL@, bound);
    let a = HOT_TAGS_BY_REACH_HEAD@ + bound;
    let b = HOT_TAGS_BY_REACH_TAGGED@;
    let c = tagged_labels(tagged_type);
    let d = HOT_TAGS_BY_REACH_TAGGERS@;
    let e = decimal(taggers_limit);
    let f = HOT_TAGS_BY_REACH_TAIL@;
    lemma_holds_in_sum(HOT_TAGS_BY_REACH_HEAD@, bound, bound);
    lemma_holds_in_sum(a, b, bound);
    lemma_holds_in_sum(a + b, c, bound);
    lemma_holds_in_sum(a + b + c, d, bound);
    lemma_holds_in_sum(a + b + c + d, e, bound);
    lemma_holds_in_sum(a + b + c + d + e, f, bound);
    reveal_strlit("\n        MATCH (reach)-[tag:TAGGED]->(tagged:");
    reveal_strlit("(reach)-[tag:TAGGED]->(tagged:");
    reveal_strlit(")");
    reveal_strlit("[..");
    reveal_strlit("] AS taggers");
    reveal_strlit(
        ")
        WHERE user.id = $user_id AND tag.indexed_at >= $from AND tag.indexed_at < $to
        WITH
            tag.label AS label,
            COLLECT(DISTINCT reach.id)[..",
    );
    reveal_strlit(
        "] AS taggers,
            COUNT(DISTINCT tagged) AS uniqueTaggedCount,
            COUNT(DISTINCT reach.id) AS taggers_count
        WITH {
            label: label,
            taggers_id: taggers,
            tagged_count: uniqueTaggedCount,
            taggers_count: taggers_count
        } AS hot_tag
        ORDER BY hot_tag.tagged_count DESC, hot_tag.label ASC
        SKIP $skip LIMIT $limit
        RETURN COLLECT(hot_tag) as hot_tags
    ",
    );
    let tagged = "(reach)-[tag:TAGGED]->(tagged:"@ + c + ")"@;
    let middle = b + c + d;
    assert(b.len() == 45 && "(reach)-[tag:TAGGED]->(tagged:"@.len() == 30);
    assert(middle.subrange(15, (45 + c.len() + 1) as int) =~= tagged);
    assert(stands_at(middle, tagged, 15));
    assert(a + b + c + d =~= a + middle);
    lemma_holds_in_sum(a, middle, tagged);
    lemma_holds_in_sum(a + b + c + d, e, tagged);
    lemma_holds_in_sum(a + b + c + d + e, f, tagged);
    let shown = "[.."@ + e + "] AS taggers"@;
    let last = d + e + f;
    let k = d.len() - 3;
    assert(last.subrange(k, k + shown.len()) =~= shown);
    assert(stands_at(last, shown, k));
    assert(a + b + c + d + e + f =~= a + b + c + last);
    lemma_holds_in_sum(a + b + c, last, shown);
}

/// Every condition is written, the first after `WHERE` and the others after `AND`.
pub proof fn law_every_condition_is_written(conditions: Seq<Seq<char>>, i: int)
    requires
        0 <= i < conditions.len(),
    ensures
        holds(
            where_clause(conditions),
            (if i == 0 {
                "WHERE "@
            } else {
                "AND "@
            }) + conditions[i] + "\n"@,
        ),
    decreases conditions.len(),
{
    let line = (if i == 0 {
        "WHERE "@
    } else {
        "AND "@
    }) + conditions[i] + "\n"@;
    let before = where_clause(conditions.drop_last());
    let last = condition_line(conditions.last(), conditions.len() > 1);
    if i < conditions.len() - 1 {
        law_every_condition_is_written(conditions.drop_last(), i);
    } else {
        assert(last == line);
        lemma_holds_itself(line);
    }
    lemma_holds_in_sum(before, last, line);
}

/// A stream of resources asks for the app and for the labels exactly where they are given.
pub proof fn law_resources_are_filtered_as_asked()
    ensures
        resource_filter(false, false) == Seq::<char>::empty(),
        resource_filter(true, false) == "WHERE t.app = $app\n"@,
        resource_filter(false, true) == "WHERE t.label IN $labels\n"@,
        resource_filter(true, true) == "WHERE t.app = $app AND t.label IN $labels\n"@,
        resource_sort_key(ResourceSorting::Timeline) == "r.indexed_at"@,
        resource_sort_key(ResourceSorting::TaggersCount) == "taggers_count"@,
{
    reveal_with_fuel(joined, 3);
    reveal_strlit("WHERE ");
    reveal_strlit("\n");
    reveal_strlit(" AND ");
    reveal_strlit("t.app = $app");
    reveal_strlit("t.label IN $labels");
    reveal_strlit("WHERE t.app = $app\n");
    reveal_strlit("WHERE t.label IN $labels\n");
    reveal_strlit("WHERE t.app = $app AND t.label IN $labels\n");
    let a = "t.app = $app"@;
    let l = "t.label IN $labels"@;
    let none = Seq::<Seq<char>>::empty();
    assert(only_if(false, a) + only_if(false, l) =~= none);
    assert(only_if(true, a) + only_if(false, l) =~= seq![a]);
    assert(only_if(false, a) + only_if(true, l) =~= seq![l]);
    assert(only_if(true, a) + only_if(true, l) =~= seq![a, l]);
    assert(seq![a].drop_last() =~= none && seq![l].drop_last() =~= none);
    assert(seq![a, l].drop_last() =~= seq![a]);
    assert(joined(seq![a], " AND "@) =~= a);
    assert(joined(seq![l], " AND "@) =~= l);
    assert(joined(seq![a, l], " AND "@) =~= a + " AND "@ + l);
    assert(resource_filter(true, false) =~= "WHERE t.app = $app\n"@);
    assert(resource_filter(false, true) =~= "WHERE t.label IN $labels\n"@);
    assert(resource_filter(true, true) =~= "WHERE t.app = $app AND t.label IN $labels\n"@);
}

} // verus!
