//! Streams of posts: where their keys are read from, how the keys of many users are merged
//! into one page, and what is written to the indexes.
use crate::graph::error::GraphError;
use crate::graph::post_stream::{post_stream, post_stream_view};
use crate::graph::query::Query;
use crate::post::source::{KindFilter, PostKind, StreamSource};
use crate::sort::{is_stable_order, stable_order};
use crate::text::{lemma_views_push, split_at_first, split_once, views};
use crate::types::{Float, Pagination, SortOrder, StreamSorting};
use crate::uri::{opt_view, resource_of, strict_uri, ParsedUri, Resource, ResourceView};
use vstd::prelude::*;

verus! {

/// The most users whose posts are merged into one stream: streams of followers, followings
/// and friends are expensive.
pub const MAX_STREAM_USERS: usize = 200;

/// Seconds that a stream of posts may take in the graph, from the execution of its query to its
/// last row.
pub const GRAPH_BUDGET_SECS: u64 = 10;

/// Name of the index of all posts by time.
pub open spec fn timeline_key() -> Seq<Seq<char>> {
    seq!["Posts"@, "Global"@, "Timeline"@]
}

/// Name of the index of all posts by engagement.
pub open spec fn total_engagement_key() -> Seq<Seq<char>> {
    seq!["Posts"@, "Global"@, "TotalEngagement"@]
}

/// Name of the index of an author's posts that are no replies.
pub open spec fn author_parents_key(author_id: Seq<char>) -> Seq<Seq<char>> {
    seq!["Posts"@, "AuthorParents"@, author_id]
}

/// Name of the index of an author's replies.
pub open spec fn author_replies_key(author_id: Seq<char>) -> Seq<Seq<char>> {
    seq!["Posts"@, "AuthorReplies"@, author_id]
}

/// Name of the index of the replies to a post.
pub open spec fn post_replies_key(author_id: Seq<char>, post_id: Seq<char>) -> Seq<Seq<char>> {
    seq!["Posts"@, "PostReplies"@, author_id, post_id]
}

/// Name of the index of a user's bookmarks.
pub open spec fn bookmarks_key(user_id: Seq<char>) -> Seq<Seq<char>> {
    seq!["Bookmarks"@, "User"@, user_id]
}

/// Name of the index of all posts by time.
pub(crate) fn timeline_key_parts() -> (r: Vec<String>)
    ensures
        views(r@) == timeline_key(),
{
    let r = vec!["Posts".to_owned(), "Global".to_owned(), "Timeline".to_owned()];
    assert(views(r@) =~= timeline_key());
    r
}

/// Name of the index of all posts by engagement.
pub(crate) fn total_engagement_key_parts() -> (r: Vec<String>)
    ensures
        views(r@) == total_engagement_key(),
{
    let r = vec!["Posts".to_owned(), "Global".to_owned(), "TotalEngagement".to_owned()];
    assert(views(r@) =~= total_engagement_key());
    r
}

/// Name of the index of an author's posts that are no replies.
pub(crate) fn author_parents_key_parts(author_id: &str) -> (r: Vec<String>)
    ensures
        views(r@) == author_parents_key(author_id@),
{
    let r = vec!["Posts".to_owned(), "AuthorParents".to_owned(), author_id.to_owned()];
    assert(views(r@) =~= author_parents_key(author_id@));
    r
}

/// Name of the index of an author's replies.
pub(crate) fn author_replies_key_parts(author_id: &str) -> (r: Vec<String>)
    ensures
        views(r@) == author_replies_key(author_id@),
{
    let r = vec!["Posts".to_owned(), "AuthorReplies".to_owned(), author_id.to_owned()];
    assert(views(r@) =~= author_replies_key(author_id@));
    r
}

/// Name of the index of the replies to a post.
pub(crate) fn post_replies_key_parts(author_id: &str, post_id: &str) -> (r: Vec<String>)
    ensures
        views(r@) == post_replies_key(author_id@, post_id@),
{
    let r = vec![
        "Posts".to_owned(),
        "PostReplies".to_owned(),
        author_id.to_owned(),
        post_id.to_owned(),
    ];
    assert(views(r@) =~= post_replies_key(author_id@, post_id@));
    r
}

/// Name of the index of a user's bookmarks.
pub(crate) fn bookmarks_key_parts(user_id: &str) -> (r: Vec<String>)
    ensures
        views(r@) == bookmarks_key(user_id@),
{
    let r = vec!["Bookmarks".to_owned(), "User".to_owned(), user_id.to_owned()];
    assert(views(r@) =~= bookmarks_key(user_id@));
    r
}

/// The key of a post: its author and its id.
pub open spec fn post_key(author_id: Seq<char>, post_id: Seq<char>) -> Seq<char> {
    author_id + ":"@ + post_id
}

/// The key of a post: its author and its id.
pub(crate) fn post_key_text(author_id: &str, post_id: &str) -> (r: String)
    ensures
        r@ == post_key(author_id@, post_id@),
{
    author_id.to_owned().concat(":").concat(post_id)
}

/// A window of an index in score order.
#[derive(Debug, Clone, PartialEq, Eq)]
pub struct IndexRead {
    /// The parts of the index's name.
    pub key_parts: Vec<String>,
    pub start: Option<Float>,
    pub end: Option<Float>,
    pub skip: Option<usize>,
    pub limit: Option<usize>,
    pub order: SortOrder,
}

impl IndexRead {
    /// Whether this reads the index with a name, within a window, in an order.
    pub open spec fn reads(
        self,
        key: Seq<Seq<char>>,
        start: Option<Float>,
        end: Option<Float>,
        skip: Option<usize>,
        limit: Option<usize>,
        order: SortOrder,
    ) -> bool {
        &&& views(self.key_parts@) == key
        &&& self.start == start
        &&& self.end == end
        &&& self.skip == skip
        &&& self.limit == limit
        &&& self.order == order
    }
}

/// An entry of an index. `rank` orders the entries as their scores do, and `score` is the
/// score rounded to a whole number.
#[derive(Debug, Clone, PartialEq, Eq)]
pub struct ScoredEntry {
    pub member: String,
    pub rank: i64,
    pub score: u64,
}

/// Keys of the posts of a stream and the score that the next page resumes from.
#[derive(Debug, Clone, PartialEq, Eq)]
pub struct PostKeyStream {
    pub post_keys: Vec<String>,
    pub last_post_score: Option<u64>,
}

impl Default for PostKeyStream {
    fn default() -> (r: Self)
        ensures
            r.post_keys@.len() == 0,
            r.last_post_score is None,
    {
        PostKeyStream { post_keys: Vec::new(), last_post_score: None }
    }
}

/// The score that a page of entries is resumed from: that of its last entry.
pub open spec fn resume_score(entries: Seq<(String, u64)>) -> Option<u64> {
    if entries.len() == 0 {
        None
    } else {
        Some(entries.last().1)
    }
}

/// The keys of entries.
pub open spec fn keys_of(entries: Seq<(String, u64)>) -> Seq<Seq<char>> {
    entries.map_values(|e: (String, u64)| e.0@)
}

impl PostKeyStream {
    /// A stream of the given keys.
    pub fn new(post_keys: Vec<String>, last_post_score: Option<u64>) -> (r: Self)
        ensures
            r.post_keys == post_keys,
            r.last_post_score == last_post_score,
    {
        PostKeyStream { post_keys, last_post_score }
    }

    /// A stream of the keys of entries, which the score of the last entry resumes.
    pub fn from_scored_entries(entries: Vec<(String, u64)>) -> (r: Self)
        ensures
            views(r.post_keys@) == keys_of(entries@),
            r.last_post_score == resume_score(entries@),
    {
        let mut post_keys: Vec<String> = Vec::new();
        let mut last_post_score: Option<u64> = None;
        let mut i: usize = 0;
        assert(keys_of(entries@.take(0)) =~= Seq::<Seq<char>>::empty());
        assert(views(post_keys@) =~= Seq::<Seq<char>>::empty());
        while i < entries.len()
            invariant
                i <= entries.len(),
                views(post_keys@) == keys_of(entries@.take(i as int)),
                last_post_score == resume_score(entries@.take(i as int)),
            decreases entries.len() - i,
        {
            let key = entries[i].0.clone();
            proof {
                lemma_views_push(post_keys@, key);
                assert(keys_of(entries@.take(i + 1)) =~= keys_of(entries@.take(i as int)).push(
                    key@,
                ));
            }
            post_keys.push(key);
            last_post_score = Some(entries[i].1);
            i = i + 1;
        }
        assert(entries@.take(i as int) == entries@);
        PostKeyStream { post_keys, last_post_score }
    }

    /// Whether the stream holds no post.
    pub fn is_empty(&self) -> (r: bool)
        ensures
            r == (self.post_keys@.len() == 0),
    {
        self.post_keys.len() == 0
    }
}

/// A post to be shown: its author and its id.
#[derive(Debug, Clone, PartialEq, Eq)]
pub struct PostView {
    pub author_id: String,
    pub post_id: String,
}

/// Posts to be shown.
#[derive(Debug, PartialEq, Eq)]
pub struct PostStream(pub Vec<PostView>);

/// The users whose posts a stream merges.
#[derive(Debug, Clone, PartialEq, Eq)]
pub enum ReachSource {
    Following { observer_id: String },
    Followers { observer_id: String },
    Friends { observer_id: String },
}

/// How the keys of a stream are read from the indexes.
#[derive(Debug, Clone, PartialEq, Eq)]
pub enum IndexPlan {
    /// Read an index of post keys.
    Keys(IndexRead),
    /// Search the posts with a tag.
    ByTag { label: String, sorting: StreamSorting, pagination: Pagination },
    /// Read an index of the author's post ids.
    Author { author_id: String, read: IndexRead },
    /// Read and merge the posts of users around the observer, of whom at most `user_limit` are
    /// asked for.
    ByReach {
        source: ReachSource,
        user_limit: usize,
        order: SortOrder,
        pagination: Pagination,
    },
    /// There is nothing to read.
    Nothing,
}

/// Where the keys of a stream come from.
#[derive(Debug)]
pub enum StreamPlan {
    /// From the collection's own envelope.
    Collection { author_id: String, post_id: String, skip: Option<usize>, limit: Option<usize> },
    /// From the indexes.
    Index(IndexPlan),
    /// From the graph. The budget covers execution and streaming of the rows: a query is only
    /// submitted at first, and the heavy work happens while its rows are streamed.
    Graph { query: Query, budget_secs: u64 },
}

/// What is recorded of a web-of-trust stream: its source and depth, how long it took in
/// nanoseconds, and how many posts it holds where it did not fail.
#[derive(Debug, Clone, Copy, PartialEq, Eq)]
pub struct WotResult {
    pub source: &'static str,
    pub depth: u8,
    pub elapsed: u128,
    pub posts: Option<usize>,
}

/// Whether there is a sorted set for a combination of sorting, source, tags and filter. The
/// indexes carry no kind, so any filter by kind goes to the graph.
pub open spec fn is_indexed(
    sorting: StreamSorting,
    source: StreamSource,
    tags: Option<Vec<String>>,
    kind: Option<KindFilter>,
) -> bool {
    kind is None && match source {
        StreamSource::PostReplies { .. } => true,
        StreamSource::AuthorReplies { .. } => true,
        StreamSource::All => tags is None || tags->0@.len() == 1,
        StreamSource::Author { .. } => sorting == StreamSorting::Timeline && tags is None,
        StreamSource::Following { .. } => sorting == StreamSorting::Timeline && tags is None,
        StreamSource::Followers { .. } => sorting == StreamSorting::Timeline && tags is None,
        StreamSource::Friends { .. } => sorting == StreamSorting::Timeline && tags is None,
        StreamSource::Bookmarks { .. } => sorting == StreamSorting::Timeline && tags is None,
        StreamSource::Collection { .. } => false,
        StreamSource::Wot { .. } => false,
        StreamSource::WotDomain { .. } => false,
    }
}

/// Whether two windows are the same.
pub open spec fn same_window(a: Pagination, b: Pagination) -> bool {
    a.start == b.start && a.end == b.end && a.skip == b.skip && a.limit == b.limit
}

/// Whether a plan is the one for a source and its tags.
pub open spec fn index_planned_as(
    source: StreamSource,
    sorting: StreamSorting,
    order: SortOrder,
    tags: Option<Vec<String>>,
    p: Pagination,
    plan: IndexPlan,
) -> bool {
    match tags {
        None => match source {
            StreamSource::All => plan matches IndexPlan::Keys(read) && read.reads(
                match sorting {
                    StreamSorting::Timeline => timeline_key(),
                    StreamSorting::TotalEngagement => total_engagement_key(),
                },
                p.start,
                p.end,
                p.skip,
                p.limit,
                order,
            ),
            StreamSource::Bookmarks { observer_id } => plan matches IndexPlan::Keys(read)
                && read.reads(bookmarks_key(observer_id@), p.start, p.end, p.skip, p.limit, order),
            StreamSource::PostReplies { author_id, post_id } => plan matches IndexPlan::Keys(read)
                && read.reads(
                post_replies_key(author_id@, post_id@),
                p.start,
                p.end,
                p.skip,
                p.limit,
                order,
            ),
            StreamSource::Author { author_id } => plan matches IndexPlan::Author {
                author_id: a,
                read,
            } && a@ == author_id@ && read.reads(
                author_parents_key(author_id@),
                p.start,
                p.end,
                p.skip,
                p.limit,
                order,
            ),
            StreamSource::AuthorReplies { author_id } => plan matches IndexPlan::Author {
                author_id: a,
                read,
            } && a@ == author_id@ && read.reads(
                author_replies_key(author_id@),
                p.start,
                p.end,
                p.skip,
                p.limit,
                order,
            ),
            StreamSource::Following { observer_id } => plan matches IndexPlan::ByReach {
                source: ReachSource::Following { observer_id: o },
                user_limit,
                order: d,
                pagination,
            } && o@ == observer_id@ && user_limit == MAX_STREAM_USERS && d == order && same_window(
                pagination,
                p,
            ),
            StreamSource::Followers { observer_id } => plan matches IndexPlan::ByReach {
                source: ReachSource::Followers { observer_id: o },
                user_limit,
                order: d,
                pagination,
            } && o@ == observer_id@ && user_limit == MAX_STREAM_USERS && d == order && same_window(
                pagination,
                p,
            ),
            StreamSource::Friends { observer_id } => plan matches IndexPlan::ByReach {
                source: ReachSource::Friends { observer_id: o },
                user_limit,
                order: d,
                pagination,
            } && o@ == observer_id@ && user_limit == MAX_STREAM_USERS && d == order && same_window(
                pagination,
                p,
            ),
            _ => plan is Nothing,
        },
        Some(labels) => if source is All && labels@.len() == 1 {
            plan matches IndexPlan::ByTag { label, sorting: s, pagination } && label@ == labels@[0]@
                && s == sorting && pagination.start == p.start && pagination.end == p.end
                && pagination.skip == Some(
                match p.skip {
                    Some(n) => n,
                    None => 0,
                },
            ) && pagination.limit == Some(
                match p.limit {
                    Some(n) => n,
                    None => 10,
                },
            )
        } else {
            plan is Nothing
        },
    }
}

/// Whether a plan is the one for a stream.
pub open spec fn stream_planned_as(
    source: StreamSource,
    pagination: Pagination,
    order: SortOrder,
    sorting: StreamSorting,
    tags: Option<Vec<String>>,
    kind: Option<KindFilter>,
    plan: StreamPlan,
) -> bool {
    match source {
        StreamSource::Collection { author_id, post_id } => plan matches StreamPlan::Collection {
            author_id: a,
            post_id: p,
            skip,
            limit,
        } && a == author_id && p == post_id && skip == pagination.skip && limit
            == pagination.limit,
        _ => if is_indexed(sorting, source, tags, kind) {
            plan matches StreamPlan::Index(index) && index_planned_as(
                source,
                sorting,
                order,
                tags,
                pagination,
                index,
            )
        } else {
            plan matches StreamPlan::Graph { query, budget_secs } && budget_secs
                == GRAPH_BUDGET_SECS && query@ == post_stream_view(
                source,
                sorting,
                order,
                tags,
                pagination,
                kind,
            )
        },
    }
}

/// The user and the posts that an index holds of the user.
#[derive(Debug, Clone, PartialEq, Eq)]
pub struct UserPosts {
    pub user_id: String,
    /// The ids of the posts, with their scores.
    pub posts: Vec<ScoredEntry>,
}

/// A user and the posts that an index holds of the user, with texts as sequences.
#[verifier::ext_equal]
pub struct UserPostsView {
    pub user_id: Seq<char>,
    pub posts: Seq<(Seq<char>, i64, u64)>,
}

impl View for UserPosts {
    type V = UserPostsView;

    open spec fn view(&self) -> UserPostsView {
        UserPostsView {
            user_id: self.user_id@,
            posts: self.posts@.map_values(|e: ScoredEntry| (e.member@, e.rank, e.score)),
        }
    }
}

impl UserPosts {
    /// The same posts once more.
    fn copy(&self) -> (r: UserPosts)
        ensures
            r@ == self@,
    {
        let mut posts: Vec<ScoredEntry> = Vec::new();
        let mut i: usize = 0;
        while i < self.posts.len()
            invariant
                i <= self.posts.len(),
                posts@.len() == i,
                forall|j: int|
                    0 <= j < i ==> (#[trigger] posts@[j]).member@ == self.posts@[j].member@
                        && posts@[j].rank == self.posts@[j].rank && posts@[j].score
                        == self.posts@[j].score,
            decreases self.posts.len() - i,
        {
            let entry = &self.posts[i];
            posts.push(
                ScoredEntry { member: entry.member.clone(), rank: entry.rank, score: entry.score },
            );
            i = i + 1;
        }
        let r = UserPosts { user_id: self.user_id.clone(), posts };
        assert(r@.posts =~= self@.posts);
        r
    }
}

/// The views of users and their posts.
pub open spec fn user_views(users: Seq<UserPosts>) -> Seq<UserPostsView> {
    users.map_values(|u: UserPosts| u@)
}

/// The users that are no observer and their posts, in order.
pub open spec fn posts_of_others(found: Seq<UserPosts>, observer: Seq<char>) -> Seq<UserPostsView>
    decreases found.len(),
{
    if found.len() == 0 {
        Seq::empty()
    } else if found.last().user_id@ != observer {
        posts_of_others(found.drop_last(), observer).push(found.last()@)
    } else {
        posts_of_others(found.drop_last(), observer)
    }
}

/// The users whose posts are merged: the first ones.
pub open spec fn first_users(users: Seq<UserPostsView>) -> Seq<UserPostsView> {
    if users.len() <= MAX_STREAM_USERS {
        users
    } else {
        users.take(MAX_STREAM_USERS as int)
    }
}

/// The entries of users, user by user.
pub open spec fn entries_of(users: Seq<UserPostsView>) -> Seq<MergedView>
    decreases users.len(),
{
    if users.len() == 0 {
        Seq::empty()
    } else {
        entries_of(users.drop_last()) + user_entries(users.last())
    }
}

/// Whether `r` is the stream of the posts of users around an observer: a page of the merged posts
/// of the first users who are not the observer.
pub open spec fn streamed_by_source(
    found: Seq<UserPosts>,
    observer: Seq<char>,
    skip: Option<usize>,
    limit: Option<usize>,
    r: PostKeyStream,
) -> bool {
    exists|page: Seq<(String, u64)>| #[trigger]
        merged_as(entries_of(first_users(posts_of_others(found, observer))), skip, limit, page)
            && views(r.post_keys@) == keys_of(page) && r.last_post_score == resume_score(page)
}

/// A bound of a window once more.
fn copy_bound(bound: &Option<Float>) -> (r: Option<Float>)
    ensures
        r == *bound,
{
    match bound {
        Some(f) => Some(Float { text: f.text.clone() }),
        None => None,
    }
}

/// An entry of a merged stream.
#[verifier::ext_equal]
pub struct MergedView {
    pub key: Seq<char>,
    pub rank: i64,
    pub score: u64,
}

/// The entries of one user.
pub open spec fn user_entries(user: UserPostsView) -> Seq<MergedView> {
    user.posts.map_values(
        |p: (Seq<char>, i64, u64)| MergedView {
            key: post_key(user.user_id, p.0),
            rank: p.1,
            score: p.2,
        },
    )
}

/// The ranks of entries.
pub open spec fn ranks_of(entries: Seq<MergedView>) -> Seq<i64> {
    entries.map_values(|e: MergedView| e.rank)
}

/// Where a page begins in a list of `len` entries.
pub open spec fn page_start(skip: Option<usize>, len: int) -> int {
    match skip {
        Some(n) => if n < len {
            n as int
        } else {
            len
        },
        None => 0,
    }
}

/// Where a page ends in a list of `len` entries.
pub open spec fn page_end(skip: Option<usize>, limit: Option<usize>, len: int) -> int {
    match limit {
        Some(n) => if page_start(skip, len) + n < len {
            page_start(skip, len) + n
        } else {
            len
        },
        None => len,
    }
}

/// The page of a list: some entries are skipped, and no more than the limit are kept.
pub open spec fn page_of<T>(list: Seq<T>, skip: Option<usize>, limit: Option<usize>) -> Seq<T> {
    list.subrange(
        page_start(skip, list.len() as int),
        page_end(skip, limit, list.len() as int),
    )
}

/// The entries in the given order.
pub open spec fn arranged(entries: Seq<MergedView>, order: Seq<usize>) -> Seq<(Seq<char>, u64)> {
    order.map_values(|k: usize| (entries[k as int].key, entries[k as int].score))
}

/// The views of entries.
pub open spec fn entry_views(entries: Seq<(String, u64)>) -> Seq<(Seq<char>, u64)> {
    entries.map_values(|e: (String, u64)| (e.0@, e.1))
}

/// Whether `r` is a page of the merged entries, in stable descending order of their ranks.
pub open spec fn merged_as(
    entries: Seq<MergedView>,
    skip: Option<usize>,
    limit: Option<usize>,
    r: Seq<(String, u64)>,
) -> bool {
    exists|order: Seq<usize>| #[trigger]
        is_stable_order(ranks_of(entries), order) && entry_views(r) == page_of(
            arranged(entries, order),
            skip,
            limit,
        )
}

/// Bounds of a page of a list of `len` entries.
fn page_bounds(skip: Option<usize>, limit: Option<usize>, len: usize) -> (r: (usize, usize))
    ensures
        r.0 == page_start(skip, len as int),
        r.1 == page_end(skip, limit, len as int),
        r.0 <= r.1 <= len,
{
    let start: usize = match skip {
        Some(n) => if n < len {
            n
        } else {
            len
        },
        None => 0,
    };
    let end: usize = match limit {
        Some(n) => if n < len - start {
            start + n
        } else {
            len
        },
        None => len,
    };
    (start, end)
}

/// A merged entry in executable form.
struct MergedEntry {
    key: String,
    rank: i64,
    score: u64,
}

/// The views of merged entries.
spec fn merged_views(entries: Seq<MergedEntry>) -> Seq<MergedView> {
    entries.map_values(
        |e: MergedEntry| MergedView { key: e.key@, rank: e.rank, score: e.score },
    )
}

/// The entries of the first users, user by user.
fn gather_entries(users: &Vec<UserPosts>) -> (r: Vec<MergedEntry>)
    ensures
        merged_views(r@) == entries_of(first_users(user_views(users@))),
{
    let mut out: Vec<MergedEntry> = Vec::new();
    let ghost views = user_views(users@);
    let mut i: usize = 0;
    assert(views.take(0) =~= Seq::<UserPostsView>::empty());
    assert(merged_views(out@) =~= entries_of(views.take(0)));
    while i < users.len() && i < MAX_STREAM_USERS
        invariant
            i <= users.len(),
            i <= MAX_STREAM_USERS,
            views == user_views(users@),
            merged_views(out@) == entries_of(views.take(i as int)),
        decreases users.len() - i,
    {
        let user = &users[i];
        let ghost before = merged_views(out@);
        let ghost all = user_entries(user@);
        let mut j: usize = 0;
        assert(all.take(0) =~= Seq::<MergedView>::empty());
        assert(merged_views(out@) =~= before + all.take(0));
        while j < user.posts.len()
            invariant
                j <= user.posts.len(),
                all == user_entries(user@),
                merged_views(out@) == before + all.take(j as int),
            decreases user.posts.len() - j,
        {
            let entry = &user.posts[j];
            let ghost held = out@;
            out.push(
                MergedEntry {
                    key: post_key_text(user.user_id.as_str(), entry.member.as_str()),
                    rank: entry.rank,
                    score: entry.score,
                },
            );
            assert(merged_views(out@) =~= merged_views(held).push(all[j as int]));
            assert(all.take(j + 1) =~= all.take(j as int).push(all[j as int]));
            assert(merged_views(out@) =~= before + all.take(j + 1));
            j = j + 1;
        }
        assert(all.take(j as int) =~= all);
        assert(views.take(i + 1).drop_last() =~= views.take(i as int));
        assert(views.take(i + 1).last() == user@);
        i = i + 1;
    }
    assert(views.take(i as int) =~= first_users(views));
    out
}

/// What `serde_json::from_str` reads of a collection's envelope: the URIs that it lists;
/// nothing where the text is no envelope.
pub uninterp spec fn envelope_items(content: Seq<char>) -> Option<Seq<Seq<char>>>;

/// The views of an optional list of strings.
pub open spec fn items_view(items: Option<Vec<String>>) -> Option<Seq<Seq<char>>> {
    match items {
        Some(l) => Some(views(l@)),
        None => None,
    }
}

/// `serde_json::from_str` into `pubky_app_specs::PubkyAppCollectionContent`: the items of
/// the envelope that the content of a collection holds as JSON.
#[verifier::external_body]
fn parse_envelope(content: &str) -> (r: Option<Vec<String>>)
    ensures
        envelope_items(content@) == items_view(r),
{
    match serde_json::from_str::<pubky_app_specs::PubkyAppCollectionContent>(content) {
        Ok(envelope) => Some(envelope.items),
        Err(_) => None,
    }
}

/// The key of the post that a URI, once read, points at.
pub open spec fn key_at(
    parsed: Result<(Seq<char>, Seq<char>, Option<Seq<char>>), Seq<char>>,
) -> Option<Seq<char>> {
    match parsed {
        Ok(p) => match resource_of(p.1, p.2) {
            ResourceView::Post(post_id) => Some(post_key(p.0, post_id)),
            _ => None,
        },
        Err(_) => None,
    }
}

/// The keys of the posts that URIs point at; other URIs are left out.
pub open spec fn item_keys(items: Seq<Seq<char>>) -> Seq<Seq<char>>
    decreases items.len(),
{
    if items.len() == 0 {
        Seq::empty()
    } else {
        match key_at(strict_uri(items.last())) {
            Some(key) => item_keys(items.drop_last()).push(key),
            None => item_keys(items.drop_last()),
        }
    }
}

/// The key of the post that a URI, once read, points at.
pub fn post_key_at(parsed: &Result<ParsedUri, String>) -> (r: Option<String>)
    ensures
        opt_view(r) == (match parsed {
            Ok(p) => match p.resource@ {
                ResourceView::Post(post_id) => Some(post_key(p.user_id@, post_id)),
                _ => None,
            },
            Err(_) => None,
        }),
{
    match parsed {
        Ok(p) => match &p.resource {
            Resource::Post(post_id) => Some(post_key_text(p.user_id.as_str(), post_id.as_str())),
            _ => None,
        },
        Err(_) => None,
    }
}

/// The page of a list of strings.
pub fn page_of_keys(keys: &Vec<String>, skip: Option<usize>, limit: Option<usize>) -> (r: Vec<
    String,
>)
    ensures
        views(r@) == page_of(views(keys@), skip, limit),
{
    let (start, end) = page_bounds(skip, limit, keys.len());
    let mut out: Vec<String> = Vec::new();
    let ghost all = views(keys@);
    let mut i: usize = start;
    assert(all.len() == keys@.len());
    assert(all.subrange(start as int, start as int) =~= Seq::<Seq<char>>::empty());
    assert(views(out@) =~= all.subrange(start as int, start as int));
    while i < end
        invariant
            start <= i <= end <= keys.len(),
            all == views(keys@),
            views(out@) == all.subrange(start as int, i as int),
        decreases end - i,
    {
        let key = keys[i].clone();
        proof {
            lemma_views_push(out@, key);
            assert(all.subrange(start as int, i + 1) =~= all.subrange(start as int, i as int).push(
                key@,
            ));
        }
        out.push(key);
        i = i + 1;
    }
    out
}

/// The keys of the posts of rows.
pub open spec fn row_keys(rows: Seq<(String, String, i64)>) -> Seq<Seq<char>> {
    rows.map_values(|row: (String, String, i64)| post_key(row.0@, row.1@))
}

/// The score that rows are resumed from: that of the last one.
pub open spec fn row_score(rows: Seq<(String, String, i64)>) -> Option<u64> {
    if rows.len() == 0 {
        None
    } else {
        Some(rows.last().2 as u64)
    }
}

/// The authors and ids that post keys name; a key without a colon is left out.
pub open spec fn named_posts(post_keys: Seq<Seq<char>>) -> Seq<(Seq<char>, Seq<char>)>
    decreases post_keys.len(),
{
    if post_keys.len() == 0 {
        Seq::empty()
    } else {
        match split_at_first(post_keys.last(), ':') {
            Some(p) => named_posts(post_keys.drop_last()).push(p),
            None => named_posts(post_keys.drop_last()),
        }
    }
}

/// The authors and ids of posts.
pub open spec fn post_views(posts: Seq<PostView>) -> Seq<(Seq<char>, Seq<char>)> {
    posts.map_values(|p: PostView| (p.author_id@, p.post_id@))
}

/// The users that are no observer, in order.
pub open spec fn others(user_ids: Seq<Seq<char>>, observer: Seq<char>) -> Seq<Seq<char>>
    decreases user_ids.len(),
{
    if user_ids.len() == 0 {
        Seq::empty()
    } else if user_ids.last() != observer {
        others(user_ids.drop_last(), observer).push(user_ids.last())
    } else {
        others(user_ids.drop_last(), observer)
    }
}

impl PostStream {
    /// Adds the posts of another stream at the end.
    pub fn extend(&mut self, post_stream: PostStream)
        ensures
            final(self).0@ == old(self).0@ + post_stream.0@,
    {
        let mut more = post_stream.0;
        self.0.append(&mut more);
    }

    /// The posts of a stream whose keys were collected, to be looked up one by one; nothing
    /// where it has no keys.
    pub fn get_posts(collected: &PostKeyStream) -> (r: Option<Vec<PostView>>)
        ensures
            match r {
                Some(posts) => collected.post_keys@.len() > 0 && post_views(posts@) == named_posts(
                    views(collected.post_keys@),
                ),
                None => collected.post_keys@.len() == 0,
            },
    {
        if collected.is_empty() {
            None
        } else {
            Some(Self::from_listed_post_ids(&collected.post_keys))
        }
    }

    /// The keys of a stream that were collected; nothing where there are none.
    pub fn get_post_keys(collected: PostKeyStream) -> (r: Option<PostKeyStream>)
        ensures
            r == (if collected.post_keys@.len() == 0 {
                None
            } else {
                Some(collected)
            }),
    {
        if collected.is_empty() {
            None
        } else {
            Some(collected)
        }
    }

    /// Decides where the keys of a stream come from. A collection has its own
    /// envelope-driven path, which is neither an index nor the graph.
    pub fn collect_post_keys(
        source: StreamSource,
        pagination: Pagination,
        order: SortOrder,
        sorting: StreamSorting,
        tags: Option<Vec<String>>,
        kind: Option<KindFilter>,
    ) -> (r: StreamPlan)
        ensures
            stream_planned_as(source, pagination, order, sorting, tags, kind, r),
    {
        if let StreamSource::Collection { author_id, post_id } = source {
            return StreamPlan::Collection {
                author_id,
                post_id,
                skip: pagination.skip,
                limit: pagination.limit,
            };
        }
        if Self::can_use_index(&sorting, &source, &tags, &kind) {
            StreamPlan::Index(Self::get_from_index(source, sorting, order, &tags, pagination))
        } else {
            match post_stream(source, sorting, order, &tags, pagination, kind) {
                Ok(query) => StreamPlan::Graph { query, budget_secs: GRAPH_BUDGET_SECS },
                Err(_) => {
                    assert(false);
                    StreamPlan::Index(IndexPlan::Nothing)
                },
            }
        }
    }

    /// Telemetry of a web-of-trust stream: its source and its depth, 0 for the observer
    /// alone; nothing for other sources.
    pub fn wot_dimensions(source: &StreamSource) -> (r: Option<(&'static str, u8)>)
        ensures
            match r {
                Some(d) => source.wot_hops() == Some(d.1) && d.0@ == source.name(),
                None => source.wot_hops() is None,
            },
    {
        match source.telemetry_dimensions() {
            (name, Some(depth)) => Some((name, depth)),
            (_, None) => None,
        }
    }

    /// What is recorded of a web-of-trust stream once its keys were collected, after `elapsed`
    /// nanoseconds. It is recorded on success and on failure, so that failures are not dropped
    /// from the latencies.
    pub fn wot_result<E>(
        dimensions: Option<(&'static str, u8)>,
        elapsed: u128,
        collected: &Result<PostKeyStream, E>,
    ) -> (r: Option<WotResult>)
        ensures
            r == (match dimensions {
                Some((source, depth)) => Some(
                    WotResult {
                        source,
                        depth,
                        elapsed,
                        posts: match collected {
                            Ok(keys) => Some(keys.post_keys@.len() as usize),
                            Err(_) => None,
                        },
                    },
                ),
                None => None,
            }),
    {
        match dimensions {
            Some((source, depth)) => {
                let posts: Option<usize> = match collected {
                    Ok(keys) => Some(keys.post_keys.len()),
                    Err(_) => None,
                };
                Some(WotResult { source, depth, elapsed, posts })
            },
            None => None,
        }
    }

    /// Determines if there is a quick access sorted set for this combination.
    pub fn can_use_index(
        sorting: &StreamSorting,
        source: &StreamSource,
        tags: &Option<Vec<String>>,
        kind: &Option<KindFilter>,
    ) -> (r: bool)
        ensures
            r == is_indexed(*sorting, *source, *tags, *kind),
    {
        if kind.is_some() {
            return false;
        }
        let timeline: bool = *sorting == StreamSorting::Timeline;
        match source {
            StreamSource::PostReplies { .. } => true,
            StreamSource::AuthorReplies { .. } => true,
            StreamSource::All => match tags {
                None => true,
                Some(labels) => labels.len() == 1,
            },
            StreamSource::Author { .. } => timeline && tags.is_none(),
            StreamSource::Following { .. } => timeline && tags.is_none(),
            StreamSource::Followers { .. } => timeline && tags.is_none(),
            StreamSource::Friends { .. } => timeline && tags.is_none(),
            StreamSource::Bookmarks { .. } => timeline && tags.is_none(),
            StreamSource::Collection { .. } => false,
            StreamSource::Wot { .. } => false,
            StreamSource::WotDomain { .. } => false,
        }
    }

    /// Decides how the keys of a stream are read from the indexes.
    pub fn get_from_index(
        source: StreamSource,
        sorting: StreamSorting,
        order: SortOrder,
        tags: &Option<Vec<String>>,
        pagination: Pagination,
    ) -> (r: IndexPlan)
        ensures
            index_planned_as(source, sorting, order, *tags, pagination, r),
    {
        let p = pagination;
        match tags {
            None => match source {
                StreamSource::All => IndexPlan::Keys(
                    Self::get_global_posts_keys(sorting, order, p.start, p.end, p.skip, p.limit),
                ),
                StreamSource::Bookmarks { observer_id } => IndexPlan::Keys(
                    Self::get_bookmarked_posts(
                        observer_id.as_str(),
                        order,
                        p.start,
                        p.end,
                        p.skip,
                        p.limit,
                    ),
                ),
                StreamSource::PostReplies { author_id, post_id } => IndexPlan::Keys(
                    Self::get_post_replies(
                        author_id.as_str(),
                        post_id.as_str(),
                        order,
                        p.start,
                        p.end,
                        p.skip,
                        p.limit,
                    ),
                ),
                StreamSource::Author { author_id } => {
                    let read = Self::get_author_posts(
                        author_id.as_str(),
                        order,
                        p.start,
                        p.end,
                        p.skip,
                        p.limit,
                        false,
                    );
                    IndexPlan::Author { author_id, read }
                },
                StreamSource::AuthorReplies { author_id } => {
                    let read = Self::get_author_posts(
                        author_id.as_str(),
                        order,
                        p.start,
                        p.end,
                        p.skip,
                        p.limit,
                        true,
                    );
                    IndexPlan::Author { author_id, read }
                },
                StreamSource::Following { observer_id } => IndexPlan::ByReach {
                    source: ReachSource::Following { observer_id },
                    user_limit: MAX_STREAM_USERS,
                    order,
                    pagination: p,
                },
                StreamSource::Followers { observer_id } => IndexPlan::ByReach {
                    source: ReachSource::Followers { observer_id },
                    user_limit: MAX_STREAM_USERS,
                    order,
                    pagination: p,
                },
                StreamSource::Friends { observer_id } => IndexPlan::ByReach {
                    source: ReachSource::Friends { observer_id },
                    user_limit: MAX_STREAM_USERS,
                    order,
                    pagination: p,
                },
                _ => IndexPlan::Nothing,
            },
            Some(labels) => {
                let all = match source {
                    StreamSource::All => true,
                    _ => false,
                };
                if all && labels.len() == 1 {
                    Self::get_posts_keys_by_tag(
                        labels[0].as_str(),
                        sorting,
                        p.start,
                        p.end,
                        p.skip,
                        p.limit,
                    )
                } else {
                    IndexPlan::Nothing
                }
            },
        }
    }

    /// The index of all posts, by time or by engagement.
    pub fn get_global_posts_keys(
        sorting: StreamSorting,
        order: SortOrder,
        start: Option<Float>,
        end: Option<Float>,
        skip: Option<usize>,
        limit: Option<usize>,
    ) -> (r: IndexRead)
        ensures
            r.reads(
                match sorting {
                    StreamSorting::Timeline => timeline_key(),
                    StreamSorting::TotalEngagement => total_engagement_key(),
                },
                start,
                end,
                skip,
                limit,
                order,
            ),
    {
        let key_parts = match sorting {
            StreamSorting::TotalEngagement => total_engagement_key_parts(),
            StreamSorting::Timeline => timeline_key_parts(),
        };
        IndexRead { key_parts, start, end, skip, limit, order }
    }

    /// The search for posts with a tag: the first ten where nothing else is asked for.
    pub fn get_posts_keys_by_tag(
        label: &str,
        sorting: StreamSorting,
        start: Option<Float>,
        end: Option<Float>,
        skip: Option<usize>,
        limit: Option<usize>,
    ) -> (r: IndexPlan)
        ensures
            r matches IndexPlan::ByTag { label: l, sorting: s, pagination } && l@ == label@ && s
                == sorting && pagination.start == start && pagination.end == end
                && pagination.skip == Some(
                match skip {
                    Some(n) => n,
                    None => 0,
                },
            ) && pagination.limit == Some(
                match limit {
                    Some(n) => n,
                    None => 10,
                },
            ),
    {
        let skip: usize = match skip {
            Some(n) => n,
            None => 0,
        };
        let limit: usize = match limit {
            Some(n) => n,
            None => 10,
        };
        IndexPlan::ByTag {
            label: label.to_owned(),
            sorting,
            pagination: Pagination { start, end, skip: Some(skip), limit: Some(limit) },
        }
    }

    /// The index of the posts of an author: parents only, or replies only.
    pub fn get_author_posts(
        user_id: &str,
        order: SortOrder,
        start: Option<Float>,
        end: Option<Float>,
        skip: Option<usize>,
        limit: Option<usize>,
        replies: bool,
    ) -> (r: IndexRead)
        ensures
            r.reads(
                if replies {
                    author_replies_key(user_id@)
                } else {
                    author_parents_key(user_id@)
                },
                start,
                end,
                skip,
                limit,
                order,
            ),
    {
        let key_parts = if replies {
            author_replies_key_parts(user_id)
        } else {
            author_parents_key_parts(user_id)
        };
        IndexRead { key_parts, start, end, skip, limit, order }
    }

    /// The stream of an author's posts, of which the index holds the ids.
    pub fn author_post_keys(user_id: &str, entries: &Vec<(String, u64)>) -> (r: PostKeyStream)
        ensures
            views(r.post_keys@) == entries@.map_values(
                |e: (String, u64)| post_key(user_id@, e.0@),
            ),
            r.last_post_score == resume_score(entries@),
    {
        let mut keyed: Vec<(String, u64)> = Vec::new();
        let mut i: usize = 0;
        while i < entries.len()
            invariant
                i <= entries.len(),
                keyed@.len() == i,
                forall|j: int|
                    0 <= j < i ==> (#[trigger] keyed@[j]).0@ == post_key(user_id@, entries@[j].0@)
                        && keyed@[j].1 == entries@[j].1,
            decreases entries.len() - i,
        {
            keyed.push((post_key_text(user_id, entries[i].0.as_str()), entries[i].1));
            i = i + 1;
        }
        assert(keys_of(keyed@) =~= entries@.map_values(
            |e: (String, u64)| post_key(user_id@, e.0@),
        ));
        PostKeyStream::from_scored_entries(keyed)
    }

    /// The users around an observer whose posts are merged: all but the observer.
    pub fn related_users(user_ids: &Vec<String>, observer_id: &str) -> (r: Vec<String>)
        ensures
            views(r@) == others(views(user_ids@), observer_id@),
    {
        let mut out: Vec<String> = Vec::new();
        let mut i: usize = 0;
        let ghost all = views(user_ids@);
        assert(all.take(0) == Seq::<Seq<char>>::empty());
        assert(views(out@) =~= others(all.take(0), observer_id@));
        while i < user_ids.len()
            invariant
                i <= user_ids.len(),
                all == views(user_ids@),
                views(out@) == others(all.take(i as int), observer_id@),
            decreases user_ids.len() - i,
        {
            let user_id = user_ids[i].as_str();
            assert(all.take(i + 1).drop_last() == all.take(i as int));
            assert(all.take(i + 1).last() == user_id@);
            let observer = *user_id == *observer_id;
            if !observer {
                let text = user_id.to_owned();
                proof {
                    lemma_views_push(out@, text);
                }
                out.push(text);
            }
            i = i + 1;
        }
        assert(all.take(i as int) == all);
        out
    }

    /// The index of a user's bookmarks.
    pub fn get_bookmarked_posts(
        user_id: &str,
        order: SortOrder,
        start: Option<Float>,
        end: Option<Float>,
        skip: Option<usize>,
        limit: Option<usize>,
    ) -> (r: IndexRead)
        ensures
            r.reads(bookmarks_key(user_id@), start, end, skip, limit, order),
    {
        IndexRead { key_parts: bookmarks_key_parts(user_id), start, end, skip, limit, order }
    }

    /// The index of the replies to a post.
    pub fn get_post_replies(
        author_id: &str,
        post_id: &str,
        order: SortOrder,
        start: Option<Float>,
        end: Option<Float>,
        skip: Option<usize>,
        limit: Option<usize>,
    ) -> (r: IndexRead)
        ensures
            r.reads(post_replies_key(author_id@, post_id@), start, end, skip, limit, order),
    {
        IndexRead {
            key_parts: post_replies_key_parts(author_id, post_id),
            start,
            end,
            skip,
            limit,
            order,
        }
    }

    /// The users whose indexes are read to merge their posts: the first ones of those given.
    /// Each is read whole, since the page is cut from the merged posts.
    pub fn users_to_merge(user_ids: &Vec<String>) -> (r: Vec<String>)
        ensures
            views(r@) == (if user_ids@.len() <= MAX_STREAM_USERS {
                views(user_ids@)
            } else {
                views(user_ids@).take(MAX_STREAM_USERS as int)
            }),
    {
        let r = page_of_keys(user_ids, None, Some(MAX_STREAM_USERS));
        assert(views(user_ids@).len() == user_ids@.len());
        assert(views(r@) =~= (if user_ids@.len() <= MAX_STREAM_USERS {
            views(user_ids@)
        } else {
            views(user_ids@).take(MAX_STREAM_USERS as int)
        }));
        r
    }

    /// How the posts of users are read before they are merged: of the first users, the index of
    /// posts that are no replies, within the window and in the order, without a page of its own.
    pub fn user_reads(
        user_ids: &Vec<String>,
        order: SortOrder,
        start: Option<Float>,
        end: Option<Float>,
    ) -> (r: Vec<IndexRead>)
        ensures
            r@.len() == (if user_ids@.len() <= MAX_STREAM_USERS {
                user_ids@.len()
            } else {
                MAX_STREAM_USERS as nat
            }),
            forall|i: int|
                0 <= i < r@.len() ==> (#[trigger] r@[i]).reads(
                    author_parents_key(user_ids@[i]@),
                    start,
                    end,
                    None,
                    None,
                    order,
                ),
    {
        let mut out: Vec<IndexRead> = Vec::new();
        let mut i: usize = 0;
        while i < user_ids.len() && i < MAX_STREAM_USERS
            invariant
                i <= user_ids.len(),
                i <= MAX_STREAM_USERS,
                out@.len() == i,
                forall|j: int|
                    0 <= j < i ==> (#[trigger] out@[j]).reads(
                        author_parents_key(user_ids@[j]@),
                        start,
                        end,
                        None,
                        None,
                        order,
                    ),
            decreases user_ids.len() - i,
        {
            let from = copy_bound(&start);
            let to = copy_bound(&end);
            let read = Self::get_author_posts(
                user_ids[i].as_str(),
                order,
                from,
                to,
                None,
                None,
                false,
            );
            out.push(read);
            i = i + 1;
        }
        out
    }

    /// The stream of the posts of users around an observer, of whom `found` lists what the
    /// indexes hold: all but the observer, no more than the first ones, merged and cut to a page.
    pub fn get_posts_by_source(
        found: &Vec<UserPosts>,
        observer_id: &str,
        skip: Option<usize>,
        limit: Option<usize>,
    ) -> (r: PostKeyStream)
        ensures
            streamed_by_source(found@, observer_id@, skip, limit, r),
    {
        let mut users: Vec<UserPosts> = Vec::new();
        let mut i: usize = 0;
        assert(found@.take(0) == Seq::<UserPosts>::empty());
        assert(posts_of_others(found@.take(0), observer_id@) =~= Seq::<UserPostsView>::empty());
        assert(user_views(users@) =~= posts_of_others(found@.take(0), observer_id@));
        while i < found.len()
            invariant
                i <= found.len(),
                user_views(users@) == posts_of_others(found@.take(i as int), observer_id@),
            decreases found.len() - i,
        {
            let ghost held = users@;
            assert(found@.take(i + 1).drop_last() == found@.take(i as int));
            assert(found@.take(i + 1).last() == found@[i as int]);
            if *found[i].user_id.as_str() != *observer_id {
                let user = found[i].copy();
                users.push(user);
                assert(user_views(users@) =~= user_views(held).push(user@));
            }
            i = i + 1;
        }
        assert(found@.take(i as int) == found@);
        let page = Self::get_posts_for_user_ids(&users, skip, limit);
        let ghost entries = page@;
        assert(merged_as(
            entries_of(first_users(posts_of_others(found@, observer_id@))),
            skip,
            limit,
            entries,
        ));
        PostKeyStream::from_scored_entries(page)
    }

    /// Merges the posts of the first users into one stream, highest score first, and cuts a page
    /// from it. Posts of equal score keep the order in which the users were given.
    pub fn get_posts_for_user_ids(
        users: &Vec<UserPosts>,
        skip: Option<usize>,
        limit: Option<usize>,
    ) -> (r: Vec<(String, u64)>)
        ensures
            merged_as(entries_of(first_users(user_views(users@))), skip, limit, r@),
    {
        let entries = gather_entries(users);
        let ghost all = entries_of(first_users(user_views(users@)));
        let mut ranks: Vec<i64> = Vec::new();
        let mut i: usize = 0;
        assert(all.len() == entries@.len());
        while i < entries.len()
            invariant
                i <= entries.len(),
                ranks@.len() == i,
                forall|j: int| 0 <= j < i ==> #[trigger] ranks@[j] == entries@[j].rank,
            decreases entries.len() - i,
        {
            ranks.push(entries[i].rank);
            i = i + 1;
        }
        proof {
            assert forall|j: int| 0 <= j < ranks@.len() implies #[trigger] ranks@[j] == ranks_of(
                all,
            )[j] by {
                assert(merged_views(entries@)[j].rank == entries@[j].rank);
            }
            assert(ranks@ =~= ranks_of(all));
        }
        let order = stable_order(&ranks);
        let (start, end) = page_bounds(skip, limit, order.len());
        let mut out: Vec<(String, u64)> = Vec::new();
        let ghost whole = arranged(all, order@);
        let mut k: usize = start;
        assert(whole.len() == order@.len());
        assert(entry_views(out@) =~= whole.subrange(start as int, start as int));
        while k < end
            invariant
                start <= k <= end <= order.len(),
                order@.len() == entries@.len(),
                whole == arranged(all, order@),
                merged_views(entries@) == all,
                forall|j: int|
                    0 <= j < order@.len() ==> 0 <= #[trigger] order@[j] < entries@.len(),
                entry_views(out@) == whole.subrange(start as int, k as int),
            decreases end - k,
        {
            let entry = &entries[order[k]];
            let ghost held = out@;
            proof {
                let at = order@[k as int] as int;
                assert(merged_views(entries@)[at] == (MergedView {
                    key: entries@[at].key@,
                    rank: entries@[at].rank,
                    score: entries@[at].score,
                }));
            }
            out.push((entry.key.clone(), entry.score));
            assert(entry_views(out@) =~= entry_views(held).push(whole[k as int]));
            assert(whole.subrange(start as int, k + 1) =~= whole.subrange(
                start as int,
                k as int,
            ).push(whole[k as int]));
            k = k + 1;
        }
        assert(is_stable_order(ranks_of(all), order@));
        out
    }

    /// The keys of the posts that the items of a collection point at, cut to a page; `details`
    /// are the kind and the content of the post that is to be the collection, where it was found.
    /// Items that point at no post are left out before the page is cut, so dead references don't
    /// shorten pages.
    pub fn get_collection_items_post_keys(
        details: Option<(PostKind, String)>,
        skip: Option<usize>,
        limit: Option<usize>,
    ) -> (r: PostKeyStream)
        ensures
            r.last_post_score is None,
            views(r.post_keys@) == collection_page(details, skip, limit),
    {
        let items = match &details {
            Some((kind, content)) => {
                let collection: bool = *kind == PostKind::Collection;
                if collection {
                    parse_envelope(content.as_str())
                } else {
                    None
                }
            },
            None => None,
        };
        let r = Self::collection_items_page(items, skip, limit);
        assert(items is None ==> views(r.post_keys@) == Seq::<Seq<char>>::empty());
        r
    }

    /// The keys of the posts that the items of an envelope point at, cut to a page; none
    /// where there is no envelope.
    pub fn collection_items_page(
        items: Option<Vec<String>>,
        skip: Option<usize>,
        limit: Option<usize>,
    ) -> (r: PostKeyStream)
        ensures
            r.last_post_score is None,
            views(r.post_keys@) == (match items_view(items) {
                Some(l) => page_of(item_keys(l), skip, limit),
                None => Seq::<Seq<char>>::empty(),
            }),
    {
        match items {
            None => {
                let r = PostKeyStream::default();
                assert(views(r.post_keys@) =~= Seq::<Seq<char>>::empty());
                r
            },
            Some(items) => {
                let mut keys: Vec<String> = Vec::new();
                let mut i: usize = 0;
                let ghost all = views(items@);
                assert(all.take(0) == Seq::<Seq<char>>::empty());
                assert(views(keys@) =~= item_keys(all.take(0)));
                while i < items.len()
                    invariant
                        i <= items.len(),
                        all == views(items@),
                        views(keys@) == item_keys(all.take(i as int)),
                    decreases items.len() - i,
                {
                    assert(all.take(i + 1).drop_last() == all.take(i as int));
                    assert(all.take(i + 1).last() == items@[i as int]@);
                    let parsed = ParsedUri::try_from(items[i].as_str());
                    if let Some(key) = post_key_at(&parsed) {
                        proof {
                            lemma_views_push(keys@, key);
                        }
                        keys.push(key);
                    }
                    i = i + 1;
                }
                assert(all.take(i as int) == all);
                PostKeyStream::new(page_of_keys(&keys, skip, limit), None)
            },
        }
    }

    /// The keys of a stream that was read from the graph, row by row, and the score of its
    /// last row.
    pub fn from_graph_rows(rows: &Vec<(String, String, i64)>) -> (r: PostKeyStream)
        ensures
            views(r.post_keys@) == row_keys(rows@),
            r.last_post_score == row_score(rows@),
    {
        let mut post_keys: Vec<String> = Vec::new();
        let mut last_post_score: Option<u64> = None;
        let mut i: usize = 0;
        while i < rows.len()
            invariant
                i <= rows.len(),
                post_keys@.len() == i,
                forall|j: int|
                    0 <= j < i ==> (#[trigger] post_keys@[j])@ == post_key(
                        rows@[j].0@,
                        rows@[j].1@,
                    ),
                last_post_score == (if i == 0 {
                    None
                } else {
                    Some(rows@[i - 1].2 as u64)
                }),
            decreases rows.len() - i,
        {
            post_keys.push(post_key_text(rows[i].0.as_str(), rows[i].1.as_str()));
            last_post_score = Some(rows[i].2 as u64);
            i = i + 1;
        }
        assert(views(post_keys@) =~= row_keys(rows@));
        PostKeyStream::new(post_keys, last_post_score)
    }

    /// The keys of a stream that was read from the graph within its budget: `streamed` is nothing
    /// where the budget ran out before the last row.
    pub fn get_from_graph(streamed: Option<Result<Vec<(String, String, i64)>, GraphError>>) -> (r:
        Result<PostKeyStream, GraphError>)
        ensures
            match streamed {
                None => r == Err::<PostKeyStream, GraphError>(GraphError::QueryTimeout),
                Some(Err(e)) => r == Err::<PostKeyStream, GraphError>(e),
                Some(Ok(rows)) => r matches Ok(keys) && views(keys.post_keys@) == row_keys(rows@)
                    && keys.last_post_score == row_score(rows@),
            },
    {
        match streamed {
            None => Err(GraphError::QueryTimeout),
            Some(Err(e)) => Err(e),
            Some(Ok(rows)) => Ok(Self::from_graph_rows(&rows)),
        }
    }

    /// The posts that keys name, to be looked up one by one. A key without a colon is left
    /// out.
    pub fn from_listed_post_ids(post_keys: &Vec<String>) -> (r: Vec<PostView>)
        ensures
            post_views(r@) == named_posts(views(post_keys@)),
    {
        let mut out: Vec<PostView> = Vec::new();
        let mut i: usize = 0;
        let ghost all = views(post_keys@);
        assert(all.take(0) == Seq::<Seq<char>>::empty());
        assert(post_views(out@) =~= named_posts(all.take(0)));
        while i < post_keys.len()
            invariant
                i <= post_keys.len(),
                all == views(post_keys@),
                post_views(out@) == named_posts(all.take(i as int)),
            decreases post_keys.len() - i,
        {
            assert(all.take(i + 1).drop_last() == all.take(i as int));
            assert(all.take(i + 1).last() == post_keys@[i as int]@);
            if let Some((author_id, post_id)) = split_once(post_keys[i].as_str(), ':') {
                let ghost held = out@;
                out.push(PostView { author_id, post_id });
                assert(post_views(out@) =~= post_views(held).push((author_id@, post_id@)));
            }
            i = i + 1;
        }
        assert(all.take(i as int) == all);
        out
    }
}

/// The page of a collection: of the posts among its items, where the post was found, is a
/// collection and holds an envelope that can be read; nothing otherwise.
pub open spec fn collection_page(
    details: Option<(PostKind, String)>,
    skip: Option<usize>,
    limit: Option<usize>,
) -> Seq<Seq<char>> {
    match details {
        Some((kind, content)) => if kind == PostKind::Collection {
            match envelope_items(content@) {
                Some(l) => page_of(item_keys(l), skip, limit),
                None => Seq::empty(),
            }
        } else {
            Seq::empty()
        },
        None => Seq::empty(),
    }
}

/// A stream with a filter by kind is never read from an index.
pub proof fn law_kind_filters_go_to_the_graph(
    sorting: StreamSorting,
    source: StreamSource,
    tags: Option<Vec<String>>,
    kind: Option<KindFilter>,
)
    requires
        kind is Some,
    ensures
        !is_indexed(sorting, source, tags, kind),
{
}

/// A stream without tags that is read from the indexes has an index to read.
pub proof fn law_indexed_streams_have_an_index(
    source: StreamSource,
    sorting: StreamSorting,
    order: SortOrder,
    pagination: Pagination,
    plan: IndexPlan,
)
    requires
        is_indexed(sorting, source, None, None),
        index_planned_as(source, sorting, order, None, pagination, plan),
    ensures
        !(plan is Nothing),
{
}

/// A page holds no more than its limit, and is short only where the list ends.
pub proof fn law_pages_are_full<T>(list: Seq<T>, skip: usize, limit: usize)
    ensures
        page_of(list, Some(skip), Some(limit)).len() <= limit,
        skip + limit <= list.len() ==> page_of(list, Some(skip), Some(limit)).len() == limit,
        page_of(list, None, None) == list,
{
    assert(page_of(list, None, None) =~= list);
}

/// Two pages one after the other are one page of both limits: nothing is lost or repeated
/// between them.
pub proof fn law_pages_join<T>(list: Seq<T>, skip: usize, first: usize, second: usize)
    requires
        skip + first + second <= usize::MAX,
    ensures
        page_of(list, Some(skip), Some(first)) + page_of(
            list,
            Some((skip + first) as usize),
            Some(second),
        ) == page_of(list, Some(skip), Some((first + second) as usize)),
{
    assert(page_of(list, Some(skip), Some(first)) + page_of(
        list,
        Some((skip + first) as usize),
        Some(second),
    ) =~= page_of(list, Some(skip), Some((first + second) as usize)));
}

/// In a merged stream no post follows one of lower rank, and posts of equal rank stand in
/// the order of their users.
pub proof fn law_merged_streams_descend(entries: Seq<MergedView>, order: Seq<usize>)
    requires
        is_stable_order(ranks_of(entries), order),
    ensures
        arranged(entries, order).len() == entries.len(),
        forall|i: int, j: int|
            0 <= i < j < order.len() ==> entries[#[trigger] order[i] as int].rank >= entries[
            #[trigger] order[j] as int].rank,
        forall|i: int, j: int|
            0 <= i < j < order.len() && entries[order[i] as int].rank
                == entries[order[j] as int].rank ==> #[trigger] order[i] < #[trigger] order[j],
{
    let ranks = ranks_of(entries);
    assert forall|i: int, j: int| 0 <= i < j < order.len() implies entries[#[trigger] order[i]
        as int].rank >= entries[#[trigger] order[j] as int].rank && (entries[order[i] as int].rank
        == entries[order[j] as int].rank ==> order[i] < order[j]) by {
        assert(crate::sort::stands_before(ranks, order[i] as int, order[j] as int));
        assert(ranks[order[i] as int] == entries[order[i] as int].rank);
        assert(ranks[order[j] as int] == entries[order[j] as int].rank);
    }
}

/// The merged page is determined: two pages of the same entries and the same window agree.
pub proof fn law_merged_page_is_determined(
    entries: Seq<MergedView>,
    skip: Option<usize>,
    limit: Option<usize>,
    a: Seq<(String, u64)>,
    b: Seq<(String, u64)>,
)
    requires
        merged_as(entries, skip, limit, a),
        merged_as(entries, skip, limit, b),
    ensures
        entry_views(a) == entry_views(b),
{
    let x = choose|order: Seq<usize>| #[trigger]
        is_stable_order(ranks_of(entries), order) && entry_views(a) == page_of(
            arranged(entries, order),
            skip,
            limit,
        );
    let y = choose|order: Seq<usize>| #[trigger]
        is_stable_order(ranks_of(entries), order) && entry_views(b) == page_of(
            arranged(entries, order),
            skip,
            limit,
        );
    crate::sort::law_stable_order_is_unique(ranks_of(entries), x, y);
}

/// A post key names its post: its author has no colon, so the first colon ends the author.
pub proof fn law_post_key_names_its_post(author_id: Seq<char>, post_id: Seq<char>)
    requires
        !author_id.contains(':'),
    ensures
        split_at_first(post_key(author_id, post_id), ':') == Some((author_id, post_id)),
{
    reveal_strlit(":");
    let key = post_key(author_id, post_id);
    let n = author_id.len() as int;
    assert forall|i: int| 0 <= i < n implies key[i] != ':' by {
        assert(key[i] == author_id[i]);
        assert(author_id.contains(author_id[i]));
    }
    assert(key[n] == ':');
    crate::text::lemma_first_index_is(key, ':', n);
    assert(key.take(n) =~= author_id);
    assert(key.skip(n + 1) =~= post_id);
}

/// The users of a list and their posts, by their ids.
pub open spec fn user_ids_of(users: Seq<UserPostsView>) -> Seq<Seq<char>> {
    users.map_values(|u: UserPostsView| u.user_id)
}

/// A stream of the users around an observer merges the posts of the users who are not the
/// observer, in their order, and of no more than its limit of users.
pub proof fn law_source_streams_merge_the_others(found: Seq<UserPosts>, observer: Seq<char>)
    ensures
        user_ids_of(posts_of_others(found, observer)) == others(
            user_ids_of(user_views(found)),
            observer,
        ),
        first_users(posts_of_others(found, observer)).len() <= MAX_STREAM_USERS,
        forall|i: int|
            0 <= i < posts_of_others(found, observer).len() ==> (#[trigger] posts_of_others(
                found,
                observer,
            )[i]).user_id != observer,
    decreases found.len(),
{
    let ids = user_ids_of(user_views(found));
    if found.len() > 0 {
        let rest = found.drop_last();
        law_source_streams_merge_the_others(rest, observer);
        assert(ids.drop_last() =~= user_ids_of(user_views(rest)));
        assert(ids.last() == found.last().user_id@);
        assert(user_ids_of(posts_of_others(rest, observer).push(found.last()@)) =~= user_ids_of(
            posts_of_others(rest, observer),
        ).push(found.last().user_id@));
    } else {
        assert(ids =~= Seq::<Seq<char>>::empty());
        assert(user_ids_of(posts_of_others(found, observer)) =~= Seq::<Seq<char>>::empty());
    }
}

/// The observer's own posts are no part of a stream of the users around the observer.
pub proof fn law_observer_is_left_out(user_ids: Seq<Seq<char>>, observer: Seq<char>)
    ensures
        !others(user_ids, observer).contains(observer),
        others(user_ids, observer).len() <= user_ids.len(),
    decreases user_ids.len(),
{
    if user_ids.len() > 0 {
        law_observer_is_left_out(user_ids.drop_last(), observer);
        let rest = others(user_ids.drop_last(), observer);
        let all = others(user_ids, observer);
        if all.contains(observer) {
            let k = choose|k: int| 0 <= k < all.len() && all[k] == observer;
            if k < rest.len() {
                assert(rest[k] == observer);
                assert(rest.contains(observer));
            }
        }
    }
}

/// The observer of the users whose posts a stream merges.
pub open spec fn reach_observer(reach: ReachSource) -> Seq<char> {
    match reach {
        ReachSource::Following { observer_id } => observer_id@,
        ReachSource::Followers { observer_id } => observer_id@,
        ReachSource::Friends { observer_id } => observer_id@,
    }
}

/// A stream that merges the posts of users merges those of its own relation to its own observer: a
/// stream of followings never reads the followers, nor the friends. It keeps the order and the
/// window that were asked for.
pub proof fn law_plans_name_the_relation_of_their_source(
    source: StreamSource,
    sorting: StreamSorting,
    order: SortOrder,
    pagination: Pagination,
    plan: IndexPlan,
)
    requires
        index_planned_as(source, sorting, order, None, pagination, plan),
    ensures
        plan is ByReach <==> source is Following || source is Followers || source is Friends,
        plan matches IndexPlan::ByReach { source: reach, user_limit, order: o, pagination: p } ==> {
            &&& reach is Following <==> source is Following
            &&& reach is Followers <==> source is Followers
            &&& reach is Friends <==> source is Friends
            &&& source.observer() == Some(reach_observer(reach))
            &&& user_limit == 200
            &&& o == order
            &&& p.start == pagination.start && p.end == pagination.end
            &&& p.skip == pagination.skip && p.limit == pagination.limit
        },
{
}

/// Two streams whose plans merge the posts of the same users around the same observer are of the
/// same relation: no two relations share a plan.
pub proof fn law_relations_do_not_share_a_plan(
    a: StreamSource,
    b: StreamSource,
    sorting: StreamSorting,
    order: SortOrder,
    pagination: Pagination,
    plan: IndexPlan,
)
    requires
        index_planned_as(a, sorting, order, None, pagination, plan),
        index_planned_as(b, sorting, order, None, pagination, plan),
        plan is ByReach,
    ensures
        a is Following <==> b is Following,
        a is Followers <==> b is Followers,
        a is Friends <==> b is Friends,
        a.observer() == b.observer(),
{
}

/// A stream that is read from one index reads that of its own source, within the window and in the
/// order that were asked for: the posts of an author from the author's posts, the replies of an
/// author from the author's replies, and each of the person or post that the source names.
pub proof fn law_plans_read_the_index_of_their_source(
    source: StreamSource,
    sorting: StreamSorting,
    order: SortOrder,
    pagination: Pagination,
    plan: IndexPlan,
)
    requires
        index_planned_as(source, sorting, order, None, pagination, plan),
    ensures
        plan is Keys <==> source is All || source is Bookmarks || source is PostReplies,
        plan is Author <==> source is Author || source is AuthorReplies,
        plan matches IndexPlan::Author { author_id, .. } ==> source.author() == Some(author_id@),
        plan is Nothing <==> source is Collection || source is Wot || source is WotDomain,
        ({
            let read = match plan {
                IndexPlan::Keys(read) => Some(read),
                IndexPlan::Author { read, .. } => Some(read),
                _ => None,
            };
            read matches Some(read) ==> {
                &&& read.order == order
                &&& read.start == pagination.start && read.end == pagination.end
                &&& read.skip == pagination.skip && read.limit == pagination.limit
                &&& views(read.key_parts@) == (match source {
                    StreamSource::All => if sorting == StreamSorting::Timeline {
                        seq!["Posts"@, "Global"@, "Timeline"@]
                    } else {
                        seq!["Posts"@, "Global"@, "TotalEngagement"@]
                    },
                    StreamSource::Bookmarks { observer_id } => seq![
                        "Bookmarks"@,
                        "User"@,
                        observer_id@,
                    ],
                    StreamSource::PostReplies { author_id, post_id } => seq![
                        "Posts"@,
                        "PostReplies"@,
                        author_id@,
                        post_id@,
                    ],
                    StreamSource::Author { author_id } => seq![
                        "Posts"@,
                        "AuthorParents"@,
                        author_id@,
                    ],
                    StreamSource::AuthorReplies { author_id } => seq![
                        "Posts"@,
                        "AuthorReplies"@,
                        author_id@,
                    ],
                    _ => views(read.key_parts@),
                })
            }
        }),
{
}

/// A search by tag is made for the one tag of a stream of all posts, and for that tag.
pub proof fn law_only_one_tag_of_all_posts_is_searched(
    source: StreamSource,
    sorting: StreamSorting,
    order: SortOrder,
    tags: Vec<String>,
    pagination: Pagination,
    plan: IndexPlan,
)
    requires
        index_planned_as(source, sorting, order, Some(tags), pagination, plan),
    ensures
        plan is ByTag <==> source is All && tags@.len() == 1,
        plan is ByTag || plan is Nothing,
        plan matches IndexPlan::ByTag { label, sorting: s, pagination: p } ==> {
            &&& label@ == tags@[0]@
            &&& s == sorting
            &&& p.start == pagination.start && p.end == pagination.end
            &&& pagination.skip is Some ==> p.skip == pagination.skip
            &&& pagination.skip is None ==> p.skip == Some(0usize)
            &&& pagination.limit is Some ==> p.limit == pagination.limit
            &&& pagination.limit is None ==> p.limit == Some(10usize)
        },
{
}

/// Replies are always read from their index, and all posts unless several tags are asked for. The
/// other streams are indexed by time alone and without tags, and a web of trust never is.
pub proof fn law_where_streams_are_indexed(
    sorting: StreamSorting,
    source: StreamSource,
    tags: Option<Vec<String>>,
)
    ensures
        ({
            let indexed = is_indexed(sorting, source, tags, None);
            &&& source is PostReplies || source is AuthorReplies ==> indexed
            &&& source is All && tags is None ==> indexed
            &&& source is All && tags is Some ==> (indexed <==> tags->0@.len() == 1)
            &&& source is Wot || source is WotDomain || source is Collection ==> !indexed
            &&& sorting == StreamSorting::TotalEngagement && indexed ==> source is All
                || source is PostReplies || source is AuthorReplies
            &&& tags is Some && indexed ==> source is All || source is PostReplies
                || source is AuthorReplies
            &&& sorting == StreamSorting::Timeline && tags is None && (source is Author
                || source is Following || source is Followers || source is Friends
                || source is Bookmarks) ==> indexed
        }),
{
}

/// A stream comes from its collection, from the indexes or from the graph: from its collection
/// exactly where it is one, and from the graph where there is no index for it. The graph is asked
/// for the very stream, and has ten seconds.
pub proof fn law_streams_come_from_one_place(
    source: StreamSource,
    pagination: Pagination,
    order: SortOrder,
    sorting: StreamSorting,
    tags: Option<Vec<String>>,
    kind: Option<KindFilter>,
    plan: StreamPlan,
)
    requires
        stream_planned_as(source, pagination, order, sorting, tags, kind, plan),
    ensures
        plan is Collection <==> source is Collection,
        plan is Index <==> !(source is Collection) && is_indexed(sorting, source, tags, kind),
        kind is Some && !(source is Collection) ==> plan is Graph,
        plan matches StreamPlan::Graph { query, budget_secs } ==> budget_secs == 10 && query@
            == post_stream_view(source, sorting, order, tags, pagination, kind),
        plan matches StreamPlan::Collection { author_id, post_id, skip, limit } ==> (
        source matches StreamSource::Collection { author_id: a, post_id: p } && a == author_id && p
            == post_id) && skip == pagination.skip && limit == pagination.limit,
{
}

/// A page is resumed from its last entry, and an empty page from nowhere.
pub proof fn law_pages_resume_from_their_last_entry(
    entries: Seq<(String, u64)>,
    entry: (String, u64),
    rows: Seq<(String, String, i64)>,
    row: (String, String, i64),
)
    ensures
        resume_score(entries.push(entry)) == Some(entry.1),
        row_score(rows.push(row)) == Some(row.2 as u64),
        resume_score(Seq::empty()) is None,
        row_score(Seq::empty()) is None,
{
}

/// Each entry of a user is a post of that user, with the rank and the score of that post, and the
/// entries of users stand user by user.
pub proof fn law_entries_are_posts_of_their_user(
    users: Seq<UserPostsView>,
    user: UserPostsView,
    i: int,
)
    requires
        0 <= i < user.posts.len(),
    ensures
        ({
            let all = entries_of(users.push(user));
            let k = entries_of(users).len() + i;
            &&& all.len() == entries_of(users).len() + user.posts.len()
            &&& all[k].key == post_key(user.user_id, user.posts[i].0)
            &&& all[k].rank == user.posts[i].1
            &&& all[k].score == user.posts[i].2
            &&& all.take(entries_of(users).len() as int) == entries_of(users)
        }),
{
    assert(users.push(user).drop_last() =~= users);
    assert(entries_of(users.push(user)).take(entries_of(users).len() as int) =~= entries_of(users));
}

/// A stream of the posts of others holds no more than its limit, and is resumed exactly where it holds
/// any.
pub proof fn law_streams_of_others_keep_their_limit(
    found: Seq<UserPosts>,
    observer: Seq<char>,
    skip: Option<usize>,
    limit: Option<usize>,
    r: PostKeyStream,
)
    requires
        streamed_by_source(found, observer, skip, limit, r),
    ensures
        limit matches Some(n) ==> r.post_keys@.len() <= n,
        r.last_post_score is None <==> r.post_keys@.len() == 0,
{
    let entries = entries_of(first_users(posts_of_others(found, observer)));
    let page = choose|page: Seq<(String, u64)>| #[trigger]
        merged_as(entries, skip, limit, page) && views(r.post_keys@) == keys_of(page)
            && r.last_post_score == resume_score(page);
    assert(views(r.post_keys@).len() == keys_of(page).len());
    assert(entry_views(page).len() == page.len());
}

/// A URI is the key of the post that it points at, and no key where it points at anything else.
pub proof fn law_only_posts_have_keys(
    user_id: Seq<char>,
    resource: Seq<char>,
    id: Option<Seq<char>>,
    post_id: Seq<char>,
    message: Seq<char>,
)
    ensures
        resource_of(resource, id) == ResourceView::Post(post_id) ==> key_at(
            Ok((user_id, resource, id)),
        ) == Some(post_key(user_id, post_id)),
        !(resource_of(resource, id) is Post) ==> key_at(Ok((user_id, resource, id))) is None,
        key_at(Err(message)) is None,
{
}

/// The posts of a collection are listed in the order of its items: those of the first items come
/// before those of the others, and an item that is no post is passed over.
pub proof fn law_items_are_listed_in_order(first: Seq<Seq<char>>, others: Seq<Seq<char>>)
    ensures
        item_keys(first + others) == item_keys(first) + item_keys(others),
        others.len() == 1 ==> item_keys(others) == (match key_at(strict_uri(others[0])) {
            Some(key) => seq![key],
            None => Seq::empty(),
        }),
    decreases others.len(),
{
    if others.len() == 0 {
        assert(first + others =~= first);
        assert(item_keys(first) + item_keys(others) =~= item_keys(first));
    } else {
        let rest = others.drop_last();
        law_items_are_listed_in_order(first, rest);
        assert((first + others).drop_last() =~= first + rest);
        assert((first + others).last() == others.last());
        assert(item_keys(first + others) =~= item_keys(first) + item_keys(others));
        if others.len() == 1 {
            assert(rest =~= Seq::<Seq<char>>::empty());
            assert(item_keys(rest) =~= Seq::<Seq<char>>::empty());
            assert(others.last() == others[0]);
        }
    }
}

/// Only a post that was found, is a collection and can be read lists anything: a page of the posts
/// among its items.
pub proof fn law_only_collections_list_posts(
    details: Option<(PostKind, String)>,
    skip: Option<usize>,
    limit: Option<usize>,
)
    ensures
        collection_page(details, skip, limit).len() > 0 ==> (details matches Some(d) && d.0
            == PostKind::Collection && envelope_items(d.1@) is Some),
        details matches Some(d) ==> (d.0 == PostKind::Collection && envelope_items(d.1@) is Some
            ==> collection_page(details, None, None) == item_keys(envelope_items(d.1@)->0)),
        limit matches Some(n) ==> collection_page(details, skip, limit).len() <= n,
{
    if let Some(d) = details {
        if d.0 == PostKind::Collection {
            if let Some(l) = envelope_items(d.1@) {
                assert(page_of(item_keys(l), None, None) =~= item_keys(l));
            }
        }
    }
}

/// The posts that a graph lists are those that are shown: each row names an author and a post, and its
/// key names them again.
pub proof fn law_rows_name_their_posts(rows: Seq<(String, String, i64)>)
    requires
        forall|i: int| 0 <= i < rows.len() ==> !(#[trigger] rows[i]).0@.contains(':'),
    ensures
        named_posts(row_keys(rows)) == rows.map_values(|r: (String, String, i64)| (r.0@, r.1@)),
    decreases rows.len(),
{
    let pairs = rows.map_values(|r: (String, String, i64)| (r.0@, r.1@));
    if rows.len() == 0 {
        assert(named_posts(row_keys(rows)) =~= pairs);
    } else {
        let rest = rows.drop_last();
        assert forall|i: int| 0 <= i < rest.len() implies !(#[trigger] rest[i]).0@.contains(
            ':',
        ) by {
            assert(rest[i] == rows[i]);
        }
        law_rows_name_their_posts(rest);
        assert(row_keys(rows).drop_last() =~= row_keys(rest));
        let last = rows[rows.len() - 1];
        law_post_key_names_its_post(last.0@, last.1@);
        assert(named_posts(row_keys(rows)) =~= pairs);
    }
}

} // verus!
