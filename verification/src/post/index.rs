//! What is written to and removed from the indexes of posts.
use crate::post::source::StreamSource;
use crate::post::stream::{
    author_parents_key, author_parents_key_parts, author_replies_key, author_replies_key_parts,
    bookmarks_key, bookmarks_key_parts, index_planned_as, post_key, post_key_text, post_replies_key,
    post_replies_key_parts, timeline_key, timeline_key_parts, total_engagement_key,
    total_engagement_key_parts, IndexPlan, PostStream,
};
use crate::text::views;
use crate::types::{Pagination, SortOrder, StreamSorting};
use vstd::prelude::*;

verus! {

/// What the indexes keep of a post.
#[derive(Debug, Clone, PartialEq, Eq)]
pub struct PostDetails {
    pub author: String,
    pub id: String,
    /// When the post was indexed, in milliseconds.
    pub indexed_at: i64,
}

/// Counts of what happened to a post.
#[derive(Debug, Clone, Copy, PartialEq, Eq, Structural)]
pub struct PostCounts {
    pub tags: u32,
    pub replies: u32,
    pub reposts: u32,
}

/// An entry to put into an index.
#[derive(Debug, Clone, PartialEq, Eq)]
pub struct IndexWrite {
    pub key_parts: Vec<String>,
    pub member: String,
    pub score: i64,
}

/// An entry to remove from an index.
#[derive(Debug, Clone, PartialEq, Eq)]
pub struct IndexRemoval {
    pub key_parts: Vec<String>,
    pub member: String,
}

/// A change of the score of an entry of an index.
#[derive(Debug, Clone, PartialEq, Eq)]
pub struct ScoreChange<A> {
    pub key_parts: Vec<String>,
    /// The parts of the entry's member.
    pub member_parts: Vec<String>,
    /// By how much the score goes up or down.
    pub action: A,
}

impl IndexWrite {
    /// Whether this puts a member with a score into the index with a name.
    pub open spec fn writes(self, key: Seq<Seq<char>>, member: Seq<char>, score: int) -> bool {
        views(self.key_parts@) == key && self.member@ == member && self.score == score
    }

    /// Whether this puts an entry with a score to its place.
    pub open spec fn puts(self, place: Place, score: int) -> bool {
        self.writes(place.key, place.member, score)
    }
}

impl IndexRemoval {
    /// Whether this removes a member from the index with a name.
    pub open spec fn removes(self, key: Seq<Seq<char>>, member: Seq<char>) -> bool {
        views(self.key_parts@) == key && self.member@ == member
    }

    /// Whether this takes the entry from its place.
    pub open spec fn takes(self, place: Place) -> bool {
        self.removes(place.key, place.member)
    }

    /// Whether this removes what `write` puts.
    pub open spec fn undoes(self, write: IndexWrite) -> bool {
        views(self.key_parts@) == views(write.key_parts@) && self.member@ == write.member@
    }
}

/// Where an entry stands: the index and the member.
#[verifier::ext_equal]
pub struct Place {
    pub key: Seq<Seq<char>>,
    pub member: Seq<char>,
}

/// Where a post stands in the timeline.
pub open spec fn in_timeline(author_id: Seq<char>, post_id: Seq<char>) -> Place {
    Place { key: timeline_key(), member: post_key(author_id, post_id) }
}

/// Where a post stands among all posts by engagement.
pub open spec fn in_engagement(author_id: Seq<char>, post_id: Seq<char>) -> Place {
    Place { key: total_engagement_key(), member: post_key(author_id, post_id) }
}

/// Where a post that is no reply stands among those of its author.
pub open spec fn among_parents(author_id: Seq<char>, post_id: Seq<char>) -> Place {
    Place { key: author_parents_key(author_id), member: post_id }
}

/// Where a reply stands among those of its author.
pub open spec fn among_replies(author_id: Seq<char>, post_id: Seq<char>) -> Place {
    Place { key: author_replies_key(author_id), member: post_id }
}

/// Where a reply stands among those to its parent.
pub open spec fn under_parent(
    parent_author_id: Seq<char>,
    parent_post_id: Seq<char>,
    author_id: Seq<char>,
    reply_id: Seq<char>,
) -> Place {
    Place {
        key: post_replies_key(parent_author_id, parent_post_id),
        member: post_key(author_id, reply_id),
    }
}

/// Where a post stands among the bookmarks of a user.
pub open spec fn among_bookmarks(
    bookmarker_id: Seq<char>,
    author_id: Seq<char>,
    post_id: Seq<char>,
) -> Place {
    Place { key: bookmarks_key(bookmarker_id), member: post_key(author_id, post_id) }
}

/// The engagement that counts come to.
pub open spec fn engagement(counts: PostCounts) -> int {
    counts.tags + counts.replies + counts.reposts
}

impl PostStream {
    /// Puts the post into the timeline, by the time at which it was indexed.
    pub fn add_to_timeline_sorted_set(details: &PostDetails) -> (r: IndexWrite)
        ensures
            r.puts(in_timeline(details.author@, details.id@), details.indexed_at as int),
    {
        IndexWrite {
            key_parts: timeline_key_parts(),
            member: post_key_text(details.author.as_str(), details.id.as_str()),
            score: details.indexed_at,
        }
    }

    /// Removes the post from the timeline.
    pub fn remove_from_timeline_sorted_set(author_id: &str, post_id: &str) -> (r: IndexRemoval)
        ensures
            r.takes(in_timeline(author_id@, post_id@)),
    {
        IndexRemoval {
            key_parts: timeline_key_parts(),
            member: post_key_text(author_id, post_id),
        }
    }

    /// Puts the post into its author's index, by the time at which it was indexed.
    pub fn add_to_per_user_sorted_set(details: &PostDetails) -> (r: IndexWrite)
        ensures
            r.puts(among_parents(details.author@, details.id@), details.indexed_at as int),
    {
        IndexWrite {
            key_parts: author_parents_key_parts(details.author.as_str()),
            member: details.id.clone(),
            score: details.indexed_at,
        }
    }

    /// Removes the post from its author's index.
    pub fn remove_from_per_user_sorted_set(author_id: &str, post_id: &str) -> (r: IndexRemoval)
        ensures
            r.takes(among_parents(author_id@, post_id@)),
    {
        IndexRemoval {
            key_parts: author_parents_key_parts(author_id),
            member: post_id.to_owned(),
        }
    }

    /// Puts the reply into the index of the replies to its parent, by the time at which it
    /// was indexed.
    pub fn add_to_post_reply_sorted_set(
        parent_author_id: &str,
        parent_post_id: &str,
        author_id: &str,
        reply_id: &str,
        indexed_at: i64,
    ) -> (r: IndexWrite)
        ensures
            r.puts(
                under_parent(parent_author_id@, parent_post_id@, author_id@, reply_id@),
                indexed_at as int,
            ),
    {
        IndexWrite {
            key_parts: post_replies_key_parts(parent_author_id, parent_post_id),
            member: post_key_text(author_id, reply_id),
            score: indexed_at,
        }
    }

    /// Removes the reply from the index of the replies to its parent.
    pub fn remove_from_post_reply_sorted_set(
        parent_author_id: &str,
        parent_post_id: &str,
        author_id: &str,
        reply_id: &str,
    ) -> (r: IndexRemoval)
        ensures
            r.takes(under_parent(parent_author_id@, parent_post_id@, author_id@, reply_id@)),
    {
        IndexRemoval {
            key_parts: post_replies_key_parts(parent_author_id, parent_post_id),
            member: post_key_text(author_id, reply_id),
        }
    }

    /// Puts the reply into the index of its author's replies, by the time at which it was
    /// indexed.
    pub fn add_to_replies_per_user_sorted_set(details: &PostDetails) -> (r: IndexWrite)
        ensures
            r.puts(among_replies(details.author@, details.id@), details.indexed_at as int),
    {
        IndexWrite {
            key_parts: author_replies_key_parts(details.author.as_str()),
            member: details.id.clone(),
            score: details.indexed_at,
        }
    }

    /// Removes the reply from the index of its author's replies.
    pub fn remove_from_replies_per_user_sorted_set(author_id: &str, post_id: &str) -> (r:
        IndexRemoval)
        ensures
            r.takes(among_replies(author_id@, post_id@)),
    {
        IndexRemoval {
            key_parts: author_replies_key_parts(author_id),
            member: post_id.to_owned(),
        }
    }

    /// Puts a bookmark into the user's index, by the time at which it was indexed.
    pub fn add_to_bookmarks_sorted_set(
        indexed_at: i64,
        bookmarker_id: &str,
        post_id: &str,
        author_id: &str,
    ) -> (r: IndexWrite)
        ensures
            r.puts(among_bookmarks(bookmarker_id@, author_id@, post_id@), indexed_at as int),
    {
        IndexWrite {
            key_parts: bookmarks_key_parts(bookmarker_id),
            member: post_key_text(author_id, post_id),
            score: indexed_at,
        }
    }

    /// Removes a bookmark from the user's index.
    pub fn remove_from_bookmarks_sorted_set(
        bookmarker_id: &str,
        post_id: &str,
        author_id: &str,
    ) -> (r: IndexRemoval)
        ensures
            r.takes(among_bookmarks(bookmarker_id@, author_id@, post_id@)),
    {
        IndexRemoval {
            key_parts: bookmarks_key_parts(bookmarker_id),
            member: post_key_text(author_id, post_id),
        }
    }

    /// Puts the post into the index by engagement: its tags, replies and reposts together.
    pub fn add_to_engagement_sorted_set(counts: &PostCounts, author_id: &str, post_id: &str) -> (r:
        IndexWrite)
        requires
            counts.tags + counts.replies + counts.reposts <= u32::MAX,
        ensures
            r.puts(in_engagement(author_id@, post_id@), engagement(*counts)),
    {
        let score: u32 = counts.tags + counts.replies + counts.reposts;
        IndexWrite {
            key_parts: total_engagement_key_parts(),
            member: post_key_text(author_id, post_id),
            score: score as i64,
        }
    }

    /// Removes the post from the index by engagement.
    pub fn delete_from_engagement_sorted_set(author_id: &str, post_id: &str) -> (r: IndexRemoval)
        ensures
            r.takes(in_engagement(author_id@, post_id@)),
    {
        IndexRemoval {
            key_parts: total_engagement_key_parts(),
            member: post_key_text(author_id, post_id),
        }
    }

    /// Changes the score of a post in the index by engagement.
    pub fn update_index_score<A>(author_id: &str, post_id: &str, score_action: A) -> (r: ScoreChange<
        A,
    >)
        ensures
            views(r.key_parts@) == total_engagement_key(),
            views(r.member_parts@) == seq![author_id@, post_id@],
            r.action == score_action,
    {
        let member_parts = vec![author_id.to_owned(), post_id.to_owned()];
        assert(views(member_parts@) =~= seq![author_id@, post_id@]);
        ScoreChange { key_parts: total_engagement_key_parts(), member_parts, action: score_action }
    }
}

/// Removing a post from an index removes what putting it there put: the two name the same
/// index and the same member.
pub proof fn law_removal_undoes_write(
    key: Seq<Seq<char>>,
    member: Seq<char>,
    score: int,
    write: IndexWrite,
    removal: IndexRemoval,
)
    requires
        write.writes(key, member, score),
        removal.removes(key, member),
    ensures
        removal.undoes(write),
{
}

/// A stream that is read from an index reads the one that its posts are put into: a post of the
/// timeline, of an author, a reply or a bookmark is put where the stream of its source looks.
pub proof fn law_streams_read_where_posts_are_put(
    source: StreamSource,
    sorting: StreamSorting,
    order: SortOrder,
    pagination: Pagination,
    plan: IndexPlan,
    write: IndexWrite,
    member: Seq<char>,
    score: int,
)
    requires
        index_planned_as(source, sorting, order, None, pagination, plan),
        match source {
            StreamSource::All => write.writes(
                match sorting {
                    StreamSorting::Timeline => timeline_key(),
                    StreamSorting::TotalEngagement => total_engagement_key(),
                },
                member,
                score,
            ),
            StreamSource::Author { author_id } => write.writes(
                author_parents_key(author_id@),
                member,
                score,
            ),
            StreamSource::AuthorReplies { author_id } => write.writes(
                author_replies_key(author_id@),
                member,
                score,
            ),
            StreamSource::PostReplies { author_id, post_id } => write.writes(
                post_replies_key(author_id@, post_id@),
                member,
                score,
            ),
            StreamSource::Bookmarks { observer_id } => write.writes(
                bookmarks_key(observer_id@),
                member,
                score,
            ),
            _ => false,
        },
    ensures
        match plan {
            IndexPlan::Keys(read) => views(read.key_parts@) == views(write.key_parts@),
            IndexPlan::Author { read, .. } => views(read.key_parts@) == views(write.key_parts@),
            _ => false,
        },
{
}

/// No two of the indexes share a name, whosever they are.
pub proof fn law_indexes_have_names_of_their_own(
    author_id: Seq<char>,
    post_id: Seq<char>,
    other_id: Seq<char>,
    other_post_id: Seq<char>,
)
    ensures
        author_parents_key(author_id) != author_replies_key(other_id),
        author_parents_key(author_id) != bookmarks_key(other_id),
        author_replies_key(author_id) != bookmarks_key(other_id),
        post_replies_key(author_id, post_id) != author_parents_key(other_id),
        post_replies_key(author_id, post_id) != author_replies_key(other_id),
        post_replies_key(author_id, post_id) != bookmarks_key(other_id),
        timeline_key() != total_engagement_key(),
        timeline_key() != author_parents_key(author_id),
        timeline_key() != author_replies_key(author_id),
        timeline_key() != bookmarks_key(author_id),
        timeline_key() != post_replies_key(author_id, post_id),
        total_engagement_key() != author_parents_key(author_id),
        total_engagement_key() != author_replies_key(author_id),
        total_engagement_key() != bookmarks_key(author_id),
        total_engagement_key() != post_replies_key(author_id, post_id),
        author_parents_key(author_id) == author_parents_key(other_id) ==> author_id == other_id,
        author_replies_key(author_id) == author_replies_key(other_id) ==> author_id == other_id,
        bookmarks_key(author_id) == bookmarks_key(other_id) ==> author_id == other_id,
        post_replies_key(author_id, post_id) == post_replies_key(other_id, other_post_id)
            ==> author_id == other_id && post_id == other_post_id,
{
    reveal_strlit("AuthorParents");
    reveal_strlit("AuthorReplies");
    reveal_strlit("Global");
    reveal_strlit("Posts");
    reveal_strlit("Bookmarks");
    reveal_strlit("Timeline");
    reveal_strlit("TotalEngagement");
    assert("AuthorParents"@[6] == 'P' && "AuthorReplies"@[6] == 'R');
    assert("Global"@.len() == 6 && "AuthorParents"@.len() == 13 && "AuthorReplies"@.len() == 13);
    assert("Posts"@.len() == 5 && "Bookmarks"@.len() == 9);
    assert("Timeline"@.len() == 8 && "TotalEngagement"@.len() == 15);
    assert(timeline_key()[1] == "Global"@ && timeline_key()[2] == "Timeline"@);
    assert(total_engagement_key()[1] == "Global"@ && total_engagement_key()[2]
        == "TotalEngagement"@);
    assert(timeline_key()[0] == "Posts"@ && total_engagement_key()[0] == "Posts"@);
    assert forall|id: Seq<char>|
        #![trigger author_parents_key(id)]
        #![trigger author_replies_key(id)]
        #![trigger bookmarks_key(id)]
        true implies author_parents_key(id)[1] == "AuthorParents"@ && author_replies_key(id)[1]
        == "AuthorReplies"@ && author_parents_key(id)[0] == "Posts"@ && author_replies_key(id)[0]
        == "Posts"@ && bookmarks_key(id)[0] == "Bookmarks"@ && author_parents_key(id)[2] == id
        && author_replies_key(id)[2] == id && bookmarks_key(id)[2] == id by {}
    let replies = post_replies_key(author_id, post_id);
    let others = post_replies_key(other_id, other_post_id);
    assert(replies.len() == 4 && replies[2] == author_id && replies[3] == post_id);
    assert(others[2] == other_id && others[3] == other_post_id);
}

/// Every stream that is read from an index finds there what is put for it: the timeline, the posts by
/// engagement, an author's posts and replies, the replies to a post and a user's bookmarks each
/// stand in the index that the stream of their source reads, under the key or the id of the post.
pub proof fn law_posts_stand_where_their_streams_read(
    source: StreamSource,
    sorting: StreamSorting,
    order: SortOrder,
    pagination: Pagination,
    plan: IndexPlan,
    author_id: Seq<char>,
    post_id: Seq<char>,
)
    requires
        index_planned_as(source, sorting, order, None, pagination, plan),
    ensures
        ({
            let key = match plan {
                IndexPlan::Keys(read) => views(read.key_parts@),
                IndexPlan::Author { read, .. } => views(read.key_parts@),
                _ => Seq::empty(),
            };
            let named = author_id + ":"@ + post_id;
            &&& source is All && sorting == StreamSorting::Timeline ==> in_timeline(
                author_id,
                post_id,
            ) == (Place { key, member: named })
            &&& source is All && sorting == StreamSorting::TotalEngagement ==> in_engagement(
                author_id,
                post_id,
            ) == (Place { key, member: named })
            &&& source matches StreamSource::Author { author_id: a } ==> among_parents(a@, post_id) == (
            Place { key, member: post_id })
            &&& source matches StreamSource::AuthorReplies { author_id: a } ==> among_replies(a@, post_id) == (
            Place { key, member: post_id })
            &&& source matches StreamSource::PostReplies { author_id: a, post_id: p }
                ==> under_parent(a@, p@, author_id, post_id) == (Place { key, member: named })
            &&& source matches StreamSource::Bookmarks { observer_id } ==> among_bookmarks(
                observer_id@,
                author_id,
                post_id,
            ) == (Place { key, member: named })
        }),
{
}

/// One more tag, reply or repost raises the engagement of a post by one, and a post without any has
/// none.
pub proof fn law_engagement_counts_every_kind_alike(counts: PostCounts)
    requires
        counts.tags < u32::MAX,
        counts.replies < u32::MAX,
        counts.reposts < u32::MAX,
    ensures
        engagement(PostCounts { tags: 0, replies: 0, reposts: 0 }) == 0,
        engagement(PostCounts { tags: (counts.tags + 1) as u32, ..counts }) == engagement(counts)
            + 1,
        engagement(PostCounts { replies: (counts.replies + 1) as u32, ..counts }) == engagement(
            counts,
        ) + 1,
        engagement(PostCounts { reposts: (counts.reposts + 1) as u32, ..counts }) == engagement(
            counts,
        ) + 1,
{
}

} // verus!
