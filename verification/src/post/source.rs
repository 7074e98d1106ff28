//! Sources of a post stream and its filter by kind.
use crate::types::{DomainTrust, WotDepth};
use vstd::prelude::*;

verus! {

/// Kind of a post.
#[derive(Debug, Clone, Copy, PartialEq, Eq, Structural)]
pub enum PostKind {
    Short,
    Long,
    Image,
    Video,
    Link,
    File,
    Collection,
    /// A kind that this version does not recognize.
    Unknown,
}

impl PostKind {
    /// The lowercase name under which the kind is stored.
    pub open spec fn stored_name(self) -> Seq<char> {
        match self {
            PostKind::Short => "short"@,
            PostKind::Long => "long"@,
            PostKind::Image => "image"@,
            PostKind::Video => "video"@,
            PostKind::Link => "link"@,
            PostKind::File => "file"@,
            PostKind::Collection => "collection"@,
            PostKind::Unknown => "unknown"@,
        }
    }

    /// The lowercase name under which the kind is stored.
    pub fn name(self) -> (r: &'static str)
        ensures
            r@ == self.stored_name(),
    {
        match self {
            PostKind::Short => "short",
            PostKind::Long => "long",
            PostKind::Image => "image",
            PostKind::Video => "video",
            PostKind::Link => "link",
            PostKind::File => "file",
            PostKind::Collection => "collection",
            PostKind::Unknown => "unknown",
        }
    }
}

/// Where a stream takes its posts from.
#[derive(Debug, Clone, PartialEq, Eq)]
pub enum StreamSource {
    PostReplies { post_id: String, author_id: String },
    Following { observer_id: String },
    Followers { observer_id: String },
    Friends { observer_id: String },
    Bookmarks { observer_id: String },
    Author { author_id: String },
    AuthorReplies { author_id: String },
    Collection { author_id: String, post_id: String },
    /// Posts authored by users in the observer's Web of Trust (transitive FOLLOWS, 1..=depth).
    Wot { observer_id: String, depth: WotDepth },
    /// Posts by users whom the observer's Web of Trust has tagged with a `domain_tags` label.
    /// `trust = Me` restricts the taggers to the observer alone (depth-0 self set).
    /// Includes the observer's own posts when they themselves carry a matching label.
    WotDomain { observer_id: String, trust: DomainTrust, domain_tags: Vec<String> },
    All,
}

impl Default for StreamSource {
    fn default() -> (r: Self)
        ensures
            r is All,
    {
        StreamSource::All
    }
}

impl StreamSource {
    /// Low-cardinality name of the source.
    pub open spec fn name(self) -> Seq<char> {
        match self {
            StreamSource::PostReplies { .. } => "post_replies"@,
            StreamSource::Following { .. } => "following"@,
            StreamSource::Followers { .. } => "followers"@,
            StreamSource::Friends { .. } => "friends"@,
            StreamSource::Bookmarks { .. } => "bookmarks"@,
            StreamSource::Author { .. } => "author"@,
            StreamSource::AuthorReplies { .. } => "author_replies"@,
            StreamSource::Collection { .. } => "collection"@,
            StreamSource::Wot { .. } => "wot"@,
            StreamSource::WotDomain { .. } => "wot_domain"@,
            StreamSource::All => "all"@,
        }
    }

    /// Number of follow hops of a web-of-trust source; 0 is the observer alone.
    pub open spec fn wot_hops(self) -> Option<u8> {
        match self {
            StreamSource::Wot { depth, .. } => Some(depth.depth()),
            StreamSource::WotDomain { trust, .. } => Some(trust.hops()),
            _ => None,
        }
    }

    /// The user around whom the source looks.
    pub open spec fn observer(self) -> Option<Seq<char>> {
        match self {
            StreamSource::Followers { observer_id } => Some(observer_id@),
            StreamSource::Following { observer_id } => Some(observer_id@),
            StreamSource::Friends { observer_id } => Some(observer_id@),
            StreamSource::Bookmarks { observer_id } => Some(observer_id@),
            StreamSource::Wot { observer_id, .. } => Some(observer_id@),
            StreamSource::WotDomain { observer_id, .. } => Some(observer_id@),
            _ => None,
        }
    }

    /// Author whose posts are streamed.
    pub open spec fn author(self) -> Option<Seq<char>> {
        match self {
            StreamSource::PostReplies { author_id, .. } => Some(author_id@),
            StreamSource::Author { author_id } => Some(author_id@),
            StreamSource::AuthorReplies { author_id } => Some(author_id@),
            _ => None,
        }
    }

    /// Domain-trust tag labels.
    pub open spec fn domain_labels(self) -> Option<Seq<String>> {
        match self {
            StreamSource::WotDomain { domain_tags, .. } => Some(domain_tags@),
            _ => None,
        }
    }

    /// Low-cardinality source value and optional WoT depth for telemetry.
    pub fn telemetry_dimensions(&self) -> (r: (&'static str, Option<u8>))
        ensures
            r.0@ == self.name(),
            r.1 == self.wot_hops(),
    {
        match self {
            StreamSource::PostReplies { .. } => ("post_replies", None),
            StreamSource::Following { .. } => ("following", None),
            StreamSource::Followers { .. } => ("followers", None),
            StreamSource::Friends { .. } => ("friends", None),
            StreamSource::Bookmarks { .. } => ("bookmarks", None),
            StreamSource::Author { .. } => ("author", None),
            StreamSource::AuthorReplies { .. } => ("author_replies", None),
            StreamSource::Collection { .. } => ("collection", None),
            StreamSource::Wot { depth, .. } => ("wot", Some(depth.get())),
            StreamSource::WotDomain { trust, .. } => ("wot_domain", Some(trust.depth())),
            StreamSource::All => ("all", None),
        }
    }

    /// The user around whom the source looks; `None` for sources without one.
    pub fn get_observer(&self) -> (r: Option<&str>)
        ensures
            match r {
                Some(o) => self.observer() == Some(o@),
                None => self.observer() is None,
            },
    {
        match self {
            StreamSource::Followers { observer_id } => Some(observer_id.as_str()),
            StreamSource::Following { observer_id } => Some(observer_id.as_str()),
            StreamSource::Friends { observer_id } => Some(observer_id.as_str()),
            StreamSource::Bookmarks { observer_id } => Some(observer_id.as_str()),
            StreamSource::Wot { observer_id, .. } => Some(observer_id.as_str()),
            StreamSource::WotDomain { observer_id, .. } => Some(observer_id.as_str()),
            _ => None,
        }
    }

    /// Domain-trust tag labels carried by `WotDomain`; `None` for other sources.
    pub fn get_domain_tags(&self) -> (r: Option<&[String]>)
        ensures
            match r {
                Some(l) => self.domain_labels() == Some(l@),
                None => self.domain_labels() is None,
            },
    {
        match self {
            StreamSource::WotDomain { domain_tags, .. } => Some(domain_tags.as_slice()),
            _ => None,
        }
    }

    /// Author whose posts are streamed. Collection returns `None`: its
    /// `author_id` is the curator, not the items' authors.
    pub fn get_author(&self) -> (r: Option<&str>)
        ensures
            match r {
                Some(a) => self.author() == Some(a@),
                None => self.author() is None,
            },
    {
        match self {
            StreamSource::PostReplies { author_id, .. } => Some(author_id.as_str()),
            StreamSource::Author { author_id } => Some(author_id.as_str()),
            StreamSource::AuthorReplies { author_id } => Some(author_id.as_str()),
            _ => None,
        }
    }
}

/// Post-kind filter for streams. Any filter routes the query to the graph: the
/// sorted-set indexes carry no kind information.
#[derive(Debug, Clone, PartialEq, Eq)]
pub enum KindFilter {
    /// Only posts of exactly this kind.
    Kind(PostKind),
    /// Posts of any kind except the listed ones. Posts with a missing (NULL)
    /// or unrecognized ("unknown") kind are never excluded.
    Exclude(Vec<PostKind>),
}

/// No source has both an observer and an author, and every web-of-trust source has an
/// observer.
pub proof fn law_observer_and_author_exclude_each_other(source: StreamSource)
    ensures
        !(source.observer() is Some && source.author() is Some),
        source.wot_hops() is Some ==> source.observer() is Some,
        source is WotDomain <==> source.domain_labels() is Some,
{
}

/// A source looks around its observer, or streams the posts of its author: each source has the one,
/// the other or neither, as it was made. A collection has neither: its author is the curator.
pub proof fn law_sources_know_whom_they_are_about(source: StreamSource)
    ensures
        source matches StreamSource::Following { observer_id } ==> source.observer() == Some(
            observer_id@,
        ),
        source matches StreamSource::Followers { observer_id } ==> source.observer() == Some(
            observer_id@,
        ),
        source matches StreamSource::Friends { observer_id } ==> source.observer() == Some(
            observer_id@,
        ),
        source matches StreamSource::Bookmarks { observer_id } ==> source.observer() == Some(
            observer_id@,
        ),
        source matches StreamSource::Wot { observer_id, depth } ==> source.observer() == Some(
            observer_id@,
        ) && source.wot_hops() == Some(depth.depth()),
        source matches StreamSource::WotDomain { observer_id, trust, domain_tags }
            ==> source.observer() == Some(observer_id@) && source.domain_labels() == Some(
            domain_tags@,
        ) && source.wot_hops() == Some(
            match trust {
                DomainTrust::Me => 0,
                DomainTrust::Network(depth) => depth.depth(),
            },
        ),
        source matches StreamSource::PostReplies { author_id, .. } ==> source.author() == Some(
            author_id@,
        ),
        source matches StreamSource::Author { author_id } ==> source.author() == Some(author_id@),
        source matches StreamSource::AuthorReplies { author_id } ==> source.author() == Some(
            author_id@,
        ),
        source is Collection || source is All ==> source.observer() is None && source.author()
            is None,
        source.observer() is Some || source.author() is Some || source is Collection
            || source is All,
        source.wot_hops() is Some <==> source is Wot || source is WotDomain,
{
}

/// No two sources share a name, and each goes by its own.
pub proof fn law_sources_go_by_their_names(source: StreamSource)
    ensures
        source.name() == "post_replies"@ <==> source is PostReplies,
        source.name() == "following"@ <==> source is Following,
        source.name() == "followers"@ <==> source is Followers,
        source.name() == "friends"@ <==> source is Friends,
        source.name() == "bookmarks"@ <==> source is Bookmarks,
        source.name() == "author"@ <==> source is Author,
        source.name() == "author_replies"@ <==> source is AuthorReplies,
        source.name() == "collection"@ <==> source is Collection,
        source.name() == "wot"@ <==> source is Wot,
        source.name() == "wot_domain"@ <==> source is WotDomain,
        source.name() == "all"@ <==> source is All,
{
    reveal_strlit("post_replies");
    reveal_strlit("following");
    reveal_strlit("followers");
    reveal_strlit("friends");
    reveal_strlit("bookmarks");
    reveal_strlit("author");
    reveal_strlit("author_replies");
    reveal_strlit("collection");
    reveal_strlit("wot");
    reveal_strlit("wot_domain");
    reveal_strlit("all");
    assert("post_replies"@.len() == 12 && "following"@.len() == 9 && "followers"@.len() == 9 && "friends"@.len() == 7 && "bookmarks"@.len() == 9 && "author"@.len() == 6 && "author_replies"@.len() == 14 && "collection"@.len() == 10 && "wot"@.len() == 3 && "wot_domain"@.len() == 10 && "all"@.len() == 3);
    assert("following"@[6] == 'i' && "followers"@[6] == 'e' && "following"@[0] == 'f'
        && "followers"@[0] == 'f' && "bookmarks"@[0] == 'b' && "wot"@[0] == 'w' && "all"@[0] == 'a'
        && "collection"@[0] == 'c' && "wot_domain"@[0] == 'w');
}

/// Each kind of post is stored under its own name.
pub proof fn law_kinds_are_stored_by_their_names(kind: PostKind)
    ensures
        kind.stored_name() == "short"@ <==> kind == PostKind::Short,
        kind.stored_name() == "long"@ <==> kind == PostKind::Long,
        kind.stored_name() == "image"@ <==> kind == PostKind::Image,
        kind.stored_name() == "video"@ <==> kind == PostKind::Video,
        kind.stored_name() == "link"@ <==> kind == PostKind::Link,
        kind.stored_name() == "file"@ <==> kind == PostKind::File,
        kind.stored_name() == "collection"@ <==> kind == PostKind::Collection,
        kind.stored_name() == "unknown"@ <==> kind == PostKind::Unknown,
{
    reveal_strlit("short");
    reveal_strlit("long");
    reveal_strlit("image");
    reveal_strlit("video");
    reveal_strlit("link");
    reveal_strlit("file");
    reveal_strlit("collection");
    reveal_strlit("unknown");
    assert("short"@.len() == 5 && "long"@.len() == 4 && "image"@.len() == 5 && "video"@.len() == 5 && "link"@.len() == 4 && "file"@.len() == 4 && "collection"@.len() == 10 && "unknown"@.len() == 7);
    assert("short"@[0] == 's' && "long"@[0] == 'l' && "image"@[0] == 'i' && "video"@[0] == 'v' && "link"@[0] == 'l' && "file"@[0] == 'f' && "collection"@[0] == 'c' && "unknown"@[0] == 'u');
    assert("long"@[1] == 'o' && "link"@[1] == 'i');
}

} // verus!
