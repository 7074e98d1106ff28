//! Vocabulary of the streams: sorting, order, trust depth, reach and pagination.
use crate::text::{decimal, decimal_text, has_prefix, parse_u8, parsed_u8, strip_prefix};
use vstd::prelude::*;

verus! {

/// What a stream of posts is sorted by.
#[derive(Debug, Clone, Copy, PartialEq, Eq, Structural)]
pub enum StreamSorting {
    Timeline,
    TotalEngagement,
}

impl Default for StreamSorting {
    fn default() -> (r: Self)
        ensures
            r == StreamSorting::Timeline,
    {
        StreamSorting::Timeline
    }
}

/// Direction of a sort.
#[derive(Debug, Clone, Copy, PartialEq, Eq, Structural)]
pub enum SortOrder {
    Ascending,
    Descending,
}

/// What a stream of resources is sorted by.
#[derive(Debug, Clone, Copy, PartialEq, Eq, Structural)]
pub enum ResourceSorting {
    Timeline,
    TaggersCount,
}

/// Web of Trust traversal depth, validated to `1..=3` at construction. The
/// `FOLLOWS*1..n` graph traversals are expensive, so the query builders only
/// accept this type, keeping the bound enforced for every caller.
#[derive(Debug, Clone, Copy, PartialEq, Eq, Structural)]
pub struct WotDepth(u8);

impl Default for WotDepth {
    /// Depth 3 is expensive without caching, so default to 2.
    fn default() -> (r: Self)
        ensures
            r.depth() == 2,
    {
        WotDepth(2)
    }
}

impl WotDepth {
    /// The smallest depth.
    pub const MIN: u8 = 1;

    /// The largest depth.
    pub const MAX: u8 = 3;

    /// The underlying depth value.
    pub closed spec fn depth(self) -> u8 {
        self.0
    }

    #[verifier::type_invariant]
    spec fn in_range(self) -> bool {
        1 <= self.0 <= 3
    }

    /// Validates that `depth` is within `1..=3`.
    pub fn new(depth: u8) -> (r: Result<Self, String>)
        ensures
            match r {
                Ok(d) => 1 <= depth <= 3 && d.depth() == depth,
                Err(e) => !(1 <= depth <= 3) && e@ == "'depth' must be between 1 and 3"@,
            },
    {
        if Self::MIN <= depth && depth <= Self::MAX {
            Ok(WotDepth(depth))
        } else {
            Err("'depth' must be between 1 and 3".to_owned())
        }
    }

    /// The underlying depth value.
    pub fn get(self) -> (r: u8)
        ensures
            r == self.depth(),
            1 <= r <= 3,
    {
        proof {
            use_type_invariant(self);
        }
        self.0
    }

    /// The depth in decimal.
    pub fn text(self) -> (r: String)
        ensures
            r@ == decimal(self.depth() as nat),
    {
        decimal_text(self.get() as u64)
    }
}

/// Trust set for a `wot_domain` post stream. `Me` is the observer's own
/// `TAGGED` edges (depth 0, no follow traversal); `Network(d)` is the taggers
/// reached via `FOLLOWS*1..d`. Keeping `Me` on this enum (rather than widening
/// `WotDepth`) makes depth 0 unrepresentable for `source=wot` and `reach=wot_N`.
#[derive(Debug, Clone, Copy, PartialEq, Eq, Structural)]
pub enum DomainTrust {
    Me,
    Network(WotDepth),
}

impl DomainTrust {
    /// Number of follow hops between the observer and a trusted tagger.
    pub open spec fn hops(self) -> u8 {
        match self {
            DomainTrust::Me => 0,
            DomainTrust::Network(d) => d.depth(),
        }
    }

    /// Number of follow hops between the observer and a trusted tagger.
    pub fn depth(self) -> (r: u8)
        ensures
            r == self.hops(),
    {
        match self {
            DomainTrust::Me => 0,
            DomainTrust::Network(d) => d.get(),
        }
    }
}

/// The users around a user that a query looks at.
#[derive(Debug, Clone, Copy, PartialEq, Eq, Structural)]
pub enum StreamReach {
    Followers,
    Following,
    Friends,
    Wot(WotDepth),
}

/// Why a text names no reach.
#[derive(Debug, Clone, PartialEq, Eq)]
pub enum ReachError {
    /// `wot_` followed by something that is no `u8`.
    InvalidDepth(String),
    /// `wot_` followed by a depth out of range.
    DepthOutOfRange(String),
    /// Not the name of a reach.
    UnknownVariant(String),
}

impl StreamReach {
    /// Low-cardinality name of the reach.
    pub open spec fn name(self) -> Seq<char> {
        match self {
            StreamReach::Followers => "followers"@,
            StreamReach::Following => "following"@,
            StreamReach::Friends => "friends"@,
            StreamReach::Wot(_) => "wot"@,
        }
    }

    /// Depth of a web-of-trust reach.
    pub open spec fn wot_depth(self) -> Option<u8> {
        match self {
            StreamReach::Wot(d) => Some(d.depth()),
            _ => None,
        }
    }

    /// Low-cardinality reach value and optional WoT depth for telemetry.
    pub fn telemetry_dimensions(&self) -> (r: (&'static str, Option<u8>))
        ensures
            r.0@ == self.name(),
            r.1 == self.wot_depth(),
    {
        match self {
            StreamReach::Followers => ("followers", None),
            StreamReach::Following => ("following", None),
            StreamReach::Friends => ("friends", None),
            StreamReach::Wot(depth) => ("wot", Some(depth.get())),
        }
    }

    /// Reads a reach: one of the four names, where the bare `wot` has the default
    /// depth, or `wot_N` with a depth in range.
    pub fn parse(s: &str) -> (r: Result<StreamReach, ReachError>)
        ensures
            reach_parsed_as(s@, r),
    {
        if *s == *"followers" {
            return Ok(StreamReach::Followers);
        }
        if *s == *"following" {
            return Ok(StreamReach::Following);
        }
        if *s == *"friends" {
            return Ok(StreamReach::Friends);
        }
        if *s == *"wot" {
            return Ok(StreamReach::Wot(WotDepth::default()));
        }
        match strip_prefix(s, "wot_") {
            Some(depth_str) => match parse_u8(depth_str.as_str()) {
                None => Err(ReachError::InvalidDepth(depth_str)),
                Some(depth) => match WotDepth::new(depth) {
                    Ok(d) => Ok(StreamReach::Wot(d)),
                    Err(e) => Err(ReachError::DepthOutOfRange(e)),
                },
            },
            None => Err(ReachError::UnknownVariant(s.to_owned())),
        }
    }
}

/// Whether `r` is what the text `s` says of a reach.
pub open spec fn reach_parsed_as(s: Seq<char>, r: Result<StreamReach, ReachError>) -> bool {
    if s == "followers"@ {
        r == Ok::<StreamReach, ReachError>(StreamReach::Followers)
    } else if s == "following"@ {
        r == Ok::<StreamReach, ReachError>(StreamReach::Following)
    } else if s == "friends"@ {
        r == Ok::<StreamReach, ReachError>(StreamReach::Friends)
    } else if s == "wot"@ {
        r matches Ok(StreamReach::Wot(d)) && d.depth() == 2
    } else if has_prefix(s, "wot_"@) {
        match parsed_u8(s.skip("wot_"@.len() as int)) {
            None => r matches Err(ReachError::InvalidDepth(t)) && t@ == s.skip(
                "wot_"@.len() as int,
            ),
            Some(n) => if 1 <= n <= 3 {
                r matches Ok(StreamReach::Wot(d)) && d.depth() == n
            } else {
                r matches Err(ReachError::DepthOutOfRange(e)) && e@
                    == "'depth' must be between 1 and 3"@
            },
        }
    } else {
        r matches Err(ReachError::UnknownVariant(t)) && t@ == s
    }
}

impl ReachError {
    /// What to tell the client; the unknown variant leaves the list of names to the caller.
    pub fn message(&self) -> (r: String)
        ensures
            match self {
                ReachError::InvalidDepth(t) => r@ == "Invalid depth value: "@ + t@,
                ReachError::DepthOutOfRange(e) => r@ == e@,
                ReachError::UnknownVariant(t) => r@ == t@,
            },
    {
        match self {
            ReachError::InvalidDepth(t) => "Invalid depth value: ".to_owned().concat(t.as_str()),
            ReachError::DepthOutOfRange(e) => e.clone(),
            ReachError::UnknownVariant(t) => t.clone(),
        }
    }
}

/// Whatever text a reach is read from, its depth is within `1..=3`.
pub proof fn law_parsed_reach_depth_in_range(s: Seq<char>, r: Result<StreamReach, ReachError>)
    requires
        reach_parsed_as(s, r),
    ensures
        r matches Ok(StreamReach::Wot(d)) ==> 1 <= d.depth() <= 3,
{
    reveal_strlit("followers");
    reveal_strlit("following");
    reveal_strlit("friends");
    assert("followers"@.len() == 9 && "friends"@.len() == 7);
}

/// A double, held as the shortest decimal text that reads back as the same double.
#[derive(Debug, Clone, PartialEq, Eq)]
pub struct Float {
    pub text: String,
}

/// Window of a stream: `start` is the resume cursor and `end` the hard limit of the
/// score; `skip` and `limit` count entries.
#[derive(Debug, Clone, PartialEq, Eq)]
pub struct Pagination {
    pub start: Option<Float>,
    pub end: Option<Float>,
    pub skip: Option<usize>,
    pub limit: Option<usize>,
}

impl Default for Pagination {
    fn default() -> (r: Self)
        ensures
            r.start is None,
            r.end is None,
            r.skip is None,
            r.limit is None,
    {
        Pagination { start: None, end: None, skip: None, limit: None }
    }
}

/// A span of time in milliseconds: from `from` up to, but not with, `to`.
#[derive(Debug, Clone, Copy, PartialEq, Eq, Structural)]
pub struct TimestampRange {
    pub from: i64,
    pub to: i64,
}

/// What a tag is on.
#[derive(Debug, Clone, Copy, PartialEq, Eq, Structural)]
pub enum TaggedType {
    Post,
    User,
}

/// What to look for among hot tags.
#[derive(Debug, Clone, Copy, PartialEq, Eq, Structural)]
pub struct HotTagsInputDTO {
    pub timeframe: TimestampRange,
    pub limit: usize,
    pub skip: usize,
    pub taggers_limit: usize,
    pub tagged_type: Option<TaggedType>,
}

impl HotTagsInputDTO {
    /// A search for hot tags.
    pub fn new(
        timeframe: TimestampRange,
        limit: usize,
        skip: usize,
        taggers_limit: usize,
        tagged_type: Option<TaggedType>,
    ) -> (r: Self)
        ensures
            r == (HotTagsInputDTO { timeframe, limit, skip, taggers_limit, tagged_type }),
    {
        HotTagsInputDTO { timeframe, limit, skip, taggers_limit, tagged_type }
    }
}

/// Each reach is read from its own name, and a web of trust from its name and its depth.
pub proof fn law_reaches_are_read_from_their_names(
    reach: StreamReach,
    r: Result<StreamReach, ReachError>,
)
    requires
        !(reach is Wot),
        reach_parsed_as(reach.name(), r),
    ensures
        r == Ok::<StreamReach, ReachError>(reach),
        reach.name() == "followers"@ <==> reach is Followers,
        reach.name() == "following"@ <==> reach is Following,
        reach.name() == "friends"@ <==> reach is Friends,
        reach.wot_depth() is None,
{
    reveal_strlit("followers");
    reveal_strlit("following");
    reveal_strlit("friends");
    assert("followers"@.len() == 9 && "following"@.len() == 9 && "friends"@.len() == 7);
    assert("followers"@[6] == 'e' && "following"@[6] == 'i');
}

} // verus!
