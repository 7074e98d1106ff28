//! The primary homeserver: polling its events, and whose events are processed.
use crate::text::{
    decimal, decimal_text, from_utf8_lossy, has_prefix, lines, lines_of, split_all, strip_prefix, trim,
    trimmed, utf8_lossy, views,
};
use crate::watcher::errors::{ClientError, Disposition, EventProcessorError};
use crate::watcher::event::{
    law_events_keep_their_word, law_parsed_events_are_handled, line_parsed_as, Event, ParseResult,
};
use crate::watcher::fetch::{CappedRead, MAX_EVENTS_BODY};
use vstd::prelude::*;

verus! {

/// A user's `HOSTED_BY` mapping, classified relative to a processor's homeserver.
///
/// The `stale` flag is only carried where it is meaningful: a stale mapping means
/// the user's published homeserver has diverged from the stored one.
#[derive(Debug, Clone, PartialEq, Eq)]
pub enum HsMapping {
    /// The user has no `HOSTED_BY` edge yet.
    Unbound,
    /// The user is mapped to this processor's homeserver.
    Current { stale: bool },
    /// The user is mapped to a different homeserver.
    Other { hs_id: String },
}

/// A mapping with its homeserver as a text.
#[verifier::ext_equal]
pub enum HsMappingView {
    Unbound,
    Current { stale: bool },
    Other { hs_id: Seq<char> },
}

impl View for HsMapping {
    type V = HsMappingView;

    open spec fn view(&self) -> HsMappingView {
        match self {
            HsMapping::Unbound => HsMappingView::Unbound,
            HsMapping::Current { stale } => HsMappingView::Current { stale: *stale },
            HsMapping::Other { hs_id } => HsMappingView::Other { hs_id: hs_id@ },
        }
    }
}

impl HsMappingView {
    /// Whether events of a user mapped so are processed: there is no mapping yet (graceful
    /// fallback), or the user is actively bound here.
    pub open spec fn is_active(self) -> bool {
        match self {
            HsMappingView::Unbound => true,
            HsMappingView::Current { stale } => !stale,
            HsMappingView::Other { .. } => false,
        }
    }
}

/// What the stored mapping of a user, homeserver and staleness, is to the processor of the
/// homeserver `hs_id`.
pub open spec fn mapping_of(row: Option<(String, bool)>, hs_id: Seq<char>) -> HsMappingView {
    match row {
        None => HsMappingView::Unbound,
        Some((stored, stale)) => if stored@ == hs_id {
            HsMappingView::Current { stale }
        } else {
            HsMappingView::Other { hs_id: stored@ }
        },
    }
}

impl HsMapping {
    /// Classifies the stored mapping of a user relative to the homeserver `hs_id`.
    pub fn classify(row: Option<(String, bool)>, hs_id: &str) -> (r: HsMapping)
        ensures
            r@ == mapping_of(row, hs_id@),
    {
        match row {
            None => HsMapping::Unbound,
            Some((stored, stale)) => if *stored.as_str() == *hs_id {
                HsMapping::Current { stale }
            } else {
                HsMapping::Other { hs_id: stored }
            },
        }
    }

    /// Whether events of a user mapped so are processed.
    ///
    /// - No edge, or a non-stale edge to this processor's homeserver: process.
    /// - A stale edge to this homeserver (the user's published homeserver has
    ///   diverged): skip until the resolver realigns it.
    /// - An edge to a different homeserver: skip.
    pub fn is_active(&self) -> (r: bool)
        ensures
            r == self@.is_active(),
    {
        match self {
            HsMapping::Unbound => true,
            HsMapping::Current { stale } => !*stale,
            HsMapping::Other { .. } => false,
        }
    }

    /// The same mapping once more.
    pub fn copy(&self) -> (r: HsMapping)
        ensures
            r@ == self@,
    {
        match self {
            HsMapping::Unbound => HsMapping::Unbound,
            HsMapping::Current { stale } => HsMapping::Current { stale: *stale },
            HsMapping::Other { hs_id } => HsMapping::Other { hs_id: hs_id.clone() },
        }
    }
}

/// Per-run cache of users' mappings. For a given user's events in the events list, only the
/// 1st one results in a graph lookup, the rest read from this cache.
///
/// Entries are deliberately never refreshed within a run: once a user's mapping is
/// resolved, the same decision is reused for the rest of the batch even if the resolver
/// realigns the underlying edge mid-run. The cache is dropped when the run ends.
#[derive(Debug, Clone, PartialEq, Eq)]
pub struct HsMappingCache {
    entries: Vec<(String, HsMapping)>,
}

/// The mappings that a list of entries holds: the first entry of a user counts.
pub open spec fn first_entries(entries: Seq<(String, HsMapping)>) -> Map<Seq<char>, HsMappingView>
    decreases entries.len(),
{
    if entries.len() == 0 {
        Map::empty()
    } else {
        let rest = first_entries(entries.drop_last());
        if rest.dom().contains(entries.last().0@) {
            rest
        } else {
            rest.insert(entries.last().0@, entries.last().1@)
        }
    }
}

/// The first entry of a user is what the entries hold of the user.
proof fn lemma_first_entry(entries: Seq<(String, HsMapping)>, user: Seq<char>, k: int)
    requires
        0 <= k <= entries.len(),
        k < entries.len() ==> entries[k].0@ == user,
        forall|j: int| 0 <= j < k ==> #[trigger] entries[j].0@ != user,
    ensures
        first_entries(entries).dom().contains(user) <==> k < entries.len(),
        k < entries.len() ==> first_entries(entries)[user] == entries[k].1@,
    decreases entries.len(),
{
    if entries.len() > 0 {
        let rest = entries.drop_last();
        let last = entries.last();
        if k < entries.len() - 1 {
            lemma_first_entry(rest, user, k);
        } else {
            assert forall|j: int| 0 <= j < rest.len() implies #[trigger] rest[j].0@ != user by {
                assert(entries[j].0@ != user);
            }
            lemma_first_entry(rest, user, rest.len() as int);
        }
    }
}

impl HsMappingCache {
    /// The cached mappings by user.
    pub closed spec fn mappings(&self) -> Map<Seq<char>, HsMappingView> {
        first_entries(self.entries@)
    }

    /// An empty cache.
    pub fn new() -> (r: HsMappingCache)
        ensures
            r.mappings() == Map::<Seq<char>, HsMappingView>::empty(),
    {
        HsMappingCache { entries: Vec::new() }
    }

    /// The cached mapping of a user.
    pub fn get(&self, user_id: &str) -> (r: Option<HsMapping>)
        ensures
            match r {
                Some(m) => self.mappings().dom().contains(user_id@) && self.mappings()[user_id@]
                    == m@,
                None => !self.mappings().dom().contains(user_id@),
            },
    {
        let mut i: usize = 0;
        while i < self.entries.len()
            invariant
                i <= self.entries.len(),
                forall|j: int| 0 <= j < i ==> #[trigger] self.entries@[j].0@ != user_id@,
            decreases self.entries.len() - i,
        {
            if *self.entries[i].0.as_str() == *user_id {
                proof {
                    lemma_first_entry(self.entries@, user_id@, i as int);
                }
                return Some(self.entries[i].1.copy());
            }
            i = i + 1;
        }
        proof {
            lemma_first_entry(self.entries@, user_id@, i as int);
        }
        None
    }

    /// Keeps the mapping of a user who has none yet.
    fn insert(&mut self, user_id: &str, mapping: HsMapping)
        requires
            !old(self).mappings().dom().contains(user_id@),
        ensures
            final(self).mappings() == old(self).mappings().insert(user_id@, mapping@),
    {
        let ghost before = self.entries@;
        self.entries.push((user_id.to_owned(), mapping));
        assert(self.entries@.drop_last() == before);
    }
}

/// The primary homeserver as the watcher knows it.
#[derive(Debug, Clone, PartialEq, Eq)]
pub struct Homeserver {
    pub id: String,
    /// Where the next poll starts.
    pub cursor: String,
}

/// Event processor for the primary homeserver
#[derive(Debug, Clone, PartialEq, Eq)]
pub struct HsEventProcessor {
    /// The primary homeserver that this processor fetches events from
    pub homeserver: Homeserver,
    /// Maximum number of events per poll
    pub limit: u16,
    pub hs_mapping_cache: HsMappingCache,
}

/// The mapping that counts for a user: the cached one, else what is stored.
pub open spec fn effective_mapping(
    cached: Map<Seq<char>, HsMappingView>,
    user_id: Seq<char>,
    row: Option<(String, bool)>,
    hs_id: Seq<char>,
) -> HsMappingView {
    if cached.dom().contains(user_id) {
        cached[user_id]
    } else {
        mapping_of(row, hs_id)
    }
}

/// The URL that events are polled from.
pub open spec fn events_url(homeserver: Homeserver, limit: u16) -> Seq<char> {
    "https://"@ + homeserver.id@ + "/events/?cursor="@ + homeserver.cursor@ + "&limit="@ + decimal(
        limit as nat,
    )
}

/// The event lines of a response text; none where it is blank.
pub open spec fn event_lines(text: Seq<char>) -> Option<Seq<Seq<char>>> {
    let all = lines_of(trimmed(text));
    if all.len() == 0 || (all.len() == 1 && all[0].len() == 0) {
        None
    } else {
        Some(all)
    }
}

/// The views of an optional list of strings.
pub open spec fn opt_views(v: Option<Vec<String>>) -> Option<Seq<Seq<char>>> {
    match v {
        Some(l) => Some(views(l@)),
        None => None,
    }
}

/// Splits a response text into event lines.
pub fn split_event_lines(response_text: &str) -> (r: Option<Vec<String>>)
    ensures
        opt_views(r) == event_lines(response_text@),
{
    let text = trim(response_text);
    let all = lines(text.as_str());
    assert(views(all@).len() == all@.len());
    if all.len() == 0 {
        return None;
    }
    assert(views(all@)[0] == all@[0]@);
    if all.len() == 1 && all[0].as_str().is_empty() {
        return None;
    }
    Some(all)
}

/// Whether `r` is what is made of the response to a poll.
pub open spec fn polled_as(
    read: CappedRead,
    r: Result<Option<Vec<String>>, EventProcessorError>,
) -> bool {
    match read {
        Err(message) => r matches Err(
            EventProcessorError::ClientError(ClientError::RequestFailed { message: m }),
        ) && m == message,
        Ok((buf, exceeded)) => if exceeded || buf@.len() > MAX_EVENTS_BODY {
            r matches Err(EventProcessorError::FetchSizeExceeded(n, max)) && n == buf@.len() && max
                == MAX_EVENTS_BODY
        } else {
            r matches Ok(l) && opt_views(l) == event_lines(utf8_lossy(buf@))
        },
    }
}

impl HsEventProcessor {
    /// The name of this processor.
    pub fn instance_name(&self) -> (r: String)
        ensures
            r@ == "HsEventProcessor with HS ID: "@ + self.homeserver.id@,
    {
        "HsEventProcessor with HS ID: ".to_owned().concat(self.homeserver.id.as_str())
    }

    /// The URL that events are polled from: the current cursor and the limit.
    pub fn poll_url(&self) -> (r: String)
        ensures
            r@ == events_url(self.homeserver, self.limit),
    {
        let limit = decimal_text(self.limit as u64);
        "https://".to_owned().concat(self.homeserver.id.as_str()).concat("/events/?cursor=").concat(
            self.homeserver.cursor.as_str(),
        ).concat("&limit=").concat(limit.as_str())
    }

    /// Makes event lines of the response to a poll, read up to the limit for event lists.
    pub fn poll_events(read: CappedRead) -> (r: Result<Option<Vec<String>>, EventProcessorError>)
        ensures
            polled_as(read, r),
    {
        match read {
            Err(message) => Err(EventProcessorError::client_error(message)),
            Ok((buf, exceeded)) => if exceeded || buf.len() > MAX_EVENTS_BODY {
                Err(
                    EventProcessorError::FetchSizeExceeded(
                        buf.len() as u64,
                        MAX_EVENTS_BODY as u64,
                    ),
                )
            } else {
                let text = from_utf8_lossy(buf.as_slice());
                Ok(split_event_lines(text.as_str()))
            },
        }
    }

    /// Resolves and caches a user's mapping relative to this processor's homeserver. `row`
    /// is what is stored, homeserver and staleness; it counts only where nothing is cached.
    pub fn user_hs_mapping(&mut self, user_id: &str, row: Option<(String, bool)>) -> (r: HsMapping)
        ensures
            r@ == effective_mapping(
                old(self).hs_mapping_cache.mappings(),
                user_id@,
                row,
                old(self).homeserver.id@,
            ),
            final(self).hs_mapping_cache.mappings()
                == old(self).hs_mapping_cache.mappings().insert(user_id@, r@),
            final(self).homeserver == old(self).homeserver,
            final(self).limit == old(self).limit,
    {
        let ghost before = self.hs_mapping_cache.mappings();
        match self.hs_mapping_cache.get(user_id) {
            Some(mapping) => {
                assert(before.insert(user_id@, mapping@) =~= before);
                mapping
            },
            None => {
                let mapping = HsMapping::classify(row, self.homeserver.id.as_str());
                self.hs_mapping_cache.insert(user_id, mapping.copy());
                mapping
            },
        }
    }

    /// Skips events from users that are not actively bound to this homeserver.
    pub fn should_process_event(&mut self, event: &Event, row: Option<(String, bool)>) -> (r: bool)
        ensures
            r == effective_mapping(
                old(self).hs_mapping_cache.mappings(),
                event.parsed_uri.user(),
                row,
                old(self).homeserver.id@,
            ).is_active(),
            final(self).hs_mapping_cache.mappings()
                == old(self).hs_mapping_cache.mappings().insert(
                event.parsed_uri.user(),
                effective_mapping(
                    old(self).hs_mapping_cache.mappings(),
                    event.parsed_uri.user(),
                    row,
                    old(self).homeserver.id@,
                ),
            ),
            final(self).homeserver == old(self).homeserver,
            final(self).limit == old(self).limit,
    {
        let user_id = event.user_id();
        let mapping = self.user_hs_mapping(user_id.as_str(), row);
        mapping.is_active()
    }
}

/// A batch of event lines and how far it has been worked through.
#[derive(Debug, Clone, PartialEq, Eq)]
pub struct LineBatch {
    pub lines: Vec<String>,
    pub next: usize,
}

/// What to do next with a batch.
#[derive(Debug, Clone, PartialEq, Eq)]
pub enum LineStep {
    /// The batch is done, or the watcher shuts down.
    Finished,
    /// Save the cursor that the next poll starts from.
    SaveCursor(String),
    /// Handle the event.
    Handle(Event),
    /// Go on: the resource is known and not handled.
    Skip,
    /// Log the text and go on: the line says nothing to act on.
    Log(String),
}

/// Whether `step` is what a line asks for: to save a cursor, to handle an event, or nothing.
pub open spec fn line_asks_for(line: Seq<char>, step: LineStep) -> bool {
    if has_prefix(line, "cursor: "@) {
        step matches LineStep::SaveCursor(c) && c@ == line.skip("cursor: "@.len() as int)
    } else {
        exists|parsed: Result<ParseResult, EventProcessorError>| #[trigger]
            line_parsed_as(line, parsed) && (match parsed {
                Ok(ParseResult::Parsed(event)) => step == LineStep::Handle(event),
                Ok(ParseResult::Skipped) => step == LineStep::Skip,
                Ok(ParseResult::UnrecognizedUri { reason, .. }) => step == LineStep::Log(reason),
                Err(e) => step matches LineStep::Log(m) && m@ == e.words(),
            })
    }
}

/// Whether taking the next line of a batch leads from `before` to `after` and asks for `step`.
pub open spec fn batch_advanced(
    before: LineBatch,
    shutdown: bool,
    after: LineBatch,
    step: LineStep,
) -> bool {
    &&& after.lines == before.lines
    &&& if shutdown || before.next == before.lines@.len() {
        step is Finished && after.next == before.next
    } else {
        line_asks_for(before.lines@[before.next as int]@, step) && after.next == before.next + 1
    }
}

impl LineBatch {
    /// A batch of which nothing has been done.
    pub fn new(lines: Vec<String>) -> (r: LineBatch)
        ensures
            r.lines == lines,
            r.next == 0,
    {
        LineBatch { lines, next: 0 }
    }

    /// Whether the batch has not been worked past its end.
    pub open spec fn wf(self) -> bool {
        self.next <= self.lines@.len()
    }

    /// Takes the next line of the batch, unless the watcher shuts down.
    pub fn advance(&mut self, shutdown: bool) -> (r: LineStep)
        requires
            old(self).wf(),
        ensures
            final(self).wf(),
            batch_advanced(*old(self), shutdown, *final(self), r),
    {
        if shutdown || self.next >= self.lines.len() {
            return LineStep::Finished;
        }
        let line = self.lines[self.next].clone();
        self.next = self.next + 1;
        match strip_prefix(line.as_str(), "cursor: ") {
            Some(cursor) => LineStep::SaveCursor(cursor),
            None => {
                let parsed = Event::parse_event(line.as_str());
                let ghost read = parsed;
                assert(line_parsed_as(line@, read));
                match parsed {
                    Ok(ParseResult::Parsed(event)) => LineStep::Handle(event),
                    Ok(ParseResult::Skipped) => LineStep::Skip,
                    Ok(ParseResult::UnrecognizedUri { reason, .. }) => LineStep::Log(reason),
                    Err(e) => LineStep::Log(e.message()),
                }
            },
        }
    }
}

/// Whether a batch goes on after an event was handled, and what becomes of the event.
#[derive(Debug, Clone, PartialEq, Eq)]
pub enum LineOutcome {
    /// Go on: the event is done.
    Done,
    /// Put the event on the retry queue for the error, and go on.
    Queue(EventProcessorError),
    /// Log the error and go on without the event.
    Drop(EventProcessorError),
    /// The batch is over, with the error. A cursor that follows is not saved, so that the
    /// next run replays from the same position.
    Stop(EventProcessorError),
}

/// What follows from how handling an event of a batch went.
pub open spec fn line_outcome(result: Result<(), EventProcessorError>) -> LineOutcome {
    match result {
        Ok(_) => LineOutcome::Done,
        Err(e) => match e.outcome() {
            Disposition::StopBatch => LineOutcome::Stop(e),
            Disposition::Drop => LineOutcome::Drop(e),
            _ => LineOutcome::Queue(e),
        },
    }
}

/// Whether the outcome of handling an event of a batch leads from `before` to `after`.
pub open spec fn batch_handled(
    before: LineBatch,
    result: Result<(), EventProcessorError>,
    after: LineBatch,
    outcome: LineOutcome,
) -> bool {
    &&& after.lines == before.lines
    &&& outcome == line_outcome(result)
    &&& after.next == (if outcome is Stop {
        before.lines@.len()
    } else {
        before.next as nat
    })
}

impl LineBatch {
    /// Decides what follows from how handling the last event went.
    pub fn handled(&mut self, result: Result<(), EventProcessorError>) -> (r: LineOutcome)
        requires
            old(self).wf(),
        ensures
            final(self).wf(),
            batch_handled(*old(self), result, *final(self), r),
    {
        match result {
            Ok(_) => LineOutcome::Done,
            Err(e) => match e.disposition() {
                Disposition::StopBatch => {
                    self.next = self.lines.len();
                    LineOutcome::Stop(e)
                },
                Disposition::Drop => LineOutcome::Drop(e),
                _ => LineOutcome::Queue(e),
            },
        }
    }
}

/// One event does not stop the others, whatever is wrong with it: only an error that should
/// not be retried now does.
pub proof fn law_only_infrastructure_stops_a_batch(result: Result<(), EventProcessorError>)
    ensures
        line_outcome(result) is Stop <==> (result matches Err(e) && e.stops_batch()),
        line_outcome(result) is Queue ==> (result matches Err(e) && (e is MissingDependency
            || e.is_retryable())),
{
}

/// A batch that stopped asks for nothing more: no later line is handled and no later cursor is
/// saved, so that the next run replays from the same position.
pub proof fn law_stopped_batch_saves_no_cursor(
    before: LineBatch,
    e: EventProcessorError,
    stopped: LineBatch,
    outcome: LineOutcome,
    shutdown: bool,
    after: LineBatch,
    step: LineStep,
)
    requires
        e.stops_batch(),
        batch_handled(before, Err(e), stopped, outcome),
        batch_advanced(stopped, shutdown, after, step),
    ensures
        outcome == LineOutcome::Stop(e),
        step is Finished,
        after == stopped,
{
}

/// An event that does not stop its batch costs the batch nothing: the line after it is the next.
pub proof fn law_other_failures_leave_the_batch_going(
    before: LineBatch,
    result: Result<(), EventProcessorError>,
    after: LineBatch,
    outcome: LineOutcome,
)
    requires
        !(result matches Err(e) && e.stops_batch()),
        batch_handled(before, result, after, outcome),
    ensures
        after == before,
{
}

/// Once a user's mapping is cached, nothing stored later changes what counts for the user in
/// this run.
pub proof fn law_mapping_is_fixed_within_a_run(
    cached: Map<Seq<char>, HsMappingView>,
    user_id: Seq<char>,
    first: Option<(String, bool)>,
    later: Option<(String, bool)>,
    hs_id: Seq<char>,
)
    ensures
        ({
            let mapping = effective_mapping(cached, user_id, first, hs_id);
            effective_mapping(cached.insert(user_id, mapping), user_id, later, hs_id) == mapping
        }),
{
}

/// Resolving one user leaves what counts for every other user as it was.
pub proof fn law_users_do_not_share_mappings(
    cached: Map<Seq<char>, HsMappingView>,
    user_id: Seq<char>,
    other: Seq<char>,
    mapping: HsMappingView,
    row: Option<(String, bool)>,
    hs_id: Seq<char>,
)
    requires
        user_id != other,
    ensures
        effective_mapping(cached.insert(user_id, mapping), other, row, hs_id) == effective_mapping(
            cached,
            other,
            row,
            hs_id,
        ),
{
}

/// An event is processed exactly where its user is bound to no homeserver, or to this one by
/// a mapping that is not stale.
pub proof fn law_only_active_users_are_processed(row: Option<(String, bool)>, hs_id: Seq<char>)
    ensures
        mapping_of(row, hs_id).is_active() <==> (row matches Some(stored) ==> stored.0@ == hs_id
            && !stored.1),
{
}

/// A line that names a cursor saves that cursor, and no other line does; an event is handled as its
/// line says.
pub proof fn law_lines_ask_for_what_they_say(line: Seq<char>, step: LineStep)
    requires
        line_asks_for(line, step),
    ensures
        step is SaveCursor <==> has_prefix(line, "cursor: "@),
        step matches LineStep::SaveCursor(cursor) ==> line == "cursor: "@ + cursor@,
        step matches LineStep::Handle(event) ==> split_all(line, ' ') == seq![
            event.event_type.word(),
            event.uri@,
        ] && event.line() == line && event.parsed_uri.is_of(event.uri@),
        !(step is Finished),
{
    if has_prefix(line, "cursor: "@) {
        assert(line =~= "cursor: "@ + line.skip("cursor: "@.len() as int));
    } else {
        let parsed = choose|parsed: Result<ParseResult, EventProcessorError>| #[trigger]
            line_parsed_as(line, parsed) && (match parsed {
                Ok(ParseResult::Parsed(event)) => step == LineStep::Handle(event),
                Ok(ParseResult::Skipped) => step == LineStep::Skip,
                Ok(ParseResult::UnrecognizedUri { reason, .. }) => step == LineStep::Log(reason),
                Err(e) => step matches LineStep::Log(m) && m@ == e.words(),
            });
        law_events_keep_their_word(line, parsed);
        law_parsed_events_are_handled(line, parsed);
    }
}

/// What becomes of an event is decided by what it failed with: done where it did not fail, queued
/// where another attempt can help or it waits for something, dropped where neither does, and always
/// with the error itself.
pub proof fn law_outcomes_follow_the_error(result: Result<(), EventProcessorError>)
    ensures
        line_outcome(result) is Done <==> result is Ok,
        line_outcome(result) is Queue <==> (result matches Err(e) && !e.stops_batch() && (
        e is MissingDependency || e.is_retryable())),
        line_outcome(result) is Drop <==> (result matches Err(e) && !e.stops_batch() && !(
        e is MissingDependency) && !e.is_retryable()),
        result matches Err(e) ==> (line_outcome(result) == LineOutcome::Queue(e) || line_outcome(
            result,
        ) == LineOutcome::Drop(e) || line_outcome(result) == LineOutcome::Stop(e)),
{
}

/// A user without a mapping is bound to no homeserver; one with a mapping is bound to the homeserver
/// that is stored, and to this one exactly where it is the same.
pub proof fn law_mappings_are_those_stored(row: Option<(String, bool)>, hs_id: Seq<char>)
    ensures
        mapping_of(row, hs_id) is Unbound <==> row is None,
        mapping_of(row, hs_id) is Current <==> (row matches Some(stored) && stored.0@ == hs_id),
        mapping_of(row, hs_id) is Other <==> (row matches Some(stored) && stored.0@ != hs_id),
        mapping_of(row, hs_id) matches HsMappingView::Current { stale } ==> (row matches Some(stored)
            && stored.1 == stale),
        mapping_of(row, hs_id) matches HsMappingView::Other { hs_id: h } ==> (row matches Some(stored)
            && stored.0@ == h),
{
}

/// A response is used exactly where it was read whole and within the limit: one that is too large is
/// dropped, and one that could not be read is asked for again. A blank one holds no lines, and any
/// other the lines between the white space around it.
pub proof fn law_responses_are_read_whole(
    read: CappedRead,
    r: Result<Option<Vec<String>>, EventProcessorError>,
)
    requires
        polled_as(read, r),
    ensures
        r is Ok <==> (read matches Ok(b) && !b.1 && b.0@.len() <= 5 * 1024 * 1024),
        read matches Err(message) ==> (r matches Err(e) && e.outcome()
            == Disposition::QueueTransient && e.words() == "ClientError: "@ + message@),
        read matches Ok(b) ==> (r matches Err(e) ==> e.outcome() == Disposition::Drop && (
        e matches EventProcessorError::FetchSizeExceeded(n, max) && n == b.0@.len() && max == 5 * 1024
            * 1024)),
        r matches Ok(l) ==> (read matches Ok(b) ==> {
            let text = trimmed(utf8_lossy(b.0@));
            &&& text.len() == 0 ==> l is None
            &&& l matches Some(lines) ==> views(lines@) == lines_of(text)
        }),
{
}

/// The lines of a batch are taken in turn, each once: the next line is asked for as it is, and nothing
/// is asked for once the lines are done or the watcher shuts down.
pub proof fn law_lines_are_taken_in_turn(
    before: LineBatch,
    shutdown: bool,
    after: LineBatch,
    step: LineStep,
)
    requires
        before.wf(),
        batch_advanced(before, shutdown, after, step),
    ensures
        after.lines == before.lines,
        step is Finished <==> shutdown || before.next >= before.lines@.len(),
        !(step is Finished) ==> after.next == before.next + 1 && line_asks_for(
            before.lines@[before.next as int]@,
            step,
        ),
        step is Finished ==> after.next == before.next,
{
    if !shutdown && before.next < before.lines@.len() {
        law_lines_ask_for_what_they_say(before.lines@[before.next as int]@, step);
    }
}

} // verus!
