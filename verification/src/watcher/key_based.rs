//! External homeservers: one event stream per user, read and processed user by user.
use crate::uri::{parse_public_key, public_key_of, PubkyId};
use crate::user::ingestor::HsBlacklist;
use crate::watcher::errors::{failure_of_status, ClientError, EventProcessorError};
use crate::watcher::event::{
    law_stream_events_keep_their_word, stream_event_read_as, Event, StreamEvent,
};
use vstd::prelude::*;

verus! {

/// Reads events of users from the network.
#[derive(Debug, Clone, Copy, PartialEq, Eq, Structural)]
pub struct PubkyKeyBasedEventSource;

/// How long to wait before an event fetch that was answered with 429 for the
/// `attempt`-th time, counted from 0, is tried again; nothing where it is given up.
pub open spec fn backoff_secs(attempt: int) -> Option<u64> {
    if attempt == 0 {
        Some(1u64)
    } else if attempt == 1 {
        Some(2u64)
    } else if attempt == 2 {
        Some(3u64)
    } else {
        None
    }
}

/// Attempts to fetch a user's events from a homeserver that limits its rate.
#[derive(Debug, Clone, Copy, PartialEq, Eq, Structural)]
pub struct RateLimitedFetch {
    pub retry_index: usize,
}

/// What to do after an attempt to fetch events.
#[derive(Debug, Clone, PartialEq, Eq)]
pub enum FetchStep {
    /// The events are there.
    Fetched(Vec<StreamEvent>),
    /// Wait and try again.
    WaitAndRetry { secs: u64 },
    /// Give up.
    Failed(EventProcessorError),
}

/// Whether an answer is a 429.
pub open spec fn is_rate_limited(result: Result<Vec<StreamEvent>, EventProcessorError>) -> bool {
    result matches Err(EventProcessorError::ClientError(ClientError::TooManyRequests429 { .. }))
}

impl RateLimitedFetch {
    /// No attempt so far.
    pub fn new() -> (r: RateLimitedFetch)
        ensures
            r.retry_index == 0,
    {
        RateLimitedFetch { retry_index: 0 }
    }

    /// Decides on the answer to an attempt: only a 429 is tried again, after a growing wait
    /// and a bounded number of times.
    pub fn answered(&mut self, result: Result<Vec<StreamEvent>, EventProcessorError>) -> (r:
        FetchStep)
        ensures
            if is_rate_limited(result) {
                match backoff_secs(old(self).retry_index as int) {
                    Some(secs) => r == (FetchStep::WaitAndRetry { secs }) && final(self).retry_index
                        == old(self).retry_index + 1,
                    None => r == FetchStep::Failed(
                        EventProcessorError::HsEventsStreamRateLimitExhausted,
                    ) && *final(self) == *old(self),
                }
            } else {
                &&& *final(self) == *old(self)
                &&& match result {
                    Ok(events) => r == FetchStep::Fetched(events),
                    Err(e) => r == FetchStep::Failed(e),
                }
            },
    {
        match result {
            Ok(events) => FetchStep::Fetched(events),
            Err(e) => if e.is_too_many_requests() {
                let secs: u64 = if self.retry_index == 0 {
                    1
                } else if self.retry_index == 1 {
                    2
                } else if self.retry_index == 2 {
                    3
                } else {
                    return FetchStep::Failed(EventProcessorError::HsEventsStreamRateLimitExhausted);
                };
                self.retry_index = self.retry_index + 1;
                FetchStep::WaitAndRetry { secs }
            } else {
                FetchStep::Failed(e)
            },
        }
    }
}

/// Collects the events of a stream up to a limit. The homeserver is asked for at most
/// `limit` events, but a misbehaving one could return more.
#[derive(Debug, Clone, PartialEq, Eq)]
pub struct EventCollector {
    pub limit: u16,
    pub events: Vec<StreamEvent>,
}

/// What to do after an entry of a stream.
#[derive(Debug, Clone, PartialEq, Eq)]
pub enum CollectStep {
    /// Read on.
    More,
    /// Stop reading: the stream holds more than was asked for, and the excess is ignored.
    LimitReached,
    /// Stop reading: the stream failed.
    Failed(EventProcessorError),
}

impl EventCollector {
    /// Whether no more events were kept than allowed.
    pub open spec fn wf(self) -> bool {
        self.events@.len() <= self.limit
    }

    /// A collector without events.
    pub fn new(limit: u16) -> (r: EventCollector)
        ensures
            r.wf(),
            r.limit == limit,
            r.events@ == Seq::<StreamEvent>::empty(),
    {
        EventCollector { limit, events: Vec::new() }
    }

    /// Takes the next entry of the stream.
    pub fn push(&mut self, entry: Result<StreamEvent, EventProcessorError>) -> (r: CollectStep)
        requires
            old(self).wf(),
        ensures
            final(self).wf(),
            final(self).limit == old(self).limit,
            if old(self).events@.len() == old(self).limit {
                r is LimitReached && final(self).events == old(self).events
            } else {
                match entry {
                    Ok(event) => r is More && final(self).events@ == old(self).events@.push(event),
                    Err(e) => r == CollectStep::Failed(e) && final(self).events
                        == old(self).events,
                }
            },
    {
        if self.events.len() >= self.limit as usize {
            return CollectStep::LimitReached;
        }
        match entry {
            Ok(event) => {
                self.events.push(event);
                CollectStep::More
            },
            Err(e) => CollectStep::Failed(e),
        }
    }
}

/// A user of a homeserver and where the user's events go on.
#[derive(Debug, Clone, PartialEq, Eq)]
pub struct UserCursor {
    /// The user's public key in z-base-32.
    pub user_id: String,
    pub cursor: u64,
}

/// The users whose ids hold a public key: the key, and the id that it was read from.
pub open spec fn valid_keys(user_ids: Seq<String>) -> Seq<(Seq<char>, Seq<char>)>
    decreases user_ids.len(),
{
    if user_ids.len() == 0 {
        Seq::empty()
    } else {
        match public_key_of(user_ids.last()@) {
            Some(key) => valid_keys(user_ids.drop_last()).push((key, user_ids.last()@)),
            None => valid_keys(user_ids.drop_last()),
        }
    }
}

/// The views of pairs of texts.
pub open spec fn pair_views(pairs: Seq<(String, String)>) -> Seq<(Seq<char>, Seq<char>)> {
    pairs.map_values(|p: (String, String)| (p.0@, p.1@))
}

/// Keeps the users whose ids hold a public key, in order.
pub fn valid_users(user_ids: &Vec<String>) -> (r: Vec<(String, String)>)
    ensures
        pair_views(r@) == valid_keys(user_ids@),
{
    let mut out: Vec<(String, String)> = Vec::new();
    let mut i: usize = 0;
    assert(user_ids@.take(0) == Seq::<String>::empty());
    assert(pair_views(out@) =~= valid_keys(user_ids@.take(0)));
    while i < user_ids.len()
        invariant
            i <= user_ids.len(),
            pair_views(out@) == valid_keys(user_ids@.take(i as int)),
        decreases user_ids.len() - i,
    {
        assert(user_ids@.take(i + 1).drop_last() == user_ids@.take(i as int));
        assert(user_ids@.take(i + 1).last() == user_ids@[i as int]);
        if let Some(key) = parse_public_key(user_ids[i].as_str()) {
            let ghost before = out@;
            out.push((key, user_ids[i].clone()));
            assert(pair_views(out@) =~= pair_views(before).push((key@, user_ids@[i as int]@)));
        }
        i = i + 1;
    }
    assert(user_ids@.take(i as int) == user_ids@);
    out
}

/// Pairs users with their cursors, as far as there are both.
pub fn with_cursors(users: &Vec<(String, String)>, cursors: &Vec<u64>) -> (r: Vec<UserCursor>)
    ensures
        r@.len() == (if users@.len() < cursors@.len() {
            users@.len()
        } else {
            cursors@.len()
        }),
        forall|i: int|
            0 <= i < r@.len() ==> (#[trigger] r@[i]).user_id@ == users@[i].0@ && r@[i].cursor
                == cursors@[i],
{
    let mut out: Vec<UserCursor> = Vec::new();
    let mut i: usize = 0;
    while i < users.len() && i < cursors.len()
        invariant
            i <= users.len(),
            i <= cursors.len(),
            out@.len() == i,
            forall|j: int|
                0 <= j < i ==> (#[trigger] out@[j]).user_id@ == users@[j].0@ && out@[j].cursor
                    == cursors@[j],
        decreases users.len() - i,
    {
        out.push(UserCursor { user_id: users[i].0.clone(), cursor: cursors[i] });
        i = i + 1;
    }
    out
}

/// Event processor for third-party (external) homeservers, whose events are read user by user
#[derive(Debug, Clone, PartialEq, Eq)]
pub struct KeyBasedEventProcessor {
    /// The homeserver that this processor fetches events from
    pub homeserver_id: PubkyId,
    /// Max events the homeserver will send before closing the stream.
    /// Bounds execution time per user, preventing timeout and starvation.
    pub limit: u16,
    /// Homeservers that should not be indexed. The runner already excludes these; the
    /// processor refuses to run for one too.
    pub hs_blacklist: HsBlacklist,
}

impl KeyBasedEventProcessor {
    /// The name of this processor.
    pub fn instance_name(&self) -> (r: String)
        ensures
            r@ == "KeyBasedEventProcessor with HS ID: "@ + self.homeserver_id@,
    {
        "KeyBasedEventProcessor with HS ID: ".to_owned().concat(self.homeserver_id.as_str())
    }

    /// The homeserver that this processor fetches events from.
    pub fn homeserver_id(&self) -> (r: &str)
        ensures
            r@ == self.homeserver_id@,
    {
        self.homeserver_id.as_str()
    }

    /// Refuses to run for a blacklisted homeserver.
    pub fn check_homeserver(&self) -> (r: Result<(), EventProcessorError>)
        ensures
            match r {
                Ok(_) => !self.hs_blacklist.lists(self.homeserver_id@),
                Err(e) => self.hs_blacklist.lists(self.homeserver_id@) && (
                e matches EventProcessorError::HsBlacklisted { hs_id } && hs_id@
                    == self.homeserver_id@),
            },
    {
        if self.hs_blacklist.is_blacklisted(self.homeserver_id.as_str()) {
            Err(EventProcessorError::HsBlacklisted { hs_id: self.homeserver_id.text() })
        } else {
            Ok(())
        }
    }

    /// External homeservers must not index another user's URI.
    pub fn validate_user_id(hs_id: &str, event: &Event, expected_user_id: &str) -> (r: Result<
        (),
        EventProcessorError,
    >)
        ensures
            match r {
                Ok(_) => event.parsed_uri.user() == expected_user_id@,
                Err(e) => event.parsed_uri.user() != expected_user_id@ && is_mismatch(
                    e,
                    hs_id@,
                    expected_user_id@,
                    event.parsed_uri.user(),
                ),
            },
    {
        let event_user_id = event.user_id();
        if *event_user_id.as_str() == *expected_user_id {
            Ok(())
        } else {
            Err(
                EventProcessorError::UserIdMismatch {
                    hs_id: hs_id.to_owned(),
                    expected_user_id: expected_user_id.to_owned(),
                    event_user_id,
                },
            )
        }
    }
}

/// A run over the users of a homeserver and how far it got.
#[derive(Debug, Clone, PartialEq, Eq)]
pub struct UserRun {
    pub users: Vec<UserCursor>,
    pub next: usize,
}

/// What to do with the user whose turn it is.
#[derive(Debug, Clone, PartialEq, Eq)]
pub enum RunStep {
    /// The run is over.
    Finished,
    /// The user is skipped: an earlier event fetch returned 404 and the user is backed off.
    SkipUser { user_id: String },
    /// Fetch and process the user's events from the cursor on.
    ProcessUser { user_id: String, cursor: u64 },
}

/// What to do once a user has been processed.
#[derive(Debug, Clone, PartialEq, Eq)]
pub enum UserStep {
    /// Forget earlier 404s of the user and go on.
    RecordSuccess,
    /// Back the user off for future runs and go on: the event fetch returned 404.
    RecordFailure,
    /// Log the error and go on with the next user.
    Continue(EventProcessorError),
    /// End the run of this homeserver with the error.
    Abort(EventProcessorError),
}

/// Whether taking the next user of a run leads from `before` to `after` and asks for `step`.
pub open spec fn run_advanced(
    before: UserRun,
    shutdown: bool,
    backed_off: bool,
    after: UserRun,
    step: RunStep,
) -> bool {
    &&& after.users == before.users
    &&& if shutdown || before.next == before.users@.len() {
        step is Finished && after.next == before.next
    } else {
        let user = before.users@[before.next as int];
        &&& after.next == before.next + 1
        &&& if backed_off {
            step matches RunStep::SkipUser { user_id } && user_id@ == user.user_id@
        } else {
            step matches RunStep::ProcessUser { user_id, cursor } && user_id@ == user.user_id@
                && cursor == user.cursor
        }
    }
}

impl UserRun {
    /// A run that has not begun.
    pub fn new(users: Vec<UserCursor>) -> (r: UserRun)
        ensures
            r.wf(),
            r.users == users,
            r.next == 0,
    {
        UserRun { users, next: 0 }
    }

    /// Whether the run has not gone past its end.
    pub open spec fn wf(self) -> bool {
        self.next <= self.users@.len()
    }

    /// The user whose turn it is.
    pub fn current(&self) -> (r: Option<&UserCursor>)
        requires
            self.wf(),
        ensures
            match r {
                Some(u) => self.next < self.users@.len() && *u == self.users@[self.next as int],
                None => self.next == self.users@.len(),
            },
    {
        if self.next < self.users.len() {
            Some(&self.users[self.next])
        } else {
            None
        }
    }

    /// Takes the next user, unless the watcher shuts down. `backed_off` says whether that
    /// user is to be skipped.
    pub fn advance(&mut self, shutdown: bool, backed_off: bool) -> (r: RunStep)
        requires
            old(self).wf(),
        ensures
            final(self).wf(),
            run_advanced(*old(self), shutdown, backed_off, *final(self), r),
    {
        if shutdown || self.next >= self.users.len() {
            return RunStep::Finished;
        }
        let user_id = self.users[self.next].user_id.clone();
        let cursor: u64 = self.users[self.next].cursor;
        self.next = self.next + 1;
        if backed_off {
            RunStep::SkipUser { user_id }
        } else {
            RunStep::ProcessUser { user_id, cursor }
        }
    }
}

/// What follows from how processing a user went: an error that should not be retried now
/// ends the run; any other concerns the user alone.
pub open spec fn user_step(result: Result<(), EventProcessorError>) -> UserStep {
    match result {
        Ok(_) => UserStep::RecordSuccess,
        Err(e) => if e.stops_batch() {
            UserStep::Abort(e)
        } else if e matches EventProcessorError::ClientError(ClientError::NotFound404 { .. }) {
            UserStep::RecordFailure
        } else {
            UserStep::Continue(e)
        },
    }
}

/// Whether the outcome of processing a user leads a run from `before` to `after`.
pub open spec fn run_processed(
    before: UserRun,
    result: Result<(), EventProcessorError>,
    after: UserRun,
    step: UserStep,
) -> bool {
    &&& after.users == before.users
    &&& step == user_step(result)
    &&& after.next == (if step is Abort {
        before.users@.len()
    } else {
        before.next as nat
    })
}

impl UserRun {
    /// Decides what follows from how processing the last user went.
    pub fn processed(&mut self, result: Result<(), EventProcessorError>) -> (r: UserStep)
        requires
            old(self).wf(),
        ensures
            final(self).wf(),
            run_processed(*old(self), result, *final(self), r),
    {
        match result {
            Ok(_) => UserStep::RecordSuccess,
            Err(e) => if e.should_not_retry_now() {
                self.next = self.users.len();
                UserStep::Abort(e)
            } else if e.is_not_found() {
                UserStep::RecordFailure
            } else {
                UserStep::Continue(e)
            },
        }
    }
}

/// Whether an error says that a homeserver returned an event of another user.
pub open spec fn is_mismatch(
    e: EventProcessorError,
    hs_id: Seq<char>,
    expected: Seq<char>,
    received: Seq<char>,
) -> bool {
    e matches EventProcessorError::UserIdMismatch { hs_id: h, expected_user_id, event_user_id } && h@
        == hs_id && expected_user_id@ == expected && event_user_id@ == received
}

/// Already-fetched events of a single user and how far they have been processed.
#[derive(Debug, Clone, PartialEq, Eq)]
pub struct UserEvents {
    pub hs_id: String,
    pub user_id: String,
    pub events: Vec<StreamEvent>,
    pub next: usize,
    /// The latest cursor that is safe to persist.
    pub latest_cursor: Option<u64>,
}

/// What to do with the event whose turn it is.
#[derive(Debug, Clone, PartialEq, Eq)]
pub enum UserEventStep {
    /// All events are done, or the watcher shuts down.
    Finished,
    /// Handle the event and report back.
    Handle(Event),
    /// Go on: the event's resource is not handled.
    Skip,
    /// Log the error and go on: the event could not be read.
    Log(EventProcessorError),
    /// End with the error: the event belongs to another user.
    Failed(EventProcessorError),
}

impl UserEvents {
    /// The cursor of the last of the first `n` events.
    pub open spec fn cursor_after(self, n: int) -> Option<u64> {
        if n == 0 {
            None
        } else {
            Some(self.events@[n - 1].cursor)
        }
    }

    /// Whether the cursor to persist is that of the last event that is done.
    pub open spec fn wf(self) -> bool {
        &&& self.next <= self.events@.len()
        &&& self.latest_cursor == self.cursor_after(self.next as int)
    }

    /// Whether only the progress differs.
    pub open spec fn same_stream(self, other: UserEvents) -> bool {
        self.hs_id == other.hs_id && self.user_id == other.user_id && self.events == other.events
    }

    /// Events of which none has been processed.
    pub fn new(hs_id: String, user_id: String, events: Vec<StreamEvent>) -> (r: UserEvents)
        ensures
            r.wf(),
            r.hs_id == hs_id,
            r.user_id == user_id,
            r.events == events,
            r.next == 0,
            r.latest_cursor is None,
    {
        UserEvents { hs_id, user_id, events, next: 0, latest_cursor: None }
    }

    /// Whether `r` is what the event whose turn it is asks for, and whether it is done with.
    pub open spec fn asks_for(self, r: UserEventStep, done: bool) -> bool {
        exists|read: Result<Option<Event>, EventProcessorError>| #[trigger]
            stream_event_read_as(self.events@[self.next as int], read) && (match read {
                Ok(Some(event)) => {
                    &&& !done
                    &&& if event.parsed_uri.user() == self.user_id@ {
                        r == UserEventStep::Handle(event)
                    } else {
                        r matches UserEventStep::Failed(e) && is_mismatch(
                            e,
                            self.hs_id@,
                            self.user_id@,
                            event.parsed_uri.user(),
                        )
                    }
                },
                Ok(None) => done && r is Skip,
                Err(e) => done && r == UserEventStep::Log(e),
            })
    }

    /// Looks at the next event, unless the watcher shuts down. An event to handle stays the
    /// next one until its outcome is reported; one that is not handled or cannot be read is
    /// done with.
    pub fn advance(&mut self, shutdown: bool) -> (r: UserEventStep)
        requires
            old(self).wf(),
        ensures
            final(self).wf(),
            final(self).same_stream(*old(self)),
            if shutdown || old(self).next == old(self).events@.len() {
                r is Finished && final(self).next == old(self).next
            } else {
                old(self).asks_for(r, final(self).next == old(self).next + 1) && (final(self).next
                    == old(self).next || final(self).next == old(self).next + 1)
            },
            r is Handle ==> final(self).next < final(self).events@.len(),
    {
        if shutdown || self.next >= self.events.len() {
            return UserEventStep::Finished;
        }
        let read = Event::from_stream_event(&self.events[self.next]);
        let ghost outcome = read;
        assert(stream_event_read_as(self.events@[self.next as int], outcome));
        match read {
            Ok(Some(event)) => match KeyBasedEventProcessor::validate_user_id(
                self.hs_id.as_str(),
                &event,
                self.user_id.as_str(),
            ) {
                Ok(_) => UserEventStep::Handle(event),
                Err(e) => UserEventStep::Failed(e),
            },
            Ok(None) => {
                self.latest_cursor = Some(self.events[self.next].cursor);
                self.next = self.next + 1;
                UserEventStep::Skip
            },
            Err(e) => {
                self.latest_cursor = Some(self.events[self.next].cursor);
                self.next = self.next + 1;
                UserEventStep::Log(e)
            },
        }
    }

    /// Reports how handling the next event went: the cursor advances on success alone, so
    /// that an event that failed is fetched again on the next run.
    pub fn handled(&mut self, result: Result<(), EventProcessorError>) -> (r: Result<
        (),
        EventProcessorError,
    >)
        requires
            old(self).wf(),
            old(self).next < old(self).events@.len(),
        ensures
            final(self).wf(),
            final(self).same_stream(*old(self)),
            r == result,
            final(self).next == (if result is Ok {
                old(self).next + 1
            } else {
                old(self).next as int
            }),
    {
        let total: usize = self.events.len();
        if result.is_ok() && self.next < total {
            self.latest_cursor = Some(self.events[self.next].cursor);
            self.next = self.next + 1;
        }
        result
    }
}

/// The cursor to persist never goes past an event that is not done: it is that of the last
/// event done, and there is none before the first.
pub proof fn law_cursor_covers_done_events_only(state: UserEvents)
    requires
        state.wf(),
    ensures
        state.next == 0 ==> state.latest_cursor is None,
        state.next > 0 ==> state.latest_cursor == Some(state.events@[state.next - 1].cursor),
{
}

/// Only an error that should not be retried now ends the run of a homeserver; a 404 backs
/// the user off, and any other error leaves the other users' turns alone.
pub proof fn law_one_user_does_not_stop_the_others(result: Result<(), EventProcessorError>)
    ensures
        user_step(result) is Abort <==> (result matches Err(e) && e.stops_batch()),
        user_step(result) is RecordSuccess <==> result is Ok,
        (result matches Err(EventProcessorError::ClientError(ClientError::NotFound404 { .. })))
            ==> user_step(result) is RecordFailure,
{
}

/// A run that was aborted takes up no further user.
pub proof fn law_aborted_run_is_over(
    before: UserRun,
    e: EventProcessorError,
    aborted: UserRun,
    outcome: UserStep,
    shutdown: bool,
    backed_off: bool,
    after: UserRun,
    step: RunStep,
)
    requires
        e.stops_batch(),
        run_processed(before, Err(e), aborted, outcome),
        run_advanced(aborted, shutdown, backed_off, after, step),
    ensures
        outcome == UserStep::Abort(e),
        step is Finished,
        after == aborted,
{
}

/// A homeserver that answers with 429 over and over is asked a bounded number of times, with
/// growing waits, and is then given up in a way that ends its run.
pub proof fn law_rate_limit_is_bounded(attempt: int)
    requires
        0 <= attempt,
    ensures
        backoff_secs(attempt) is Some <==> attempt < 3,
        backoff_secs(attempt + 1) is Some ==> backoff_secs(attempt) is Some && backoff_secs(
            attempt,
        )->0 < backoff_secs(attempt + 1)->0,
        user_step(Err(EventProcessorError::HsEventsStreamRateLimitExhausted)) is Abort,
{
}

/// A user's id is kept with the key that was read from it.
pub proof fn law_valid_users_keep_their_keys(user_ids: Seq<String>)
    ensures
        valid_keys(user_ids).len() <= user_ids.len(),
        forall|i: int|
            0 <= i < valid_keys(user_ids).len() ==> public_key_of(
                (#[trigger] valid_keys(user_ids)[i]).1,
            ) == Some(valid_keys(user_ids)[i].0),
    decreases user_ids.len(),
{
    if user_ids.len() > 0 {
        law_valid_users_keep_their_keys(user_ids.drop_last());
    }
}

/// What follows for a user is decided by how processing went: a 404 and nothing else backs the user
/// off, and an error that is logged or that ends the run is the very one.
pub proof fn law_users_are_backed_off_for_404_alone(result: Result<(), EventProcessorError>)
    ensures
        user_step(result) is RecordFailure <==> (result matches Err(
            EventProcessorError::ClientError(ClientError::NotFound404 { .. }),
        )),
        user_step(result) matches UserStep::Continue(e) ==> result == Err::<
            (),
            EventProcessorError,
        >(e),
        user_step(result) matches UserStep::Abort(e) ==> result == Err::<(), EventProcessorError>(
            e,
        ),
{
}

/// An event is handled only where it is the user's own and the one whose turn it is, and stays next
/// until its outcome is known; an event of another user ends the stream.
pub proof fn law_only_own_events_are_handled(state: UserEvents, step: UserEventStep, done: bool)
    requires
        state.next < state.events@.len(),
        state.asks_for(step, done),
    ensures
        step matches UserEventStep::Handle(event) ==> !done && event.parsed_uri.user()
            == state.user_id@ && event.uri@ == state.events@[state.next as int].uri@
            && event.event_type == state.events@[state.next as int].event_type,
        step matches UserEventStep::Failed(e) ==> !done && e is UserIdMismatch
            && e->expected_user_id@ == state.user_id@ && e->event_user_id@ != state.user_id@,
        done <==> step is Skip || step is Log,
        !(step is Finished),
{
    let read = choose|read: Result<Option<Event>, EventProcessorError>| #[trigger]
        stream_event_read_as(state.events@[state.next as int], read) && (match read {
            Ok(Some(event)) => {
                &&& !done
                &&& if event.parsed_uri.user() == state.user_id@ {
                    step == UserEventStep::Handle(event)
                } else {
                    step matches UserEventStep::Failed(e) && is_mismatch(
                        e,
                        state.hs_id@,
                        state.user_id@,
                        event.parsed_uri.user(),
                    )
                }
            },
            Ok(None) => done && step is Skip,
            Err(e) => done && step == UserEventStep::Log(e),
        });
    law_stream_events_keep_their_word(state.events@[state.next as int], read);
}

/// Every user of a run gets a turn, in order, and a turn is either taken or skipped.
pub proof fn law_every_user_gets_a_turn(
    before: UserRun,
    backed_off: bool,
    after: UserRun,
    step: RunStep,
)
    requires
        before.next < before.users@.len(),
        run_advanced(before, false, backed_off, after, step),
    ensures
        after.next == before.next + 1,
        after.users == before.users,
        step is SkipUser <==> backed_off,
        step is ProcessUser <==> !backed_off,
        step matches RunStep::ProcessUser { user_id, cursor } ==> user_id@
            == before.users@[before.next as int].user_id@ && cursor
            == before.users@[before.next as int].cursor,
        step matches RunStep::SkipUser { user_id } ==> user_id@
            == before.users@[before.next as int].user_id@,
{
}

/// A homeserver that answers 429 is backed off from, whatever it says, and none for another answer.
pub proof fn law_rate_limits_are_told_by_their_status(status: u16, message: String)
    ensures
        is_rate_limited(
            Err(EventProcessorError::ClientError(failure_of_status(status, message))),
        ) <==> status == 429,
{
}

/// A user whose processing did not end the run leaves the others their turns, in the same order.
pub proof fn law_runs_go_on_after_a_user(
    before: UserRun,
    result: Result<(), EventProcessorError>,
    after: UserRun,
    step: UserStep,
)
    requires
        run_processed(before, result, after, step),
    ensures
        after.users == before.users,
        result is Ok ==> step is RecordSuccess,
        !(result matches Err(e) && e.stops_batch()) ==> after.next == before.next,
        (result matches Err(e) && e.stops_batch()) ==> after.next == after.users@.len(),
{
}

} // verus!
