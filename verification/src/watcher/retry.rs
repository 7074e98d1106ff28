//! The retry queue: when an event that failed is tried again, and when it is given up.
use crate::config::watcher::{EventRetryConfig, WatcherConfig};
use crate::watcher::errors::{Disposition, EventProcessorError};
use crate::watcher::event::{Event, EventType};
use vstd::arithmetic::power2::{lemma_pow2_pos, lemma_pow2_unfold, pow2};
use vstd::prelude::*;

verus! {

/// Initial backoff durations applied when an event first lands on the retry queue.
/// Subsequent reschedules use exponential backoff.
#[derive(Debug, Clone, Copy, PartialEq, Eq, Structural)]
pub struct InitialBackoff {
    pub missing_dep_ms: i64,
    pub transient_ms: i64,
}

/// Whether a number of seconds, as a signed number, is one of milliseconds too.
pub open spec fn fits_in_ms(secs: u64) -> bool {
    i64::MIN <= (secs as i64) * 1000 <= i64::MAX
}

/// Whether the initial durations are those of a configuration, in milliseconds.
pub open spec fn is_initial_of(initial: InitialBackoff, retry: EventRetryConfig) -> bool {
    &&& initial.missing_dep_ms == (retry.initial_missing_dep_backoff_secs as i64) * 1000
    &&& initial.transient_ms == (retry.initial_backoff_secs as i64) * 1000
}

/// When an event that is queued at `now` is first due: one that waits for something, or one that
/// failed for the time being.
pub open spec fn first_due(initial: InitialBackoff, waits: bool, now: i64) -> int {
    now + (if waits {
        initial.missing_dep_ms
    } else {
        initial.transient_ms
    })
}

impl InitialBackoff {
    /// The configured durations, in milliseconds.
    pub fn from_config(config: &WatcherConfig) -> (r: Self)
        requires
            fits_in_ms(config.retry.initial_missing_dep_backoff_secs),
            fits_in_ms(config.retry.initial_backoff_secs),
        ensures
            is_initial_of(r, config.retry),
    {
        let missing_dep: i64 = #[verifier::truncate]
        (config.retry.initial_missing_dep_backoff_secs as i64);
        let transient: i64 = #[verifier::truncate]
        (config.retry.initial_backoff_secs as i64);
        InitialBackoff { missing_dep_ms: missing_dep * 1000, transient_ms: transient * 1000 }
    }
}

/// An event on the retry queue.
#[derive(Debug, Clone, PartialEq, Eq)]
pub struct RetryEvent {
    /// Number of attempts that count against the limit.
    pub retry_count: u32,
    pub event_type: EventType,
    pub event_uri: String,
    /// When the event is due, in milliseconds.
    pub next_retry_at: i64,
    /// The homeserver that the event came from.
    pub origin_homeserver_id: String,
}

/// Whether `r` is an event that has just been queued.
pub open spec fn is_queued(
    r: RetryEvent,
    event: Event,
    next_retry_at: int,
    origin_homeserver_id: Seq<char>,
) -> bool {
    &&& r.retry_count == 0
    &&& r.event_type == event.event_type
    &&& r.event_uri@ == event.uri@
    &&& r.next_retry_at == next_retry_at
    &&& r.origin_homeserver_id@ == origin_homeserver_id
}

impl RetryEvent {
    /// An event that is queued for the first time. Earlier attempts for the same URI are
    /// disregarded: the state of the homeserver changed since.
    pub fn new(event: &Event, next_retry_at: i64, origin_homeserver_id: &str) -> (r: RetryEvent)
        ensures
            is_queued(r, *event, next_retry_at as int, origin_homeserver_id@),
    {
        RetryEvent {
            retry_count: 0,
            event_type: event.event_type,
            event_uri: event.uri.clone(),
            next_retry_at,
            origin_homeserver_id: origin_homeserver_id.to_owned(),
        }
    }
}

/// Enqueues failed events onto the retry queue. Created once per watcher and
/// shared with every event processor so that processors don't need to
/// carry backoff state themselves.
#[derive(Debug, Clone, PartialEq, Eq)]
pub struct RetryScheduler<S> {
    pub store: S,
    pub initial: InitialBackoff,
}

impl<S> RetryScheduler<S> {
    /// A scheduler on a store.
    pub fn new(store: S, initial: InitialBackoff) -> (r: Self)
        ensures
            r.store == store,
            r.initial == initial,
    {
        RetryScheduler { store, initial }
    }

    /// A scheduler on a store with the configured durations.
    pub fn from_config(store: S, config: &WatcherConfig) -> (r: Self)
        requires
            fits_in_ms(config.retry.initial_missing_dep_backoff_secs),
            fits_in_ms(config.retry.initial_backoff_secs),
        ensures
            r.store == store,
            is_initial_of(r.initial, config.retry),
    {
        Self::new(store, InitialBackoff::from_config(config))
    }

    /// What to queue for an event that waits for something, at the time `now`.
    pub fn queue_missing_dep(&self, event: &Event, origin_homeserver_id: &str, now: i64) -> (r:
        RetryEvent)
        requires
            i64::MIN <= now + self.initial.missing_dep_ms <= i64::MAX,
        ensures
            is_queued(r, *event, first_due(self.initial, true, now), origin_homeserver_id@),
    {
        RetryEvent::new(event, now + self.initial.missing_dep_ms, origin_homeserver_id)
    }

    /// What to queue for an event that failed for the time being, at the time `now`.
    pub fn queue_transient(&self, event: &Event, origin_homeserver_id: &str, now: i64) -> (r:
        RetryEvent)
        requires
            i64::MIN <= now + self.initial.transient_ms <= i64::MAX,
        ensures
            is_queued(r, *event, first_due(self.initial, false, now), origin_homeserver_id@),
    {
        RetryEvent::new(event, now + self.initial.transient_ms, origin_homeserver_id)
    }
}

/// Backoff after a number of attempts: it starts at `initial`, doubles with each attempt and
/// never exceeds `max`.
pub open spec fn backoff(retry_count: nat, initial: nat, max: nat) -> nat {
    if initial * pow2(retry_count) < max {
        (initial * pow2(retry_count)) as nat
    } else {
        max
    }
}

/// Doubling what is below the ceiling, or staying at it, follows the backoff.
proof fn lemma_backoff_step(i: nat, initial: nat, max: nat)
    ensures
        backoff(i + 1, initial, max) == (if 2 * backoff(i, initial, max) < max {
            2 * backoff(i, initial, max)
        } else {
            max
        }),
{
    lemma_pow2_unfold(i + 1);
    lemma_pow2_pos(i);
    let p = pow2(i);
    assert(pow2(i + 1) == 2 * p);
    assert(initial * (2 * p) == 2 * (initial * p)) by (nonlinear_arith);
    assert(initial * p >= 0) by (nonlinear_arith)
        requires
            p >= 0,
            initial >= 0,
    ;
}

/// A backoff that reached its ceiling, or that starts at nothing, stays where it is.
proof fn lemma_backoff_settled(i: nat, j: nat, initial: nat, max: nat)
    requires
        i <= j,
        backoff(i, initial, max) == max || (initial == 0),
    ensures
        backoff(j, initial, max) == backoff(i, initial, max),
    decreases j - i,
{
    if i < j {
        lemma_backoff_settled(i, (j - 1) as nat, initial, max);
        lemma_backoff_step((j - 1) as nat, initial, max);
        if initial == 0 {
            assert(initial * pow2(j) == 0) by (nonlinear_arith)
                requires
                    initial == 0,
            ;
            assert(initial * pow2(i) == 0) by (nonlinear_arith)
                requires
                    initial == 0,
            ;
        }
    }
}

/// Backoff after a number of attempts.
pub fn calculate_backoff(retry_count: u32, initial: u64, max: u64) -> (r: u64)
    ensures
        r == backoff(retry_count as nat, initial as nat, max as nat),
        r <= max,
{
    let mut value: u64 = if initial < max {
        initial
    } else {
        max
    };
    let mut i: u32 = 0;
    proof {
        vstd::arithmetic::power2::lemma2_to64();
        assert(pow2(0) == 1);
        assert(initial * pow2(0) == initial);
    }
    while i < retry_count && value < max && value > 0
        invariant
            i <= retry_count,
            value <= max,
            value == backoff(i as nat, initial as nat, max as nat),
            value == 0 ==> (initial == 0 || max == 0),
        ensures
            i <= retry_count,
            value <= max,
            value == backoff(i as nat, initial as nat, max as nat),
            i == retry_count || value == max || initial == 0,
        decreases retry_count - i,
    {
        proof {
            lemma_backoff_step(i as nat, initial as nat, max as nat);
        }
        if value > max / 2 {
            value = max;
        } else if value * 2 < max {
            value = value * 2;
        } else {
            value = max;
        }
        i = i + 1;
    }
    proof {
        if i < retry_count {
            lemma_backoff_settled(i as nat, retry_count as nat, initial as nat, max as nat);
        }
    }
    value
}

/// What becomes of an event on the retry queue after an attempt.
#[derive(Debug, Clone, PartialEq, Eq)]
pub enum RetryDecision {
    /// Take the event off the queue: it is done, or another attempt cannot help.
    Remove,
    /// Take the event off the queue: its attempts are used up.
    DeadLetter,
    /// Put the event back with the given count and due time.
    Requeue { retry_count: u32, next_retry_at: i64 },
    /// Put the event back with the given count and due time, and stop the batch.
    RequeueAndStop { retry_count: u32, next_retry_at: i64 },
}

/// When an event is due again after an attempt at the time `now`.
pub open spec fn due_again(now: i64, retry_count: u32, initial_secs: u64, max_secs: u64) -> int {
    now + backoff(retry_count as nat, initial_secs as nat, max_secs as nat) * 1000
}

/// Whether `r` is what becomes of an event after an attempt. A failure of the infrastructure
/// uses up no attempt: the event is tried for as long as it takes.
pub open spec fn decided_as(
    retry_count: u32,
    result: Result<(), EventProcessorError>,
    config: EventRetryConfig,
    now: i64,
    r: RetryDecision,
) -> bool {
    match result {
        Ok(_) => r is Remove,
        Err(e) => match e.outcome() {
            Disposition::StopBatch => r matches RetryDecision::RequeueAndStop {
                retry_count: n,
                next_retry_at,
            } && n == retry_count && next_retry_at == due_again(
                now,
                retry_count,
                config.initial_backoff_secs,
                config.max_backoff_secs,
            ),
            Disposition::QueueMissingDependency => if retry_count
                >= config.max_dependency_retries {
                r is DeadLetter
            } else {
                r matches RetryDecision::Requeue { retry_count: n, next_retry_at } && n
                    == retry_count + 1 && next_retry_at == due_again(
                    now,
                    retry_count,
                    config.initial_missing_dep_backoff_secs,
                    config.max_missing_dep_backoff_secs,
                )
            },
            Disposition::QueueTransient => if retry_count >= config.max_retries {
                r is DeadLetter
            } else {
                r matches RetryDecision::Requeue { retry_count: n, next_retry_at } && n
                    == retry_count + 1 && next_retry_at == due_again(
                    now,
                    retry_count,
                    config.initial_backoff_secs,
                    config.max_backoff_secs,
                )
            },
            Disposition::Drop => r is Remove,
        },
    }
}

/// Decides what becomes of an event after an attempt at the time `now`.
pub fn retry_attempted(
    retry_count: u32,
    result: &Result<(), EventProcessorError>,
    config: &EventRetryConfig,
    now: i64,
) -> (r: RetryDecision)
    requires
        now + config.max_backoff_secs * 1000 <= i64::MAX,
        now + config.max_missing_dep_backoff_secs * 1000 <= i64::MAX,
    ensures
        decided_as(retry_count, *result, *config, now, r),
{
    match result {
        Ok(_) => RetryDecision::Remove,
        Err(e) => match e.disposition() {
            Disposition::StopBatch => RetryDecision::RequeueAndStop {
                retry_count,
                next_retry_at: due_at(
                    now,
                    retry_count,
                    config.initial_backoff_secs,
                    config.max_backoff_secs,
                ),
            },
            Disposition::QueueMissingDependency => if retry_count
                >= config.max_dependency_retries {
                RetryDecision::DeadLetter
            } else {
                RetryDecision::Requeue {
                    retry_count: retry_count + 1,
                    next_retry_at: due_at(
                        now,
                        retry_count,
                        config.initial_missing_dep_backoff_secs,
                        config.max_missing_dep_backoff_secs,
                    ),
                }
            },
            Disposition::QueueTransient => if retry_count >= config.max_retries {
                RetryDecision::DeadLetter
            } else {
                RetryDecision::Requeue {
                    retry_count: retry_count + 1,
                    next_retry_at: due_at(
                        now,
                        retry_count,
                        config.initial_backoff_secs,
                        config.max_backoff_secs,
                    ),
                }
            },
            Disposition::Drop => RetryDecision::Remove,
        },
    }
}

/// When an event is due again after an attempt at the time `now`.
fn due_at(now: i64, retry_count: u32, initial_secs: u64, max_secs: u64) -> (r: i64)
    requires
        now + max_secs * 1000 <= i64::MAX,
    ensures
        r == due_again(now, retry_count, initial_secs, max_secs),
{
    let secs: u64 = calculate_backoff(retry_count, initial_secs, max_secs);
    let wait: i128 = secs as i128 * 1000;
    (now as i128 + wait) as i64
}

/// The backoff never shrinks from one attempt to the next, and never exceeds its ceiling.
pub proof fn law_backoff_grows_to_its_ceiling(retry_count: nat, initial: nat, max: nat)
    ensures
        backoff(retry_count, initial, max) <= backoff(retry_count + 1, initial, max) <= max,
        initial <= max ==> backoff(0, initial, max) == initial,
{
    lemma_backoff_step(retry_count, initial, max);
    vstd::arithmetic::power2::lemma2_to64();
    assert(pow2(0) == 1);
    assert(initial * pow2(0) == initial);
}

/// A failure of the infrastructure never gives an event up, however often it was tried, nor counts
/// as an attempt: the event waits by the backoff of the attempts it had.
pub proof fn law_infrastructure_failures_keep_the_event(
    retry_count: u32,
    e: EventProcessorError,
    config: EventRetryConfig,
    now: i64,
    r: RetryDecision,
)
    requires
        e.stops_batch(),
        decided_as(retry_count, Err(e), config, now, r),
    ensures
        r matches RetryDecision::RequeueAndStop { retry_count: n, .. } && n == retry_count,
        r matches RetryDecision::RequeueAndStop { next_retry_at, .. } ==> next_retry_at == now
            + 1000 * backoff(
            retry_count as nat,
            config.initial_backoff_secs as nat,
            config.max_backoff_secs as nat,
        ),
{
}

/// An event is tried a bounded number of times: each attempt that counts raises the count,
/// and at the limit the event is given up.
pub proof fn law_attempts_are_bounded(
    retry_count: u32,
    result: Result<(), EventProcessorError>,
    config: EventRetryConfig,
    now: i64,
    r: RetryDecision,
)
    requires
        decided_as(retry_count, result, config, now, r),
    ensures
        r matches RetryDecision::Requeue { retry_count: n, .. } ==> n == retry_count + 1 && (n
            <= config.max_retries || n <= config.max_dependency_retries),
{
}

/// The backoff doubles with each attempt up to its ceiling.
pub proof fn law_backoff_doubles(retry_count: nat, initial: nat, max: nat)
    ensures
        backoff(retry_count + 1, initial, max) == (if 2 * backoff(retry_count, initial, max) < max {
            2 * backoff(retry_count, initial, max)
        } else {
            max
        }),
{
    lemma_backoff_step(retry_count, initial, max);
}

/// An event that waits for something has attempts and waits of its own, and every other event has
/// the others: each is given up exactly at its own limit, and waits by its own backoff until then.
pub proof fn law_attempts_are_counted_by_cause(
    retry_count: u32,
    e: EventProcessorError,
    config: EventRetryConfig,
    now: i64,
    r: RetryDecision,
)
    requires
        decided_as(retry_count, Err(e), config, now, r),
        !e.stops_batch(),
        e is MissingDependency || e.is_retryable(),
    ensures
        r is DeadLetter || r is Requeue,
        e is MissingDependency ==> (r is DeadLetter <==> retry_count
            >= config.max_dependency_retries),
        !(e is MissingDependency) ==> (r is DeadLetter <==> retry_count >= config.max_retries),
        r matches RetryDecision::Requeue { retry_count: n, next_retry_at } ==> n == retry_count + 1
            && next_retry_at == now + 1000 * (if e is MissingDependency {
            backoff(
                retry_count as nat,
                config.initial_missing_dep_backoff_secs as nat,
                config.max_missing_dep_backoff_secs as nat,
            )
        } else {
            backoff(
                retry_count as nat,
                config.initial_backoff_secs as nat,
                config.max_backoff_secs as nat,
            )
        }),
{
}

/// An event leaves the queue for good, without being given up, exactly where it is done or where
/// another attempt cannot help.
pub proof fn law_events_leave_the_queue_when_done(
    retry_count: u32,
    result: Result<(), EventProcessorError>,
    config: EventRetryConfig,
    now: i64,
    r: RetryDecision,
)
    requires
        decided_as(retry_count, result, config, now, r),
    ensures
        r is Remove <==> result is Ok || (result matches Err(e) && e.outcome()
            == Disposition::Drop),
        r is RequeueAndStop <==> (result matches Err(e) && e.stops_batch()),
{
}

/// An event is queued as what it is, with no attempt counted yet, for the homeserver that it came
/// from.
pub proof fn law_queued_events_keep_their_event(
    r: RetryEvent,
    event: Event,
    next_retry_at: int,
    origin_homeserver_id: Seq<char>,
)
    requires
        is_queued(r, event, next_retry_at, origin_homeserver_id),
    ensures
        r.retry_count == 0,
        r.event_type == event.event_type,
        r.event_uri@ == event.uri@,
        r.origin_homeserver_id@ == origin_homeserver_id,
        r.next_retry_at == next_retry_at,
{
}

/// An event first waits by the backoff of its own cause before any attempt: one that waits for
/// something by the one, and every other event by the other.
pub proof fn law_first_waits_are_first_backoffs(
    initial: InitialBackoff,
    config: EventRetryConfig,
    now: i64,
)
    requires
        is_initial_of(initial, config),
        config.initial_missing_dep_backoff_secs <= config.max_missing_dep_backoff_secs,
        config.initial_backoff_secs <= config.max_backoff_secs,
        config.initial_missing_dep_backoff_secs <= i64::MAX,
        config.initial_backoff_secs <= i64::MAX,
    ensures
        first_due(initial, true, now) == now + 1000 * backoff(
            0,
            config.initial_missing_dep_backoff_secs as nat,
            config.max_missing_dep_backoff_secs as nat,
        ),
        first_due(initial, false, now) == now + 1000 * backoff(
            0,
            config.initial_backoff_secs as nat,
            config.max_backoff_secs as nat,
        ),
{
    law_backoff_grows_to_its_ceiling(
        0,
        config.initial_missing_dep_backoff_secs as nat,
        config.max_missing_dep_backoff_secs as nat,
    );
    law_backoff_grows_to_its_ceiling(
        0,
        config.initial_backoff_secs as nat,
        config.max_backoff_secs as nat,
    );
}

} // verus!
