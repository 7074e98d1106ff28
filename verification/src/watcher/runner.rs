//! Runs over homeservers: which ones, in which order, and what is said of the outcome.
use crate::config::watcher::WatcherConfig;
use crate::text::{decimal, decimal_text, lemma_views_push, views};
use crate::uri::{pubky_id_of, PubkyId};
use crate::user::ingestor::HsBlacklist;
use crate::watcher::errors::EventProcessorError;
use crate::watcher::homeserver::{Homeserver, HsEventProcessor, HsMappingCache, HsMappingView};
use crate::watcher::key_based::KeyBasedEventProcessor;
use vstd::prelude::*;

verus! {

/// Runner for the primary homeserver.
#[derive(Debug, Clone, PartialEq, Eq)]
pub struct HsEventProcessorRunner {
    /// Maximum number of events per poll
    pub limit: u16,
    pub primary_homeserver: PubkyId,
}

impl HsEventProcessorRunner {
    /// Creates a new instance from the provided configuration
    pub fn from_config(config: &WatcherConfig) -> (r: Self)
        ensures
            r.limit == config.events_limit,
            r.primary_homeserver@ == config.homeserver@,
    {
        HsEventProcessorRunner {
            limit: config.events_limit,
            primary_homeserver: config.homeserver.copy(),
        }
    }

    /// The primary homeserver.
    pub fn primary_homeserver(&self) -> (r: &str)
        ensures
            r@ == self.primary_homeserver@,
    {
        self.primary_homeserver.as_str()
    }

    /// The homeservers of a run: the primary one alone.
    pub fn pre_run(&self) -> (r: Vec<String>)
        ensures
            views(r@) == seq![self.primary_homeserver@],
    {
        let mut ids: Vec<String> = Vec::new();
        ids.push(self.primary_homeserver.text());
        assert(views(ids@) =~= seq![self.primary_homeserver@]);
        ids
    }

    /// Creates a new event processor instance for the specified homeserver. `found` is what is
    /// stored of it; it only counts where the id is one.
    pub fn build(&self, homeserver_id: &str, found: Option<Homeserver>) -> (r: Result<
        HsEventProcessor,
        String,
    >)
        ensures
            match pubky_id_of(homeserver_id@) {
                Err(m) => r matches Err(e) && e@ == m,
                Ok(_) => match found {
                    None => r matches Err(e) && e@ == "Homeserver not found"@,
                    Some(homeserver) => r matches Ok(p) && p.homeserver == homeserver && p.limit
                        == self.limit && p.hs_mapping_cache.mappings() == Map::<
                        Seq<char>,
                        HsMappingView,
                    >::empty(),
                },
            },
    {
        match PubkyId::try_from(homeserver_id) {
            Err(e) => Err(e),
            Ok(_) => match found {
                None => Err("Homeserver not found".to_owned()),
                Some(homeserver) => Ok(
                    HsEventProcessor {
                        homeserver,
                        limit: self.limit,
                        hs_mapping_cache: HsMappingCache::new(),
                    },
                ),
            },
        }
    }
}

/// Runner for external homeservers.
#[derive(Debug, Clone, PartialEq, Eq)]
pub struct KeyBasedEventProcessorRunner {
    /// Maximum number of events per user and run
    pub limit: u16,
    /// Maximum number of homeservers per run
    pub monitored_hs_limit: usize,
    /// Primary homeserver, excluded from the external targets list
    pub primary_homeserver: PubkyId,
    /// Homeservers that must never be indexed
    pub hs_blacklist: HsBlacklist,
}

/// Whether an external run looks at a homeserver: not the primary one, which is processed
/// separately, and none that is blacklisted.
pub open spec fn is_target(hs_id: Seq<char>, primary: Seq<char>, blacklist: HsBlacklist) -> bool {
    hs_id != primary && !blacklist.lists(hs_id)
}

/// The homeservers that an external run looks at, in the order in which they were given.
pub open spec fn targets(
    active: Seq<Seq<char>>,
    primary: Seq<char>,
    blacklist: HsBlacklist,
) -> Seq<Seq<char>>
    decreases active.len(),
{
    if active.len() == 0 {
        Seq::empty()
    } else if is_target(active.last(), primary, blacklist) {
        targets(active.drop_last(), primary, blacklist).push(active.last())
    } else {
        targets(active.drop_last(), primary, blacklist)
    }
}

impl KeyBasedEventProcessorRunner {
    /// Creates a new instance from the provided configuration
    pub fn from_config(config: &WatcherConfig) -> (r: Self)
        ensures
            r.limit == config.key_based_events_limit,
            r.monitored_hs_limit == config.monitored_homeservers_limit,
            r.primary_homeserver@ == config.homeserver@,
            forall|hs_id: Seq<char>| #[trigger]
                r.hs_blacklist.lists(hs_id) <==> config.stack.net.blacklists(hs_id),
    {
        KeyBasedEventProcessorRunner {
            limit: config.key_based_events_limit,
            monitored_hs_limit: config.monitored_homeservers_limit,
            primary_homeserver: config.homeserver.copy(),
            hs_blacklist: HsBlacklist::from_config(&config.stack),
        }
    }

    /// Returns the homeservers relevant for this run, ordered by their priority.
    pub fn hs_by_priority(&self, active_hs_ids: &Vec<String>) -> (r: Vec<String>)
        ensures
            views(r@) == targets(
                views(active_hs_ids@),
                self.primary_homeserver@,
                self.hs_blacklist,
            ),
    {
        let mut out: Vec<String> = Vec::new();
        let mut i: usize = 0;
        let ghost all = views(active_hs_ids@);
        assert(all.take(0) == Seq::<Seq<char>>::empty());
        assert(views(out@) =~= targets(all.take(0), self.primary_homeserver@, self.hs_blacklist));
        while i < active_hs_ids.len()
            invariant
                i <= active_hs_ids.len(),
                all == views(active_hs_ids@),
                views(out@) == targets(
                    all.take(i as int),
                    self.primary_homeserver@,
                    self.hs_blacklist,
                ),
            decreases active_hs_ids.len() - i,
        {
            let hs_id = active_hs_ids[i].as_str();
            assert(all.take(i + 1).drop_last() == all.take(i as int));
            assert(all.take(i + 1).last() == hs_id@);
            let primary = *hs_id == *self.primary_homeserver.as_str();
            if !primary && !self.hs_blacklist.is_blacklisted(hs_id) {
                let text = hs_id.to_owned();
                proof {
                    lemma_views_push(out@, text);
                }
                out.push(text);
            }
            i = i + 1;
        }
        assert(all.take(i as int) == all);
        out
    }

    /// The homeservers of a run: the first ones of those that are relevant.
    pub fn pre_run(&self, active_hs_ids: &Vec<String>) -> (r: Vec<String>)
        ensures
            ({
                let relevant = targets(
                    views(active_hs_ids@),
                    self.primary_homeserver@,
                    self.hs_blacklist,
                );
                views(r@) == (if relevant.len() <= self.monitored_hs_limit {
                    relevant
                } else {
                    relevant.take(self.monitored_hs_limit as int)
                })
            }),
    {
        let mut hs_ids = self.hs_by_priority(active_hs_ids);
        let ghost relevant = hs_ids@;
        assert(views(relevant).len() == relevant.len());
        if hs_ids.len() > self.monitored_hs_limit {
            hs_ids.truncate(self.monitored_hs_limit);
            assert(views(hs_ids@) =~= views(relevant).take(self.monitored_hs_limit as int));
        }
        hs_ids
    }

    /// Creates a new event processor instance for the specified homeserver
    pub fn build(&self, hs_id: &str) -> (r: Result<KeyBasedEventProcessor, String>)
        ensures
            match r {
                Ok(p) => (pubky_id_of(hs_id@) matches Ok(id) && p.homeserver_id@ == id) && p.limit
                    == self.limit && forall|hs: Seq<char>| #[trigger]
                    p.hs_blacklist.lists(hs) <==> self.hs_blacklist.lists(hs),
                Err(e) => pubky_id_of(hs_id@) matches Err(m) && m == e@,
            },
    {
        match PubkyId::try_from(hs_id) {
            Ok(homeserver_id) => Ok(
                KeyBasedEventProcessor {
                    homeserver_id,
                    limit: self.limit,
                    hs_blacklist: self.hs_blacklist.copy(),
                },
            ),
            Err(e) => Err(e),
        }
    }
}

/// How the run of a processor ended.
#[derive(Debug, Clone, Copy, PartialEq, Eq, Structural)]
pub enum ProcessorRunStatus {
    Succeeded,
    Error,
    Panic,
    Timeout,
    FailedToBuild,
    /// The homeserver is backed off.
    Skipped,
}

/// Whether a run counts as a success for the backoff of its homeserver.
pub fn backoff_hs_record_success(status: ProcessorRunStatus) -> (r: bool)
    ensures
        r == (status == ProcessorRunStatus::Succeeded),
{
    status == ProcessorRunStatus::Succeeded
}

/// How many runs ended in a given way.
pub open spec fn count_of(stats: Seq<ProcessorRunStatus>, status: ProcessorRunStatus) -> nat
    decreases stats.len(),
{
    if stats.len() == 0 {
        0
    } else {
        count_of(stats.drop_last(), status) + (if stats.last() == status {
            1nat
        } else {
            0nat
        })
    }
}

/// Counts the runs that ended in a given way.
pub fn count_status(stats: &Vec<ProcessorRunStatus>, status: ProcessorRunStatus) -> (r: usize)
    ensures
        r == count_of(stats@, status),
{
    let mut n: usize = 0;
    let mut i: usize = 0;
    assert(stats@.take(0) == Seq::<ProcessorRunStatus>::empty());
    while i < stats.len()
        invariant
            i <= stats.len(),
            n <= i,
            n == count_of(stats@.take(i as int), status),
        decreases stats.len() - i,
    {
        assert(stats@.take(i + 1).drop_last() == stats@.take(i as int));
        assert(stats@.take(i + 1).last() == stats@[i as int]);
        if stats[i] == status {
            n = n + 1;
        }
        i = i + 1;
    }
    assert(stats@.take(i as int) == stats@);
    n
}

/// What to log of a run over homeservers.
#[derive(Debug, Clone, PartialEq, Eq)]
pub enum RunSummary {
    Warn(String),
    Info(String),
    Debug(String),
}

/// Whether some run went wrong.
pub open spec fn had_issues(stats: Seq<ProcessorRunStatus>) -> bool {
    count_of(stats, ProcessorRunStatus::Error) > 0 || count_of(stats, ProcessorRunStatus::Panic) > 0
        || count_of(stats, ProcessorRunStatus::Timeout) > 0 || count_of(
        stats,
        ProcessorRunStatus::FailedToBuild,
    ) > 0
}

/// The number of runs that ended in a given way, in words.
pub open spec fn counted(
    stats: Seq<ProcessorRunStatus>,
    status: ProcessorRunStatus,
    words: Seq<char>,
) -> Seq<char> {
    decimal(count_of(stats, status)) + words
}

/// Whether `r` is what is said of a run over homeservers: a warning where something went
/// wrong, with every count; else how many went well, and how many were skipped if any.
pub open spec fn summarized_as(stats: Seq<ProcessorRunStatus>, r: RunSummary) -> bool {
    let ok = "Run result: "@ + counted(stats, ProcessorRunStatus::Succeeded, " ok"@);
    let skipped = ok + ", "@ + counted(stats, ProcessorRunStatus::Skipped, " skipped (backoff)"@);
    if had_issues(stats) {
        r matches RunSummary::Warn(m) && m@ == skipped + ", "@ + counted(
            stats,
            ProcessorRunStatus::FailedToBuild,
            " failed to build"@,
        ) + ", "@ + counted(stats, ProcessorRunStatus::Error, " error"@) + ", "@ + counted(
            stats,
            ProcessorRunStatus::Panic,
            " panic"@,
        ) + ", "@ + counted(stats, ProcessorRunStatus::Timeout, " timeout"@)
    } else if count_of(stats, ProcessorRunStatus::Skipped) > 0 {
        r matches RunSummary::Info(m) && m@ == skipped
    } else {
        r matches RunSummary::Debug(m) && m@ == ok
    }
}

/// The number of runs that ended in a given way, in words.
fn counted_text(n: usize, words: &str) -> (r: String)
    ensures
        r@ == decimal(n as nat) + words@,
{
    decimal_text(n as u64).concat(words)
}

/// Says how a run over homeservers went.
pub fn post_run(stats: &Vec<ProcessorRunStatus>) -> (r: RunSummary)
    ensures
        summarized_as(stats@, r),
{
    let ok: usize = count_status(stats, ProcessorRunStatus::Succeeded);
    let error: usize = count_status(stats, ProcessorRunStatus::Error);
    let panic: usize = count_status(stats, ProcessorRunStatus::Panic);
    let timeout: usize = count_status(stats, ProcessorRunStatus::Timeout);
    let failed: usize = count_status(stats, ProcessorRunStatus::FailedToBuild);
    let skipped: usize = count_status(stats, ProcessorRunStatus::Skipped);
    let ok_text = counted_text(ok, " ok");
    let skipped_text = counted_text(skipped, " skipped (backoff)");
    let message = "Run result: ".to_owned().concat(ok_text.as_str());
    if error > 0 || panic > 0 || timeout > 0 || failed > 0 {
        let failed_text = counted_text(failed, " failed to build");
        let error_text = counted_text(error, " error");
        let panic_text = counted_text(panic, " panic");
        let timeout_text = counted_text(timeout, " timeout");
        RunSummary::Warn(
            message.concat(", ").concat(skipped_text.as_str()).concat(", ").concat(
                failed_text.as_str(),
            ).concat(", ").concat(error_text.as_str()).concat(", ").concat(
                panic_text.as_str(),
            ).concat(", ").concat(timeout_text.as_str()),
        )
    } else if skipped > 0 {
        RunSummary::Info(message.concat(", ").concat(skipped_text.as_str()))
    } else {
        RunSummary::Debug(message)
    }
}

/// What to do with an event once it is known whether it is to be processed.
#[derive(Debug, Clone, PartialEq, Eq)]
pub enum GateStep {
    /// Hand the event to its handler.
    Handle,
    /// Leave the event alone.
    Skip,
    /// Deal with the error.
    HandleError(EventProcessorError),
}

/// Decides what to do with an event once it is known whether it is to be processed.
pub fn event_gated(should_process: Result<bool, EventProcessorError>) -> (r: GateStep)
    ensures
        r == gated(should_process),
{
    match should_process {
        Ok(go) => if go {
            GateStep::Handle
        } else {
            GateStep::Skip
        },
        Err(e) => GateStep::HandleError(e),
    }
}

/// Status of the span that an event is processed in.
#[derive(Debug, Clone, PartialEq, Eq)]
pub struct SpanStatus {
    pub code: &'static str,
    pub message: Option<String>,
}

/// Whether a status says how far an event got: skipped, failed with an error, or handled.
pub open spec fn status_says(
    status: SpanStatus,
    skipped: bool,
    error: Option<EventProcessorError>,
) -> bool {
    match error {
        Some(e) => status.code@ == "ERROR"@ && (status.message matches Some(m) && m@ == e.words()),
        None => if skipped {
            status.code@ == "UNSET"@ && (status.message matches Some(m) && m@ == "SKIPPED"@)
        } else {
            status.code@ == "OK"@ && status.message is None
        },
    }
}

/// The status of the span of an event that was skipped, that failed, or that was handled.
pub fn span_status(skipped: bool, error: Option<&EventProcessorError>) -> (r: SpanStatus)
    ensures
        status_says(
            r,
            skipped,
            match error {
                Some(e) => Some(*e),
                None => None,
            },
        ),
{
    match error {
        Some(e) => SpanStatus { code: "ERROR", message: Some(e.message()) },
        None => if skipped {
            SpanStatus { code: "UNSET", message: Some("SKIPPED".to_owned()) }
        } else {
            SpanStatus { code: "OK", message: None }
        },
    }
}

/// An external run never looks at the primary homeserver nor at a blacklisted one, looks at
/// every other one, and keeps their order.
pub proof fn law_targets_are_the_others(
    active: Seq<Seq<char>>,
    primary: Seq<char>,
    blacklist: HsBlacklist,
)
    ensures
        targets(active, primary, blacklist) == active.filter(
            |hs_id: Seq<char>| is_target(hs_id, primary, blacklist),
        ),
        forall|hs_id: Seq<char>| #[trigger]
            targets(active, primary, blacklist).contains(hs_id) <==> active.contains(hs_id)
                && is_target(hs_id, primary, blacklist),
    decreases active.len(),
{
    let keep = |hs_id: Seq<char>| is_target(hs_id, primary, blacklist);
    reveal(Seq::filter);
    let result = targets(active, primary, blacklist);
    if active.len() > 0 {
        let rest = targets(active.drop_last(), primary, blacklist);
        law_targets_are_the_others(active.drop_last(), primary, blacklist);
        assert forall|hs_id: Seq<char>| #[trigger] result.contains(hs_id) <==> active.contains(
            hs_id,
        ) && is_target(hs_id, primary, blacklist) by {
            if active.contains(hs_id) {
                let k = choose|k: int| 0 <= k < active.len() && active[k] == hs_id;
                if k < active.len() - 1 {
                    assert(active.drop_last()[k] == hs_id);
                    assert(active.drop_last().contains(hs_id));
                }
            }
            if active.drop_last().contains(hs_id) {
                let k = choose|k: int|
                    0 <= k < active.drop_last().len() && active.drop_last()[k] == hs_id;
                assert(active[k] == hs_id);
            }
            if rest.contains(hs_id) {
                let k = choose|k: int| 0 <= k < rest.len() && rest[k] == hs_id;
                assert(result[k] == hs_id);
            }
            if result.contains(hs_id) {
                let k = choose|k: int| 0 <= k < result.len() && result[k] == hs_id;
                if k < rest.len() {
                    assert(rest[k] == hs_id);
                    assert(rest.contains(hs_id));
                } else {
                    assert(active[active.len() - 1] == hs_id);
                }
            }
            if is_target(active.last(), primary, blacklist) {
                assert(result[result.len() - 1] == active.last());
            }
        }
    }
}

/// A run is counted exactly where it ended so.
proof fn lemma_counted_where_listed(stats: Seq<ProcessorRunStatus>, status: ProcessorRunStatus)
    ensures
        count_of(stats, status) > 0 <==> stats.contains(status),
        count_of(stats, status) <= stats.len(),
    decreases stats.len(),
{
    if stats.len() > 0 {
        let rest = stats.drop_last();
        lemma_counted_where_listed(rest, status);
        if stats.contains(status) {
            let i = choose|i: int| 0 <= i < stats.len() && stats[i] == status;
            if i < rest.len() {
                assert(rest[i] == status);
            }
        }
        if rest.contains(status) {
            let i = choose|i: int| 0 <= i < rest.len() && rest[i] == status;
            assert(stats[i] == status);
        }
        if stats.last() == status {
            assert(stats[stats.len() - 1] == status);
        }
    }
}

/// A warning is given exactly where some run failed in any way; else the skipped ones are told of
/// where there are any.
pub proof fn law_failures_are_warned_of(stats: Seq<ProcessorRunStatus>, r: RunSummary)
    requires
        summarized_as(stats, r),
    ensures
        r is Warn <==> stats.contains(ProcessorRunStatus::Error) || stats.contains(
            ProcessorRunStatus::Panic,
        ) || stats.contains(ProcessorRunStatus::Timeout) || stats.contains(
            ProcessorRunStatus::FailedToBuild,
        ),
        r is Info <==> !(r is Warn) && stats.contains(ProcessorRunStatus::Skipped),
        r is Debug <==> !(r is Warn) && !(r is Info),
{
    lemma_counted_where_listed(stats, ProcessorRunStatus::Error);
    lemma_counted_where_listed(stats, ProcessorRunStatus::Panic);
    lemma_counted_where_listed(stats, ProcessorRunStatus::Timeout);
    lemma_counted_where_listed(stats, ProcessorRunStatus::FailedToBuild);
    lemma_counted_where_listed(stats, ProcessorRunStatus::Skipped);
}

/// One more run raises the count of how it ended by one, and no other count.
pub proof fn law_runs_are_counted_once(
    stats: Seq<ProcessorRunStatus>,
    ended: ProcessorRunStatus,
    status: ProcessorRunStatus,
)
    ensures
        count_of(stats.push(ended), status) == count_of(stats, status) + (if ended == status {
            1nat
        } else {
            0nat
        }),
        count_of(Seq::empty(), status) == 0,
{
    assert(stats.push(ended).drop_last() =~= stats);
}

/// Of the active homeservers an external run looks at each that is neither the primary one nor
/// blacklisted, and at no other.
pub proof fn law_who_is_looked_at(
    active: Seq<Seq<char>>,
    primary: Seq<char>,
    blacklist: HsBlacklist,
    hs_id: Seq<char>,
)
    ensures
        targets(active, primary, blacklist).contains(hs_id) <==> active.contains(hs_id) && hs_id
            != primary && !blacklist.lists(hs_id),
        targets(active, primary, blacklist).len() <= active.len(),
    decreases active.len(),
{
    law_targets_are_the_others(active, primary, blacklist);
    if active.len() > 0 {
        law_who_is_looked_at(active.drop_last(), primary, blacklist, hs_id);
    }
}

/// What is done about an event, once it is known whether its user is processed here.
pub open spec fn gated(should_process: Result<bool, EventProcessorError>) -> GateStep {
    match should_process {
        Ok(true) => GateStep::Handle,
        Ok(false) => GateStep::Skip,
        Err(e) => GateStep::HandleError(e),
    }
}

/// An event is handled exactly where its user is processed here, skipped exactly where not, and a
/// failure to tell is passed on as it is.
pub proof fn law_events_are_gated_by_their_user(should_process: Result<bool, EventProcessorError>)
    ensures
        gated(should_process) is Handle <==> should_process == Ok::<bool, EventProcessorError>(true),
        gated(should_process) is Skip <==> should_process == Ok::<bool, EventProcessorError>(false),
        should_process matches Err(e) ==> gated(should_process) == GateStep::HandleError(e),
{
}

/// The status of an event tells an error by its words, a skipped event from a handled one, and nothing
/// more of a handled one.
pub proof fn law_statuses_tell_how_far_events_got(
    status: SpanStatus,
    skipped: bool,
    error: Option<EventProcessorError>,
)
    requires
        status_says(status, skipped, error),
    ensures
        status.code@ == "ERROR"@ <==> error is Some,
        status.code@ == "OK"@ <==> error is None && !skipped,
        status.message is None <==> status.code@ == "OK"@,
        error matches Some(e) ==> (status.message matches Some(m) && m@ == e.words()),
        error is None && skipped ==> (status.message matches Some(m) && m@ == "SKIPPED"@),
{
    reveal_strlit("ERROR");
    reveal_strlit("OK");
    reveal_strlit("UNSET");
    assert("ERROR"@[0] != "UNSET"@[0]);
    assert("ERROR"@.len() == 5 && "UNSET"@.len() == 5 && "OK"@.len() == 2);
}

} // verus!
