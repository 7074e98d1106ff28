//! Settings of the watcher.
use crate::config::api::ApiConfig;
use crate::config::stack::StackConfig;
use crate::config::trust::TrustRankConfig;
use crate::text::{decimal, decimal_text, views};
use crate::uri::{pubky_id_of, PubkyId};
use vstd::prelude::*;

verus! {

/// Testnet homeserver key
pub const HOMESERVER_PUBKY: &'static str = "8pinxxgqs41n4aididenw5apqp1urfmzdztr8jt4abrkdn435ewo";

/// Default for [WatcherConfig::events_limit]
pub const DEFAULT_EVENTS_LIMIT: u16 = 1_000;

/// Default for [WatcherConfig::key_based_events_limit]
pub const DEFAULT_KEY_BASED_EVENTS_LIMIT: u16 = 50;

/// Default for [WatcherConfig::monitored_homeservers_limit]
pub const DEFAULT_MONITORED_HOMESERVERS_LIMIT: usize = 50;

/// Default for [WatcherConfig::primary_hs_monitoring_interval_ms]
pub const DEFAULT_PRIMARY_HS_MONITORING_INTERVAL_MS: u64 = 5_000;

/// Default for [WatcherConfig::external_hs_monitoring_interval_ms]
pub const DEFAULT_EXTERNAL_HS_MONITORING_INTERVAL_MS: u64 = 5_000;

/// Default for [WatcherConfig::hs_resolver_interval_ms]
pub const DEFAULT_HS_RESOLVER_INTERVAL_MS: u64 = 10_000;

/// Default for [WatcherConfig::hs_resolver_ttl]: 1 hour in milliseconds
pub const DEFAULT_HS_RESOLVER_TTL: u64 = 3_600_000;

/// Default for [WatcherConfig::retry_processor_interval_ms]
pub const DEFAULT_RETRY_PROCESSOR_INTERVAL_MS: u64 = 10_000;

/// Default for [WatcherConfig::initial_backoff_secs]
pub const DEFAULT_INITIAL_BACKOFF_SECS: u64 = 60;

/// Default for [WatcherConfig::max_backoff_secs]
pub const DEFAULT_MAX_BACKOFF_SECS: u64 = 3_600;

/// Extra-safety check: Upper bound for [WatcherConfig::events_limit]
pub const MAX_EVENTS_LIMIT: u16 = 1_000;

/// Extra-safety check: Upper bound for [WatcherConfig::key_based_events_limit]
pub const MAX_KEY_BASED_EVENTS_LIMIT: u16 = 100;

/// Default for [WatcherConfig::max_file_size]: the blob size cap, 100 MiB
pub const DEFAULT_MAX_FILE_SIZE: u64 = 104_857_600;

/// Default for [EventRetryConfig::max_retries]
pub const DEFAULT_MAX_RETRIES: u32 = 10;

/// Default for [EventRetryConfig::max_dependency_retries]
pub const DEFAULT_MAX_DEPENDENCY_RETRIES: u32 = 50;

/// Default for [EventRetryConfig::initial_backoff_secs] (transient errors)
pub const DEFAULT_INITIAL_TRANSIENT_BACKOFF_SECS: u64 = 10;

/// Default for [EventRetryConfig::max_backoff_secs] (transient errors)
pub const DEFAULT_MAX_TRANSIENT_BACKOFF_SECS: u64 = 3_600;

/// Default for [EventRetryConfig::initial_missing_dep_backoff_secs]
pub const DEFAULT_INITIAL_MISSING_DEP_BACKOFF_SECS: u64 = 60;

/// Default for [EventRetryConfig::max_missing_dep_backoff_secs]
pub const DEFAULT_MAX_MISSING_DEP_BACKOFF_SECS: u64 = 3_600;

/// Default moderation service key (test user key, overridden by the configured value)
pub const DEFAULT_MODERATION_ID: &'static str =
    "uo7jgkykft4885n8cruizwy6khw71mnu5pq3ay9i8pw1ymcn85ko";

/// Event retry limits and backoff
#[derive(Debug, Clone, Copy, PartialEq, Eq, Structural)]
pub struct EventRetryConfig {
    /// Transient error retry limit before dead-letter
    pub max_retries: u32,
    /// Safety net for homeservers that disappear silently (no DEL events, content just gone)
    pub max_dependency_retries: u32,
    /// Base for exponential backoff on transient retries (seconds)
    pub initial_backoff_secs: u64,
    /// Backoff ceiling for transient retries (seconds)
    pub max_backoff_secs: u64,
    /// Base for MissingDependency polling backoff (seconds)
    pub initial_missing_dep_backoff_secs: u64,
    /// Backoff ceiling for MissingDependency (seconds)
    pub max_missing_dep_backoff_secs: u64,
}

/// The retry settings where none are configured.
pub open spec fn default_retry_config() -> EventRetryConfig {
    EventRetryConfig {
        max_retries: DEFAULT_MAX_RETRIES,
        max_dependency_retries: DEFAULT_MAX_DEPENDENCY_RETRIES,
        initial_backoff_secs: DEFAULT_INITIAL_TRANSIENT_BACKOFF_SECS,
        max_backoff_secs: DEFAULT_MAX_TRANSIENT_BACKOFF_SECS,
        initial_missing_dep_backoff_secs: DEFAULT_INITIAL_MISSING_DEP_BACKOFF_SECS,
        max_missing_dep_backoff_secs: DEFAULT_MAX_MISSING_DEP_BACKOFF_SECS,
    }
}

impl Default for EventRetryConfig {
    fn default() -> (r: Self)
        ensures
            r == default_retry_config(),
    {
        EventRetryConfig {
            max_retries: DEFAULT_MAX_RETRIES,
            max_dependency_retries: DEFAULT_MAX_DEPENDENCY_RETRIES,
            initial_backoff_secs: DEFAULT_INITIAL_TRANSIENT_BACKOFF_SECS,
            max_backoff_secs: DEFAULT_MAX_TRANSIENT_BACKOFF_SECS,
            initial_missing_dep_backoff_secs: DEFAULT_INITIAL_MISSING_DEP_BACKOFF_SECS,
            max_missing_dep_backoff_secs: DEFAULT_MAX_MISSING_DEP_BACKOFF_SECS,
        }
    }
}

/// Configuration settings for the Nexus Watcher service
#[derive(Debug, Clone, PartialEq, Eq)]
pub struct WatcherConfig {
    /// Default, prioritized homeserver
    pub homeserver: PubkyId,
    /// Maximum number of events to fetch per run from the primary homeserver.
    /// Must not exceed [MAX_EVENTS_LIMIT].
    pub events_limit: u16,
    /// Maximum events per user per run for key-based (external) homeservers.
    /// Must not exceed [MAX_KEY_BASED_EVENTS_LIMIT].
    pub key_based_events_limit: u16,
    /// Maximum number of monitored homeservers
    pub monitored_homeservers_limit: usize,
    /// Scheduling interval (ms) at which the primary-HS monitoring task is triggered.
    pub primary_hs_monitoring_interval_ms: u64,
    /// Scheduling interval (ms) at which the key-based (external HS) monitoring task is triggered.
    pub external_hs_monitoring_interval_ms: u64,
    /// Scheduling interval (ms) at which the user HS resolver task is triggered.
    pub hs_resolver_interval_ms: u64,
    /// Minimum time (ms) before a user's homeserver mapping is re-resolved.
    /// Users whose `HOSTED_BY.resolved_at` is newer than this TTL are skipped.
    pub hs_resolver_ttl: u64,
    /// Initial backoff duration (in seconds) after the first failure of a homeserver
    pub initial_backoff_secs: u64,
    /// Maximum backoff duration (in seconds) for a failing homeserver
    pub max_backoff_secs: u64,
    /// Scheduling interval (ms) at which the retry processor task is triggered.
    pub retry_processor_interval_ms: u64,
    /// Max file size in bytes (Content-Length check + streaming enforcement).
    /// Rejected files are permanent failures (not retried).
    pub max_file_size: u64,
    pub stack: StackConfig,
    pub retry: EventRetryConfig,
    pub moderation_id: PubkyId,
    pub moderated_tags: Vec<String>,
}

/// Labels that the moderation service deletes by.
pub open spec fn default_moderated_tags() -> Seq<Seq<char>> {
    seq![
        "hatespeech"@,
        "harassement"@,
        "terrorism"@,
        "violence"@,
        "illegal_activities"@,
        "il_adult_nu_sex_act"@,
    ]
}

/// Labels that the moderation service deletes by.
pub fn moderated_tags() -> (r: Vec<String>)
    ensures
        views(r@) == default_moderated_tags(),
{
    let mut tags: Vec<String> = Vec::new();
    tags.push("hatespeech".to_owned());
    tags.push("harassement".to_owned());
    tags.push("terrorism".to_owned());
    tags.push("violence".to_owned());
    tags.push("illegal_activities".to_owned());
    tags.push("il_adult_nu_sex_act".to_owned());
    assert(views(tags@) =~= default_moderated_tags());
    tags
}

/// The blob size cap of `pubky_app_specs::VALIDATION_LIMITS`: 100 MiB.
#[verifier::external_body]
fn max_blob_size_bytes() -> (r: u64)
    ensures
        r == 104_857_600,
{
    pubky_app_specs::VALIDATION_LIMITS.max_blob_size_bytes as u64
}

/// Whether a configuration holds the defaults around the given stack.
pub open spec fn is_default(c: WatcherConfig, stack: StackConfig) -> bool {
    &&& pubky_id_of(HOMESERVER_PUBKY@) matches Ok(id) && c.homeserver@ == id
    &&& pubky_id_of(DEFAULT_MODERATION_ID@) matches Ok(id) && c.moderation_id@ == id
    &&& has_default_limits(c)
    &&& c.stack == stack
}

/// Whether a configuration holds the default limits, intervals and labels.
pub open spec fn has_default_limits(c: WatcherConfig) -> bool {
    &&& c.events_limit == DEFAULT_EVENTS_LIMIT
    &&& c.key_based_events_limit == DEFAULT_KEY_BASED_EVENTS_LIMIT
    &&& c.monitored_homeservers_limit == DEFAULT_MONITORED_HOMESERVERS_LIMIT
    &&& c.primary_hs_monitoring_interval_ms == DEFAULT_PRIMARY_HS_MONITORING_INTERVAL_MS
    &&& c.external_hs_monitoring_interval_ms == DEFAULT_EXTERNAL_HS_MONITORING_INTERVAL_MS
    &&& c.hs_resolver_interval_ms == DEFAULT_HS_RESOLVER_INTERVAL_MS
    &&& c.hs_resolver_ttl == DEFAULT_HS_RESOLVER_TTL
    &&& c.initial_backoff_secs == DEFAULT_INITIAL_BACKOFF_SECS
    &&& c.max_backoff_secs == DEFAULT_MAX_BACKOFF_SECS
    &&& c.retry_processor_interval_ms == DEFAULT_RETRY_PROCESSOR_INTERVAL_MS
    &&& c.max_file_size == DEFAULT_MAX_FILE_SIZE
    &&& c.retry == default_retry_config()
    &&& views(c.moderated_tags@) == default_moderated_tags()
}

impl WatcherConfig {
    /// The default configuration for a homeserver and a moderation service.
    pub fn with_ids(homeserver: PubkyId, moderation_id: PubkyId, stack: StackConfig) -> (r: Self)
        ensures
            has_default_limits(r),
            r.homeserver == homeserver,
            r.moderation_id == moderation_id,
            r.stack == stack,
    {
        WatcherConfig {
            stack,
            homeserver,
            events_limit: DEFAULT_EVENTS_LIMIT,
            key_based_events_limit: default_key_based_events_limit(),
            monitored_homeservers_limit: DEFAULT_MONITORED_HOMESERVERS_LIMIT,
            primary_hs_monitoring_interval_ms: DEFAULT_PRIMARY_HS_MONITORING_INTERVAL_MS,
            external_hs_monitoring_interval_ms: default_external_hs_monitoring_interval_ms(),
            hs_resolver_interval_ms: default_hs_resolver_interval_ms(),
            hs_resolver_ttl: default_hs_resolver_ttl(),
            initial_backoff_secs: default_initial_backoff_secs(),
            max_backoff_secs: default_max_backoff_secs(),
            retry_processor_interval_ms: default_retry_processor_interval_ms(),
            max_file_size: default_max_file_size(),
            retry: EventRetryConfig::default(),
            moderation_id,
            moderated_tags: moderated_tags(),
        }
    }

    /// The default configuration, derived from predefined constants. Fails where one of the
    /// predefined keys is no key.
    pub fn try_default(stack: StackConfig) -> (r: Result<Self, String>)
        ensures
            match r {
                Ok(c) => is_default(c, stack),
                Err(e) => (pubky_id_of(HOMESERVER_PUBKY@) matches Err(m) && m == e@) || (
                pubky_id_of(HOMESERVER_PUBKY@) is Ok && (pubky_id_of(
                    DEFAULT_MODERATION_ID@,
                ) matches Err(m) && m == e@)),
            },
    {
        match PubkyId::try_from(HOMESERVER_PUBKY) {
            Err(e) => Err(e),
            Ok(homeserver) => match PubkyId::try_from(DEFAULT_MODERATION_ID) {
                Err(e) => Err(e),
                Ok(moderation_id) => Ok(Self::with_ids(homeserver, moderation_id, stack)),
            },
        }
    }
}

/// Scheduling settings of a cron job (`[jobs.<name>]`).
#[derive(Debug, Clone, PartialEq, Eq)]
pub struct JobConfig {
    /// When the job runs; it is not scheduled where there is none.
    pub cron: Option<String>,
}

/// Settings of all services.
#[derive(Debug, Clone, PartialEq, Eq)]
pub struct DaemonConfig {
    pub api: ApiConfig,
    pub watcher: WatcherConfig,
    pub stack: StackConfig,
    /// Scheduling settings per cron job, with the job's name.
    pub jobs: Vec<(String, JobConfig)>,
    /// Trust-rank computation parameters.
    pub trust_rank: TrustRankConfig,
}

/// The watcher's settings on the stack of the daemon.
pub open spec fn watcher_of(daemon_config: DaemonConfig) -> WatcherConfig {
    WatcherConfig { stack: daemon_config.stack, ..daemon_config.watcher }
}

/// Extracts [`WatcherConfig`] from [`DaemonConfig`]
impl From<DaemonConfig> for WatcherConfig {
    fn from(daemon_config: DaemonConfig) -> (r: Self) {
        WatcherConfig { stack: daemon_config.stack, ..daemon_config.watcher }
    }
}

impl vstd::std_specs::convert::FromSpecImpl<DaemonConfig> for WatcherConfig {
    open spec fn obeys_from_spec() -> bool {
        true
    }

    open spec fn from_spec(daemon_config: DaemonConfig) -> WatcherConfig {
        watcher_of(daemon_config)
    }
}

/// Interval of the homeserver resolver where none is configured.
pub fn default_hs_resolver_interval_ms() -> (r: u64)
    ensures
        r == DEFAULT_HS_RESOLVER_INTERVAL_MS,
{
    DEFAULT_HS_RESOLVER_INTERVAL_MS
}

/// Interval of the monitoring of external homeservers where none is configured.
pub fn default_external_hs_monitoring_interval_ms() -> (r: u64)
    ensures
        r == DEFAULT_EXTERNAL_HS_MONITORING_INTERVAL_MS,
{
    DEFAULT_EXTERNAL_HS_MONITORING_INTERVAL_MS
}

/// Events per user and run where no number is configured.
pub fn default_key_based_events_limit() -> (r: u16)
    ensures
        r == DEFAULT_KEY_BASED_EVENTS_LIMIT,
{
    DEFAULT_KEY_BASED_EVENTS_LIMIT
}

/// Age at which a mapping is resolved again where none is configured.
pub fn default_hs_resolver_ttl() -> (r: u64)
    ensures
        r == DEFAULT_HS_RESOLVER_TTL,
{
    DEFAULT_HS_RESOLVER_TTL
}

/// First backoff of a homeserver where none is configured.
pub fn default_initial_backoff_secs() -> (r: u64)
    ensures
        r == DEFAULT_INITIAL_BACKOFF_SECS,
{
    DEFAULT_INITIAL_BACKOFF_SECS
}

/// Longest backoff of a homeserver where none is configured.
pub fn default_max_backoff_secs() -> (r: u64)
    ensures
        r == DEFAULT_MAX_BACKOFF_SECS,
{
    DEFAULT_MAX_BACKOFF_SECS
}

/// Interval of the retry processor where none is configured.
pub fn default_retry_processor_interval_ms() -> (r: u64)
    ensures
        r == DEFAULT_RETRY_PROCESSOR_INTERVAL_MS,
{
    DEFAULT_RETRY_PROCESSOR_INTERVAL_MS
}

/// Largest file where no size is configured: the blob size cap.
pub fn default_max_file_size() -> (r: u64)
    ensures
        r == DEFAULT_MAX_FILE_SIZE,
{
    max_blob_size_bytes()
}

/// Accepts a limit from 1 to `max`.
pub fn check_limit(val: u16, field: &str, max: u16) -> (r: Result<u16, String>)
    ensures
        limit_checked_as(val, field@, max, r),
{
    if val == 0 {
        Err(field.to_owned().concat(" must be at least 1"))
    } else if val > max {
        let v = decimal_text(val as u64);
        let m = decimal_text(max as u64);
        Err(
            field.to_owned().concat(" (").concat(v.as_str()).concat(") exceeds max (").concat(
                m.as_str(),
            ).concat(")"),
        )
    } else {
        Ok(val)
    }
}

/// Whether `r` is the verdict on a limit.
pub open spec fn limit_checked_as(
    val: u16,
    field: Seq<char>,
    max: u16,
    r: Result<u16, String>,
) -> bool {
    if val == 0 {
        r matches Err(e) && e@ == field + " must be at least 1"@
    } else if val > max {
        r matches Err(e) && e@ == field + " ("@ + decimal(val as nat) + ") exceeds max ("@
            + decimal(max as nat) + ")"@
    } else {
        r == Ok::<u16, String>(val)
    }
}

/// Accepts a number of events per run from the primary homeserver.
pub fn check_events_limit(val: u16) -> (r: Result<u16, String>)
    ensures
        limit_checked_as(val, "events_limit"@, MAX_EVENTS_LIMIT, r),
{
    check_limit(val, "events_limit", MAX_EVENTS_LIMIT)
}

/// Accepts a number of events per user and run from external homeservers.
pub fn check_key_based_events_limit(val: u16) -> (r: Result<u16, String>)
    ensures
        limit_checked_as(val, "key_based_events_limit"@, MAX_KEY_BASED_EVENTS_LIMIT, r),
{
    check_limit(val, "key_based_events_limit", MAX_KEY_BASED_EVENTS_LIMIT)
}

/// Accepts a scheduling interval other than 0.
pub fn check_nonzero_interval_ms(value: u64) -> (r: Result<u64, String>)
    ensures
        match r {
            Ok(v) => value != 0 && v == value,
            Err(e) => value == 0 && e@ == "scheduling interval cannot be 0ms"@,
        },
{
    if value == 0 {
        Err("scheduling interval cannot be 0ms".to_owned())
    } else {
        Ok(value)
    }
}

/// A limit that is accepted is the one that was asked for, and lies within its bounds.
pub proof fn law_accepted_limits_are_in_range(
    val: u16,
    field: Seq<char>,
    max: u16,
    r: Result<u16, String>,
)
    requires
        limit_checked_as(val, field, max, r),
    ensures
        r is Ok <==> 1 <= val <= max,
        r matches Ok(v) ==> v == val,
{
}

/// The default limits pass their own checks.
pub proof fn law_default_limits_are_accepted(c: WatcherConfig)
    requires
        has_default_limits(c),
    ensures
        1 <= c.events_limit <= MAX_EVENTS_LIMIT,
        1 <= c.key_based_events_limit <= MAX_KEY_BASED_EVENTS_LIMIT,
        c.primary_hs_monitoring_interval_ms != 0,
        c.external_hs_monitoring_interval_ms != 0,
        c.hs_resolver_interval_ms != 0,
        c.retry_processor_interval_ms != 0,
{
}

/// An event that waits for something is given up later than one that failed, is first tried again
/// after a minute instead of ten seconds, and neither waits longer than an hour.
pub proof fn law_default_retries(c: WatcherConfig)
    requires
        has_default_limits(c),
    ensures
        c.retry.max_retries == 10,
        c.retry.max_dependency_retries == 50,
        c.retry.initial_backoff_secs == 10,
        c.retry.initial_missing_dep_backoff_secs == 60,
        c.retry.max_backoff_secs == 3_600,
        c.retry.max_missing_dep_backoff_secs == 3_600,
{
}

/// The services take the stack of the daemon, and all else from their own settings.
pub proof fn law_watcher_takes_the_stack_of_the_daemon(daemon_config: DaemonConfig)
    ensures
        watcher_of(daemon_config).stack == daemon_config.stack,
        watcher_of(daemon_config) == (WatcherConfig {
            stack: daemon_config.stack,
            ..daemon_config.watcher
        }),
{
}

/// The default limits, intervals and labels in numbers: a thousand events from the primary homeserver
/// and fifty from each of fifty others, polled every five seconds, with homeservers that fail left
/// alone for a minute at first and an hour at most.
pub proof fn law_defaults_in_numbers(c: WatcherConfig, stack: StackConfig)
    requires
        is_default(c, stack),
    ensures
        c.events_limit == 1_000,
        c.key_based_events_limit == 50,
        c.monitored_homeservers_limit == 50,
        c.primary_hs_monitoring_interval_ms == 5_000,
        c.external_hs_monitoring_interval_ms == 5_000,
        c.hs_resolver_interval_ms == 10_000,
        c.hs_resolver_ttl == 60 * 60 * 1000,
        c.initial_backoff_secs == 60,
        c.max_backoff_secs == 60 * 60,
        c.retry_processor_interval_ms == 10_000,
        c.max_file_size == 100 * 1024 * 1024,
        c.moderated_tags@.len() == 6,
        c.stack == stack,
        pubky_id_of(HOMESERVER_PUBKY@) == Ok::<Seq<char>, Seq<char>>(c.homeserver@),
        pubky_id_of(DEFAULT_MODERATION_ID@) == Ok::<Seq<char>, Seq<char>>(c.moderation_id@),
{
    assert(views(c.moderated_tags@).len() == 6);
}

} // verus!
