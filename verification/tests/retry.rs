use nexus::config::net::NetConfig;
use nexus::config::stack::{DatabaseConfig, Level, StackConfig};
use nexus::config::watcher::{EventRetryConfig, WatcherConfig};
use nexus::watcher::errors::{ClientError, EventProcessorError};
use nexus::watcher::event::{Event, EventType, ParseResult};
use nexus::watcher::retry::{
    calculate_backoff, retry_attempted, InitialBackoff, RetryDecision, RetryScheduler,
};

const USER: &str = "8um71us3fyw6h8wbcxb5ar3rwusy1a6u49956ikzojg3gcwd1dty";
const HS: &str = "1hb71xx9km3f4pw5izsy1gn19ff1uuuqonw4mcygzobwkryujoiy";
const NOW: i64 = 1_700_000_000_000;

fn create_test_config(
    max_retries: u32,
    max_dependency_retries: u32,
    initial_backoff_secs: u64,
    max_backoff_secs: u64,
    initial_missing_dep_backoff_secs: u64,
    max_missing_dep_backoff_secs: u64,
) -> EventRetryConfig {
    EventRetryConfig {
        max_retries,
        max_dependency_retries,
        initial_backoff_secs,
        max_backoff_secs,
        initial_missing_dep_backoff_secs,
        max_missing_dep_backoff_secs,
    }
}

fn attempt(count: u32, error: EventProcessorError, config: EventRetryConfig) -> RetryDecision {
    retry_attempted(count, &Err(error), &config, NOW)
}

fn generic() -> EventProcessorError {
    EventProcessorError::Generic("retry error".to_string())
}

fn database_down() -> EventProcessorError {
    EventProcessorError::GraphQueryFailed(true, "Database connection failed".to_string())
}

fn missing() -> EventProcessorError {
    EventProcessorError::MissingDependency { dependency: vec!["some_dependency".to_string()] }
}

#[test]
fn test_backoff_first_retry_uses_initial_value() {
    assert_eq!(calculate_backoff(0, 60, 3600), 60);
    assert_eq!(
        attempt(0, generic(), create_test_config(10, 50, 60, 3600, 60, 3600)),
        RetryDecision::Requeue { retry_count: 1, next_retry_at: NOW + 60_000 }
    );
}

#[test]
fn test_backoff_exponential_growth() {
    assert_eq!(calculate_backoff(3, 10, 3600), 80);
    assert_eq!(
        attempt(3, generic(), create_test_config(10, 50, 10, 3600, 60, 3600)),
        RetryDecision::Requeue { retry_count: 4, next_retry_at: NOW + 80_000 }
    );
}

#[test]
fn test_infrastructure_error_at_max_retries_does_not_dead_letter() {
    match attempt(10, database_down(), create_test_config(10, 50, 60, 3600, 60, 3600)) {
        RetryDecision::RequeueAndStop { retry_count, next_retry_at } => {
            assert_eq!(retry_count, 10);
            assert!(next_retry_at > NOW);
        }
        other => panic!("{other:?}"),
    }
}

#[test]
fn test_backoff_capped_at_max() {
    assert_eq!(
        attempt(6, generic(), create_test_config(10, 50, 60, 3600, 60, 3600)),
        RetryDecision::Requeue { retry_count: 7, next_retry_at: NOW + 3_600_000 }
    );
    assert_eq!(calculate_backoff(u32::MAX, 1, u64::MAX), u64::MAX);
    assert_eq!(calculate_backoff(63, 1, u64::MAX), 1 << 63);
    assert_eq!(calculate_backoff(u32::MAX, 0, 5), 0);
    assert_eq!(calculate_backoff(0, 10, 5), 5);
}

#[test]
fn test_retry_success_removes_from_queue() {
    let config = create_test_config(10, 50, 60, 3600, 60, 3600);
    assert_eq!(retry_attempted(0, &Ok(()), &config, NOW), RetryDecision::Remove);
}

#[test]
fn test_retry_404_removes_from_queue() {
    let gone = EventProcessorError::from(ClientError::NotFound404 { message: "uri".to_string() });
    assert_eq!(
        attempt(0, gone, create_test_config(10, 50, 60, 3600, 60, 3600)),
        RetryDecision::Remove
    );
}

#[test]
fn test_transient_error_schedules_retry() {
    assert_eq!(
        attempt(0, database_down(), create_test_config(10, 50, 60, 3600, 60, 3600)),
        RetryDecision::RequeueAndStop { retry_count: 0, next_retry_at: NOW + 60_000 }
    );
}

#[test]
fn test_missing_dependency_schedules_retry() {
    assert_eq!(
        attempt(0, missing(), create_test_config(10, 50, 60, 3600, 300, 18000)),
        RetryDecision::Requeue { retry_count: 1, next_retry_at: NOW + 300_000 }
    );
}

#[test]
fn test_dead_letter_after_max_transient_retries() {
    let config = create_test_config(10, 50, 60, 3600, 60, 3600);
    assert_eq!(attempt(10, generic(), config), RetryDecision::DeadLetter);
    assert!(matches!(attempt(9, generic(), config), RetryDecision::Requeue { .. }));
}

#[test]
fn test_dead_letter_after_max_dependency_retries() {
    let config = create_test_config(10, 50, 60, 3600, 60, 3600);
    assert_eq!(attempt(50, missing(), config), RetryDecision::DeadLetter);
    assert!(matches!(attempt(49, missing(), config), RetryDecision::Requeue { .. }));
}

#[test]
fn test_non_retryable_error_removes_event() {
    let config = create_test_config(10, 50, 60, 3600, 60, 3600);
    let malformed = EventProcessorError::InvalidEventLine("malformed data".to_string());
    assert_eq!(attempt(0, malformed, config), RetryDecision::Remove);
}

#[test]
fn test_infrastructure_error_stops_batch() {
    let config = create_test_config(10, 50, 60, 3600, 60, 3600);
    let down =
        EventProcessorError::GraphQueryFailed(true, "Critical database failure".to_string());
    assert!(down.should_not_retry_now());
    assert!(matches!(
        attempt(0, down, config),
        RetryDecision::RequeueAndStop { retry_count: 0, .. }
    ));
}

#[test]
fn retry_processor_test_batch_continues_after_single_failure() {
    let config = create_test_config(10, 50, 60, 3600, 60, 3600);
    let fails = EventProcessorError::Generic("first handler fails".to_string());
    assert!(matches!(attempt(0, fails, config), RetryDecision::Requeue { retry_count: 1, .. }));
    assert_eq!(retry_attempted(0, &Ok(()), &config, NOW), RetryDecision::Remove);
}

#[test]
fn test_retry_event_carries_origin_homeserver_id() {
    let stack = StackConfig {
        log_level: Level::Info,
        files_path: "files".to_string(),
        otlp_endpoint: None,
        db: DatabaseConfig { redis: "r".to_string(), neo4j_uri: "n".to_string() },
        net: NetConfig::default(),
    };
    let config = WatcherConfig::try_default(stack).unwrap();
    let scheduler = RetryScheduler::from_config((), &config);
    assert_eq!(scheduler.initial, InitialBackoff { missing_dep_ms: 60_000, transient_ms: 10_000 });
    let uri = format!("pubky://{USER}/pub/pubky.app/posts/originhs");
    let event = match Event::parse_event(&format!("PUT {uri}")).unwrap() {
        ParseResult::Parsed(event) => event,
        other => panic!("{other:?}"),
    };
    let queued = scheduler.queue_missing_dep(&event, HS, NOW);
    assert_eq!(queued.origin_homeserver_id, HS);
    assert_eq!(queued.event_uri, uri);
    assert_eq!(queued.event_type, EventType::Put);
    assert_eq!(queued.retry_count, 0);
    assert_eq!(queued.next_retry_at, NOW + 60_000);
    assert_eq!(scheduler.queue_transient(&event, HS, NOW).next_retry_at, NOW + 10_000);
}
