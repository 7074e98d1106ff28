use nexus::config::api::ApiConfig;
use nexus::config::net::NetConfig;
use nexus::config::stack::{DatabaseConfig, Level, StackConfig};
use nexus::config::trust::{check_at_least_one, dedupe_seed, TrustRankConfig};
use nexus::config::watcher::{
    check_events_limit, check_key_based_events_limit, check_nonzero_interval_ms,
    default_max_file_size, DaemonConfig, EventRetryConfig, JobConfig, WatcherConfig, DEFAULT_MAX_FILE_SIZE,
    DEFAULT_MODERATION_ID, HOMESERVER_PUBKY,
};
use nexus::types::Float;
use nexus::uri::{read_ids, PubkyId};
use nexus::user::ingestor::HsBlacklist;
use nexus::watcher::builder::NexusWatcherBuilder;
use nexus::webapi::key_republisher::PublicIp;

const HS1: &str = "8um71us3fyw6h8wbcxb5ar3rwusy1a6u49956ikzojg3gcwd1dty";
const HS2: &str = "operrr8wsbpr3ue9d4qj41ge1kcc6r7fdiy6o3ugjrrhi4y77rdo";

fn id(s: &str) -> PubkyId {
    PubkyId::try_from(s).unwrap()
}

fn stack(name: &str) -> StackConfig {
    StackConfig {
        log_level: Level::Info,
        files_path: name.to_string(),
        otlp_endpoint: None,
        db: DatabaseConfig { redis: "r".to_string(), neo4j_uri: "n".to_string() },
        net: NetConfig::default(),
    }
}

fn trust_rank() -> TrustRankConfig {
    TrustRankConfig {
        seed: vec![],
        alpha: Float { text: "0.35".to_string() },
        max_iterations: 200,
        tolerance: Float { text: "0.0000001".to_string() },
        report_enabled: false,
        report_dir: "reports".to_string(),
        report_limit: 10_000,
    }
}

#[test]
fn test_trust_seed_parsing() {
    let seed = read_ids(&vec![HS1.to_string(), HS2.to_string()]).unwrap();
    let c = TrustRankConfig { seed, ..trust_rank() }.checked().unwrap();
    assert_eq!(c.seed, vec![id(HS1), id(HS2)]);
    assert_eq!(c, TrustRankConfig { seed: c.seed.clone(), ..trust_rank() });
}

#[test]
fn test_trust_seed_dedupes_duplicates() {
    let seed: Vec<PubkyId> = [HS1, HS2, HS1].iter().map(|s| id(s)).collect();
    let c = TrustRankConfig { seed, ..trust_rank() }.checked().unwrap();
    assert_eq!(
        c.seed,
        vec![id(HS1), id(HS2)],
        "duplicate seed ids should be removed, keeping first-occurrence order"
    );
    assert_eq!(dedupe_seed(vec![]), vec![]);
    assert_eq!(dedupe_seed(vec![id(HS2), id(HS2), id(HS1)]), vec![id(HS2), id(HS1)]);
}

#[test]
fn test_trust_max_iterations_rejects_zero() {
    assert_eq!(
        check_at_least_one(0, "max_iterations"),
        Err("max_iterations must be at least 1".to_string())
    );
    assert_eq!(check_at_least_one(200, "max_iterations"), Ok(200));
    let c = TrustRankConfig { max_iterations: 0, ..trust_rank() };
    assert!(c.checked().is_err(), "max_iterations = 0 should be rejected");
}

#[test]
fn test_trust_report_limit_rejects_zero() {
    assert!(check_at_least_one(0, "report_limit").is_err());
    assert_eq!(check_at_least_one(1, "report_limit"), Ok(1));
    let c = TrustRankConfig { report_limit: 0, ..trust_rank() };
    assert!(c.checked().is_err(), "report_limit = 0 should be rejected");
}

#[test]
fn test_external_hs_pk_blacklist_parsing() {
    let texts = vec![HS1.to_string(), HS2.to_string()];
    let net = NetConfig {
        external_hs_pk_blacklist: read_ids(&texts).unwrap(),
        ..NetConfig::default()
    };
    assert_eq!(
        net.external_hs_pk_blacklist,
        vec![PubkyId::try_from(HS1).unwrap(), PubkyId::try_from(HS2).unwrap()],
        "blacklist entries should parse, in order, into PubkyId values"
    );
    let blacklist = HsBlacklist::from_config(&StackConfig { net, ..stack("s") });
    assert!(blacklist.is_blacklisted(HS1) && blacklist.is_blacklisted(HS2));
    assert!(!blacklist.is_blacklisted(HOMESERVER_PUBKY));
}

#[test]
fn test_external_hs_pk_blacklist_rejects_invalid_pk() {
    assert!(
        read_ids(&vec!["not-a-valid-pubky".to_string()]).is_err(),
        "an invalid public key in the blacklist must fail config parsing"
    );
}

#[test]
fn test_periodic_watcher_intervals_reject_zero() {
    assert_eq!(
        check_nonzero_interval_ms(0),
        Err("scheduling interval cannot be 0ms".to_string())
    );
    for ms in [1, 5_000, 10_000, u64::MAX] {
        assert_eq!(check_nonzero_interval_ms(ms), Ok(ms));
    }
}

#[test]
fn limits_are_checked() {
    assert_eq!(check_events_limit(1), Ok(1));
    assert_eq!(check_events_limit(1_000), Ok(1_000));
    assert_eq!(
        check_events_limit(1_001),
        Err("events_limit (1001) exceeds max (1000)".to_string())
    );
    assert_eq!(check_events_limit(0), Err("events_limit must be at least 1".to_string()));
    assert_eq!(check_key_based_events_limit(100), Ok(100));
    assert_eq!(
        check_key_based_events_limit(101),
        Err("key_based_events_limit (101) exceeds max (100)".to_string())
    );
}

#[test]
fn watcher_defaults() {
    let c = WatcherConfig::try_default(stack("s")).unwrap();
    assert_eq!(c.homeserver, id(HOMESERVER_PUBKY));
    assert_eq!(c.moderation_id, id(DEFAULT_MODERATION_ID));
    assert_eq!(c.events_limit, 1_000);
    assert_eq!(c.key_based_events_limit, 50);
    assert_eq!(c.monitored_homeservers_limit, 50);
    assert_eq!(c.primary_hs_monitoring_interval_ms, 5_000);
    assert_eq!(c.external_hs_monitoring_interval_ms, 5_000);
    assert_eq!(c.hs_resolver_interval_ms, 10_000);
    assert_eq!(c.hs_resolver_ttl, 3_600_000);
    assert_eq!(c.retry_processor_interval_ms, 10_000);
    assert_eq!(c.initial_backoff_secs, 60);
    assert_eq!(c.max_backoff_secs, 3_600);
    assert_eq!(c.max_file_size, DEFAULT_MAX_FILE_SIZE);
    assert_eq!(
        c.moderated_tags,
        vec![
            "hatespeech",
            "harassement",
            "terrorism",
            "violence",
            "illegal_activities",
            "il_adult_nu_sex_act",
        ]
    );
    assert_eq!(c.retry, EventRetryConfig::default());
    assert_eq!(c.retry.max_retries, 10);
    assert_eq!(c.retry.max_dependency_retries, 50);
}

#[test]
fn the_largest_file_is_the_blob_cap() {
    assert_eq!(default_max_file_size(), 104_857_600);
    assert_eq!(
        default_max_file_size(),
        pubky_app_specs::VALIDATION_LIMITS.max_blob_size_bytes as u64
    );
}

#[test]
fn network_defaults() {
    let net = NetConfig::default();
    assert!(!net.testnet);
    assert_eq!(net.testnet_host, "localhost");
    assert!(net.external_hs_pk_blacklist.is_empty());
    assert_eq!(net.pubky_client_testnet_host(), None);
    let testnet = NetConfig { testnet: true, ..net };
    assert_eq!(testnet.pubky_client_testnet_host(), Some("localhost"));
}

#[test]
fn services_take_the_stack_of_the_daemon() {
    let daemon = DaemonConfig {
        api: ApiConfig {
            public_ip: PublicIp::V4(0),
            public_pubky_tls_port: 0,
            request_timeout_secs: 30,
            max_body_size_bytes: 10,
            stack: stack("api"),
        },
        watcher: WatcherConfig::try_default(stack("watcher")).unwrap(),
        stack: stack("daemon"),
        jobs: vec![("trust-recompute".to_string(), JobConfig { cron: None })],
        trust_rank: trust_rank(),
    };
    let watcher = WatcherConfig::from(daemon.clone());
    assert_eq!(watcher.stack, stack("daemon"));
    assert_eq!(watcher.events_limit, 1_000);
    let api = ApiConfig::from(daemon);
    assert_eq!(api.stack, stack("daemon"));
    assert_eq!(api.request_timeout_secs, 30);
}

#[test]
fn watcher_builder_sets_one_thing_at_a_time() {
    let config = WatcherConfig::try_default(stack("old")).unwrap();
    let mut builder = NexusWatcherBuilder::with_stack(config.clone(), stack("new"));
    assert_eq!(builder.0.stack, stack("new"));
    assert_eq!(builder.0.homeserver, config.homeserver);
    builder
        .log_level(Level::Trace)
        .homeserver(id(HS1))
        .files_path("files".to_string())
        .otlp_endpoint(Some("otlp".to_string()))
        .db(DatabaseConfig { redis: "a".to_string(), neo4j_uri: "b".to_string() });
    assert_eq!(builder.0.stack.log_level, Level::Trace);
    assert_eq!(builder.0.homeserver, id(HS1));
    assert_eq!(builder.0.stack.files_path, "files");
    assert_eq!(builder.0.stack.otlp_endpoint, Some("otlp".to_string()));
    assert_eq!(builder.0.stack.db.redis, "a");
    assert_eq!(builder.0.events_limit, 1_000);
}
