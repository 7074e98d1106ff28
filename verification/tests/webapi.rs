use axum::body::Body;
use axum::extract::{MatchedPath, Request};
use axum::http::Method;
use nexus::config::api::ApiConfig;
use nexus::config::net::NetConfig;
use nexus::config::stack::{DatabaseConfig, Level, StackConfig};
use nexus::config::trust::TrustRankConfig;
use nexus::config::watcher::{DaemonConfig, WatcherConfig};
use nexus::daemon::{ClientNetwork, DaemonLauncher, LaunchState};
use nexus::types::Float;
use nexus::uri::PubkyId;
use nexus::webapi::context::ApiContextBuilder;
use nexus::webapi::key_republisher::{
    create_signed_packet, start_periodic_republish, KeyRepublisherContext, PublicIp,
    RepublishStep,
};
use nexus::webapi::routes::{app_layers, AppLayer, Error, Json, Path, Query};
use nexus::webapi::tracing::{
    finish_request, http_method, http_route, is_failed_request, record_http_request,
    request_outcome, start_request, HttpMetrics,
};

const HS: &str = "8um71us3fyw6h8wbcxb5ar3rwusy1a6u49956ikzojg3gcwd1dty";

#[test]
fn route_without_matched_path_is_unmatched() {
    let request: Request = axum::http::Request::builder()
        .uri("/wp-admin")
        .body(Body::empty())
        .unwrap();
    let matched = request.extensions().get::<MatchedPath>().map(|p| p.as_str());
    assert_eq!(http_route(matched), "unmatched");
}

#[test]
fn matched_route_is_its_template() {
    assert_eq!(http_route(Some("/v0/post/{id}")), "/v0/post/{id}");
}

#[test]
fn extension_methods_collapse_to_other() {
    assert_eq!(http_method(Method::GET.as_str()), "GET");
    assert_eq!(http_method(Method::PATCH.as_str()), "PATCH");

    let custom = Method::from_bytes(b"PROPFIND").unwrap();
    assert_eq!(http_method(custom.as_str()), "_OTHER");
}

#[test]
fn well_known_methods_keep_their_names() {
    for method in [
        Method::GET,
        Method::HEAD,
        Method::POST,
        Method::PUT,
        Method::DELETE,
        Method::CONNECT,
        Method::OPTIONS,
        Method::TRACE,
        Method::PATCH,
    ] {
        assert_eq!(http_method(method.as_str()), method.as_str());
    }
    assert_eq!(http_method("get"), "_OTHER");
}

#[test]
fn failed_request_is_5xx_and_timeout_only() {
    assert!(is_failed_request(500));
    assert!(is_failed_request(502));
    assert!(is_failed_request(503));
    assert!(is_failed_request(408));

    assert!(!is_failed_request(200));
    assert!(!is_failed_request(204));
    assert!(!is_failed_request(400));
    assert!(!is_failed_request(403));
    assert!(!is_failed_request(404));
    assert!(!is_failed_request(413));
    assert!(!is_failed_request(429));
}

#[test]
fn failure_bounds() {
    assert!(is_failed_request(599));
    assert!(!is_failed_request(600));
    assert!(!is_failed_request(499));
}

#[test]
fn spans_name_method_and_route() {
    let s = start_request("GET", Some("/v0/info"));
    assert_eq!(s.span_name, "GET /v0/info");
    assert_eq!(s.method_original, None);
    let s = start_request("PROPFIND", None);
    assert_eq!(s.span_name, "_OTHER unmatched");
    assert_eq!(s.method, "_OTHER");
    assert_eq!(s.method_original, Some("PROPFIND".to_string()));
    assert_eq!(s.route, "unmatched");
}

#[test]
fn failed_spans_say_why() {
    let o = finish_request(503);
    assert!(o.failed);
    assert_eq!(o.span_error, Some(("ERROR", "Service Unavailable")));
    let o = finish_request(408);
    assert_eq!(o.span_error, Some(("ERROR", "Request Timeout")));
    let o = finish_request(599);
    assert_eq!(o.span_error, Some(("ERROR", "error")));
    let o = finish_request(404);
    assert!(!o.failed);
    assert_eq!(o.span_error, None);
    assert_eq!(
        request_outcome(500, Some("Internal Server Error")).span_error,
        Some(("ERROR", "Internal Server Error"))
    );
}

#[test]
fn requests_are_filed_by_method_route_and_status() {
    let r = record_http_request("GET", "/v0/info", 500);
    assert_eq!(r.method, ("http.request.method", "GET".to_string()));
    assert_eq!(r.route, ("http.route", "/v0/info".to_string()));
    assert_eq!(r.status_code, ("http.response.status_code", 500));
    assert!(r.error);
    assert!(!record_http_request("GET", "/", 404).error);
}

#[test]
fn duration_buckets_are_those_of_the_conventions() {
    let m = HttpMetrics::new();
    let secs: Vec<f64> = m.duration_boundaries_ms.iter().map(|ms| *ms as f64 / 1000.0).collect();
    assert_eq!(
        secs,
        vec![0.005, 0.01, 0.025, 0.05, 0.075, 0.1, 0.25, 0.5, 0.75, 1.0, 2.5, 5.0, 7.5, 10.0]
    );
    assert_eq!(m.duration.unit, Some("s"));
    assert_eq!(m.requests.name, "http.server.requests");
    assert_eq!(m.errors.name, "http.server.errors");
}

#[test]
fn rejections_are_invalid_input() {
    assert_eq!(Json::from_request(Ok(5)), Ok(Json(5)));
    let e = Err(Error::InvalidInput { message: "bad".to_string() });
    assert_eq!(Json::<u8>::from_request(Err("bad".to_string())), e.map(Json));
    assert_eq!(Path::from_request_parts(Ok("a")), Ok(Path("a")));
    assert!(Path::<u8>::from_request_parts(Err("bad".to_string())).is_err());
    assert_eq!(Query::from_request_parts(Ok(1)), Ok(Query(1)));
    assert!(Query::<u8>::from_request_parts(Err("bad".to_string())).is_err());
}

#[test]
fn limits_lie_inside_cors_and_tracing() {
    let layers = app_layers(30, 10);
    assert_eq!(
        layers,
        vec![
            AppLayer::Compression,
            AppLayer::RequestBodyLimit(10),
            AppLayer::ExtractorLimit(10),
            AppLayer::Timeout { status: 408, secs: 30 },
            AppLayer::Cors,
            AppLayer::Tracing,
        ]
    );
    assert!(app_layers(0, 10).contains(&AppLayer::Timeout { status: 408, secs: 1 }));
    assert!(app_layers(1, 10).contains(&AppLayer::Timeout { status: 408, secs: 1 }));
}

fn dns_bytes(ip: PublicIp, port: u16) -> Vec<u8> {
    let context = KeyRepublisherContext {
        public_ip: ip,
        public_pubky_tls_port: port,
        secret_key: [7; 32],
    };
    let packet = create_signed_packet(&context).unwrap();
    packet[104..].to_vec()
}

fn holds(bytes: &[u8], part: &[u8]) -> bool {
    bytes.windows(part.len()).any(|w| w == part)
}

#[test]
fn packet_points_to_the_ipv4_address_and_port() {
    let bytes = dns_bytes(PublicIp::V4(0x01020304), 6287);
    // Port parameter, address hint and address record.
    assert!(holds(&bytes, &[0, 3, 0, 2, 0x18, 0x8f]));
    assert!(holds(&bytes, &[0, 4, 0, 4, 1, 2, 3, 4]));
    // Type A, class IN, three hours, four bytes of address.
    assert!(holds(&bytes, &[0, 1, 0, 1, 0, 0, 0x2a, 0x30, 0, 4, 1, 2, 3, 4]));
    // Type HTTPS, class IN, three hours.
    assert!(holds(&bytes, &[0, 65, 0, 1, 0, 0, 0x2a, 0x30]));
    assert_eq!(bytes, dns_bytes(PublicIp::V4(0x01020304), 6287));
    assert_ne!(bytes, dns_bytes(PublicIp::V4(0x01020305), 6287));
    assert_ne!(bytes, dns_bytes(PublicIp::V4(0x01020304), 6288));
}

#[test]
fn packet_points_to_the_ipv6_address() {
    let ip: u128 = 0x20010db8_00000000_00000000_00000001;
    let bytes = dns_bytes(PublicIp::V6(ip), 443);
    let mut record = vec![0, 28, 0, 1, 0, 0, 0x2a, 0x30, 0, 16];
    record.extend_from_slice(&ip.to_be_bytes());
    assert!(holds(&bytes, &record));
    let mut hint = vec![0, 6, 0, 16];
    hint.extend_from_slice(&ip.to_be_bytes());
    assert!(holds(&bytes, &hint));
}

#[test]
fn packet_starts_with_the_public_key() {
    let context = KeyRepublisherContext {
        public_ip: PublicIp::V4(1),
        public_pubky_tls_port: 1,
        secret_key: [9; 32],
    };
    let packet = create_signed_packet(&context).unwrap();
    let keypair = pubky::pkarr::Keypair::from_secret_key(&[9; 32]);
    assert_eq!(&packet[..32], keypair.public_key().as_bytes());
}

#[test]
fn packet_is_signed_with_the_key_of_the_service() {
    let context = KeyRepublisherContext {
        public_ip: PublicIp::V6(7),
        public_pubky_tls_port: 6287,
        secret_key: [9; 32],
    };
    let packet = create_signed_packet(&context).unwrap();
    let key = pubky::pkarr::Keypair::from_secret_key(&[9; 32]).public_key();
    let payload = axum::body::Bytes::copy_from_slice(&packet[32..]);
    let read = pubky::pkarr::SignedPacket::from_relay_payload(&key, &payload).unwrap();
    assert_eq!(&read.as_bytes()[..], &packet[..]);
    assert_eq!(read.all_resource_records().count(), 2);

    let mut forged = packet[32..].to_vec();
    forged[0] ^= 1;
    let payload = axum::body::Bytes::copy_from_slice(&forged);
    assert!(pubky::pkarr::SignedPacket::from_relay_payload(&key, &payload).is_err());
}

#[test]
fn only_the_first_publication_has_to_succeed() {
    assert_eq!(start_periodic_republish(false, Ok(())), RepublishStep::PublishEvery(3_600));
    assert_eq!(
        start_periodic_republish(false, Err("e".to_string())),
        RepublishStep::Fail("e".to_string())
    );
}

#[test]
fn nothing_is_republished_twice() {
    for published in [Ok(()), Err("e".to_string())] {
        assert_eq!(
            start_periodic_republish(true, published),
            RepublishStep::Fail("The packet is republished already".to_string())
        );
    }
}

fn stack(testnet: bool) -> StackConfig {
    StackConfig {
        log_level: Level::Info,
        files_path: "/tmp".to_string(),
        otlp_endpoint: None,
        db: DatabaseConfig { redis: "r".to_string(), neo4j_uri: "n".to_string() },
        net: NetConfig {
            testnet,
            testnet_host: "relay".to_string(),
            external_hs_pk_blacklist: vec![PubkyId::try_from(HS).unwrap()],
        },
    }
}

fn api(testnet: bool) -> ApiConfig {
    ApiConfig {
        public_ip: PublicIp::V4(1),
        public_pubky_tls_port: 2,
        request_timeout_secs: 3,
        max_body_size_bytes: 4,
        stack: stack(testnet),
    }
}

#[test]
fn a_given_configuration_overrides_the_file() {
    let builder = ApiContextBuilder::from_config_dir("dir".to_string());
    assert!(builder.reads_config_file());
    assert_eq!(builder.clone().try_build(Err("gone".to_string())), Err("gone".to_string()));

    let given = builder.api_config(api(true));
    assert!(!given.reads_config_file());
    let context = given.try_build(Err("gone".to_string())).unwrap();
    assert_eq!(context.testnet_host, Some("relay".to_string()));
    assert_eq!(context.api_config, api(true));
}

#[test]
fn a_configuration_from_the_file_takes_the_stack_of_the_daemon() {
    let watcher = WatcherConfig::try_default(stack(true)).unwrap();
    let trust_rank = TrustRankConfig {
        seed: vec![],
        alpha: Float { text: "0.35".to_string() },
        max_iterations: 1,
        tolerance: Float { text: "0".to_string() },
        report_enabled: false,
        report_dir: "reports".to_string(),
        report_limit: 1,
    };
    let daemon =
        DaemonConfig { api: api(true), watcher, stack: stack(false), jobs: vec![], trust_rank };
    let context = ApiContextBuilder::from_config_dir("dir".to_string())
        .try_build(Ok(daemon))
        .unwrap();
    assert_eq!(context.testnet_host, None);
    assert_eq!(context.api_config.stack, stack(false));
    assert_eq!(context.api_config.request_timeout_secs, 3);
    let user = PubkyId::try_from(HS).unwrap();
    assert!(context.ingestor.check_user(&user).is_err());
}

#[test]
fn services_start_last() {
    let mut state = DaemonLauncher::start();
    let mut seen = vec![state.clone()];
    for _ in 0..5 {
        state = DaemonLauncher::advance(state, Ok(()));
        seen.push(state.clone());
    }
    assert_eq!(
        seen,
        vec![
            LaunchState::ReadConfig,
            LaunchState::ScheduleJobs,
            LaunchState::StartClient,
            LaunchState::BuildContext,
            LaunchState::RunServices,
            LaunchState::Stopped(None),
        ]
    );
}

#[test]
fn a_bad_schedule_stops_the_start() {
    let state = DaemonLauncher::advance(LaunchState::ScheduleJobs, Err("bad cron".to_string()));
    assert_eq!(state, LaunchState::Stopped(Some("bad cron".to_string())));
    assert_eq!(DaemonLauncher::advance(state.clone(), Ok(())), state);
}

#[test]
fn the_client_follows_the_network_settings() {
    assert_eq!(DaemonLauncher::client_network(&stack(false).net), ClientNetwork::Mainnet);
    assert_eq!(
        DaemonLauncher::client_network(&stack(true).net),
        ClientNetwork::Testnet("relay".to_string())
    );
}
