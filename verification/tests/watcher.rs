use nexus::config::net::NetConfig;
use nexus::config::stack::{DatabaseConfig, Level, StackConfig};
use nexus::config::watcher::WatcherConfig;
use nexus::uri::PubkyId;
use nexus::watcher::errors::{ClientError, Disposition, EventProcessorError, ModelError, StoreError};
use nexus::watcher::event::{Event, EventType, ParseResult, StreamEvent};
use nexus::watcher::fetch::{fetch_capped, format_error_body};
use nexus::watcher::handlers::{
    accept_blob, accept_object, file_removed, file_source, handle_del_event, handle_put_event,
    plan_file_deletion, read_file_content, read_put_object, DefaultEventHandler, DelAction,
    DirectoryRemoval, FileDeletion, ObjectKind, PutAction, ResourceResponse,
};
use nexus::watcher::homeserver::{
    split_event_lines, Homeserver, HsEventProcessor, HsMapping, HsMappingCache, LineBatch,
    LineOutcome, LineStep,
};
use nexus::watcher::key_based::{
    with_cursors, CollectStep, EventCollector, FetchStep, KeyBasedEventProcessor, RateLimitedFetch,
    RunStep, UserCursor, UserEventStep, UserEvents, UserRun, UserStep,
};
use nexus::watcher::runner::{
    event_gated, post_run, span_status, GateStep, HsEventProcessorRunner,
    KeyBasedEventProcessorRunner, ProcessorRunStatus, RunSummary,
};

const USER: &str = "8um71us3fyw6h8wbcxb5ar3rwusy1a6u49956ikzojg3gcwd1dty";
const OTHER: &str = "operrr8wsbpr3ue9d4qj41ge1kcc6r7fdiy6o3ugjrrhi4y77rdo";
const PRIMARY: &str = "8pinxxgqs41n4aididenw5apqp1urfmzdztr8jt4abrkdn435ewo";

fn s(text: &str) -> String {
    text.to_string()
}

fn id(text: &str) -> PubkyId {
    PubkyId::try_from(text).unwrap()
}

fn post_uri(user: &str, post: &str) -> String {
    format!("pubky://{user}/pub/pubky.app/posts/{post}")
}

fn put(uri: &str) -> Event {
    match Event::parse_event(&format!("PUT {uri}")).unwrap() {
        ParseResult::Parsed(event) => event,
        other => panic!("{other:?}"),
    }
}

fn config(blacklist: Vec<PubkyId>, limit: usize) -> WatcherConfig {
    let stack = StackConfig {
        log_level: Level::Info,
        files_path: s("files"),
        otlp_endpoint: None,
        db: DatabaseConfig { redis: s("r"), neo4j_uri: s("n") },
        net: NetConfig { external_hs_pk_blacklist: blacklist, ..NetConfig::default() },
    };
    let mut config = WatcherConfig::try_default(stack).unwrap();
    config.monitored_homeservers_limit = limit;
    config
}

// Events

#[test]
fn event_lines_are_read() {
    let uri = post_uri(USER, "0032SSN7Q4EVG");
    let event = put(&uri);
    assert_eq!(event.uri, uri);
    assert_eq!(event.event_type, EventType::Put);
    assert_eq!(event.user_id(), USER);
    assert_eq!(event.resource_label(), "posts");
    assert_eq!(event.resource_id(), "0032SSN7Q4EVG");
    assert_eq!(event.to_event_line(), format!("PUT {uri}"));
    match Event::parse_event(&format!("DEL {uri}")).unwrap() {
        ParseResult::Parsed(event) => assert_eq!(event.event_type, EventType::Del),
        other => panic!("{other:?}"),
    }
}

#[test]
fn malformed_lines_are_invalid() {
    for (line, message) in [
        ("PUT", "Malformed event line, PUT"),
        ("PUT  x", "Malformed event line, PUT  x"),
        ("", "Malformed event line, "),
        ("PATCH x", "Unknown event type: PATCH"),
        ("put x", "Unknown event type: put"),
    ] {
        assert_eq!(
            Event::parse_event(line),
            Err(EventProcessorError::InvalidEventLine(s(message)))
        );
    }
}

#[test]
fn unhandled_and_unknown_resources() {
    let base = format!("pubky://{USER}/pub/pubky.app");
    for path in ["blobs/x", "feeds/x", "last_read"] {
        assert_eq!(
            Event::parse_event(&format!("PUT {base}/{path}")),
            Ok(ParseResult::Skipped)
        );
    }
    assert_eq!(
        Event::parse_event(&format!("PUT {base}/else")),
        Err(EventProcessorError::InvalidEventLine(format!("Unknown resource in URI: {base}/else")))
    );
    match Event::parse_event("DEL nonsense").unwrap() {
        ParseResult::UnrecognizedUri { event_type, uri, .. } => {
            assert_eq!((event_type, uri), (EventType::Del, s("nonsense")));
        }
        other => panic!("{other:?}"),
    }
}

#[test]
fn stream_events_are_read_like_lines() {
    let uri = post_uri(USER, "P");
    let stream = StreamEvent { event_type: EventType::Del, uri: uri.clone(), cursor: 4 };
    let event = Event::from_stream_event(&stream).unwrap().unwrap();
    assert_eq!(event.to_event_line(), format!("DEL {uri}"));
    let skipped = StreamEvent {
        event_type: EventType::Put,
        uri: format!("pubky://{USER}/pub/pubky.app/blobs/x"),
        cursor: 5,
    };
    assert_eq!(Event::from_stream_event(&skipped), Ok(None));
}

// Fetching

#[test]
fn fetch_capped_precheck_rejects_high_cl() {
    let read = Ok((vec![0xAB; 10_000], true));
    let err = fetch_capped(Some(10_000), read, 100).unwrap_err();
    assert!(matches!(err, EventProcessorError::FetchSizeExceeded(10_000, 100)));
}

#[test]
fn fetch_capped_stream_rejects_absent_cl_oversized() {
    let read = Ok((vec![0xAB; 200], true));
    let err = fetch_capped(None, read, 100).unwrap_err();
    assert!(matches!(err, EventProcessorError::FetchSizeExceeded(_, 100)));
}

#[test]
fn fetch_capped_accepts_under_cap_stream() {
    assert!(fetch_capped(None, Ok((vec![0xAB; 50], false)), 100).is_ok());
    assert!(fetch_capped(Some(100), Ok((vec![0xAB; 100], false)), 100).is_ok());
    assert_eq!(
        fetch_capped(None, Ok((vec![0xAB; 101], false)), 100),
        Err(EventProcessorError::FetchSizeExceeded(101, 100))
    );
    assert!(matches!(
        fetch_capped(None, Err(s("reset")), 100),
        Err(EventProcessorError::ClientError(ClientError::RequestFailed { .. }))
    ));
}

#[test]
fn error_bodies_are_cut() {
    assert_eq!(format_error_body(b"hello", 5), "hello");
    assert_eq!(format_error_body(b"hello", 2), "he… (truncated)");
    assert_eq!(format_error_body(&[0xff, b'a'], 5), "\u{fffd}a");
}

// Dispatch

#[test]
fn put_events_find_their_handler() {
    let event = put(&post_uri(USER, "P"));
    assert_eq!(
        handle_put_event(&event, ObjectKind::Post, true),
        PutAction::Post { post_id: s("P") }
    );
    assert_eq!(handle_put_event(&event, ObjectKind::Tag, false), PutAction::NotHandled);
    let tag = put(&format!("pubky://{USER}/pub/pubky.app/tags/T"));
    assert_eq!(handle_put_event(&tag, ObjectKind::Tag, true), PutAction::Moderate);
    assert_eq!(
        handle_put_event(&tag, ObjectKind::Tag, false),
        PutAction::Tag { tag_id: s("T") }
    );
    let universal = put(&format!("pubky://{USER}/pub/mapky.app/tags/T"));
    assert_eq!(
        handle_put_event(&universal, ObjectKind::Tag, false),
        PutAction::TagResource { tag_id: s("T"), app: s("mapky.app") }
    );
    let follow = put(&format!("pubky://{USER}/pub/pubky.app/follows/{OTHER}"));
    assert_eq!(
        handle_put_event(&follow, ObjectKind::Follow, false),
        PutAction::Follow { followee_id: id(OTHER) }
    );
}

#[test]
fn del_events_find_their_handler() {
    let uri = format!("pubky://{USER}/pub/pubky.app/tags/T");
    assert_eq!(handle_del_event(&put(&uri)), DelAction::Tag { uri });
    assert_eq!(
        handle_del_event(&put(&post_uri(USER, "P"))),
        DelAction::Post { post_id: s("P") }
    );
    let user = put(&format!("pubky://{USER}/pub/pubky.app/profile.json"));
    assert_eq!(handle_del_event(&user), DelAction::User);
    let file = put(&format!("pubky://{USER}/pub/pubky.app/files/F"));
    assert_eq!(handle_del_event(&file), DelAction::File { file_id: s("F") });
}

fn answer(body: &[u8]) -> ResourceResponse {
    ResourceResponse {
        success: true,
        status: s("200 OK"),
        content_length: Some(body.len() as u64),
        body: Ok((body.to_vec(), false)),
    }
}

#[test]
fn put_objects_are_imported() {
    let event = put(&format!("pubky://{USER}/pub/pubky.app/profile.json"));
    let imported = read_put_object(&event, answer(br#"{"name":"Alice"}"#)).unwrap();
    assert_eq!(imported.kind, ObjectKind::User);
    match imported.object {
        pubky_app_specs::PubkyAppObject::User(user) => assert_eq!(user.name, "Alice"),
        other => panic!("{other:?}"),
    }
    assert!(matches!(
        read_put_object(&event, answer(b"no json")),
        Err(EventProcessorError::SpecValidation(_))
    ));
}

#[test]
fn failed_fetches_say_what_was_answered() {
    let uri = format!("pubky://{USER}/pub/pubky.app/profile.json");
    let response = ResourceResponse {
        success: false,
        status: s("404 Not Found"),
        content_length: None,
        body: Ok((b"gone".to_vec(), false)),
    };
    assert_eq!(
        read_put_object(&put(&uri), response).unwrap_err().message(),
        format!("ClientError: Fetch resource failed {uri}: HTTP 404 Not Found - gone")
    );
}

#[test]
fn imported_objects_hold_what_was_fetched() {
    let target = post_uri(OTHER, "0032SSN7Q4EVG");
    let tag = pubky_app_specs::PubkyAppTag {
        uri: target.clone(),
        label: s("cool"),
        created_at: 1,
    };
    let tag_id = pubky_app_specs::traits::HashId::create_id(&tag);
    let event = put(&format!("pubky://{USER}/pub/pubky.app/tags/{tag_id}"));
    let body = format!(r#"{{"uri":"{target}","label":"cool","created_at":1}}"#);
    let imported = read_put_object(&event, answer(body.as_bytes())).unwrap();
    assert_eq!(imported.kind, ObjectKind::Tag);
    match imported.object {
        pubky_app_specs::PubkyAppObject::Tag(read) => {
            assert_eq!((read.uri, read.label), (target, s("cool")))
        }
        other => panic!("{other:?}"),
    }
}

#[test]
fn objects_are_imported_by_the_resource_of_their_event() {
    let mut event = put(&format!("pubky://{USER}/pub/pubky.app/profile.json"));
    event.uri = post_uri(USER, "0032SSN7Q4EVG");
    let imported = read_put_object(&event, answer(br#"{"name":"Alice"}"#)).unwrap();
    assert_eq!(imported.kind, ObjectKind::User);

    let followed = put(&format!("pubky://{USER}/pub/pubky.app/follows/{OTHER}"));
    let imported = read_put_object(&followed, answer(br#"{"created_at":1}"#)).unwrap();
    assert_eq!(imported.kind, ObjectKind::Follow);
}

#[test]
fn dates_too_far_ahead_are_refused() {
    let event = put(&post_uri(USER, "7ZZZZZZZZZZZY"));
    let refused = read_put_object(&event, answer(br#"{"content":"hi","kind":"short"}"#));
    assert_eq!(
        refused.map(|i| i.kind),
        Err(EventProcessorError::SpecValidation(s(
            "Validation Error: Invalid ID, timestamp is too far in the future"
        )))
    );
}

#[test]
fn imports_are_accepted_by_kind() {
    let kind = Some(ObjectKind::Post);
    let imported = accept_object(kind, Ok(1)).unwrap();
    assert_eq!((imported.kind, imported.object), (ObjectKind::Post, 1));
    let refused = accept_object::<u8>(kind, Err(s("bad"))).map(|i| i.object);
    assert_eq!(refused, Err(EventProcessorError::SpecValidation(s("bad"))));
    assert_eq!(accept_blob("src", Some(ObjectKind::Blob), vec![1], None), Ok(vec![1]));
    assert_eq!(
        accept_blob("src", Some(ObjectKind::User), vec![1], None),
        Err(EventProcessorError::InvalidEventLine(s(
            "The file has a source uri that is not a blob path: src"
        )))
    );
    assert_eq!(
        accept_blob("src", Some(ObjectKind::Blob), vec![1], Some(s("bad"))),
        Err(EventProcessorError::Generic(s("bad")))
    );
}

#[test]
fn files_come_from_blobs() {
    assert_eq!(
        file_source("nonsense").map(|_| ()).map_err(|e| e.disposition()),
        Err(Disposition::QueueTransient)
    );
    let profile = format!("pubky://{USER}/pub/pubky.app/profile.json");
    let user = file_source(&profile).unwrap();
    let body = br#"{"name":"Alice"}"#.to_vec();
    assert!(matches!(
        read_file_content(&profile, &user, None, Ok((body, false)), 1_000),
        Err(EventProcessorError::InvalidEventLine(_))
    ));
    let blob = pubky_app_specs::PubkyAppBlob::new(vec![1, 2, 3]);
    let blob_id = pubky_app_specs::traits::HashId::create_id(&blob);
    let src = format!("pubky://{USER}/pub/pubky.app/blobs/{blob_id}");
    let source = file_source(&src).unwrap();
    assert_eq!(
        read_file_content(&src, &source, None, Ok((vec![1, 2, 3], false)), 1_000),
        Ok(vec![1, 2, 3])
    );
    assert!(matches!(
        read_file_content(&src, &source, None, Ok((vec![1, 2, 4], false)), 1_000),
        Err(EventProcessorError::Generic(_))
    ));
    assert!(matches!(
        read_file_content(&profile, &user, Some(2_000), Ok((vec![], false)), 1_000),
        Err(EventProcessorError::FetchSizeExceeded(2_000, 1_000))
    ));
}

#[test]
fn handlers_follow_the_configuration() {
    let handler = DefaultEventHandler::from_config(&config(vec![id(OTHER)], 1));
    assert_eq!(handler.max_file_size, 104_857_600);
    assert_eq!(handler.files_path, "files");
    let source = file_source(&format!("pubky://{USER}/pub/pubky.app/blobs/x")).unwrap();
    assert_eq!(handler.check_file_source(&source, None), Ok(()));
    assert_eq!(handler.check_file_source(&source, Some(s(PRIMARY))), Ok(()));
    assert_eq!(
        handler.check_file_source(&source, Some(s(OTHER))),
        Err(EventProcessorError::HsBlacklisted { hs_id: s(OTHER) })
    );
    let event = put(&post_uri(USER, "P"));
    assert_eq!(
        DefaultEventHandler::event_line_to_store(&event, Ok(())),
        Ok(event.to_event_line())
    );
    let e = EventProcessorError::SkipIndexing;
    assert_eq!(DefaultEventHandler::event_line_to_store(&event, Err(e.clone())), Err(e));
}

#[test]
fn file_deletions_are_planned() {
    assert_eq!(plan_file_deletion(&[]), FileDeletion::Nothing);
    assert_eq!(
        plan_file_deletion(&[true]),
        FileDeletion::RemoveDirectory { delete_details: true }
    );
    assert_eq!(
        plan_file_deletion(&[false]),
        FileDeletion::RemoveDirectory { delete_details: false }
    );
    assert_eq!(file_removed(DirectoryRemoval::NotFound), Ok(()));
    assert_eq!(file_removed(DirectoryRemoval::Removed), Ok(()));
    assert_eq!(
        file_removed(DirectoryRemoval::Failed(s("busy"))),
        Err(EventProcessorError::InternalError(s("busy")))
    );
}

// The primary homeserver

fn processor() -> HsEventProcessor {
    HsEventProcessor {
        homeserver: Homeserver { id: s(PRIMARY), cursor: s("12") },
        limit: 50,
        hs_mapping_cache: HsMappingCache::new(),
    }
}

#[test]
fn polls_start_from_the_cursor() {
    let p = processor();
    assert_eq!(p.poll_url(), format!("https://{PRIMARY}/events/?cursor=12&limit=50"));
    assert_eq!(p.instance_name(), format!("HsEventProcessor with HS ID: {PRIMARY}"));
}

#[test]
fn responses_are_split_into_lines() {
    assert_eq!(split_event_lines(" \n \t"), None);
    assert_eq!(split_event_lines(""), None);
    assert_eq!(
        split_event_lines("\u{a0}PUT a\r\nDEL b\n\ncursor: 3\n"),
        Some(vec![s("PUT a"), s("DEL b"), s(""), s("cursor: 3")])
    );
    assert_eq!(
        HsEventProcessor::poll_events(Ok((b"PUT a\n".to_vec(), false))),
        Ok(Some(vec![s("PUT a")]))
    );
    assert_eq!(
        HsEventProcessor::poll_events(Ok((vec![0; 7], true))),
        Err(EventProcessorError::FetchSizeExceeded(7, 5 * 1024 * 1024))
    );
    assert!(matches!(
        HsEventProcessor::poll_events(Err(s("reset"))),
        Err(EventProcessorError::ClientError(ClientError::RequestFailed { .. }))
    ));
}

#[test]
fn test_skips_event_when_user_hosted_on_different_homeserver() {
    let event = put(&post_uri(USER, "P"));
    assert!(!processor().should_process_event(&event, Some((s(OTHER), false))));
}

#[test]
fn test_processes_event_when_user_hosted_on_same_homeserver() {
    let event = put(&post_uri(USER, "P"));
    assert!(processor().should_process_event(&event, Some((s(PRIMARY), false))));
}

#[test]
fn test_skips_event_when_user_mapping_to_this_homeserver_is_stale() {
    let event = put(&post_uri(USER, "P"));
    assert!(!processor().should_process_event(&event, Some((s(PRIMARY), true))));
}

#[test]
fn test_processes_event_when_user_has_no_homeserver_edge() {
    let event = put(&post_uri(USER, "P"));
    assert!(processor().should_process_event(&event, None));
}

#[test]
fn test_user_homeserver_mapping_is_cached_across_events() {
    let mut p = processor();
    let event = put(&post_uri(USER, "P"));
    assert!(p.should_process_event(&event, None));
    // What is stored later does not count within the run.
    assert!(p.should_process_event(&event, Some((s(OTHER), false))));
    assert_eq!(p.user_hs_mapping(USER, Some((s(OTHER), false))), HsMapping::Unbound);
    // Another user's mapping is its own.
    assert!(!p.should_process_event(&put(&post_uri(OTHER, "P")), Some((s(USER), false))));
}

#[test]
fn batches_are_worked_through_line_by_line() {
    let uri = post_uri(USER, "P");
    let mut batch = LineBatch::new(vec![
        format!("PUT {uri}"),
        s("nonsense"),
        format!("PUT pubky://{USER}/pub/pubky.app/blobs/x"),
        s("cursor: 99"),
    ]);
    assert_eq!(batch.advance(false), LineStep::Handle(put(&uri)));
    assert_eq!(batch.handled(Ok(())), LineOutcome::Done);
    assert_eq!(
        batch.advance(false),
        LineStep::Log(s("InvalidEventLine: Malformed event line, nonsense"))
    );
    assert_eq!(batch.advance(false), LineStep::Skip);
    assert_eq!(batch.advance(true), LineStep::Finished);
    assert_eq!(batch.advance(false), LineStep::SaveCursor(s("99")));
    assert_eq!(batch.advance(false), LineStep::Finished);
}

#[test]
fn hs_event_processor_test_batch_continues_after_single_failure() {
    let first = post_uri(USER, "failone");
    let second = post_uri(USER, "failtwo");
    let mut batch = LineBatch::new(vec![format!("PUT {first}"), format!("PUT {second}")]);
    let fails = EventProcessorError::Generic(s("handler fails"));
    for uri in [first, second] {
        assert_eq!(batch.advance(false), LineStep::Handle(put(&uri)));
        assert_eq!(batch.handled(Err(fails.clone())), LineOutcome::Queue(fails.clone()));
    }
    assert_eq!(batch.advance(false), LineStep::Finished);
}

#[test]
fn failed_events_are_queued_or_dropped() {
    let uri = post_uri(USER, "P");
    let mut batch = LineBatch::new(vec![format!("PUT {uri}"), format!("PUT {uri}")]);
    batch.advance(false);
    let missing = EventProcessorError::missing_dependencies(vec![s("dep")]);
    assert_eq!(batch.handled(Err(missing.clone())), LineOutcome::Queue(missing));
    assert_eq!(batch.advance(false), LineStep::Handle(put(&uri)));
    let gone = EventProcessorError::client_error_404(s("gone"));
    assert_eq!(batch.handled(Err(gone.clone())), LineOutcome::Drop(gone));
}

#[test]
fn test_batch_stops_on_infrastructure_error() {
    let first = post_uri(USER, "infraone");
    let second = post_uri(USER, "infratwo");
    let mut batch = LineBatch::new(vec![
        format!("PUT {first}"),
        format!("PUT {second}"),
        s("cursor: 99"),
    ]);
    assert_eq!(batch.advance(false), LineStep::Handle(put(&first)));
    let down = EventProcessorError::IndexOperationFailed(true, s("simulated infra failure"));
    assert_eq!(batch.handled(Err(down.clone())), LineOutcome::Stop(down));
    assert_eq!(batch.advance(false), LineStep::Finished);
}

// External homeservers

#[test]
fn rate_limited_fetches_are_given_up() {
    let limited = || {
        Err(EventProcessorError::ClientError(ClientError::TooManyRequests429 { message: s("429") }))
    };
    let mut fetch = RateLimitedFetch::new();
    for secs in [1, 2, 3] {
        assert_eq!(fetch.answered(limited()), FetchStep::WaitAndRetry { secs });
    }
    assert_eq!(
        fetch.answered(limited()),
        FetchStep::Failed(EventProcessorError::HsEventsStreamRateLimitExhausted)
    );
    assert_eq!(fetch.answered(Ok(vec![])), FetchStep::Fetched(vec![]));
    let other = EventProcessorError::client_error(s("x"));
    assert_eq!(
        RateLimitedFetch::new().answered(Err(other.clone())),
        FetchStep::Failed(other)
    );
}

fn stream_event(user: &str, cursor: u64) -> StreamEvent {
    StreamEvent { event_type: EventType::Put, uri: post_uri(user, "P"), cursor }
}

#[test]
fn collectors_keep_to_their_limit() {
    let mut c = EventCollector::new(2);
    assert_eq!(c.push(Ok(stream_event(USER, 1))), CollectStep::More);
    assert_eq!(c.push(Ok(stream_event(USER, 2))), CollectStep::More);
    assert_eq!(c.push(Ok(stream_event(USER, 3))), CollectStep::LimitReached);
    assert_eq!(c.events.len(), 2);
    let e = EventProcessorError::client_error(s("x"));
    assert_eq!(EventCollector::new(1).push(Err(e.clone())), CollectStep::Failed(e));
}

#[test]
fn users_are_paired_with_their_cursors() {
    let users = vec![(s("a"), s("pk:a")), (s("b"), s("b"))];
    assert_eq!(
        with_cursors(&users, &vec![7, 8]),
        vec![
            UserCursor { user_id: s("a"), cursor: 7 },
            UserCursor { user_id: s("b"), cursor: 8 },
        ]
    );
    assert_eq!(with_cursors(&users, &vec![7]).len(), 1);
}

#[test]
fn one_user_does_not_stop_the_others() {
    let users = ["a", "b", "c", "d"]
        .iter()
        .map(|u| UserCursor { user_id: s(u), cursor: 1 })
        .collect();
    let mut run = UserRun::new(users);
    assert_eq!(run.current().unwrap().user_id, "a");
    assert_eq!(run.advance(false, false), RunStep::ProcessUser { user_id: s("a"), cursor: 1 });
    assert_eq!(run.processed(Ok(())), UserStep::RecordSuccess);
    assert_eq!(run.advance(false, true), RunStep::SkipUser { user_id: s("b") });
    assert_eq!(run.advance(false, false), RunStep::ProcessUser { user_id: s("c"), cursor: 1 });
    assert_eq!(
        run.processed(Err(EventProcessorError::client_error_404(s("404")))),
        UserStep::RecordFailure
    );
    let generic = EventProcessorError::generic(s("x"));
    assert_eq!(run.processed(Err(generic.clone())), UserStep::Continue(generic));
    let exhausted = EventProcessorError::HsEventsStreamRateLimitExhausted;
    assert_eq!(run.processed(Err(exhausted.clone())), UserStep::Abort(exhausted));
    assert_eq!(run.advance(false, false), RunStep::Finished);
    assert!(run.current().is_none());
}

#[test]
fn shutdown_ends_a_run() {
    let mut run = UserRun::new(vec![UserCursor { user_id: s("a"), cursor: 1 }]);
    assert_eq!(run.advance(true, false), RunStep::Finished);
    assert_eq!(run.next, 0);
}

#[test]
fn cursors_cover_events_that_are_done() {
    let events = vec![
        stream_event(USER, 1),
        StreamEvent {
            event_type: EventType::Put,
            uri: format!("pubky://{USER}/pub/pubky.app/blobs/x"),
            cursor: 2,
        },
        StreamEvent {
            event_type: EventType::Put,
            uri: format!("pubky://{USER}/pub/pubky.app/else"),
            cursor: 3,
        },
        stream_event(USER, 4),
        stream_event(OTHER, 5),
    ];
    let mut stream = UserEvents::new(s("hs"), s(USER), events);
    assert!(matches!(stream.advance(false), UserEventStep::Handle(_)));
    assert_eq!(stream.latest_cursor, None);
    assert_eq!(stream.handled(Ok(())), Ok(()));
    assert_eq!(stream.latest_cursor, Some(1));
    assert_eq!(stream.advance(false), UserEventStep::Skip);
    assert!(matches!(stream.advance(false), UserEventStep::Log(_)));
    assert_eq!(stream.latest_cursor, Some(3));
    assert!(matches!(stream.advance(false), UserEventStep::Handle(_)));
    let e = EventProcessorError::generic(s("x"));
    assert_eq!(stream.handled(Err(e.clone())), Err(e));
    assert_eq!(stream.latest_cursor, Some(3));
    assert_eq!(stream.handled(Ok(())), Ok(()));
    match stream.advance(false) {
        UserEventStep::Failed(EventProcessorError::UserIdMismatch {
            hs_id,
            expected_user_id,
            event_user_id,
        }) => {
            assert_eq!((hs_id, expected_user_id, event_user_id), (s("hs"), s(USER), s(OTHER)));
        }
        other => panic!("{other:?}"),
    }
    assert_eq!(stream.latest_cursor, Some(4));
}

// Runners

#[test]
fn test_event_processor_runner_primary_homeserver_excluded() {
    let runner = KeyBasedEventProcessorRunner::from_config(&config(vec![], 10));
    let active = vec![s(USER), s(PRIMARY), s(OTHER)];
    assert_eq!(runner.hs_by_priority(&active), vec![s(USER), s(OTHER)]);
    assert_eq!(runner.pre_run(&active), vec![s(USER), s(OTHER)]);
}

#[test]
fn test_event_processor_runner_blacklisted_homeserver_excluded() {
    let runner = KeyBasedEventProcessorRunner::from_config(&config(vec![id(OTHER)], 10));
    let active = vec![s(OTHER), s(USER)];
    assert_eq!(runner.pre_run(&active), vec![s(USER)]);
}

#[test]
fn runs_are_limited_to_the_first_homeservers() {
    let runner = KeyBasedEventProcessorRunner::from_config(&config(vec![], 1));
    assert_eq!(runner.pre_run(&vec![s(PRIMARY), s(OTHER), s(USER)]), vec![s(OTHER)]);
}

#[test]
fn processors_are_built_for_keys() {
    let runner = KeyBasedEventProcessorRunner::from_config(&config(vec![id(OTHER)], 1));
    let built: KeyBasedEventProcessor = runner.build(USER).unwrap();
    assert_eq!(built.homeserver_id(), USER);
    assert_eq!(built.limit, 50);
    assert_eq!(built.check_homeserver(), Ok(()));
    assert_eq!(built.instance_name(), format!("KeyBasedEventProcessor with HS ID: {USER}"));
    assert!(runner.build("nonsense").is_err());
    assert_eq!(
        runner.build(OTHER).unwrap().check_homeserver(),
        Err(EventProcessorError::HsBlacklisted { hs_id: s(OTHER) })
    );

    let primary = HsEventProcessorRunner::from_config(&config(vec![], 1));
    assert_eq!(primary.primary_homeserver(), PRIMARY);
    assert_eq!(primary.pre_run(), vec![s(PRIMARY)]);
    assert_eq!(primary.build(PRIMARY, None), Err(s("Homeserver not found")));
    let stored = Homeserver { id: s(PRIMARY), cursor: s("5") };
    let built = primary.build(PRIMARY, Some(stored.clone())).unwrap();
    assert_eq!(built.homeserver, stored);
    assert_eq!(built.limit, 1_000);
    assert!(primary.build("nonsense", Some(stored)).is_err());
}

#[test]
fn run_results_are_summed_up() {
    assert_eq!(post_run(&vec![ProcessorRunStatus::Succeeded]), RunSummary::Debug(s("Run result: 1 ok")));
    assert_eq!(
        post_run(&vec![ProcessorRunStatus::Succeeded, ProcessorRunStatus::Skipped]),
        RunSummary::Info(s("Run result: 1 ok, 1 skipped (backoff)"))
    );
    assert_eq!(
        post_run(&vec![ProcessorRunStatus::Succeeded, ProcessorRunStatus::Error, ProcessorRunStatus::Timeout, ProcessorRunStatus::Panic, ProcessorRunStatus::FailedToBuild, ProcessorRunStatus::Error]),
        RunSummary::Warn(s(
            "Run result: 1 ok, 0 skipped (backoff), 1 failed to build, 2 error, 1 panic, 1 timeout"
        ))
    );
}

#[test]
fn spans_tell_how_far_an_event_got() {
    assert_eq!(event_gated(Ok(true)), GateStep::Handle);
    assert_eq!(event_gated(Ok(false)), GateStep::Skip);
    let e = EventProcessorError::SkipIndexing;
    assert_eq!(event_gated(Err(e.clone())), GateStep::HandleError(e.clone()));
    assert_eq!(span_status(true, None).message, Some(s("SKIPPED")));
    assert_eq!(span_status(false, None).code, "OK");
    let failed = span_status(false, Some(&e));
    assert_eq!(failed.code, "ERROR");
    assert_eq!(failed.message, Some(e.message()));
}

// Errors

#[test]
fn errors_say_what_happened() {
    let cases = vec![
        (
            EventProcessorError::GraphQueryFailed(true, s("m")),
            "GraphQueryFailed (should_not_retry_now: true): m",
        ),
        (
            EventProcessorError::missing_dependencies(vec![s("d")]),
            "MissingDependency: Could not be indexed",
        ),
        (
            EventProcessorError::IndexOperationFailed(false, s("m")),
            "IndexOperationFailed (should_not_retry_now: false): Indexing incomplete due to Redis error: m",
        ),
        (
            EventProcessorError::FetchSizeExceeded(12, 10),
            "FetchSizeExceeded: 12 bytes (limit: 10 bytes)",
        ),
        (EventProcessorError::internal_error(s("m")), "Internal error: m"),
        (EventProcessorError::static_save_failed(s("m")), "StaticSaveFailed: m"),
        (EventProcessorError::generic(s("m")), "Generic error: m"),
        (EventProcessorError::HsBlacklisted { hs_id: s("h") }, "HsBlacklisted: h"),
        (EventProcessorError::MediaProcessorError(s("m")), "MediaProcessor: m"),
        (EventProcessorError::SpecValidation(s("m")), "SpecValidation: m"),
    ];
    for (e, message) in cases {
        assert_eq!(e.message(), message);
    }
}

#[test]
fn failures_are_disposed_of() {
    let queue = Disposition::QueueTransient;
    let drop = Disposition::Drop;
    let client = EventProcessorError::ClientError;
    let cases = vec![
        (client(ClientError::NotInitialized), queue),
        (client(ClientError::ServerError5xx { message: s("m") }), queue),
        (client(ClientError::TransportFailed { message: s("m") }), queue),
        (client(ClientError::PkarrFailed(s("m"))), queue),
        (client(ClientError::NotFound404 { message: s("m") }), drop),
        (client(ClientError::AuthenticationFailed(s("m"))), drop),
        (client(ClientError::BuildFailed(s("m"))), drop),
        (client(ClientError::ParseFailed(s("m"))), drop),
        (EventProcessorError::SkipIndexing, drop),
        (EventProcessorError::InvalidEventLine(s("m")), drop),
        (EventProcessorError::IndexOperationFailed(false, s("m")), queue),
        (EventProcessorError::IndexOperationFailed(true, s("m")), Disposition::StopBatch),
        (EventProcessorError::HsEventsStreamTransportFailed(s("m")), Disposition::StopBatch),
        (
            EventProcessorError::EventCursorOutOfOrder { previous: 2, received: 1 },
            Disposition::StopBatch,
        ),
        (
            EventProcessorError::missing_dependencies(vec![]),
            Disposition::QueueMissingDependency,
        ),
        (EventProcessorError::generic(s("m")), queue),
    ];
    for (e, disposition) in cases {
        assert_eq!(e.disposition(), disposition, "{e:?}");
    }
}

#[test]
fn errors_of_models_keep_their_meaning() {
    let store = StoreError { should_not_retry_now: true, message: s("m") };
    assert_eq!(
        EventProcessorError::from(ModelError::GraphOperationFailed(store.clone())),
        EventProcessorError::GraphQueryFailed(true, s("m"))
    );
    assert_eq!(
        EventProcessorError::from(ModelError::KvOperationFailed(store)),
        EventProcessorError::IndexOperationFailed(true, s("m"))
    );
    assert_eq!(
        EventProcessorError::from(ModelError::FileOperationFailed(s("m"))),
        EventProcessorError::InternalError(s("m"))
    );
    assert_eq!(
        EventProcessorError::from(ClientError::NotInitialized),
        EventProcessorError::ClientError(ClientError::NotInitialized)
    );
}
