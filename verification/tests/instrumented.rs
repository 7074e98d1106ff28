use nexus::graph::instrumented::{
    build_attrs, format_attrs, Attr, AttrValue, Executed, GraphMetrics, InstrumentedGraph,
    InstrumentedStream, QueryStart,
};
use nexus::graph::query::{BoltType, Query, TelemetryValue};

const SECOND: u128 = 1_000_000_000;

fn attr(key: &'static str, value: &'static str) -> Attr {
    Attr { key, value: AttrValue::Str(value) }
}

fn test_query() -> Query {
    Query::new("test_label", "MATCH (n) RETURN n")
}

fn start(label: &'static str) -> QueryStart {
    QueryStart { label, attrs: vec![attr("query", label)], cypher: None }
}

#[test]
fn build_attrs_prepends_query_label_and_converts_values() {
    let q = Query::new("post_stream", "RETURN 1")
        .telemetry_attr("source", TelemetryValue::Str("wot"))
        .telemetry_attr("depth", TelemetryValue::Int(2_u8));
    let attrs = build_attrs(&q);

    let as_strings: Vec<(String, String)> = attrs
        .iter()
        .map(|kv| (kv.key.to_string(), kv.value.text()))
        .collect();
    assert_eq!(
        as_strings,
        vec![
            ("query".to_string(), "post_stream".to_string()),
            ("source".to_string(), "wot".to_string()),
            ("depth".to_string(), "2".to_string()),
        ]
    );
}

#[test]
fn format_attrs_skips_leading_query() {
    let attrs = vec![
        attr("query", "post_stream"),
        attr("source", "wot"),
        Attr { key: "depth", value: AttrValue::Int(2_i64) },
    ];
    assert_eq!(format_attrs(&attrs), "source=wot depth=2");
    assert_eq!(format_attrs(&[attr("query", "post_stream")]), "");
    assert_eq!(format_attrs(&[]), "");
}

#[test]
fn slow_warning_includes_telemetry_attrs() {
    let q = Query::new("post_stream", "RETURN 1")
        .telemetry_attr("source", TelemetryValue::Str("wot"))
        .telemetry_attr("depth", TelemetryValue::Int(2_u8));
    let begun = InstrumentedGraph::new().begin(&q);
    let report = InstrumentedStream::new(begun, 0, Some(0)).dropped(1);
    let slow = report.slow.unwrap();
    assert_eq!(slow.label, "post_stream");
    assert_eq!(slow.attrs, "source=wot depth=2");
    assert_eq!(slow.suffix, "");
}

#[test]
fn counts_rows_from_inner_stream() {
    let mut ts = InstrumentedStream::new(start("test"), 0, Some(100 * SECOND));
    for _ in 0..3 {
        ts.yielded(Ok(()));
    }
    assert_eq!(ts.row_count, 3);
}

#[test]
fn empty_stream_yields_none_and_zero_rows() {
    let ts = InstrumentedStream::new(start("test"), 0, Some(100 * SECOND));
    assert_eq!(ts.row_count, 0);
    let report = ts.dropped(5);
    assert_eq!(report.rows, Some(0));
    assert_eq!(report.error, None);
}

#[test]
fn emits_warning_when_threshold_exceeded() {
    let mut ts = InstrumentedStream::new(start("slow_label"), 1_500_000, Some(0));
    ts.yielded(Ok(()));
    let report = ts.dropped(2_700_000);
    assert_eq!(report.total, 4_200_000);
    assert_eq!(report.execute, 1_500_000);
    let slow = report.slow.unwrap();
    assert_eq!(slow.label, "slow_label");
    assert_eq!(slow.total_ms, 4);
    assert_eq!(slow.phases, Some((1, 2, 1)));
    assert_eq!(slow.cypher, "");
}

#[test]
fn no_warning_when_under_threshold() {
    let ts = InstrumentedStream::new(start("fast_q"), 0, Some(600 * SECOND));
    assert!(ts.dropped(SECOND).slow.is_none());
}

/// A query is slow only where it takes longer than the threshold.
#[test]
fn no_warning_at_the_threshold() {
    let ts = InstrumentedStream::new(start("q"), 3, Some(10));
    assert!(ts.dropped(7).slow.is_none());
    let ts = InstrumentedStream::new(start("q"), 3, Some(10));
    assert!(ts.dropped(8).slow.is_some());
    let ts = InstrumentedStream::new(start("q"), 3, None);
    assert!(ts.dropped(u64::MAX as u128).slow.is_none());
}

#[test]
fn warning_includes_cypher_when_set() {
    let begun = QueryStart {
        label: "cypher_q",
        attrs: vec![attr("query", "cypher_q")],
        cypher: Some("MATCH (n) RETURN n".to_string()),
    };
    let report = InstrumentedStream::new(begun, 0, Some(0)).dropped(1);
    assert_eq!(report.slow.unwrap().cypher, "MATCH (n) RETURN n");
}

#[test]
fn the_last_error_of_a_stream_is_reported() {
    let mut ts = InstrumentedStream::new(start("q"), 1, None);
    ts.yielded(Ok(()));
    ts.yielded(Err("first".to_string()));
    ts.yielded(Err("second".to_string()));
    let report = ts.dropped(1);
    assert_eq!(report.rows, Some(1));
    assert_eq!(report.error, Some("second".to_string()));
}

#[test]
fn instrumented_graph_execute_returns_all_rows() {
    let ig = InstrumentedGraph::new();
    let begun = ig.begin(&test_query());
    match ig.execute(begun, 1, Ok(())) {
        Executed::Streaming(mut stream) => {
            for _ in 0..3 {
                stream.yielded(Ok(()));
            }
            assert_eq!(stream.dropped(1).rows, Some(3));
        }
        Executed::Failed(_) => panic!("the query was accepted"),
    }
}

#[test]
fn failed_execute_is_reported_at_once() {
    let ig = InstrumentedGraph::new().with_slow_query_threshold(Some(0));
    let begun = ig.begin(&test_query());
    match ig.execute(begun, 2_000_000, Err("refused".to_string())) {
        Executed::Failed(report) => {
            assert_eq!(report.total, 2_000_000);
            assert_eq!(report.rows, Some(0));
            assert_eq!(report.error, Some("refused".to_string()));
            let slow = report.slow.unwrap();
            assert_eq!(slow.suffix, " (execute failed)");
            assert_eq!(slow.total_ms, 2);
            assert_eq!(slow.phases, None);
        }
        Executed::Streaming(_) => panic!("the query failed"),
    }
}

#[test]
fn instrumented_graph_run_warns_on_slow_query() {
    let ig = InstrumentedGraph::new().with_slow_query_threshold(Some(0));
    let report = ig.run(ig.begin(&test_query()), 1, Ok(()));
    let slow = report.slow.unwrap();
    assert_eq!(slow.label, "test_label");
    assert_eq!(slow.suffix, "");
    let report = ig.run(ig.begin(&test_query()), 1, Err("e".to_string()));
    assert_eq!(report.slow.unwrap().suffix, " (failed)");
    assert_eq!(report.error, Some("e".to_string()));
    assert_eq!(report.rows, None);
}

#[test]
fn instrumented_graph_run_no_warning_under_threshold() {
    let ig = InstrumentedGraph::new().with_slow_query_threshold(Some(600 * SECOND));
    assert!(ig.run(ig.begin(&test_query()), 1, Ok(())).slow.is_none());
}

#[test]
fn populated_text_is_kept_only_where_it_is_logged() {
    let q = Query::new("q", "RETURN $x").param("x", BoltType::Integer(7));
    let ig = InstrumentedGraph::new();
    assert_eq!(ig.begin(&q).cypher, None);
    assert_eq!(
        ig.with_log_cypher(true).begin(&q).cypher,
        Some("RETURN 7".to_string())
    );
}

#[test]
fn graph_instruments_have_names_of_their_own() {
    let m = GraphMetrics::new();
    assert_eq!(m.duration.name, "neo4j.query.duration");
    assert_eq!(m.execute_duration.name, "neo4j.query.execute_duration");
    assert_eq!(m.rows.unit, Some("{row}"));
    assert_eq!(m.requests.name, "neo4j.query.requests");
    assert_eq!(m.errors.name, "neo4j.query.errors");
    assert_eq!(m.slow.name, "neo4j.query.slow");
}
