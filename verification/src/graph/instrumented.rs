//! Observation of graph queries: attributes, metrics and slow-query logs.
use crate::graph::query::{attrs_view, populated, Query, TelemetryValue, TelemetryView};
use crate::telemetry::{Instrument, InstrumentKind};
use crate::text::{join, joined, lemma_views_push, signed_decimal, signed_decimal_text, views};
use vstd::prelude::*;

verus! {

/// The meter that all graph metrics are filed under.
pub const METER_NAME: &'static str = "neo4j";

/// The tracer that all graph spans are filed under.
pub const TRACER_NAME: &'static str = "nexus.neo4j";

/// The longest duration, in nanoseconds.
pub const MAX_DURATION_NANOS: u128 = 18_446_744_073_709_551_615_999_999_999;

/// Metric instruments for query monitoring.
#[derive(Debug, Clone, Copy, PartialEq, Eq)]
pub struct GraphMetrics {
    /// Total wall-clock duration of a query (execute + stream consumption).
    pub duration: Instrument,
    /// Duration of the Bolt RUN phase only (pool acquire + planning).
    pub execute_duration: Instrument,
    /// Number of rows returned by a query.
    pub rows: Instrument,
    /// Total queries (error-rate denominator). Same sites as `duration`.
    pub requests: Instrument,
    /// Incremented on every failed `execute()` or `run()` call.
    pub errors: Instrument,
    /// Incremented when a query's total duration exceeds the slow-query threshold.
    pub slow: Instrument,
}

impl GraphMetrics {
    /// All instruments of the graph.
    pub fn new() -> (r: Self)
        ensures
            r.duration.is(
                InstrumentKind::FloatHistogram,
                "neo4j.query.duration"@,
                "Total wall-clock time for a Neo4j query (execute + fetch), in milliseconds"@,
                Some("ms"@),
            ),
            r.execute_duration.is(
                InstrumentKind::FloatHistogram,
                "neo4j.query.execute_duration"@,
                "Time spent in the Bolt RUN phase (pool acquire + query planning), in milliseconds"@,
                Some("ms"@),
            ),
            r.rows.is(
                InstrumentKind::IntegerHistogram,
                "neo4j.query.rows"@,
                "Number of rows returned per Neo4j query"@,
                Some("{row}"@),
            ),
            r.requests.is(
                InstrumentKind::Counter,
                "neo4j.query.requests"@,
                "Total Neo4j query executions"@,
                None,
            ),
            r.errors.is(
                InstrumentKind::Counter,
                "neo4j.query.errors"@,
                "Total number of failed Neo4j query executions"@,
                None,
            ),
            r.slow.is(
                InstrumentKind::Counter,
                "neo4j.query.slow"@,
                "Total number of Neo4j queries exceeding the slow-query threshold"@,
                None,
            ),
    {
        GraphMetrics {
            duration: Instrument {
                kind: InstrumentKind::FloatHistogram,
                name: "neo4j.query.duration",
                description: "Total wall-clock time for a Neo4j query (execute + fetch), in milliseconds",
                unit: Some("ms"),
            },
            execute_duration: Instrument {
                kind: InstrumentKind::FloatHistogram,
                name: "neo4j.query.execute_duration",
                description: "Time spent in the Bolt RUN phase (pool acquire + query planning), in milliseconds",
                unit: Some("ms"),
            },
            rows: Instrument {
                kind: InstrumentKind::IntegerHistogram,
                name: "neo4j.query.rows",
                description: "Number of rows returned per Neo4j query",
                unit: Some("{row}"),
            },
            requests: Instrument {
                kind: InstrumentKind::Counter,
                name: "neo4j.query.requests",
                description: "Total Neo4j query executions",
                unit: None,
            },
            errors: Instrument {
                kind: InstrumentKind::Counter,
                name: "neo4j.query.errors",
                description: "Total number of failed Neo4j query executions",
                unit: None,
            },
            slow: Instrument {
                kind: InstrumentKind::Counter,
                name: "neo4j.query.slow",
                description: "Total number of Neo4j queries exceeding the slow-query threshold",
                unit: None,
            },
        }
    }
}

/// Value of an attribute.
#[derive(Debug, Clone, Copy, PartialEq, Eq)]
pub enum AttrValue {
    Str(&'static str),
    Int(i64),
}

/// An attribute of a metric, a span or a log line.
#[derive(Debug, Clone, Copy, PartialEq, Eq)]
pub struct Attr {
    pub key: &'static str,
    pub value: AttrValue,
}

impl AttrValue {
    /// The value in words.
    pub open spec fn words(self) -> Seq<char> {
        match self {
            AttrValue::Str(s) => s@,
            AttrValue::Int(i) => signed_decimal(i as int),
        }
    }

    /// The value in words.
    pub fn text(&self) -> (r: String)
        ensures
            r@ == self.words(),
    {
        match self {
            AttrValue::Str(s) => (*s).to_owned(),
            AttrValue::Int(i) => signed_decimal_text(*i),
        }
    }
}

impl Attr {
    /// The attribute as a pair of words.
    pub open spec fn pair(self) -> Seq<char> {
        self.key@ + "="@ + self.value.words()
    }

    /// Whether this is a telemetry attribute of a query.
    pub open spec fn is_of(self, attr: (Seq<char>, TelemetryView)) -> bool {
        &&& self.key@ == attr.0
        &&& match attr.1 {
            TelemetryView::Str(s) => self.value matches AttrValue::Str(t) && t@ == s,
            TelemetryView::Int(n) => self.value == AttrValue::Int(n as i64),
        }
    }
}

/// Whether attributes are those of a query: its label first, then its telemetry attributes.
pub open spec fn are_attrs_of(
    attrs: Seq<Attr>,
    label: Seq<char>,
    telemetry: Seq<(Seq<char>, TelemetryView)>,
) -> bool {
    &&& attrs.len() == telemetry.len() + 1
    &&& attrs[0].is_of(("query"@, TelemetryView::Str(label)))
    &&& forall|i: int|
        0 <= i < telemetry.len() ==> (#[trigger] attrs[i + 1]).is_of(telemetry[i])
}

/// Builds the shared metric, span, and log attributes: `query=<label>` first,
/// then the query's telemetry attributes.
pub fn build_attrs(query: &Query) -> (r: Vec<Attr>)
    ensures
        are_attrs_of(r@, query@.label, query@.telemetry),
{
    let mut attrs: Vec<Attr> = Vec::new();
    attrs.push(Attr { key: "query", value: AttrValue::Str(query.label()) });
    let telemetry = query.telemetry_attrs();
    let mut i: usize = 0;
    assert(attrs_view(telemetry@).len() == telemetry@.len());
    while i < telemetry.len()
        invariant
            i <= telemetry.len(),
            attrs_view(telemetry@) == query@.telemetry,
            attrs@.len() == i + 1,
            attrs@[0].is_of(("query"@, TelemetryView::Str(query@.label))),
            forall|j: int|
                0 <= j < i ==> (#[trigger] attrs@[j + 1]).is_of(query@.telemetry[j]),
        decreases telemetry.len() - i,
    {
        let (key, value) = telemetry[i];
        assert(attrs_view(telemetry@)[i as int] == (key@, value@));
        let value = match value {
            TelemetryValue::Str(s) => AttrValue::Str(s),
            TelemetryValue::Int(n) => AttrValue::Int(n as i64),
        };
        attrs.push(Attr { key, value });
        i = i + 1;
    }
    attrs
}

/// The attributes after the first, as pairs of words.
pub open spec fn attr_pairs(attrs: Seq<Attr>) -> Seq<Seq<char>> {
    if attrs.len() == 0 {
        Seq::empty()
    } else {
        attrs.drop_first().map_values(|a: Attr| a.pair())
    }
}

/// `key=value` pairs after the leading `query` attribute, for slow-query logs.
pub fn format_attrs(attrs: &[Attr]) -> (r: String)
    ensures
        r@ == joined(attr_pairs(attrs@), " "@),
{
    let mut parts: Vec<String> = Vec::new();
    let ghost all = attr_pairs(attrs@);
    let mut i: usize = 1;
    if attrs.len() == 0 {
        assert(views(parts@) =~= all);
        return join(&parts, " ");
    }
    assert(all.len() == attrs@.len() - 1);
    assert(views(parts@) =~= all.take(0));
    while i < attrs.len()
        invariant
            1 <= i <= attrs.len(),
            all == attr_pairs(attrs@),
            all.len() == attrs@.len() - 1,
            views(parts@) == all.take(i - 1),
        decreases attrs.len() - i,
    {
        let value = attrs[i].value.text();
        let part = attrs[i].key.to_owned().concat("=").concat(value.as_str());
        proof {
            assert(attrs@.drop_first()[i - 1] == attrs@[i as int]);
            assert(part@ == all[i - 1]);
            lemma_views_push(parts@, part);
            assert(all.take(i as int) =~= all.take(i - 1).push(part@));
        }
        parts.push(part);
        i = i + 1;
    }
    assert(all.take(i - 1) =~= all);
    join(&parts, " ")
}

/// What is known of a query before it is sent.
#[derive(Debug, PartialEq, Eq)]
pub struct QueryStart {
    pub label: &'static str,
    pub attrs: Vec<Attr>,
    /// Populated text for slow-query logs, where these are to show it.
    pub cypher: Option<String>,
}

/// A slow query, as it is logged. Durations are in milliseconds.
#[derive(Debug, PartialEq, Eq)]
pub struct SlowQuery {
    pub total_ms: u128,
    /// Times of the two phases and number of rows, where rows were streamed.
    pub phases: Option<(u128, u128, usize)>,
    pub label: &'static str,
    pub attrs: String,
    pub cypher: String,
    pub suffix: &'static str,
}

/// What is recorded of a query once it is over. Durations are in nanoseconds.
#[derive(Debug, PartialEq, Eq)]
pub struct QueryReport {
    pub total: u128,
    pub execute: u128,
    /// Number of rows, where rows were asked for.
    pub rows: Option<u64>,
    /// The error that the query failed with.
    pub error: Option<String>,
    pub slow: Option<SlowQuery>,
}

/// Whether a duration is over the slow-query threshold.
pub open spec fn is_slow(threshold: Option<u128>, total: u128) -> bool {
    threshold matches Some(t) && total > t
}

/// Whether an entry of the slow-query log says what is known of a query.
pub open spec fn logged_as(
    start: QueryStart,
    total: u128,
    phases: Option<(u128, u128, usize)>,
    suffix: Seq<char>,
    slow: SlowQuery,
) -> bool {
    &&& slow.total_ms == total / 1_000_000
    &&& slow.phases == phases
    &&& slow.label@ == start.label@
    &&& slow.attrs@ == joined(attr_pairs(start.attrs@), " "@)
    &&& slow.cypher@ == (match start.cypher {
        Some(c) => c@,
        None => Seq::<char>::empty(),
    })
    &&& slow.suffix@ == suffix
}

/// Logs a query that is over the slow-query threshold.
fn warn_if_slow(
    threshold: Option<u128>,
    start: &QueryStart,
    total: u128,
    phases: Option<(u128, u128, usize)>,
    suffix: &'static str,
) -> (r: Option<SlowQuery>)
    ensures
        r is Some <==> is_slow(threshold, total),
        r matches Some(slow) ==> logged_as(*start, total, phases, suffix@, slow),
{
    let slow: bool = match threshold {
        Some(t) => total > t,
        None => false,
    };
    if !slow {
        return None;
    }
    let cypher = match &start.cypher {
        Some(c) => c.clone(),
        None => String::new(),
    };
    Some(
        SlowQuery {
            total_ms: total / 1_000_000,
            phases,
            label: start.label,
            attrs: format_attrs(start.attrs.as_slice()),
            cypher,
            suffix,
        },
    )
}

/// A stream of rows under observation: what has been seen of it so far.
#[derive(Debug, PartialEq, Eq)]
pub struct InstrumentedStream {
    pub start: QueryStart,
    /// Pool-acquire + Bolt RUN round-trip (query planning & start of execution).
    pub execute_duration: u128,
    pub row_count: usize,
    /// The last error that the stream yielded.
    pub error_message: Option<String>,
    pub threshold: Option<u128>,
}

impl InstrumentedStream {
    /// A stream of which nothing has been seen.
    pub fn new(start: QueryStart, execute_duration: u128, threshold: Option<u128>) -> (r: Self)
        ensures
            r.start == start,
            r.execute_duration == execute_duration,
            r.threshold == threshold,
            r.row_count == 0,
            r.error_message is None,
    {
        InstrumentedStream {
            start,
            execute_duration,
            row_count: 0,
            error_message: None,
            threshold,
        }
    }

    /// Takes note of what the stream yields next: a row, or the text of an error.
    pub fn yielded(&mut self, item: Result<(), String>)
        requires
            item is Ok ==> old(self).row_count < usize::MAX,
        ensures
            final(self).start == old(self).start,
            final(self).execute_duration == old(self).execute_duration,
            final(self).threshold == old(self).threshold,
            match item {
                Ok(_) => final(self).row_count == old(self).row_count + 1
                    && final(self).error_message == old(self).error_message,
                Err(e) => final(self).row_count == old(self).row_count
                    && final(self).error_message == Some(e),
            },
    {
        match item {
            Ok(_) => {
                self.row_count = self.row_count + 1;
            },
            Err(e) => {
                self.error_message = Some(e);
            },
        }
    }

    /// What is recorded of the query once the stream is dropped, after rows were fetched for
    /// `fetch_duration`.
    pub fn dropped(self, fetch_duration: u128) -> (r: QueryReport)
        requires
            self.execute_duration + fetch_duration <= MAX_DURATION_NANOS,
        ensures
            r.total == self.execute_duration + fetch_duration,
            r.execute == self.execute_duration,
            r.rows == Some(self.row_count as u64),
            r.error == self.error_message,
            r.slow is Some <==> is_slow(self.threshold, r.total),
            r.slow matches Some(slow) ==> logged_as(
                self.start,
                r.total,
                Some(
                    (
                        (self.execute_duration / 1_000_000) as u128,
                        (fetch_duration / 1_000_000) as u128,
                        self.row_count,
                    ),
                ),
                ""@,
                slow,
            ),
    {
        let total: u128 = self.execute_duration + fetch_duration;
        let slow = warn_if_slow(
            self.threshold,
            &self.start,
            total,
            Some((self.execute_duration / 1_000_000, fetch_duration / 1_000_000, self.row_count)),
            "",
        );
        QueryReport {
            total,
            execute: self.execute_duration,
            rows: Some(self.row_count as u64),
            error: self.error_message,
            slow,
        }
    }
}

/// Settings of the observation of a graph.
#[derive(Debug, Clone, Copy, PartialEq, Eq, Structural)]
pub struct InstrumentedGraph {
    /// Duration, in nanoseconds, over which a query is slow.
    pub slow_query_threshold: Option<u128>,
    /// Whether slow-query logs show the populated text.
    pub log_cypher: bool,
}

/// What came of submitting a query.
#[derive(Debug, PartialEq, Eq)]
pub enum Executed {
    /// Rows are to be streamed.
    Streaming(InstrumentedStream),
    /// The query failed and is over.
    Failed(QueryReport),
}

impl InstrumentedGraph {
    /// Observation without slow-query logs.
    pub fn new() -> (r: Self)
        ensures
            r.slow_query_threshold is None,
            !r.log_cypher,
    {
        InstrumentedGraph { slow_query_threshold: None, log_cypher: false }
    }

    /// Sets the duration over which a query is slow.
    pub fn with_slow_query_threshold(self, threshold: Option<u128>) -> (r: Self)
        ensures
            r.slow_query_threshold == threshold,
            r.log_cypher == self.log_cypher,
    {
        InstrumentedGraph { slow_query_threshold: threshold, log_cypher: self.log_cypher }
    }

    /// Sets whether slow-query logs show the populated text.
    pub fn with_log_cypher(self, enabled: bool) -> (r: Self)
        ensures
            r.slow_query_threshold == self.slow_query_threshold,
            r.log_cypher == enabled,
    {
        InstrumentedGraph { slow_query_threshold: self.slow_query_threshold, log_cypher: enabled }
    }

    /// What is to be known of a query before it is sent.
    pub fn begin(&self, query: &Query) -> (r: QueryStart)
        ensures
            r.label@ == query@.label,
            are_attrs_of(r.attrs@, query@.label, query@.telemetry),
            match r.cypher {
                Some(c) => self.log_cypher && c@ == populated(query@.cypher, query@.params),
                None => !self.log_cypher,
            },
    {
        let cypher = if self.log_cypher {
            Some(query.to_cypher_populated())
        } else {
            None
        };
        QueryStart { label: query.label(), attrs: build_attrs(query), cypher }
    }

    /// What follows from submitting a query that returns rows. A query that failed is over:
    /// it counts as one that returned no rows.
    pub fn execute(
        &self,
        start: QueryStart,
        execute_duration: u128,
        result: Result<(), String>,
    ) -> (r: Executed)
        ensures
            match result {
                Ok(_) => r matches Executed::Streaming(s) && s.start == start
                    && s.execute_duration == execute_duration && s.threshold
                    == self.slow_query_threshold && s.row_count == 0 && s.error_message is None,
                Err(e) => r matches Executed::Failed(report) && report.total == execute_duration
                    && report.execute == execute_duration && report.rows == Some(0u64)
                    && report.error == Some(e) && (report.slow is Some <==> is_slow(
                    self.slow_query_threshold,
                    execute_duration,
                )) && (report.slow matches Some(slow) ==> logged_as(
                    start,
                    execute_duration,
                    None,
                    " (execute failed)"@,
                    slow,
                )),
            },
    {
        match result {
            Ok(_) => Executed::Streaming(
                InstrumentedStream::new(start, execute_duration, self.slow_query_threshold),
            ),
            Err(e) => {
                let slow = warn_if_slow(
                    self.slow_query_threshold,
                    &start,
                    execute_duration,
                    None,
                    " (execute failed)",
                );
                Executed::Failed(
                    QueryReport {
                        total: execute_duration,
                        execute: execute_duration,
                        rows: Some(0),
                        error: Some(e),
                        slow,
                    },
                )
            },
        }
    }

    /// What is recorded of a query that returns no rows.
    pub fn run(&self, start: QueryStart, elapsed: u128, result: Result<(), String>) -> (r:
        QueryReport)
        ensures
            r.total == elapsed,
            r.execute == elapsed,
            r.rows is None,
            r.error == (match result {
                Ok(_) => None,
                Err(e) => Some(e),
            }),
            r.slow is Some <==> is_slow(self.slow_query_threshold, elapsed),
            r.slow matches Some(slow) ==> logged_as(
                start,
                elapsed,
                None,
                if result is Ok {
                    ""@
                } else {
                    " (failed)"@
                },
                slow,
            ),
    {
        let suffix = if result.is_ok() {
            ""
        } else {
            " (failed)"
        };
        let slow = warn_if_slow(self.slow_query_threshold, &start, elapsed, None, suffix);
        let error = match result {
            Ok(_) => None,
            Err(e) => Some(e),
        };
        QueryReport { total: elapsed, execute: elapsed, rows: None, error, slow }
    }
}

/// Without a threshold no query is slow, and a higher threshold never makes one slow.
pub proof fn law_thresholds(low: u128, high: u128, total: u128)
    requires
        low <= high,
    ensures
        !is_slow(None, total),
        is_slow(Some(high), total) ==> is_slow(Some(low), total),
{
}

/// Telemetry attributes stand in the attributes of a query in the order in which they were
/// attached, after its label, each with its own value and none besides.
pub proof fn law_attrs_keep_their_order(
    attrs: Seq<Attr>,
    label: Seq<char>,
    telemetry: Seq<(Seq<char>, TelemetryView)>,
    i: int,
)
    requires
        are_attrs_of(attrs, label, telemetry),
        0 <= i < telemetry.len(),
    ensures
        attrs.len() == 1 + telemetry.len(),
        attrs[0].key@ == "query"@,
        attrs[0].value matches AttrValue::Str(t) && t@ == label,
        attrs[i + 1].key@ == telemetry[i].0,
        telemetry[i].1 matches TelemetryView::Str(s) ==> (attrs[i + 1].value matches AttrValue::Str(
            t,
        ) && t@ == s),
        telemetry[i].1 matches TelemetryView::Int(n) ==> (attrs[i + 1].value matches AttrValue::Int(
            m,
        ) && m == n),
{
    assert(attrs[i + 1].is_of(telemetry[i]));
}

/// A query is slow exactly where it takes longer than the threshold.
pub proof fn law_slow_is_longer_than_the_threshold(threshold: u128, total: u128)
    ensures
        is_slow(Some(threshold), total) <==> threshold < total,
{
}

/// The log of a slow query tells its whole time in milliseconds, its phases and its label.
pub proof fn law_slow_queries_are_logged_in_milliseconds(
    start: QueryStart,
    total: u128,
    phases: Option<(u128, u128, usize)>,
    suffix: Seq<char>,
    slow: SlowQuery,
)
    requires
        logged_as(start, total, phases, suffix, slow),
    ensures
        slow.total_ms * 1_000_000 <= total < (slow.total_ms + 1) * 1_000_000,
        slow.phases == phases,
        slow.label@ == start.label@,
        slow.attrs@ == joined(attr_pairs(start.attrs@), " "@),
        slow.suffix@ == suffix,
        start.cypher matches Some(c) ==> slow.cypher@ == c@,
{
}

} // verus!
