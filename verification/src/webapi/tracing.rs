//! HTTP tracing and metrics.
//!
//! Incoming W3C `traceparent` is intentionally ignored. This is a public
//! unauthenticated API, so clients must not inject trace context; each request
//! starts a new root span.
use crate::telemetry::{Instrument, InstrumentKind};
use vstd::prelude::*;

verus! {

/// The meter that all HTTP metrics are filed under.
pub const METER_NAME: &'static str = "nexus";

/// The method that stands for all methods which are not well known.
pub const OTHER_METHOD: &'static str = "_OTHER";

/// The route that stands for all paths without a route.
pub const UNMATCHED_ROUTE: &'static str = "unmatched";

/// Request total, availability failures, and time until response headers are ready.
#[derive(Debug, PartialEq, Eq)]
pub struct HttpMetrics {
    pub requests: Instrument,
    pub errors: Instrument,
    pub duration: Instrument,
    /// Upper bounds of the buckets of `duration`, in milliseconds.
    pub duration_boundaries_ms: Vec<u64>,
}

/// The buckets that the HTTP semantic conventions ask for, in milliseconds.
pub open spec fn duration_buckets() -> Seq<u64> {
    seq![5, 10, 25, 50, 75, 100, 250, 500, 750, 1_000, 2_500, 5_000, 7_500, 10_000]
}

impl HttpMetrics {
    /// All instruments of the HTTP service.
    pub fn new() -> (r: Self)
        ensures
            r.requests.is(
                InstrumentKind::Counter,
                "http.server.requests"@,
                "Total HTTP requests handled by Nexus, by method/route/status"@,
                None,
            ),
            r.errors.is(
                InstrumentKind::Counter,
                "http.server.errors"@,
                "HTTP requests that failed from the server's perspective (5xx and 408 timeouts), by method/route/status"@,
                None,
            ),
            r.duration.is(
                InstrumentKind::FloatHistogram,
                "http.server.request.duration"@,
                "Duration of HTTP server requests"@,
                Some("s"@),
            ),
            r.duration_boundaries_ms@ == duration_buckets(),
    {
        HttpMetrics {
            requests: Instrument {
                kind: InstrumentKind::Counter,
                name: "http.server.requests",
                description: "Total HTTP requests handled by Nexus, by method/route/status",
                unit: None,
            },
            errors: Instrument {
                kind: InstrumentKind::Counter,
                name: "http.server.errors",
                description: "HTTP requests that failed from the server's perspective (5xx and 408 timeouts), by method/route/status",
                unit: None,
            },
            duration: Instrument {
                kind: InstrumentKind::FloatHistogram,
                name: "http.server.request.duration",
                description: "Duration of HTTP server requests",
                unit: Some("s"),
            },
            duration_boundaries_ms: vec![
                5, 10, 25, 50, 75, 100, 250, 500, 750, 1_000, 2_500, 5_000, 7_500, 10_000,
            ],
        }
    }
}

/// Whether a status counts against availability.
pub open spec fn failed(status: u16) -> bool {
    status == 408 || 500 <= status <= 599
}

/// 5xx, plus 408 (our timeout). Other 4xx stay on `requests` by status code.
pub fn is_failed_request(status: u16) -> (r: bool)
    ensures
        r == failed(status),
{
    status == 408 || (500 <= status && status <= 599)
}

/// The route that a request is filed under.
pub open spec fn route_name(matched_path: Option<&str>) -> Seq<char> {
    match matched_path {
        Some(pattern) => pattern@,
        None => UNMATCHED_ROUTE@,
    }
}

/// Matched route template, or `unmatched`. Never the raw URI (cardinality).
pub fn http_route(matched_path: Option<&str>) -> (r: String)
    ensures
        r@ == route_name(matched_path),
{
    match matched_path {
        Some(pattern) => pattern.to_owned(),
        None => UNMATCHED_ROUTE.to_owned(),
    }
}

/// The methods that the semantic conventions know.
pub open spec fn well_known_methods() -> Seq<Seq<char>> {
    seq![
        "GET"@,
        "HEAD"@,
        "POST"@,
        "PUT"@,
        "DELETE"@,
        "CONNECT"@,
        "OPTIONS"@,
        "TRACE"@,
        "PATCH"@,
    ]
}

/// The method that a request is filed under.
pub open spec fn method_name(method: Seq<char>) -> Seq<char> {
    if well_known_methods().contains(method) {
        method
    } else {
        OTHER_METHOD@
    }
}

/// Semconv well-known methods; anything else is `_OTHER`.
pub fn http_method(method: &str) -> (r: &'static str)
    ensures
        r@ == method_name(method@),
{
    let known: [&'static str; 9] = [
        "GET",
        "HEAD",
        "POST",
        "PUT",
        "DELETE",
        "CONNECT",
        "OPTIONS",
        "TRACE",
        "PATCH",
    ];
    let ghost all = well_known_methods();
    assert(known@.len() == all.len());
    assert(forall|j: int| 0 <= j < 9 ==> #[trigger] known@[j]@ == all[j]);
    let mut i: usize = 0;
    while i < 9
        invariant
            i <= 9,
            all == well_known_methods(),
            all.len() == 9,
            known@.len() == 9,
            forall|j: int| 0 <= j < 9 ==> #[trigger] known@[j]@ == all[j],
            forall|j: int| 0 <= j < i ==> all[j] != method@,
        decreases 9 - i,
    {
        if *known[i] == *method {
            assert(all[i as int] == method@);
            return known[i];
        }
        i = i + 1;
    }
    OTHER_METHOD
}

/// What is recorded of a request when it comes in.
#[derive(Debug, PartialEq, Eq)]
pub struct RequestStart {
    /// Name of the span. Semconv would use a bare `{method}` when unmatched; the token is kept
    /// so scanner 404s stay searchable. It holds no query string: search text, pubkeys and
    /// filters are unbounded.
    pub span_name: String,
    pub method: &'static str,
    /// The method as it was sent, where it is not well known.
    pub method_original: Option<String>,
    pub route: String,
}

/// What is recorded of a request when it comes in.
pub fn start_request(method: &str, matched_path: Option<&str>) -> (r: RequestStart)
    ensures
        r.method@ == method_name(method@),
        r.route@ == route_name(matched_path),
        r.span_name@ == method_name(method@) + " "@ + route_name(matched_path),
        match r.method_original {
            Some(original) => method_name(method@) == OTHER_METHOD@ && original@ == method@,
            None => method_name(method@) != OTHER_METHOD@,
        },
{
    let route = http_route(matched_path);
    let name = http_method(method);
    let method_original = if *name == *OTHER_METHOD {
        Some(method.to_owned())
    } else {
        None
    };
    RequestStart {
        span_name: name.to_owned().concat(" ").concat(route.as_str()),
        method: name,
        method_original,
        route,
    }
}

/// Name of what `http::StatusCode::canonical_reason` returns for a status: the phrase that the
/// status registry gives it, where it gives one.
pub uninterp spec fn status_reason(status: u16) -> Option<Seq<char>>;

/// The phrase, if there is one.
pub open spec fn phrase(r: Option<&'static str>) -> Option<Seq<char>> {
    match r {
        Some(s) => Some(s@),
        None => None,
    }
}

/// Calls `http::StatusCode::canonical_reason`. Its result is a fixed table over the code; the
/// table is left unsaid.
#[verifier::external_body]
fn canonical_reason(status: u16) -> (r: Option<&'static str>)
    ensures
        phrase(r) == status_reason(status),
{
    match axum::http::StatusCode::from_u16(status) {
        Ok(code) => code.canonical_reason(),
        Err(_) => None,
    }
}

/// What is recorded of a request when its response is ready.
#[derive(Debug, PartialEq, Eq)]
pub struct RequestOutcome {
    pub status_code: u16,
    /// Whether the request counts as an error, besides counting as a request.
    pub failed: bool,
    /// Status of the span and its message, where the request failed.
    pub span_error: Option<(&'static str, &'static str)>,
}

/// Whether an outcome is that of a status with the given phrase.
pub open spec fn outcome_of(status: u16, reason: Option<Seq<char>>, r: RequestOutcome) -> bool {
    &&& r.status_code == status
    &&& r.failed == failed(status)
    &&& match r.span_error {
        None => !failed(status),
        Some((code, message)) => failed(status) && code@ == "ERROR"@ && message@ == (
        match reason {
            Some(s) => s,
            None => "error"@,
        }),
    }
}

/// What is recorded of a response with the given status and phrase.
pub fn request_outcome(status: u16, reason: Option<&'static str>) -> (r: RequestOutcome)
    ensures
        outcome_of(status, phrase(reason), r),
{
    let failed = is_failed_request(status);
    let span_error = if failed {
        match reason {
            Some(message) => Some(("ERROR", message)),
            None => Some(("ERROR", "error")),
        }
    } else {
        None
    };
    RequestOutcome { status_code: status, failed, span_error }
}

/// What is recorded of a request when its response is ready.
pub fn finish_request(status: u16) -> (r: RequestOutcome)
    ensures
        outcome_of(status, status_reason(status), r),
{
    request_outcome(status, canonical_reason(status))
}

/// Attributes of the metrics of a request.
#[derive(Debug, PartialEq, Eq)]
pub struct HttpRecord {
    pub method: (&'static str, String),
    pub route: (&'static str, String),
    pub status_code: (&'static str, i64),
    /// Whether `errors` is incremented. `requests` always is.
    pub error: bool,
}

/// What the metrics of a request are filed under.
pub fn record_http_request(method: &str, route: &str, status: u16) -> (r: HttpRecord)
    ensures
        r.method.0@ == "http.request.method"@,
        r.method.1@ == method@,
        r.route.0@ == "http.route"@,
        r.route.1@ == route@,
        r.status_code.0@ == "http.response.status_code"@,
        r.status_code.1 == status,
        r.error == failed(status),
{
    HttpRecord {
        method: ("http.request.method", method.to_owned()),
        route: ("http.route", route.to_owned()),
        status_code: ("http.response.status_code", status as i64),
        error: is_failed_request(status),
    }
}

/// A request is filed under one of ten methods, whatever was sent.
pub proof fn law_methods_are_bounded(method: Seq<char>)
    ensures
        well_known_methods().push(OTHER_METHOD@).contains(method_name(method)),
{
    let all = well_known_methods().push(OTHER_METHOD@);
    if well_known_methods().contains(method) {
        let k = choose|k: int| 0 <= k < well_known_methods().len() && well_known_methods()[k] == method;
        assert(all[k] == method);
    } else {
        assert(all[9] == OTHER_METHOD@);
    }
}

/// What the caller did wrong does not count against availability, but for a timeout.
pub proof fn law_client_errors_do_not_count(status: u16)
    requires
        400 <= status <= 499,
    ensures
        failed(status) <==> status == 408,
{
}

/// A request fails where the server did, or gave it up, and nowhere else.
pub proof fn law_failures_are_the_servers(status: u16)
    ensures
        failed(status) <==> status / 100 == 5 || status == 408,
{
}

/// What is recorded of a request is its own status, and an error exactly where it failed.
pub proof fn law_outcomes_are_those_of_their_status(
    status: u16,
    reason: Option<Seq<char>>,
    r: RequestOutcome,
)
    requires
        outcome_of(status, reason, r),
    ensures
        r.status_code == status,
        r.failed <==> failed(status),
        r.span_error is Some <==> failed(status),
        reason matches Some(text) ==> (r.span_error matches Some(e) ==> e.1@ == text),
{
}

/// A request is filed under the pattern that matched it, whatever its own path was, and all requests
/// that matched none under one name.
pub proof fn law_routes_are_patterns(pattern: &str)
    ensures
        route_name(Some(pattern)) == pattern@,
        route_name(None) == "unmatched"@,
{
}

/// The buckets ascend from five milliseconds to ten seconds.
pub proof fn law_buckets_ascend(i: int, j: int)
    requires
        0 <= i < j < duration_buckets().len(),
    ensures
        duration_buckets()[i] < duration_buckets()[j],
        duration_buckets().len() == 14,
        duration_buckets()[0] == 5,
        duration_buckets()[13] == 10_000,
{
}

} // verus!
