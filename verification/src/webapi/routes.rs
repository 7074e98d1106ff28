//! Extractors of requests, and the layers that every request passes.
use vstd::prelude::*;

verus! {

/// Errors of the HTTP service that stem from the request itself.
#[derive(Debug, Clone, PartialEq, Eq)]
pub enum Error {
    InvalidInput { message: String },
}

impl Error {
    /// A request that could not be read.
    pub fn invalid_input(message: String) -> (r: Error)
        ensures
            r == (Error::InvalidInput { message }),
    {
        Error::InvalidInput { message }
    }
}

/// JSON extractor that maps rejections to `Error::InvalidInput`.
#[derive(Debug, Clone, PartialEq, Eq)]
pub struct Json<T>(pub T);

/// Path extractor that maps rejections to `Error::InvalidInput`.
#[derive(Debug, Clone, PartialEq, Eq)]
pub struct Path<T>(pub T);

/// Query extractor that maps rejections to `Error::InvalidInput`.
#[derive(Debug, Clone, PartialEq, Eq)]
pub struct Query<T>(pub T);

impl<T> Json<T> {
    /// What is extracted from a body, or why it was rejected.
    pub fn from_request(body: Result<T, String>) -> (r: Result<Self, Error>)
        ensures
            r == (match body {
                Ok(value) => Ok::<Json<T>, Error>(Json(value)),
                Err(message) => Err::<Json<T>, Error>(Error::InvalidInput { message }),
            }),
    {
        match body {
            Ok(value) => Ok(Json(value)),
            Err(message) => Err(Error::invalid_input(message)),
        }
    }
}

impl<T> Path<T> {
    /// What is extracted from a path, or why it was rejected.
    pub fn from_request_parts(path: Result<T, String>) -> (r: Result<Self, Error>)
        ensures
            r == (match path {
                Ok(value) => Ok::<Path<T>, Error>(Path(value)),
                Err(message) => Err::<Path<T>, Error>(Error::InvalidInput { message }),
            }),
    {
        match path {
            Ok(value) => Ok(Path(value)),
            Err(message) => Err(Error::invalid_input(message)),
        }
    }
}

impl<T> Query<T> {
    /// What is extracted from a query string, or why it was rejected.
    pub fn from_request_parts(query: Result<T, String>) -> (r: Result<Self, Error>)
        ensures
            r == (match query {
                Ok(value) => Ok::<Query<T>, Error>(Query(value)),
                Err(message) => Err::<Query<T>, Error>(Error::InvalidInput { message }),
            }),
    {
        match query {
            Ok(value) => Ok(Query(value)),
            Err(message) => Err(Error::invalid_input(message)),
        }
    }
}

/// A layer around the routes.
#[derive(Debug, Clone, Copy, PartialEq, Eq, Structural)]
pub enum AppLayer {
    /// Compresses responses.
    Compression,
    /// Refuses bodies over a number of bytes.
    RequestBodyLimit(usize),
    /// Number of bytes that the extractors read. They stop at 2 MB where none is set.
    ExtractorLimit(usize),
    /// Answers with a status once a number of seconds is over.
    Timeout { status: u16, secs: u64 },
    /// Allows all origins, methods and headers.
    Cors,
    /// Traces and measures requests. Only the outer router knows the routes.
    Tracing,
}

/// Seconds after which a request is given up. At least 1: a timeout of zero would fire before
/// any handler runs.
pub open spec fn effective_timeout(request_timeout_secs: u64) -> u64 {
    if request_timeout_secs == 0 {
        1
    } else {
        request_timeout_secs
    }
}

/// The layers around the routes, from the innermost to the outermost.
pub open spec fn layers_of(request_timeout_secs: u64, max_body_size_bytes: usize) -> Seq<AppLayer> {
    seq![
        AppLayer::Compression,
        AppLayer::RequestBodyLimit(max_body_size_bytes),
        AppLayer::ExtractorLimit(max_body_size_bytes),
        AppLayer::Timeout { status: 408, secs: effective_timeout(request_timeout_secs) },
        AppLayer::Cors,
        AppLayer::Tracing,
    ]
}

/// The layers around the routes, from the innermost to the outermost. The request limits are
/// inside, so that tracing and CORS still apply to the 408 and 413 responses with which they
/// short-circuit.
pub fn app_layers(request_timeout_secs: u64, max_body_size_bytes: usize) -> (r: Vec<AppLayer>)
    ensures
        r@ == layers_of(request_timeout_secs, max_body_size_bytes),
{
    let secs: u64 = if request_timeout_secs == 0 {
        1
    } else {
        request_timeout_secs
    };
    vec![
        AppLayer::Compression,
        AppLayer::RequestBodyLimit(max_body_size_bytes),
        AppLayer::ExtractorLimit(max_body_size_bytes),
        AppLayer::Timeout { status: 408, secs },
        AppLayer::Cors,
        AppLayer::Tracing,
    ]
}

/// CORS and tracing lie outside every limit: what a limit answers passes them.
pub proof fn law_limits_are_inside_cors_and_tracing(
    request_timeout_secs: u64,
    max_body_size_bytes: usize,
    i: int,
    j: int,
)
    requires
        0 <= i < layers_of(request_timeout_secs, max_body_size_bytes).len(),
        0 <= j < layers_of(request_timeout_secs, max_body_size_bytes).len(),
        layers_of(request_timeout_secs, max_body_size_bytes)[i] is RequestBodyLimit
            || layers_of(request_timeout_secs, max_body_size_bytes)[i] is Timeout,
        layers_of(request_timeout_secs, max_body_size_bytes)[j] is Cors
            || layers_of(request_timeout_secs, max_body_size_bytes)[j] is Tracing,
    ensures
        i < j,
{
}

/// No request is given up at once, and a timeout that is set is kept.
pub proof fn law_timeout_is_never_zero(request_timeout_secs: u64)
    ensures
        effective_timeout(request_timeout_secs) >= 1,
        request_timeout_secs >= 1 ==> effective_timeout(request_timeout_secs)
            == request_timeout_secs,
{
}

} // verus!
