//! Errors of the event processors and the retry policy over them.
use crate::text::{bool_text, bool_word, decimal, decimal_text};
use vstd::prelude::*;

verus! {

/// What went wrong in the Pubky client, with what it said of it.
#[derive(Debug, Clone, PartialEq, Eq)]
pub enum ClientError {
    NotInitialized,
    TooManyRequests429 { message: String },
    ServerError5xx { message: String },
    RequestFailed { message: String },
    TransportFailed { message: String },
    PkarrFailed(String),
    NotFound404 { message: String },
    AuthenticationFailed(String),
    BuildFailed(String),
    ParseFailed(String),
}

impl ClientError {
    /// What the client said; nothing where it was never set up.
    pub open spec fn said(self) -> Seq<char> {
        match self {
            ClientError::NotInitialized => ""@,
            ClientError::TooManyRequests429 { message } => message@,
            ClientError::ServerError5xx { message } => message@,
            ClientError::RequestFailed { message } => message@,
            ClientError::TransportFailed { message } => message@,
            ClientError::PkarrFailed(message) => message@,
            ClientError::NotFound404 { message } => message@,
            ClientError::AuthenticationFailed(message) => message@,
            ClientError::BuildFailed(message) => message@,
            ClientError::ParseFailed(message) => message@,
        }
    }

    /// What the client said; nothing where it was never set up.
    pub fn message(&self) -> (r: &str)
        ensures
            r@ == self.said(),
    {
        match self {
            ClientError::NotInitialized => "",
            ClientError::TooManyRequests429 { message } => message.as_str(),
            ClientError::ServerError5xx { message } => message.as_str(),
            ClientError::RequestFailed { message } => message.as_str(),
            ClientError::TransportFailed { message } => message.as_str(),
            ClientError::PkarrFailed(message) => message.as_str(),
            ClientError::NotFound404 { message } => message.as_str(),
            ClientError::AuthenticationFailed(message) => message.as_str(),
            ClientError::BuildFailed(message) => message.as_str(),
            ClientError::ParseFailed(message) => message.as_str(),
        }
    }

    /// What a homeserver's answer with a status that is no success comes to.
    pub fn from_status(status: u16, message: String) -> (r: ClientError)
        ensures
            r == failure_of_status(status, message),
    {
        if status == 404 {
            ClientError::NotFound404 { message }
        } else if status == 429 {
            ClientError::TooManyRequests429 { message }
        } else if 500 <= status && status <= 599 {
            ClientError::ServerError5xx { message }
        } else {
            ClientError::RequestFailed { message }
        }
    }

    /// Whether the same request may succeed later.
    pub open spec fn is_transient(self) -> bool {
        match self {
            ClientError::NotInitialized => true,
            ClientError::TooManyRequests429 { .. } => true,
            ClientError::ServerError5xx { .. } => true,
            ClientError::RequestFailed { .. } => true,
            ClientError::TransportFailed { .. } => true,
            ClientError::PkarrFailed(_) => true,
            ClientError::NotFound404 { .. } => false,
            ClientError::AuthenticationFailed(_) => false,
            ClientError::BuildFailed(_) => false,
            ClientError::ParseFailed(_) => false,
        }
    }

    /// Whether the same request may succeed later.
    pub fn may_succeed_later(&self) -> (r: bool)
        ensures
            r == self.is_transient(),
    {
        match self {
            ClientError::NotInitialized => true,
            ClientError::TooManyRequests429 { .. } => true,
            ClientError::ServerError5xx { .. } => true,
            ClientError::RequestFailed { .. } => true,
            ClientError::TransportFailed { .. } => true,
            ClientError::PkarrFailed(_) => true,
            ClientError::NotFound404 { .. } => false,
            ClientError::AuthenticationFailed(_) => false,
            ClientError::BuildFailed(_) => false,
            ClientError::ParseFailed(_) => false,
        }
    }
}

/// An error of a database: what it said, and whether the batch should stop on it.
#[derive(Debug, Clone, PartialEq, Eq)]
pub struct StoreError {
    pub should_not_retry_now: bool,
    pub message: String,
}

/// Why an operation on a model failed.
#[derive(Debug, Clone, PartialEq, Eq)]
pub enum ModelError {
    GraphOperationFailed(StoreError),
    KvOperationFailed(StoreError),
    MediaProcessorError(String),
    FileOperationFailed(String),
    /// The homeserver is blacklisted and must not be indexed.
    HsBlacklisted { hs_id: String },
    Generic(String),
}

/// Why an event could not be processed.
#[derive(Debug, Clone, PartialEq, Eq)]
pub enum EventProcessorError {
    /// Failed to execute query in the graph database
    GraphQueryFailed(bool, String),
    /// The event could not be indexed due to missing graph dependencies
    MissingDependency { dependency: Vec<String> },
    /// Failed to complete indexing due to an error of the index
    IndexOperationFailed(bool, String),
    /// The event appears to be unindexed. Verify the event in the retry queue
    SkipIndexing,
    /// The event could not be parsed from a line
    InvalidEventLine(String),
    /// The homeserver returned an event of another user than the one asked for
    UserIdMismatch { hs_id: String, expected_user_id: String, event_user_id: String },
    /// The event payload deserialized but failed validation (e.g. unknown post kind,
    /// malformed Collection envelope, oversized field). Non-retryable: re-running the same
    /// payload will produce the same error.
    SpecValidation(String),
    /// Fetch exceeded size cap (non-retryable).
    FetchSizeExceeded(u64, u64),
    /// The Pubky client could not resolve the pubky
    ClientError(ClientError),
    /// A homeserver's /events-stream keeps returning 429 Too Many Requests
    /// even after all internal backoff retries were exhausted.
    HsEventsStreamRateLimitExhausted,
    /// The transport of a homeserver's /events-stream failed
    HsEventsStreamTransportFailed(String),
    /// A homeserver returned events whose cursors do not ascend: it either has a temporary
    /// glitch or is malicious
    EventCursorOutOfOrder { previous: u64, received: u64 },
    /// The homeserver is blacklisted and must not be indexed.
    HsBlacklisted { hs_id: String },
    MediaProcessorError(String),
    InternalError(String),
    StaticSaveFailed(String),
    /// Catch-all for miscellaneous errors in the processor layer
    Generic(String),
}

/// What a model's error is to an event processor.
pub open spec fn processor_error(e: ModelError) -> EventProcessorError {
    match e {
        ModelError::GraphOperationFailed(source) => EventProcessorError::GraphQueryFailed(
            source.should_not_retry_now,
            source.message,
        ),
        ModelError::KvOperationFailed(source) => EventProcessorError::IndexOperationFailed(
            source.should_not_retry_now,
            source.message,
        ),
        ModelError::MediaProcessorError(source) => EventProcessorError::MediaProcessorError(source),
        ModelError::FileOperationFailed(source) => EventProcessorError::InternalError(source),
        ModelError::HsBlacklisted { hs_id } => EventProcessorError::HsBlacklisted { hs_id },
        ModelError::Generic(message) => EventProcessorError::Generic(message),
    }
}

impl From<ModelError> for EventProcessorError {
    fn from(e: ModelError) -> (r: Self) {
        match e {
            ModelError::GraphOperationFailed(source) => EventProcessorError::GraphQueryFailed(
                source.should_not_retry_now,
                source.message,
            ),
            ModelError::KvOperationFailed(source) => EventProcessorError::IndexOperationFailed(
                source.should_not_retry_now,
                source.message,
            ),
            ModelError::MediaProcessorError(source) => EventProcessorError::MediaProcessorError(
                source,
            ),
            ModelError::FileOperationFailed(source) => EventProcessorError::InternalError(source),
            ModelError::HsBlacklisted { hs_id } => EventProcessorError::HsBlacklisted { hs_id },
            ModelError::Generic(message) => EventProcessorError::Generic(message),
        }
    }
}

impl vstd::std_specs::convert::FromSpecImpl<ModelError> for EventProcessorError {
    open spec fn obeys_from_spec() -> bool {
        true
    }

    open spec fn from_spec(e: ModelError) -> EventProcessorError {
        processor_error(e)
    }
}

impl From<ClientError> for EventProcessorError {
    fn from(e: ClientError) -> (r: Self) {
        EventProcessorError::ClientError(e)
    }
}

impl vstd::std_specs::convert::FromSpecImpl<ClientError> for EventProcessorError {
    open spec fn obeys_from_spec() -> bool {
        true
    }

    open spec fn from_spec(e: ClientError) -> EventProcessorError {
        EventProcessorError::ClientError(e)
    }
}

/// What happens to an event whose processing failed.
#[derive(Debug, Clone, Copy, PartialEq, Eq, Structural)]
pub enum Disposition {
    /// Stop the batch; what was not done is done again on the next run.
    StopBatch,
    /// Put the event on the retry queue until what it depends on is there.
    QueueMissingDependency,
    /// Put the event on the retry queue.
    QueueTransient,
    /// Log the error and go on without the event.
    Drop,
}

impl EventProcessorError {
    /// Whether the processor should stop the current batch and retry later. An exhausted
    /// event stream, or one out of order, aborts the run so that the runner can apply
    /// per-homeserver backoff.
    pub open spec fn stops_batch(self) -> bool {
        match self {
            EventProcessorError::GraphQueryFailed(stop, _) => stop,
            EventProcessorError::IndexOperationFailed(stop, _) => stop,
            EventProcessorError::HsEventsStreamRateLimitExhausted => true,
            EventProcessorError::HsEventsStreamTransportFailed(_) => true,
            EventProcessorError::EventCursorOutOfOrder { .. } => true,
            _ => false,
        }
    }

    /// Whether the event is worth another attempt.
    pub open spec fn is_retryable(self) -> bool {
        match self {
            EventProcessorError::ClientError(e) => e.is_transient(),
            EventProcessorError::InvalidEventLine(_) => false,
            EventProcessorError::SkipIndexing => false,
            EventProcessorError::SpecValidation(_) => false,
            EventProcessorError::HsBlacklisted { .. } => false,
            EventProcessorError::HsEventsStreamRateLimitExhausted => false,
            EventProcessorError::HsEventsStreamTransportFailed(_) => false,
            EventProcessorError::FetchSizeExceeded(_, _) => false,
            EventProcessorError::UserIdMismatch { .. } => false,
            EventProcessorError::EventCursorOutOfOrder { .. } => false,
            _ => true,
        }
    }

    /// What happens to an event that failed so.
    pub open spec fn outcome(self) -> Disposition {
        if self.stops_batch() {
            Disposition::StopBatch
        } else if self is MissingDependency {
            Disposition::QueueMissingDependency
        } else if self.is_retryable() {
            Disposition::QueueTransient
        } else {
            Disposition::Drop
        }
    }

    /// An event whose dependencies are not indexed yet.
    pub fn missing_dependencies(dependency_uris: Vec<String>) -> (r: Self)
        ensures
            r == (EventProcessorError::MissingDependency { dependency: dependency_uris }),
    {
        EventProcessorError::MissingDependency { dependency: dependency_uris }
    }

    /// A request that failed.
    pub fn client_error(message: String) -> (r: Self)
        ensures
            r == EventProcessorError::ClientError(ClientError::RequestFailed { message }),
    {
        EventProcessorError::ClientError(ClientError::RequestFailed { message })
    }

    /// A request for something that is not there.
    pub fn client_error_404(message: String) -> (r: Self)
        ensures
            r == EventProcessorError::ClientError(ClientError::NotFound404 { message }),
    {
        EventProcessorError::ClientError(ClientError::NotFound404 { message })
    }

    /// A file that could not be saved.
    pub fn static_save_failed(source: String) -> (r: Self)
        ensures
            r == EventProcessorError::StaticSaveFailed(source),
    {
        EventProcessorError::StaticSaveFailed(source)
    }

    /// Another error of the processor layer.
    pub fn generic(source: String) -> (r: Self)
        ensures
            r == EventProcessorError::Generic(source),
    {
        EventProcessorError::Generic(source)
    }

    /// An error inside the watcher.
    pub fn internal_error(source: String) -> (r: Self)
        ensures
            r == EventProcessorError::InternalError(source),
    {
        EventProcessorError::InternalError(source)
    }

    /// Whether the processor should stop the current batch and retry later.
    pub fn should_not_retry_now(&self) -> (r: bool)
        ensures
            r == self.stops_batch(),
    {
        match self {
            EventProcessorError::GraphQueryFailed(stop, _) => *stop,
            EventProcessorError::IndexOperationFailed(stop, _) => *stop,
            EventProcessorError::HsEventsStreamRateLimitExhausted => true,
            EventProcessorError::HsEventsStreamTransportFailed(_) => true,
            EventProcessorError::EventCursorOutOfOrder { .. } => true,
            _ => false,
        }
    }

    /// Returns whether this error is a 404 from the Pubky client.
    pub fn is_not_found(&self) -> (r: bool)
        ensures
            r == says_not_found(*self),
    {
        match self {
            EventProcessorError::ClientError(ClientError::NotFound404 { .. }) => true,
            _ => false,
        }
    }

    /// Returns whether this error is a 429 from the Pubky client.
    pub fn is_too_many_requests(&self) -> (r: bool)
        ensures
            r == says_too_many_requests(*self),
    {
        match self {
            EventProcessorError::ClientError(ClientError::TooManyRequests429 { .. }) => true,
            _ => false,
        }
    }

    /// Whether the event waits for something that is not indexed yet.
    pub fn is_missing_dependency(&self) -> (r: bool)
        ensures
            r == (self is MissingDependency),
    {
        match self {
            EventProcessorError::MissingDependency { .. } => true,
            _ => false,
        }
    }

    /// Whether the event is worth another attempt.
    pub fn should_enqueue_for_retry(&self) -> (r: bool)
        ensures
            r == self.is_retryable(),
    {
        match self {
            EventProcessorError::ClientError(e) => e.may_succeed_later(),
            EventProcessorError::InvalidEventLine(_) => false,
            EventProcessorError::SkipIndexing => false,
            EventProcessorError::SpecValidation(_) => false,
            EventProcessorError::HsBlacklisted { .. } => false,
            EventProcessorError::HsEventsStreamRateLimitExhausted => false,
            EventProcessorError::HsEventsStreamTransportFailed(_) => false,
            EventProcessorError::FetchSizeExceeded(_, _) => false,
            EventProcessorError::UserIdMismatch { .. } => false,
            EventProcessorError::EventCursorOutOfOrder { .. } => false,
            _ => true,
        }
    }

    /// What happens to an event that failed so.
    pub fn disposition(&self) -> (r: Disposition)
        ensures
            r == self.outcome(),
    {
        if self.should_not_retry_now() {
            Disposition::StopBatch
        } else if self.is_missing_dependency() {
            Disposition::QueueMissingDependency
        } else if self.should_enqueue_for_retry() {
            Disposition::QueueTransient
        } else {
            Disposition::Drop
        }
    }

    /// The error in words.
    pub open spec fn words(self) -> Seq<char> {
        match self {
            EventProcessorError::GraphQueryFailed(stop, m) =>
                "GraphQueryFailed (should_not_retry_now: "@ + bool_word(stop) + "): "@ + m@,
            EventProcessorError::MissingDependency { .. } =>
                "MissingDependency: Could not be indexed"@,
            EventProcessorError::IndexOperationFailed(stop, m) =>
                "IndexOperationFailed (should_not_retry_now: "@ + bool_word(stop)
                + "): Indexing incomplete due to Redis error: "@ + m@,
            EventProcessorError::SkipIndexing =>
                "SkipIndexing: The PUT event appears to be unindexed, so we cannot delete an object that doesn't exist"@,
            EventProcessorError::InvalidEventLine(m) => "InvalidEventLine: "@ + m@,
            EventProcessorError::UserIdMismatch { hs_id, expected_user_id, event_user_id } =>
                "HS returned an event for different user than expected: hs_id="@ + hs_id@
                + ", expected="@ + expected_user_id@ + ", received="@ + event_user_id@,
            EventProcessorError::SpecValidation(m) => "SpecValidation: "@ + m@,
            EventProcessorError::FetchSizeExceeded(n, max) => "FetchSizeExceeded: "@ + decimal(
                n as nat,
            ) + " bytes (limit: "@ + decimal(max as nat) + " bytes)"@,
            EventProcessorError::ClientError(e) => "ClientError: "@ + e.said(),
            EventProcessorError::HsEventsStreamRateLimitExhausted =>
                "HS /events-stream rate limit exhausted (429 after all backoff retries)"@,
            EventProcessorError::HsEventsStreamTransportFailed(m) =>
                "HS /events-stream transport failed: "@ + m@,
            EventProcessorError::EventCursorOutOfOrder { previous, received } =>
                "HS returned events out of order: previous="@ + decimal(previous as nat)
                + ", received="@ + decimal(received as nat),
            EventProcessorError::HsBlacklisted { hs_id } => "HsBlacklisted: "@ + hs_id@,
            EventProcessorError::MediaProcessorError(m) => "MediaProcessor: "@ + m@,
            EventProcessorError::InternalError(m) => "Internal error: "@ + m@,
            EventProcessorError::StaticSaveFailed(m) => "StaticSaveFailed: "@ + m@,
            EventProcessorError::Generic(m) => "Generic error: "@ + m@,
        }
    }

    /// The error in words.
    pub fn message(&self) -> (r: String)
        ensures
            r@ == self.words(),
    {
        match self {
            EventProcessorError::GraphQueryFailed(stop, m) =>
                "GraphQueryFailed (should_not_retry_now: ".to_owned().concat(bool_text(*stop))
                .concat("): ").concat(m.as_str()),
            EventProcessorError::MissingDependency { .. } =>
                "MissingDependency: Could not be indexed".to_owned(),
            EventProcessorError::IndexOperationFailed(stop, m) =>
                "IndexOperationFailed (should_not_retry_now: ".to_owned().concat(bool_text(*stop))
                .concat("): Indexing incomplete due to Redis error: ").concat(m.as_str()),
            EventProcessorError::SkipIndexing =>
                "SkipIndexing: The PUT event appears to be unindexed, so we cannot delete an object that doesn't exist".to_owned(),
            EventProcessorError::InvalidEventLine(m) =>
                "InvalidEventLine: ".to_owned().concat(m.as_str()),
            EventProcessorError::UserIdMismatch { hs_id, expected_user_id, event_user_id } =>
                "HS returned an event for different user than expected: hs_id=".to_owned()
                .concat(hs_id.as_str()).concat(", expected=").concat(expected_user_id.as_str())
                .concat(", received=").concat(event_user_id.as_str()),
            EventProcessorError::SpecValidation(m) =>
                "SpecValidation: ".to_owned().concat(m.as_str()),
            EventProcessorError::FetchSizeExceeded(n, max) => {
                let size = decimal_text(*n);
                let limit = decimal_text(*max);
                "FetchSizeExceeded: ".to_owned().concat(size.as_str()).concat(" bytes (limit: ")
                    .concat(limit.as_str()).concat(" bytes)")
            },
            EventProcessorError::ClientError(e) => "ClientError: ".to_owned().concat(e.message()),
            EventProcessorError::HsEventsStreamRateLimitExhausted =>
                "HS /events-stream rate limit exhausted (429 after all backoff retries)".to_owned(),
            EventProcessorError::HsEventsStreamTransportFailed(m) =>
                "HS /events-stream transport failed: ".to_owned().concat(m.as_str()),
            EventProcessorError::EventCursorOutOfOrder { previous, received } => {
                let a = decimal_text(*previous);
                let b = decimal_text(*received);
                "HS returned events out of order: previous=".to_owned().concat(a.as_str())
                    .concat(", received=").concat(b.as_str())
            },
            EventProcessorError::HsBlacklisted { hs_id } =>
                "HsBlacklisted: ".to_owned().concat(hs_id.as_str()),
            EventProcessorError::MediaProcessorError(m) =>
                "MediaProcessor: ".to_owned().concat(m.as_str()),
            EventProcessorError::InternalError(m) =>
                "Internal error: ".to_owned().concat(m.as_str()),
            EventProcessorError::StaticSaveFailed(m) =>
                "StaticSaveFailed: ".to_owned().concat(m.as_str()),
            EventProcessorError::Generic(m) => "Generic error: ".to_owned().concat(m.as_str()),
        }
    }
}

/// An event is put on the retry queue only where that can help: never for a payload that
/// would fail again, for something that is gone, or for a homeserver that must not be
/// indexed.
pub proof fn law_hopeless_events_are_dropped(e: EventProcessorError)
    requires
        e is InvalidEventLine || e is SkipIndexing || e is SpecValidation || e is HsBlacklisted
            || e is FetchSizeExceeded || e is UserIdMismatch || (
        e matches EventProcessorError::ClientError(c) && !c.is_transient()),
    ensures
        e.outcome() == Disposition::Drop,
{
}

/// An event that waits for something is queued for it, whatever it waits for.
pub proof fn law_missing_dependency_is_queued(e: EventProcessorError)
    requires
        e is MissingDependency,
    ensures
        e.outcome() == Disposition::QueueMissingDependency,
{
}

/// A failure of a database stops the batch exactly where the database says so; otherwise
/// the event is queued.
pub proof fn law_database_failures(e: EventProcessorError, stop: bool, message: String)
    requires
        e == EventProcessorError::GraphQueryFailed(stop, message) || e
            == EventProcessorError::IndexOperationFailed(stop, message),
    ensures
        e.outcome() == (if stop {
            Disposition::StopBatch
        } else {
            Disposition::QueueTransient
        }),
{
}

/// A client's failure is worth another attempt unless the thing is gone, the key is refused, or the
/// request could not be built or its answer read.
pub proof fn law_client_failures(c: ClientError)
    ensures
        EventProcessorError::ClientError(c).outcome() == (if c is NotFound404
            || c is AuthenticationFailed || c is BuildFailed || c is ParseFailed {
            Disposition::Drop
        } else {
            Disposition::QueueTransient
        }),
{
}

/// A batch stops on a database that says so, on an event stream that is exhausted or whose transport
/// failed, and on cursors out of order; on nothing else.
pub proof fn law_what_stops_a_batch(e: EventProcessorError)
    ensures
        e.outcome() == Disposition::StopBatch <==> (e matches EventProcessorError::GraphQueryFailed(
            true,
            _,
        )) || (e matches EventProcessorError::IndexOperationFailed(true, _))
            || e is HsEventsStreamRateLimitExhausted || e is HsEventsStreamTransportFailed
            || e is EventCursorOutOfOrder,
        e.stops_batch() <==> e.outcome() == Disposition::StopBatch,
{
}

/// What went wrong inside the watcher is tried again.
pub proof fn law_inner_failures_are_tried_again(e: EventProcessorError)
    requires
        e is MediaProcessorError || e is InternalError || e is StaticSaveFailed || e is Generic,
    ensures
        e.outcome() == Disposition::QueueTransient,
        e.is_retryable(),
{
}

/// A model's error keeps its cause on the way to the event processor: what it said, which
/// homeserver it was about, and whether the batch should stop.
pub proof fn law_model_errors_keep_their_cause(e: ModelError)
    ensures
        ({
            let p = processor_error(e);
            &&& p is GraphQueryFailed <==> e is GraphOperationFailed
            &&& p is IndexOperationFailed <==> e is KvOperationFailed
            &&& p is MediaProcessorError <==> e is MediaProcessorError
            &&& p is InternalError <==> e is FileOperationFailed
            &&& p is HsBlacklisted <==> e is HsBlacklisted
            &&& p is Generic <==> e is Generic
            &&& e matches ModelError::GraphOperationFailed(s) ==> p.stops_batch()
                == s.should_not_retry_now
            &&& e matches ModelError::KvOperationFailed(s) ==> p.stops_batch()
                == s.should_not_retry_now
            &&& e matches ModelError::HsBlacklisted { hs_id } ==> p.words() == "HsBlacklisted: "@
                + hs_id@
            &&& e matches ModelError::MediaProcessorError(m) ==> p.words() == "MediaProcessor: "@
                + m@
            &&& e matches ModelError::FileOperationFailed(m) ==> p.words() == "Internal error: "@
                + m@
            &&& e matches ModelError::Generic(m) ==> p.words() == "Generic error: "@ + m@
        }),
{
}

/// What is said of an event of another user tells whom it was expected of and whose it is.
pub proof fn law_mismatches_tell_both_users(hs_id: String, expected: String, received: String)
    ensures
        (EventProcessorError::UserIdMismatch {
            hs_id,
            expected_user_id: expected,
            event_user_id: received,
        }).words() == "HS returned an event for different user than expected: hs_id="@ + hs_id@
            + ", expected="@ + expected@ + ", received="@ + received@,
{
}

/// What the client said is told after the word for its errors.
pub proof fn law_client_errors_tell_what_was_said(c: ClientError, message: String)
    requires
        c == (ClientError::RequestFailed { message }) || c == (ClientError::NotFound404 { message })
            || c == (ClientError::TooManyRequests429 { message }) || c == (
        ClientError::ServerError5xx { message }) || c == (ClientError::TransportFailed { message })
            || c == ClientError::PkarrFailed(message) || c == ClientError::AuthenticationFailed(
            message,
        ) || c == ClientError::BuildFailed(message) || c == ClientError::ParseFailed(message),
    ensures
        EventProcessorError::ClientError(c).words() == "ClientError: "@ + message@,
{
}

/// The error for an answer that is no success.
pub open spec fn failure_of_status(status: u16, message: String) -> ClientError {
    if status == 404 {
        ClientError::NotFound404 { message }
    } else if status == 429 {
        ClientError::TooManyRequests429 { message }
    } else if 500 <= status <= 599 {
        ClientError::ServerError5xx { message }
    } else {
        ClientError::RequestFailed { message }
    }
}

/// Whether an error is a 404.
pub open spec fn says_not_found(e: EventProcessorError) -> bool {
    e matches EventProcessorError::ClientError(ClientError::NotFound404 { .. })
}

/// Whether an error is a 429.
pub open spec fn says_too_many_requests(e: EventProcessorError) -> bool {
    e matches EventProcessorError::ClientError(ClientError::TooManyRequests429 { .. })
}

/// An answer is filed by its status: what is gone, what came too often, what the server failed at, and
/// all else. What it said is kept, and only what is gone is not asked for again.
pub proof fn law_answers_are_filed_by_their_status(status: u16, message: String)
    ensures
        ({
            let c = failure_of_status(status, message);
            let e = EventProcessorError::ClientError(c);
            &&& says_not_found(e) <==> status == 404
            &&& says_too_many_requests(e) <==> status == 429
            &&& c is ServerError5xx <==> status / 100 == 5
            &&& c is RequestFailed <==> status != 404 && status != 429 && status / 100 != 5
            &&& c.said() == message@
            &&& e.outcome() == Disposition::Drop <==> status == 404
        }),
{
}

/// An error that was told something tells it again at the end of its words.
pub proof fn law_errors_tell_what_they_were_told(e: EventProcessorError, stop: bool, told: String)
    requires
        e == EventProcessorError::GraphQueryFailed(stop, told) || e
            == EventProcessorError::IndexOperationFailed(stop, told) || e
            == EventProcessorError::InvalidEventLine(told) || e
            == EventProcessorError::SpecValidation(told) || e
            == EventProcessorError::HsEventsStreamTransportFailed(told) || e
            == EventProcessorError::MediaProcessorError(told) || e
            == EventProcessorError::InternalError(told) || e
            == EventProcessorError::StaticSaveFailed(told) || e == EventProcessorError::Generic(
            told,
        ) || e == (EventProcessorError::HsBlacklisted { hs_id: told }),
    ensures
        e.words().len() >= told@.len(),
        e.words().skip(e.words().len() - told@.len()) == told@,
{
    assert(e.words().skip(e.words().len() - told@.len()) =~= told@);
}

/// Sizes and cursors are told in their order: what came before what was allowed, and what was seen
/// before what was received.
pub proof fn law_errors_tell_numbers_in_order(a: u64, b: u64)
    ensures
        EventProcessorError::FetchSizeExceeded(a, b).words() == "FetchSizeExceeded: "@ + decimal(
            a as nat,
        ) + " bytes (limit: "@ + decimal(b as nat) + " bytes)"@,
        (EventProcessorError::EventCursorOutOfOrder { previous: a, received: b }).words()
            == "HS returned events out of order: previous="@ + decimal(a as nat) + ", received="@
            + decimal(b as nat),
{
}

} // verus!
