//! Size limits on what is fetched from homeservers.
use crate::text::{from_utf8_lossy, utf8_lossy};
use crate::watcher::errors::{ClientError, EventProcessorError};
use vstd::prelude::*;

verus! {

/// Max bytes to read from an error response body.
pub const MAX_ERROR_BODY: usize = 4 * 1024;

/// Max bytes for a JSON resource descriptor (user, post, tag, file meta, etc).
pub const MAX_RESOURCE_SIZE: usize = 2 * 1024 * 1024;

/// Max bytes for a homeserver `/events` response body.
/// Worst case: 1 000 events × 4 160 bytes/line ≈ 4 MiB; 5 MiB gives headroom.
pub const MAX_EVENTS_BODY: usize = 5 * 1024 * 1024;

/// An error body as it stands in a message: at most `max` bytes of it, and a note where it
/// was longer.
pub open spec fn error_body_text(bytes: Seq<u8>, max: int) -> Seq<char> {
    if bytes.len() > max {
        utf8_lossy(bytes.take(max)) + "… (truncated)"@
    } else {
        utf8_lossy(bytes)
    }
}

/// Truncates a byte slice to `max` bytes for safe embedding in error messages.
pub fn format_error_body(bytes: &[u8], max: usize) -> (r: String)
    ensures
        r@ == error_body_text(bytes@, max as int),
{
    if bytes.len() > max {
        let head = vstd::slice::slice_subrange(bytes, 0, max);
        assert(head@ =~= bytes@.take(max as int));
        from_utf8_lossy(head).concat("… (truncated)")
    } else {
        from_utf8_lossy(bytes)
    }
}

/// What came of reading a body up to a limit: the bytes and whether there were more, or
/// the text of the stream's error.
pub type CappedRead = Result<(Vec<u8>, bool), String>;

/// Refuses a body whose announced length is over the limit, before any of it is read.
pub fn check_content_length(content_length: Option<u64>, max: u64) -> (r: Result<
    (),
    EventProcessorError,
>)
    ensures
        match r {
            Ok(_) => !(content_length matches Some(n) && n > max),
            Err(e) => content_length matches Some(n) && n > max && e
                == EventProcessorError::FetchSizeExceeded(n, max),
        },
{
    match content_length {
        Some(cl) => if cl > max {
            Err(EventProcessorError::FetchSizeExceeded(cl, max))
        } else {
            Ok(())
        },
        None => Ok(()),
    }
}

/// Fetches a body, enforcing a size limit.
///
/// 1. If the announced length is over `max`, it is rejected, whatever was read.
/// 2. Otherwise what was read decides, which catches lying or missing lengths.
///
/// Returns `FetchSizeExceeded` on size violation, `ClientError` on stream failure.
pub fn fetch_capped(content_length: Option<u64>, read: CappedRead, max: u64) -> (r: Result<
    Vec<u8>,
    EventProcessorError,
>)
    ensures
        fetched_as(content_length, read, max, r),
        r matches Ok(buf) ==> buf@.len() <= max,
{
    match check_content_length(content_length, max) {
        Err(e) => Err(e),
        Ok(_) => match read {
            Err(message) => Err(EventProcessorError::client_error(message)),
            Ok((buf, exceeded)) => if exceeded || buf.len() as u64 > max {
                Err(EventProcessorError::FetchSizeExceeded(buf.len() as u64, max))
            } else {
                Ok(buf)
            },
        },
    }
}

/// Whether `r` is what is made of an announced length and a read.
pub open spec fn fetched_as(
    content_length: Option<u64>,
    read: CappedRead,
    max: u64,
    r: Result<Vec<u8>, EventProcessorError>,
) -> bool {
    if content_length matches Some(n) && n > max {
        r matches Err(EventProcessorError::FetchSizeExceeded(n, m)) && n == content_length->0 && m
            == max
    } else {
        match read {
            Err(message) => r matches Err(
                EventProcessorError::ClientError(ClientError::RequestFailed { message: m }),
            ) && m == message,
            Ok((buf, exceeded)) => if exceeded || buf@.len() > max {
                r matches Err(EventProcessorError::FetchSizeExceeded(n, m)) && n
                    == buf@.len() && m == max
            } else {
                r matches Ok(b) && b == buf
            },
        }
    }
}

/// A body over the limit is never accepted and never retried, whether its length was
/// announced or not.
pub proof fn law_oversized_bodies_are_final(
    content_length: Option<u64>,
    read: CappedRead,
    max: u64,
    r: Result<Vec<u8>, EventProcessorError>,
)
    requires
        fetched_as(content_length, read, max, r),
        (content_length matches Some(n) && n > max) || (read matches Ok(b) && (b.1 || b.0@.len()
            > max)),
    ensures
        r is Err,
        !r->Err_0.is_retryable(),
        !r->Err_0.stops_batch(),
{
}

/// A body within the limit is told whole. A longer one is told by its first bytes alone, so that all
/// that begin alike are told alike, and is marked as cut.
pub proof fn law_long_bodies_are_cut(a: Seq<u8>, b: Seq<u8>, max: int)
    requires
        max >= 0,
    ensures
        a.len() <= max ==> error_body_text(a, max) == utf8_lossy(a),
        a.len() > max && b.len() > max && a.take(max) == b.take(max) ==> error_body_text(a, max)
            == error_body_text(b, max),
        a.len() > max ==> error_body_text(a, max) == error_body_text(a.take(max), max)
            + "… (truncated)"@,
{
}

/// A body that is too large is told by its size and by the limit, and one that could not be read by what
/// was said of it; anything else is what was read.
pub proof fn law_bodies_are_what_was_read(
    content_length: Option<u64>,
    read: CappedRead,
    max: u64,
    r: Result<Vec<u8>, EventProcessorError>,
)
    requires
        fetched_as(content_length, read, max, r),
    ensures
        r matches Ok(b) ==> read == Ok::<(Vec<u8>, bool), String>((b, false)) && b@.len() <= max,
        r matches Err(EventProcessorError::FetchSizeExceeded(n, m)) ==> m == max && (content_length
            == Some(n) || (read matches Ok(b) && n == b.0@.len())),
        r matches Err(e) ==> e is FetchSizeExceeded || (read matches Err(message) && e
            == EventProcessorError::ClientError(ClientError::RequestFailed { message })),
        read matches Ok(b) ==> (!b.1 && b.0@.len() <= max && (content_length matches Some(n) ==> n
            <= max) ==> r is Ok),
{
}

} // verus!
