//! Events: how a line or an entry of a homeserver's stream is read.
use crate::text::{split, split_all, views};
use crate::uri::{extended_uri, ExtendedParsedUri, Resource, ResourceView};
use crate::watcher::errors::EventProcessorError;
use vstd::prelude::*;

verus! {

/// What happened to a resource.
#[derive(Debug, Clone, Copy, PartialEq, Eq, Structural)]
pub enum EventType {
    Put,
    Del,
}

impl EventType {
    /// The word for the event on an event line.
    pub open spec fn word(self) -> Seq<char> {
        match self {
            EventType::Put => "PUT"@,
            EventType::Del => "DEL"@,
        }
    }

    /// The word for the event on an event line.
    pub fn as_str(&self) -> (r: &'static str)
        ensures
            r@ == self.word(),
    {
        match self {
            EventType::Put => "PUT",
            EventType::Del => "DEL",
        }
    }
}

/// An event that the watcher acts on.
#[derive(Debug, Clone, PartialEq, Eq)]
pub struct Event {
    /// Pubky resource URI from the homeserver event line.
    pub uri: String,
    /// Operation represented by the event, used to dispatch to PUT or DEL handlers.
    pub event_type: EventType,
    /// Parsed representation of the URI.
    pub parsed_uri: ExtendedParsedUri,
    /// Original event line as received from the homeserver.
    pub event_line: String,
}

/// Result of parsing an event line from a homeserver.
#[derive(Debug, Clone, PartialEq, Eq)]
pub enum ParseResult {
    /// Successfully parsed into a known, actionable event.
    Parsed(Event),
    /// Known resource type that the watcher does not handle (e.g. LastRead, Feed, Blob).
    Skipped,
    /// URI was not recognised. This may be an app-specific path or a genuinely malformed
    /// URI. Callers should attempt fallback handling and log `reason` if no handler claims
    /// it.
    UnrecognizedUri { event_type: EventType, uri: String, reason: String },
}

/// An event of a user's event stream.
#[derive(Debug, Clone, PartialEq, Eq)]
pub struct StreamEvent {
    pub event_type: EventType,
    /// The URI of the resource.
    pub uri: String,
    /// Position of the event in the stream.
    pub cursor: u64,
}

/// Whether events of this resource are known but not handled.
pub open spec fn is_unhandled(resource: ResourceView) -> bool {
    resource is LastRead || resource is Feed || resource is Blob
}

/// Whether `r` is what is made of an event whose URI was read as `parsed`.
pub open spec fn classified_as(
    event_type: EventType,
    uri: Seq<char>,
    line: Seq<char>,
    parsed: Result<ExtendedParsedUri, String>,
    r: Result<ParseResult, EventProcessorError>,
) -> bool {
    match parsed {
        Err(e) => r matches Ok(ParseResult::UnrecognizedUri { event_type: t, uri: u, reason }) && t
            == event_type && u@ == uri && reason == e,
        Ok(p) => if p is PubkyApp && p.points_at() is Unknown {
            r matches Err(EventProcessorError::InvalidEventLine(m)) && m@
                == "Unknown resource in URI: "@ + uri
        } else if p is PubkyApp && is_unhandled(p.points_at()) {
            r matches Ok(ParseResult::Skipped)
        } else {
            r matches Ok(ParseResult::Parsed(event)) && event.uri@ == uri && event.event_type
                == event_type && event.parsed_uri == p && event.line() == line
        },
    }
}

/// Whether `r` is what is made of an event of a type and a URI.
pub open spec fn parts_parsed_as(
    event_type: EventType,
    uri: Seq<char>,
    line: Seq<char>,
    r: Result<ParseResult, EventProcessorError>,
) -> bool {
    exists|parsed: Result<ExtendedParsedUri, String>| #[trigger]
        uri_read_as(uri, parsed) && classified_as(event_type, uri, line, parsed, r)
}

/// Whether `parsed` is what the text of a URI is read as.
pub open spec fn uri_read_as(uri: Seq<char>, parsed: Result<ExtendedParsedUri, String>) -> bool {
    match parsed {
        Ok(p) => p.is_of(uri) && (p is UniversalTag ==> p.points_at() is Tag),
        Err(e) => extended_uri(uri) matches Err(m) && m == e@,
    }
}

/// Whether `r` is what is made of an event line: two words, separated by one space, of
/// which the first is `PUT` or `DEL` and the second a URI.
pub open spec fn line_parsed_as(
    line: Seq<char>,
    r: Result<ParseResult, EventProcessorError>,
) -> bool {
    let parts = split_all(line, ' ');
    if parts.len() != 2 {
        r matches Err(EventProcessorError::InvalidEventLine(m)) && m@
            == "Malformed event line, "@ + line
    } else if parts[0] == "PUT"@ {
        parts_parsed_as(EventType::Put, parts[1], line, r)
    } else if parts[0] == "DEL"@ {
        parts_parsed_as(EventType::Del, parts[1], line, r)
    } else {
        r matches Err(EventProcessorError::InvalidEventLine(m)) && m@ == "Unknown event type: "@
            + parts[0]
    }
}

/// Whether `r` is what is made of an event of a stream: only an event to act on is kept.
pub open spec fn stream_event_read_as(
    stream_event: StreamEvent,
    r: Result<Option<Event>, EventProcessorError>,
) -> bool {
    let line = stream_event.event_type.word() + " "@ + stream_event.uri@;
    exists|parsed: Result<ParseResult, EventProcessorError>| #[trigger]
        parts_parsed_as(stream_event.event_type, stream_event.uri@, line, parsed) && (match parsed {
            Err(e) => r == Err::<Option<Event>, EventProcessorError>(e),
            Ok(ParseResult::Parsed(event)) => r == Ok::<Option<Event>, EventProcessorError>(
                Some(event),
            ),
            Ok(_) => r == Ok::<Option<Event>, EventProcessorError>(None),
        })
}

impl Event {
    /// The event line as received.
    pub open spec fn line(self) -> Seq<char> {
        self.event_line@
    }

    /// Makes of an event what its URI says once that has been read.
    pub fn classify(
        event_type: EventType,
        uri: String,
        event_line: String,
        parsed: Result<ExtendedParsedUri, String>,
    ) -> (r: Result<ParseResult, EventProcessorError>)
        ensures
            classified_as(event_type, uri@, event_line@, parsed, r),
    {
        let parsed_uri = match parsed {
            Ok(p) => p,
            Err(reason) => {
                return Ok(ParseResult::UnrecognizedUri { event_type, uri, reason });
            },
        };
        if let ExtendedParsedUri::PubkyApp { resource, .. } = &parsed_uri {
            match resource {
                Resource::Unknown => {
                    return Err(
                        EventProcessorError::InvalidEventLine(
                            "Unknown resource in URI: ".to_owned().concat(uri.as_str()),
                        ),
                    );
                },
                Resource::LastRead => {
                    return Ok(ParseResult::Skipped);
                },
                Resource::Feed(_) => {
                    return Ok(ParseResult::Skipped);
                },
                Resource::Blob(_) => {
                    return Ok(ParseResult::Skipped);
                },
                _ => {},
            }
        }
        Ok(ParseResult::Parsed(Event { uri, event_type, parsed_uri, event_line }))
    }

    /// Reads the URI of an event and makes of the event what it says.
    fn parse_event_parts(event_type: EventType, uri: String, event_line: String) -> (r: Result<
        ParseResult,
        EventProcessorError,
    >)
        ensures
            parts_parsed_as(event_type, uri@, event_line@, r),
    {
        let ghost uri_text = uri@;
        let parsed = ExtendedParsedUri::try_from(uri.as_str());
        let ghost read = parsed;
        let r = Self::classify(event_type, uri, event_line, parsed);
        assert(uri_read_as(uri_text, read));
        r
    }

    /// Parse event from a line returned by the homeserver's `/events` endpoint.
    pub fn parse_event(line: &str) -> (r: Result<ParseResult, EventProcessorError>)
        ensures
            line_parsed_as(line@, r),
    {
        let parts = split(line, ' ');
        assert(views(parts@).len() == parts@.len());
        if parts.len() != 2 {
            return Err(
                EventProcessorError::InvalidEventLine(
                    "Malformed event line, ".to_owned().concat(line),
                ),
            );
        }
        assert(views(parts@)[0] == parts@[0]@ && views(parts@)[1] == parts@[1]@);
        let event_type = if *parts[0].as_str() == *"PUT" {
            EventType::Put
        } else if *parts[0].as_str() == *"DEL" {
            EventType::Del
        } else {
            return Err(
                EventProcessorError::InvalidEventLine(
                    "Unknown event type: ".to_owned().concat(parts[0].as_str()),
                ),
            );
        };
        proof {
            reveal_strlit("PUT");
            reveal_strlit("DEL");
            assert("PUT"@[0] == 'P' && "DEL"@[0] == 'D');
        }
        Self::parse_event_parts(event_type, parts[1].clone(), line.to_owned())
    }

    /// Makes an event directly of an entry of a stream, without the round trip through an
    /// event line.
    pub fn from_stream_event(stream_event: &StreamEvent) -> (r: Result<
        Option<Event>,
        EventProcessorError,
    >)
        ensures
            stream_event_read_as(*stream_event, r),
    {
        let line = stream_event.event_type.as_str().to_owned().concat(" ").concat(
            stream_event.uri.as_str(),
        );
        let parsed = Self::parse_event_parts(
            stream_event.event_type,
            stream_event.uri.clone(),
            line,
        );
        assert(parts_parsed_as(stream_event.event_type, stream_event.uri@, line@, parsed));
        match parsed {
            Err(e) => Err(e),
            Ok(ParseResult::Parsed(event)) => Ok(Some(event)),
            Ok(ParseResult::Skipped) => Ok(None),
            Ok(ParseResult::UnrecognizedUri { .. }) => Ok(None),
        }
    }

    /// The event line as received, to be stored once the event is indexed.
    pub fn to_event_line(&self) -> (r: String)
        ensures
            r@ == self.line(),
    {
        self.event_line.clone()
    }

    /// The user that the event's resource belongs to.
    pub fn user_id(&self) -> (r: String)
        ensures
            r@ == self.parsed_uri.user(),
    {
        self.parsed_uri.user_id().text()
    }

    /// The label of the event's resource.
    pub fn resource_label(&self) -> (r: &'static str)
        ensures
            r@ == self.parsed_uri.points_at().label(),
    {
        self.parsed_uri.resource().label()
    }

    /// The id of the event's resource, empty where it has none.
    pub fn resource_id(&self) -> (r: String)
        ensures
            r@ == (match self.parsed_uri.points_at().id() {
                Some(id) => id,
                None => Seq::<char>::empty(),
            }),
    {
        match self.parsed_uri.resource().id() {
            Some(id) => id,
            None => String::new(),
        }
    }
}

/// An event that is acted on is about a resource that the watcher handles.
pub proof fn law_parsed_events_are_handled(
    line: Seq<char>,
    r: Result<ParseResult, EventProcessorError>,
)
    requires
        line_parsed_as(line, r),
    ensures
        r matches Ok(ParseResult::Parsed(event)) ==> event.line() == line && !is_unhandled(
            event.parsed_uri.points_at(),
        ) && !(event.parsed_uri.points_at() is Unknown) && event.parsed_uri.is_of(event.uri@),
{
    let parts = split_all(line, ' ');
    if parts.len() == 2 && parts[0] == "PUT"@ {
        let parsed = choose|parsed: Result<ExtendedParsedUri, String>| #[trigger]
            uri_read_as(parts[1], parsed) && classified_as(EventType::Put, parts[1], line, parsed, r);
        assert(uri_read_as(parts[1], parsed));
    } else if parts.len() == 2 && parts[0] == "DEL"@ {
        let parsed = choose|parsed: Result<ExtendedParsedUri, String>| #[trigger]
            uri_read_as(parts[1], parsed) && classified_as(EventType::Del, parts[1], line, parsed, r);
        assert(uri_read_as(parts[1], parsed));
    }
}

/// Reading a line fails in one way only: the line is invalid, and the batch goes on.
pub proof fn law_unreadable_lines_are_dropped(
    line: Seq<char>,
    r: Result<ParseResult, EventProcessorError>,
)
    requires
        line_parsed_as(line, r),
    ensures
        r matches Err(e) ==> e is InvalidEventLine && !e.stops_batch() && !e.is_retryable(),
{
}

/// An event is put or deleted as its line says, and is about the URI that its line names.
pub proof fn law_events_keep_their_word(line: Seq<char>, r: Result<ParseResult, EventProcessorError>)
    requires
        line_parsed_as(line, r),
    ensures
        r matches Ok(ParseResult::Parsed(event)) ==> split_all(line, ' ') == seq![
            event.event_type.word(),
            event.uri@,
        ],
        r matches Ok(ParseResult::UnrecognizedUri { event_type, uri, .. }) ==> split_all(line, ' ')
            == seq![event_type.word(), uri@],
        EventType::Put.word() == "PUT"@,
        EventType::Del.word() == "DEL"@,
        EventType::Put.word() != EventType::Del.word(),
{
    reveal_strlit("PUT");
    reveal_strlit("DEL");
    assert("PUT"@[0] == 'P' && "DEL"@[0] == 'D');
    let parts = split_all(line, ' ');
    if parts.len() == 2 {
        assert(parts =~= seq![parts[0], parts[1]]);
    }
}

/// An event of a user's stream keeps its type and its URI, and its line puts both into words.
pub proof fn law_stream_events_keep_their_word(
    stream_event: StreamEvent,
    r: Result<Option<Event>, EventProcessorError>,
)
    requires
        stream_event_read_as(stream_event, r),
    ensures
        r matches Ok(Some(event)) ==> event.event_type == stream_event.event_type && event.uri@
            == stream_event.uri@ && event.line() == stream_event.event_type.word() + " "@
            + stream_event.uri@ && event.parsed_uri.is_of(stream_event.uri@) && !is_unhandled(
            event.parsed_uri.points_at(),
        ),
        r matches Err(e) ==> e is InvalidEventLine,
{
    let line = stream_event.event_type.word() + " "@ + stream_event.uri@;
    let parsed = choose|parsed: Result<ParseResult, EventProcessorError>| #[trigger]
        parts_parsed_as(stream_event.event_type, stream_event.uri@, line, parsed) && (match parsed {
            Err(e) => r == Err::<Option<Event>, EventProcessorError>(e),
            Ok(ParseResult::Parsed(event)) => r == Ok::<Option<Event>, EventProcessorError>(
                Some(event),
            ),
            Ok(_) => r == Ok::<Option<Event>, EventProcessorError>(None),
        });
    assert(parts_parsed_as(stream_event.event_type, stream_event.uri@, line, parsed));
}

/// Events of blobs, feeds and read markers of the app are passed over, and of no other resource.
pub proof fn law_what_is_passed_over(
    event_type: EventType,
    uri: Seq<char>,
    line: Seq<char>,
    parsed: ExtendedParsedUri,
    r: Result<ParseResult, EventProcessorError>,
)
    requires
        classified_as(event_type, uri, line, Ok(parsed), r),
    ensures
        r matches Ok(ParseResult::Skipped) <==> parsed is PubkyApp && (parsed.points_at() is Blob
            || parsed.points_at() is Feed || parsed.points_at() is LastRead),
        r is Err <==> parsed is PubkyApp && parsed.points_at() is Unknown,
        r matches Ok(ParseResult::Parsed(event)) ==> event.event_type == event_type
            && event.parsed_uri == parsed && event.uri@ == uri,
{
}

} // verus!
