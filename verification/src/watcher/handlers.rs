//! Which handler takes an event, and what a fetched resource is good for.
use crate::config::watcher::WatcherConfig;
use crate::uri::{
    strict_uri, ExtendedParsedUri, ParsedUri, PubkyId, Resource, ResourceView,
};
use crate::user::ingestor::UserIngestor;
use crate::watcher::errors::{ClientError, Disposition, EventProcessorError};
use crate::watcher::event::Event;
use crate::watcher::fetch::{
    error_body_text, fetch_capped, fetched_as, format_error_body, CappedRead, MAX_ERROR_BODY,
    MAX_RESOURCE_SIZE,
};
use pubky_app_specs::{PubkyId as SpecsId, Resource as SpecsResource};
use vstd::prelude::*;

verus! {

/// An imported object, as `pubky_app_specs` holds it.
#[verifier::external_type_specification]
#[verifier::external_body]
pub struct ExPubkyAppObject(pubky_app_specs::PubkyAppObject);

/// Kind of an imported object.
#[derive(Debug, Clone, Copy, PartialEq, Eq, Structural)]
pub enum ObjectKind {
    User,
    Post,
    Follow,
    Mute,
    Bookmark,
    Tag,
    File,
    Blob,
    Feed,
    LastRead,
}

/// The kind of the objects that stand at a resource; nothing stands at an unknown one.
pub open spec fn kind_at(resource: ResourceView) -> Option<ObjectKind> {
    match resource {
        ResourceView::User => Some(ObjectKind::User),
        ResourceView::Post(_) => Some(ObjectKind::Post),
        ResourceView::Follow(_) => Some(ObjectKind::Follow),
        ResourceView::Mute(_) => Some(ObjectKind::Mute),
        ResourceView::Bookmark(_) => Some(ObjectKind::Bookmark),
        ResourceView::Tag(_) => Some(ObjectKind::Tag),
        ResourceView::File(_) => Some(ObjectKind::File),
        ResourceView::Blob(_) => Some(ObjectKind::Blob),
        ResourceView::Feed(_) => Some(ObjectKind::Feed),
        ResourceView::LastRead => Some(ObjectKind::LastRead),
        ResourceView::Unknown => None,
    }
}

/// The kind of the objects that stand at a resource.
fn resource_kind(resource: &Resource) -> (r: Option<ObjectKind>)
    ensures
        r == kind_at(resource@),
{
    match resource {
        Resource::User => Some(ObjectKind::User),
        Resource::Post(_) => Some(ObjectKind::Post),
        Resource::Follow(_) => Some(ObjectKind::Follow),
        Resource::Mute(_) => Some(ObjectKind::Mute),
        Resource::Bookmark(_) => Some(ObjectKind::Bookmark),
        Resource::Tag(_) => Some(ObjectKind::Tag),
        Resource::File(_) => Some(ObjectKind::File),
        Resource::Blob(_) => Some(ObjectKind::Blob),
        Resource::Feed(_) => Some(ObjectKind::Feed),
        Resource::LastRead => Some(ObjectKind::LastRead),
        Resource::Unknown => None,
    }
}

/// Whether the id of a resource is a date, which is held against the clock.
pub open spec fn is_dated(resource: ResourceView) -> bool {
    resource is Post || resource is File
}

/// What is said of a date that lies too far ahead of the clock.
pub open spec fn too_far_ahead() -> Seq<char> {
    "Validation Error: Invalid ID, timestamp is too far in the future"@
}

/// What `PubkyAppObject::from_resource` makes of bytes at a resource where no date is too far
/// ahead of the clock: the object, or the text of its error.
pub uninterp spec fn imported_as(resource: ResourceView, blob: Seq<u8>) -> Result<
    pubky_app_specs::PubkyAppObject,
    Seq<char>,
>;

/// The view of a result whose error is a text.
pub open spec fn import_view<T>(r: Result<T, String>) -> Result<T, Seq<char>> {
    match r {
        Ok(object) => Ok(object),
        Err(e) => Err(e@),
    }
}

/// Whether a resource is refused because its date is too far ahead of the clock.
pub open spec fn is_ahead<T>(resource: ResourceView, r: Result<T, String>) -> bool {
    is_dated(resource) && (r matches Err(e) && e@ == too_far_ahead())
}

/// `pubky_app_specs::PubkyAppObject::from_resource`: reads and validates the object at a
/// resource. Nothing stands at an unknown resource. A post or a file whose id lies too far ahead
/// of the clock is refused with a fixed text; when that is the case is left unsaid. All else is a
/// function of the arguments.
#[verifier::external_body]
fn import_object(resource: Resource, blob: &[u8]) -> (r: Result<
    pubky_app_specs::PubkyAppObject,
    String,
>)
    ensures
        import_view(r) == imported_as(resource@, blob@) || is_ahead(resource@, r),
        r is Ok ==> kind_at(resource@) is Some,
{
    let resource = match resource {
        Resource::User => SpecsResource::User,
        Resource::Post(id) => SpecsResource::Post(id),
        Resource::Follow(id) => SpecsResource::Follow(SpecsId::try_from(id.as_str())?),
        Resource::Mute(id) => SpecsResource::Mute(SpecsId::try_from(id.as_str())?),
        Resource::Bookmark(id) => SpecsResource::Bookmark(id),
        Resource::Tag(id) => SpecsResource::Tag(id),
        Resource::File(id) => SpecsResource::File(id),
        Resource::Blob(id) => SpecsResource::Blob(id),
        Resource::Feed(id) => SpecsResource::Feed(id),
        Resource::LastRead => SpecsResource::LastRead,
        Resource::Unknown => SpecsResource::Unknown,
    };
    pubky_app_specs::PubkyAppObject::from_resource(&resource, blob)
}

/// An object that was read and found valid.
#[derive(Debug)]
pub struct Imported<T> {
    pub kind: ObjectKind,
    pub object: T,
}

/// What a homeserver answered to a request for a resource.
#[derive(Debug, PartialEq, Eq)]
pub struct ResourceResponse {
    /// Whether the status is a success.
    pub success: bool,
    /// The status in words, such as `404 Not Found`.
    pub status: String,
    /// The announced length of the body.
    pub content_length: Option<u64>,
    /// The body, read up to the limit for a resource, or for an error body.
    pub body: CappedRead,
}

/// The bytes of an error body; none where it could not be read.
pub open spec fn error_bytes(body: CappedRead) -> Seq<u8> {
    match body {
        Ok(b) => b.0@,
        Err(_) => Seq::empty(),
    }
}

/// What is said of a request for a resource that failed.
pub open spec fn fetch_failure_text(uri: Seq<char>, response: ResourceResponse) -> Seq<char> {
    "Fetch resource failed "@ + uri + ": HTTP "@ + response.status@ + " - "@ + error_body_text(
        error_bytes(response.body),
        MAX_ERROR_BODY as int,
    )
}

/// What the import of an event's object comes to: a payload that is not valid is refused for
/// good, since a re-run produces the same error.
pub fn accept_object<T>(kind: Option<ObjectKind>, imported: Result<T, String>) -> (r: Result<
    Imported<T>,
    EventProcessorError,
>)
    requires
        imported is Ok ==> kind is Some,
    ensures
        match imported {
            Ok(object) => r matches Ok(i) && Some(i.kind) == kind && i.object == object,
            Err(e) => r matches Err(f) && f == EventProcessorError::SpecValidation(e),
        },
{
    match imported {
        Ok(object) => match kind {
            Some(kind) => Ok(Imported { kind, object }),
            None => {
                assert(false);
                Err(EventProcessorError::SkipIndexing)
            },
        },
        Err(e) => Err(EventProcessorError::SpecValidation(e)),
    }
}

/// Whether `r` is what is made of the bytes at a resource: the object that they hold, of the kind
/// that stands there, or the error of a payload that is not valid.
pub open spec fn object_read_as(
    resource: ResourceView,
    blob: Seq<u8>,
    r: Result<Imported<pubky_app_specs::PubkyAppObject>, EventProcessorError>,
) -> bool {
    match r {
        Ok(i) => Some(i.kind) == kind_at(resource) && imported_as(resource, blob) == Ok::<
            pubky_app_specs::PubkyAppObject,
            Seq<char>,
        >(i.object),
        Err(e) => e matches EventProcessorError::SpecValidation(m) && (imported_as(resource, blob)
            == Err::<pubky_app_specs::PubkyAppObject, Seq<char>>(m@) || (is_dated(resource) && m@
            == too_far_ahead())),
    }
}

/// Whether `r` is what is made of the answer to a request for the resource of a PUT event.
/// What is fetched but not valid is never retried: a re-run produces the same error.
pub open spec fn put_object_read_as(
    uri: Seq<char>,
    resource: ResourceView,
    response: ResourceResponse,
    r: Result<Imported<pubky_app_specs::PubkyAppObject>, EventProcessorError>,
) -> bool {
    if !response.success {
        r matches Err(EventProcessorError::ClientError(ClientError::RequestFailed { message }))
            && message@ == fetch_failure_text(uri, response)
    } else {
        exists|fetched: Result<Vec<u8>, EventProcessorError>| #[trigger]
            fetched_as(response.content_length, response.body, MAX_RESOURCE_SIZE as u64, fetched) && (
            match fetched {
                Err(e) => r matches Err(f) && f == e,
                Ok(blob) => object_read_as(resource, blob@, r),
            })
    }
}

/// Makes of the answer to a request for a PUT event's resource the object at it.
pub fn read_put_object(event: &Event, response: ResourceResponse) -> (r: Result<
    Imported<pubky_app_specs::PubkyAppObject>,
    EventProcessorError,
>)
    ensures
        put_object_read_as(event.uri@, event.parsed_uri.points_at(), response, r),
{
    if !response.success {
        let bytes: Vec<u8> = match response.body {
            Ok((bytes, _)) => bytes,
            Err(_) => Vec::new(),
        };
        assert(bytes@ =~= error_bytes(response.body));
        let body = format_error_body(bytes.as_slice(), MAX_ERROR_BODY);
        let message = "Fetch resource failed ".to_owned().concat(event.uri.as_str()).concat(
            ": HTTP ",
        ).concat(response.status.as_str()).concat(" - ").concat(body.as_str());
        return Err(EventProcessorError::client_error(message));
    }
    let fetched = fetch_capped(response.content_length, response.body, MAX_RESOURCE_SIZE as u64);
    let ghost outcome = fetched;
    assert(fetched_as(
        response.content_length,
        response.body,
        MAX_RESOURCE_SIZE as u64,
        outcome,
    ));
    match fetched {
        Err(e) => Err(e),
        Ok(blob) => {
            let resource = event.parsed_uri.resource().copy();
            let kind = resource_kind(&resource);
            accept_object(kind, import_object(resource, blob.as_slice()))
        },
    }
}

/// Who takes a PUT event.
#[derive(Debug, Clone, PartialEq, Eq)]
pub enum PutAction {
    /// Index the user's profile.
    User,
    /// Index the post.
    Post { post_id: String },
    /// Index the follow.
    Follow { followee_id: PubkyId },
    /// Mutes are no longer handled.
    Mute,
    /// Index the bookmark.
    Bookmark { bookmark_id: String },
    /// Delete what the tag moderates.
    Moderate,
    /// Index the tag of another app on its resource.
    TagResource { tag_id: String, app: String },
    /// Index the tag.
    Tag { tag_id: String },
    /// Ingest the file.
    File { file_id: String },
    /// Nobody.
    NotHandled,
}

/// Who takes a PUT event, with the ids as texts.
#[verifier::ext_equal]
pub enum PutActionView {
    User,
    Post { post_id: Seq<char> },
    Follow { followee_id: Seq<char> },
    Mute,
    Bookmark { bookmark_id: Seq<char> },
    Moderate,
    TagResource { tag_id: Seq<char>, app: Seq<char> },
    Tag { tag_id: Seq<char> },
    File { file_id: Seq<char> },
    NotHandled,
}

impl View for PutAction {
    type V = PutActionView;

    open spec fn view(&self) -> PutActionView {
        match self {
            PutAction::User => PutActionView::User,
            PutAction::Post { post_id } => PutActionView::Post { post_id: post_id@ },
            PutAction::Follow { followee_id } => PutActionView::Follow {
                followee_id: followee_id@,
            },
            PutAction::Mute => PutActionView::Mute,
            PutAction::Bookmark { bookmark_id } => PutActionView::Bookmark {
                bookmark_id: bookmark_id@,
            },
            PutAction::Moderate => PutActionView::Moderate,
            PutAction::TagResource { tag_id, app } => PutActionView::TagResource {
                tag_id: tag_id@,
                app: app@,
            },
            PutAction::Tag { tag_id } => PutActionView::Tag { tag_id: tag_id@ },
            PutAction::File { file_id } => PutActionView::File { file_id: file_id@ },
            PutAction::NotHandled => PutActionView::NotHandled,
        }
    }
}

/// Who takes a PUT event whose object is of a kind. A tag that the moderator put deletes
/// what it is on; a tag of another app goes to the resource that it is on.
pub open spec fn put_action(
    kind: ObjectKind,
    uri: ExtendedParsedUri,
    should_delete: bool,
) -> PutActionView {
    match (kind, uri.points_at()) {
        (ObjectKind::User, ResourceView::User) => PutActionView::User,
        (ObjectKind::Post, ResourceView::Post(post_id)) => PutActionView::Post { post_id },
        (ObjectKind::Follow, ResourceView::Follow(followee_id)) => PutActionView::Follow {
            followee_id,
        },
        (ObjectKind::Mute, ResourceView::Mute(_)) => PutActionView::Mute,
        (ObjectKind::Bookmark, ResourceView::Bookmark(bookmark_id)) => PutActionView::Bookmark {
            bookmark_id,
        },
        (ObjectKind::Tag, ResourceView::Tag(tag_id)) => if should_delete {
            PutActionView::Moderate
        } else {
            match uri {
                ExtendedParsedUri::UniversalTag { app, .. } => PutActionView::TagResource {
                    tag_id,
                    app: app@,
                },
                ExtendedParsedUri::PubkyApp { .. } => PutActionView::Tag { tag_id },
            }
        },
        (ObjectKind::File, ResourceView::File(file_id)) => PutActionView::File { file_id },
        _ => PutActionView::NotHandled,
    }
}

/// Dispatches a PUT event whose object has been read. `should_delete` says whether
/// moderation claims the object, and counts for tags only.
pub fn handle_put_event(event: &Event, kind: ObjectKind, should_delete: bool) -> (r: PutAction)
    ensures
        r@ == put_action(kind, event.parsed_uri, should_delete),
{
    match (kind, event.parsed_uri.resource()) {
        (ObjectKind::User, Resource::User) => PutAction::User,
        (ObjectKind::Post, Resource::Post(post_id)) => PutAction::Post { post_id: post_id.clone() },
        (ObjectKind::Follow, Resource::Follow(followee_id)) => PutAction::Follow {
            followee_id: followee_id.copy(),
        },
        (ObjectKind::Mute, Resource::Mute(_)) => PutAction::Mute,
        (ObjectKind::Bookmark, Resource::Bookmark(bookmark_id)) => PutAction::Bookmark {
            bookmark_id: bookmark_id.clone(),
        },
        (ObjectKind::Tag, Resource::Tag(tag_id)) => if should_delete {
            PutAction::Moderate
        } else {
            match &event.parsed_uri {
                ExtendedParsedUri::UniversalTag { app, .. } => PutAction::TagResource {
                    tag_id: tag_id.clone(),
                    app: app.clone(),
                },
                ExtendedParsedUri::PubkyApp { .. } => PutAction::Tag { tag_id: tag_id.clone() },
            }
        },
        (ObjectKind::File, Resource::File(file_id)) => PutAction::File { file_id: file_id.clone() },
        _ => PutAction::NotHandled,
    }
}

/// Who takes a DEL event.
#[derive(Debug, Clone, PartialEq, Eq)]
pub enum DelAction {
    User,
    Post { post_id: String },
    Follow { followee_id: PubkyId },
    /// Mutes are no longer handled.
    Mute,
    Bookmark { bookmark_id: String },
    Tag { uri: String },
    File { file_id: String },
    /// Nobody.
    NotHandled,
}

/// Who takes a DEL event, with the ids as texts.
#[verifier::ext_equal]
pub enum DelActionView {
    User,
    Post { post_id: Seq<char> },
    Follow { followee_id: Seq<char> },
    Mute,
    Bookmark { bookmark_id: Seq<char> },
    Tag { uri: Seq<char> },
    File { file_id: Seq<char> },
    NotHandled,
}

impl View for DelAction {
    type V = DelActionView;

    open spec fn view(&self) -> DelActionView {
        match self {
            DelAction::User => DelActionView::User,
            DelAction::Post { post_id } => DelActionView::Post { post_id: post_id@ },
            DelAction::Follow { followee_id } => DelActionView::Follow {
                followee_id: followee_id@,
            },
            DelAction::Mute => DelActionView::Mute,
            DelAction::Bookmark { bookmark_id } => DelActionView::Bookmark {
                bookmark_id: bookmark_id@,
            },
            DelAction::Tag { uri } => DelActionView::Tag { uri: uri@ },
            DelAction::File { file_id } => DelActionView::File { file_id: file_id@ },
            DelAction::NotHandled => DelActionView::NotHandled,
        }
    }
}

/// Who takes a DEL event of a resource.
pub open spec fn del_action(resource: ResourceView, uri: Seq<char>) -> DelActionView {
    match resource {
        ResourceView::User => DelActionView::User,
        ResourceView::Post(post_id) => DelActionView::Post { post_id },
        ResourceView::Follow(followee_id) => DelActionView::Follow { followee_id },
        ResourceView::Mute(_) => DelActionView::Mute,
        ResourceView::Bookmark(bookmark_id) => DelActionView::Bookmark { bookmark_id },
        ResourceView::Tag(_) => DelActionView::Tag { uri },
        ResourceView::File(file_id) => DelActionView::File { file_id },
        _ => DelActionView::NotHandled,
    }
}

/// Handles a DEL event by dispatching to the appropriate handler.
pub fn handle_del_event(event: &Event) -> (r: DelAction)
    ensures
        r@ == del_action(event.parsed_uri.points_at(), event.uri@),
{
    match event.parsed_uri.resource() {
        Resource::User => DelAction::User,
        Resource::Post(post_id) => DelAction::Post { post_id: post_id.clone() },
        Resource::Follow(followee_id) => DelAction::Follow { followee_id: followee_id.copy() },
        Resource::Mute(_) => DelAction::Mute,
        Resource::Bookmark(bookmark_id) => DelAction::Bookmark { bookmark_id: bookmark_id.clone() },
        Resource::Tag(_) => DelAction::Tag { uri: event.uri.clone() },
        Resource::File(file_id) => DelAction::File { file_id: file_id.clone() },
        _ => DelAction::NotHandled,
    }
}

/// Handler of all events: what it needs besides the event itself.
#[derive(Debug, Clone, PartialEq, Eq)]
pub struct DefaultEventHandler {
    pub ingestor: UserIngestor,
    /// Largest file that is downloaded, in bytes.
    pub max_file_size: u64,
    /// Local files directory used for file-backed events.
    pub files_path: String,
}

impl DefaultEventHandler {
    /// A handler with the given ingestor, limit and directory.
    pub fn new(ingestor: UserIngestor, max_file_size: u64, files_path: String) -> (r: Self)
        ensures
            r.ingestor == ingestor,
            r.max_file_size == max_file_size,
            r.files_path == files_path,
    {
        DefaultEventHandler { ingestor, max_file_size, files_path }
    }

    /// Builds a handler, deriving its user ingestor from config.
    pub fn from_config(config: &WatcherConfig) -> (r: Self)
        ensures
            r.max_file_size == config.max_file_size,
            r.files_path@ == config.stack.files_path@,
            forall|hs_id: Seq<char>| #[trigger]
                r.ingestor.blacklist().lists(hs_id) <==> config.stack.net.blacklists(hs_id),
    {
        Self::new(
            UserIngestor::from_config(&config.stack),
            config.max_file_size,
            config.stack.files_path.clone(),
        )
    }

    /// Refuses to download content hosted on a blacklisted homeserver. `resolved` is the
    /// published homeserver of the source's user.
    pub fn check_file_source(&self, source: &ParsedUri, resolved: Option<String>) -> (r: Result<
        (),
        EventProcessorError,
    >)
        ensures
            if self.ingestor.blacklist().lists(source.user_id@) {
                r matches Err(EventProcessorError::HsBlacklisted { hs_id }) && hs_id@
                    == source.user_id@
            } else {
                match resolved {
                    Some(hs) => if self.ingestor.blacklist().lists(hs@) {
                        r matches Err(EventProcessorError::HsBlacklisted { hs_id }) && hs_id == hs
                    } else {
                        r is Ok
                    },
                    None => r is Ok,
                }
            },
    {
        match self.ingestor.ensure_hs_not_blacklisted(&source.user_id, resolved) {
            Ok(_) => Ok(()),
            Err(e) => Err(EventProcessorError::from(e)),
        }
    }

    /// The line to store once the handler of an event is through: only an event that was
    /// handled is stored.
    pub fn event_line_to_store(event: &Event, handled: Result<(), EventProcessorError>) -> (r:
        Result<String, EventProcessorError>)
        ensures
            match handled {
                Ok(_) => r matches Ok(line) && line@ == event.line(),
                Err(e) => r == Err::<String, EventProcessorError>(e),
            },
    {
        match handled {
            Ok(_) => Ok(event.to_event_line()),
            Err(e) => Err(e),
        }
    }
}

/// Reads where the content of a file comes from.
pub fn file_source(src: &str) -> (r: Result<ParsedUri, EventProcessorError>)
    ensures
        match r {
            Ok(p) => p.is_of(src@),
            Err(e) => strict_uri(src@) is Err && (e matches EventProcessorError::Generic(m) && m@
                == "Invalid file source URI "@ + src@ + ": "@ + strict_uri(src@)->Err_0),
        },
{
    match ParsedUri::try_from(src) {
        Ok(p) => Ok(p),
        Err(e) => Err(
            EventProcessorError::generic(
                "Invalid file source URI ".to_owned().concat(src).concat(": ").concat(e.as_str()),
            ),
        ),
    }
}

/// What is said of a file whose content is no blob.
pub open spec fn no_blob_text(src: Seq<char>) -> Seq<char> {
    "The file has a source uri that is not a blob path: "@ + src
}

/// Whether `r` is what is made of the bytes at the source of a file: they are worth saving
/// where they are a valid blob.
pub open spec fn content_accepted_as(
    src: Seq<char>,
    resource: ResourceView,
    blob: Vec<u8>,
    r: Result<Vec<u8>, EventProcessorError>,
) -> bool {
    ||| is_dated(resource) && (r matches Err(EventProcessorError::Generic(e)) && e@
        == too_far_ahead())
    ||| match imported_as(resource, blob@) {
        Err(m) => r matches Err(EventProcessorError::Generic(e)) && e@ == m,
        Ok(_) => if resource is Blob {
            r == Ok::<Vec<u8>, EventProcessorError>(blob)
        } else {
            r matches Err(EventProcessorError::InvalidEventLine(m)) && m@ == no_blob_text(src)
        },
    }
}

/// Whether `r` is what is made of the answer to a request for the content of a file.
pub open spec fn file_content_read_as(
    src: Seq<char>,
    resource: ResourceView,
    content_length: Option<u64>,
    body: CappedRead,
    max_file_size: u64,
    r: Result<Vec<u8>, EventProcessorError>,
) -> bool {
    exists|fetched: Result<Vec<u8>, EventProcessorError>| #[trigger]
        fetched_as(content_length, body, max_file_size, fetched) && (match fetched {
            Err(e) => r matches Err(f) && f == e,
            Ok(blob) => content_accepted_as(src, resource, blob, r),
        })
}

/// Makes of the answer to a request for the content of a file, whose source `src` was read as
/// `source`, the bytes to save.
pub fn read_file_content(
    src: &str,
    source: &ParsedUri,
    content_length: Option<u64>,
    body: CappedRead,
    max_file_size: u64,
) -> (r: Result<Vec<u8>, EventProcessorError>)
    ensures
        file_content_read_as(src@, source.resource@, content_length, body, max_file_size, r),
{
    let fetched = fetch_capped(content_length, body, max_file_size);
    let ghost outcome = fetched;
    assert(fetched_as(content_length, body, max_file_size, outcome));
    match fetched {
        Err(e) => Err(e),
        Ok(blob) => {
            let refused = match import_object(source.resource.copy(), blob.as_slice()) {
                Ok(_) => None,
                Err(e) => Some(e),
            };
            accept_blob(src, resource_kind(&source.resource), blob, refused)
        },
    }
}

/// What the import of a file's content comes to: it is worth saving where it is a blob.
pub fn accept_blob(
    src: &str,
    kind: Option<ObjectKind>,
    blob: Vec<u8>,
    refused: Option<String>,
) -> (r: Result<Vec<u8>, EventProcessorError>)
    ensures
        match refused {
            Some(e) => r == Err::<Vec<u8>, EventProcessorError>(EventProcessorError::Generic(e)),
            None => if kind == Some(ObjectKind::Blob) {
                r == Ok::<Vec<u8>, EventProcessorError>(blob)
            } else {
                r matches Err(EventProcessorError::InvalidEventLine(m)) && m@ == no_blob_text(src@)
            },
        },
{
    match refused {
        Some(e) => Err(EventProcessorError::generic(e)),
        None => match kind {
            Some(ObjectKind::Blob) => Ok(blob),
            _ => Err(
                EventProcessorError::InvalidEventLine(
                    "The file has a source uri that is not a blob path: ".to_owned().concat(src),
                ),
            ),
        },
    }
}

/// What is left to do to delete a file.
#[derive(Debug, Clone, Copy, PartialEq, Eq, Structural)]
pub enum FileDeletion {
    /// Nothing is known of the file.
    Nothing,
    /// Remove the file's directory, after its details where they are indexed.
    RemoveDirectory { delete_details: bool },
}

/// Plans the deletion of a file of which `found` lists what was looked up: whether its
/// details are indexed.
pub fn plan_file_deletion(found: &[bool]) -> (r: FileDeletion)
    ensures
        r == (if found@.len() == 0 {
            FileDeletion::Nothing
        } else {
            FileDeletion::RemoveDirectory { delete_details: found@[0] }
        }),
{
    if found.len() == 0 {
        FileDeletion::Nothing
    } else {
        FileDeletion::RemoveDirectory { delete_details: found[0] }
    }
}

/// What came of removing a directory.
#[derive(Debug, Clone, PartialEq, Eq)]
pub enum DirectoryRemoval {
    Removed,
    NotFound,
    Failed(String),
}

/// A directory that is not there is as good as removed.
pub fn file_removed(removal: DirectoryRemoval) -> (r: Result<(), EventProcessorError>)
    ensures
        match removal {
            DirectoryRemoval::Failed(e) => r == Err::<(), EventProcessorError>(
                EventProcessorError::InternalError(e),
            ),
            _ => r is Ok,
        },
{
    match removal {
        DirectoryRemoval::Removed => Ok(()),
        DirectoryRemoval::NotFound => Ok(()),
        DirectoryRemoval::Failed(e) => Err(EventProcessorError::internal_error(e)),
    }
}

/// A payload that was fetched but is not valid is dropped: it never reaches the retry queue, and
/// never stops the batch.
pub proof fn law_invalid_payloads_are_dropped(
    resource: ResourceView,
    blob: Seq<u8>,
    r: Result<Imported<pubky_app_specs::PubkyAppObject>, EventProcessorError>,
)
    requires
        object_read_as(resource, blob, r),
    ensures
        r matches Err(e) ==> e.outcome() == Disposition::Drop,
{
}

/// What is saved of a file is what was fetched, whole and within the limit, from a blob path.
pub proof fn law_saved_content_is_what_was_fetched(
    src: Seq<char>,
    resource: ResourceView,
    content_length: Option<u64>,
    body: CappedRead,
    max_file_size: u64,
    r: Result<Vec<u8>, EventProcessorError>,
)
    requires
        file_content_read_as(src, resource, content_length, body, max_file_size, r),
    ensures
        r matches Ok(content) ==> body == Ok::<(Vec<u8>, bool), String>((content, false))
            && resource is Blob && content@.len() <= max_file_size && !(content_length matches Some(
            n,
        ) && n > max_file_size),
{
}

/// An object at the resource of its own event always finds its handler; only blobs, feeds
/// and read markers have none.
pub proof fn law_every_object_is_taken(
    kind: ObjectKind,
    uri: ExtendedParsedUri,
    should_delete: bool,
)
    requires
        kind_at(uri.points_at()) == Some(kind),
    ensures
        put_action(kind, uri, should_delete) is NotHandled <==> kind == ObjectKind::Blob || kind
            == ObjectKind::Feed || kind == ObjectKind::LastRead,
{
}

/// Moderation concerns tags alone, and a moderated tag is never indexed.
pub proof fn law_moderation_concerns_tags(kind: ObjectKind, uri: ExtendedParsedUri)
    ensures
        kind != ObjectKind::Tag ==> put_action(kind, uri, true) == put_action(kind, uri, false),
        put_action(kind, uri, true) is Tag == false,
        put_action(kind, uri, true) is TagResource == false,
{
}

/// A tag of another app keeps the name of its app on the way to its resource.
pub proof fn law_universal_tags_keep_their_app(uri: ExtendedParsedUri, app: String)
    requires
        uri matches ExtendedParsedUri::UniversalTag { app: a, .. } && a == app,
        uri.points_at() is Tag,
    ensures
        put_action(ObjectKind::Tag, uri, false) == (PutActionView::TagResource {
            tag_id: uri.points_at()->Tag_0,
            app: app@,
        }),
{
}

/// At each resource stand objects of its own kind, and each kind stands at its own resource alone.
pub proof fn law_kinds_stand_at_their_own_resources(resource: ResourceView)
    ensures
        kind_at(resource) == Some(ObjectKind::User) <==> resource is User,
        kind_at(resource) == Some(ObjectKind::Post) <==> resource is Post,
        kind_at(resource) == Some(ObjectKind::Follow) <==> resource is Follow,
        kind_at(resource) == Some(ObjectKind::Mute) <==> resource is Mute,
        kind_at(resource) == Some(ObjectKind::Bookmark) <==> resource is Bookmark,
        kind_at(resource) == Some(ObjectKind::Tag) <==> resource is Tag,
        kind_at(resource) == Some(ObjectKind::File) <==> resource is File,
        kind_at(resource) == Some(ObjectKind::Blob) <==> resource is Blob,
        kind_at(resource) == Some(ObjectKind::Feed) <==> resource is Feed,
        kind_at(resource) == Some(ObjectKind::LastRead) <==> resource is LastRead,
        kind_at(resource) is None <==> resource is Unknown,
{
}

/// A PUT event goes to the handler of the kind of its object, with the id that its resource holds,
/// and to no other: a bookmark to the bookmarks, a follow to the follows, only a mute to the mutes.
/// A tag goes to moderation where that claims it, else to the tags or, where it is of another app,
/// to the resources.
pub proof fn law_put_events_go_to_the_handler_of_their_kind(
    kind: ObjectKind,
    uri: ExtendedParsedUri,
    should_delete: bool,
)
    ensures
        ({
            let action = put_action(kind, uri, should_delete);
            let resource = uri.points_at();
            let tag = kind == ObjectKind::Tag && resource is Tag;
            &&& action is User <==> kind == ObjectKind::User && resource is User
            &&& action is Post <==> kind == ObjectKind::Post && resource is Post
            &&& action is Follow <==> kind == ObjectKind::Follow && resource is Follow
            &&& action is Mute <==> kind == ObjectKind::Mute && resource is Mute
            &&& action is Bookmark <==> kind == ObjectKind::Bookmark && resource is Bookmark
            &&& action is File <==> kind == ObjectKind::File && resource is File
            &&& action is Moderate <==> tag && should_delete
            &&& action is Tag <==> tag && !should_delete && uri is PubkyApp
            &&& action is TagResource <==> tag && !should_delete && uri is UniversalTag
            &&& action is Post ==> resource.id() == Some(action->post_id)
            &&& action is Follow ==> resource.id() == Some(action->followee_id)
            &&& action is Bookmark ==> resource.id() == Some(action->bookmark_id)
            &&& action is File ==> resource.id() == Some(action->file_id)
            &&& action is Tag ==> resource.id() == Some(action->Tag_tag_id)
            &&& action is TagResource ==> resource.id() == Some(action->TagResource_tag_id)
        }),
{
}

/// A DEL event goes to the handler of its resource, with the id that the resource holds, and to no
/// other: a follow to the follows with its followee, only a mute to the mutes. A tag is known by its
/// whole URI.
pub proof fn law_del_events_go_to_the_handler_of_their_resource(
    resource: ResourceView,
    uri: Seq<char>,
)
    ensures
        ({
            let action = del_action(resource, uri);
            &&& action is User <==> resource is User
            &&& action is Post <==> resource is Post
            &&& action is Follow <==> resource is Follow
            &&& action is Mute <==> resource is Mute
            &&& action is Bookmark <==> resource is Bookmark
            &&& action is Tag <==> resource is Tag
            &&& action is File <==> resource is File
            &&& action is Post ==> resource.id() == Some(action->post_id)
            &&& action is Follow ==> resource.id() == Some(action->followee_id)
            &&& action is Bookmark ==> resource.id() == Some(action->bookmark_id)
            &&& action is File ==> resource.id() == Some(action->file_id)
            &&& action is Tag ==> action->uri == uri
        }),
{
}

/// What one handler put, the handler of the same kind deletes, with the same id.
pub proof fn law_what_is_put_is_deleted_alike(
    kind: ObjectKind,
    uri: ExtendedParsedUri,
    text: Seq<char>,
)
    requires
        kind_at(uri.points_at()) == Some(kind),
    ensures
        ({
            let put = put_action(kind, uri, false);
            let del = del_action(uri.points_at(), text);
            &&& put is User <==> del is User
            &&& put is Post <==> del is Post
            &&& put is Follow <==> del is Follow
            &&& put is Mute <==> del is Mute
            &&& put is Bookmark <==> del is Bookmark
            &&& put is Tag || put is TagResource <==> del is Tag
            &&& put is File <==> del is File
            &&& put is NotHandled <==> del is NotHandled
            &&& put is Post ==> put->post_id == del->post_id
            &&& put is Follow ==> put->followee_id == del->followee_id
            &&& put is Bookmark ==> put->bookmark_id == del->bookmark_id
            &&& put is File ==> put->file_id == del->file_id
        }),
{
}

/// The view of who takes an event names the same handler, with the same ids.
pub proof fn law_views_name_the_same_handler(put: PutAction, del: DelAction)
    ensures
        put is User <==> put@ is User,
        put is Post <==> put@ is Post,
        put is Follow <==> put@ is Follow,
        put is Mute <==> put@ is Mute,
        put is Bookmark <==> put@ is Bookmark,
        put is Moderate <==> put@ is Moderate,
        put is TagResource <==> put@ is TagResource,
        put is Tag <==> put@ is Tag,
        put is File <==> put@ is File,
        put is NotHandled <==> put@ is NotHandled,
        del is User <==> del@ is User,
        del is Post <==> del@ is Post,
        del is Follow <==> del@ is Follow,
        del is Mute <==> del@ is Mute,
        del is Bookmark <==> del@ is Bookmark,
        del is Tag <==> del@ is Tag,
        del is File <==> del@ is File,
        del is NotHandled <==> del@ is NotHandled,
        put is Post ==> put@->post_id == put->post_id@,
        put is Follow ==> put@->followee_id == put->followee_id@,
        put is Bookmark ==> put@->bookmark_id == put->bookmark_id@,
        put is File ==> put@->file_id == put->file_id@,
        put is Tag ==> put@->Tag_tag_id == put->Tag_tag_id@,
        put is TagResource ==> put@->TagResource_tag_id == put->TagResource_tag_id@ && put@->app
            == put->app@,
        del is Post ==> del@->post_id == del->post_id@,
        del is Follow ==> del@->followee_id == del->followee_id@,
        del is Bookmark ==> del@->bookmark_id == del->bookmark_id@,
        del is File ==> del@->file_id == del->file_id@,
        del is Tag ==> del@->uri == del->uri@,
{
}

/// An object is read only from an answer that is a success and came whole and within the limit. A
/// request that failed is tried again.
pub proof fn law_objects_are_read_from_whole_answers(
    uri: Seq<char>,
    resource: ResourceView,
    response: ResourceResponse,
    r: Result<Imported<pubky_app_specs::PubkyAppObject>, EventProcessorError>,
)
    requires
        put_object_read_as(uri, resource, response, r),
    ensures
        r is Ok ==> response.success && (response.body matches Ok(b) && !b.1 && b.0@.len()
            <= 2 * 1024 * 1024),
        !response.success ==> (r matches Err(e) && e.outcome() == Disposition::QueueTransient),
        r matches Ok(i) ==> kind_at(resource) == Some(i.kind),
{
}

/// What came whole and within the limit from a blob path and is valid is saved as it is, and nothing
/// that stands elsewhere is.
pub proof fn law_valid_blobs_are_saved(
    src: Seq<char>,
    resource: ResourceView,
    content_length: Option<u64>,
    content: Vec<u8>,
    max_file_size: u64,
    r: Result<Vec<u8>, EventProcessorError>,
)
    requires
        file_content_read_as(src, resource, content_length, Ok((content, false)), max_file_size, r),
        content@.len() <= max_file_size,
        content_length matches Some(n) ==> n <= max_file_size,
        imported_as(resource, content@) is Ok,
    ensures
        resource is Blob ==> r == Ok::<Vec<u8>, EventProcessorError>(content),
        !(resource is Blob) ==> r is Err,
{
}

} // verus!
