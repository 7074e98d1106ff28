//! Identifiers and URIs of the Pubky network, as plain values.
use vstd::prelude::*;

verus! {

/// What `PubkyId::try_from` makes of a text: the canonical z-base-32 form of the key, or
/// the text of its error.
pub uninterp spec fn pubky_id_of(s: Seq<char>) -> Result<Seq<char>, Seq<char>>;

/// The view of a text or of the text of an error.
pub open spec fn text_result(r: Result<String, String>) -> Result<Seq<char>, Seq<char>> {
    match r {
        Ok(t) => Ok(t@),
        Err(e) => Err(e@),
    }
}

/// `pubky_app_specs::PubkyId::try_from`: accepts the 52 characters of a public key in
/// z-base-32. The result is the key's canonical text. A text that does not take 52 bytes
/// is refused with a fixed message.
#[verifier::external_body]
pub(crate) fn parse_pubky_id(s: &str) -> (r: Result<String, String>)
    ensures
        pubky_id_of(s@) == text_result(r),
        vstd::utf8::encode_utf8(s@).len() != 52 ==> r is Err && r->Err_0@
            == "Validation Error: the string is not 52 utf chars"@,
{
    match pubky_app_specs::PubkyId::try_from(s) {
        Ok(id) => Ok(id.to_string()),
        Err(e) => Err(e),
    }
}

/// What `PublicKey::from_str` makes of a text: the canonical z-base-32 form of the key;
/// nothing where the text holds no key.
pub uninterp spec fn public_key_of(s: Seq<char>) -> Option<Seq<char>>;

/// `pubky::PublicKey::from_str`: finds the public key in a text and renders it in
/// z-base-32.
#[verifier::external_body]
pub(crate) fn parse_public_key(s: &str) -> (r: Option<String>)
    ensures
        public_key_of(s@) == opt_view(r),
{
    match s.parse::<pubky::PublicKey>() {
        Ok(key) => Some(key.z32()),
        Err(_) => None,
    }
}

/// The parts of a URI: its user, the app that it belongs to, the label of its resource and
/// the resource's id. `universal` marks a tag of an app other than pubky.app.
#[verifier::ext_equal]
pub struct UriParts {
    pub user_id: Seq<char>,
    pub app: Seq<char>,
    pub universal: bool,
    pub label: Seq<char>,
    pub id: Option<Seq<char>>,
}

/// The view of an optional text.
pub open spec fn opt_view(s: Option<String>) -> Option<Seq<char>> {
    match s {
        Some(t) => Some(t@),
        None => None,
    }
}

/// What `ParsedUri::try_from` makes of a text: the user, the label of the resource and its
/// id, or the text of its error.
pub uninterp spec fn strict_uri(uri: Seq<char>) -> Result<
    (Seq<char>, Seq<char>, Option<Seq<char>>),
    Seq<char>,
>;

/// The view of the parts of a strict URI or of the text of an error.
pub open spec fn strict_result(r: Result<(String, String, Option<String>), String>) -> Result<
    (Seq<char>, Seq<char>, Option<Seq<char>>),
    Seq<char>,
> {
    match r {
        Ok(p) => Ok((p.0@, p.1@, opt_view(p.2))),
        Err(e) => Err(e@),
    }
}

/// `pubky_app_specs::ParsedUri::try_from`: reads a `pubky://` URI of the app pubky.app. The
/// label and the id are those that `Resource` displays and returns.
#[verifier::external_body]
pub(crate) fn parse_strict_uri(uri: &str) -> (r: Result<(String, String, Option<String>), String>)
    ensures
        strict_uri(uri@) == strict_result(r),
{
    match pubky_app_specs::ParsedUri::try_from(uri) {
        Ok(p) => Ok((p.user_id.to_string(), p.resource.to_string(), p.resource.id())),
        Err(e) => Err(e),
    }
}

/// What `ExtendedParsedUri::try_from` makes of a text: the parts of the URI, or the text of
/// its error.
pub uninterp spec fn extended_uri(uri: Seq<char>) -> Result<UriParts, Seq<char>>;

/// The parts of a URI in executable form.
pub(crate) struct UriTexts {
    pub(crate) user_id: String,
    pub(crate) app: String,
    pub(crate) universal: bool,
    pub(crate) label: String,
    pub(crate) id: Option<String>,
}

impl UriTexts {
    /// What the texts say.
    pub(crate) open spec fn parts(self) -> UriParts {
        UriParts {
            user_id: self.user_id@,
            app: self.app@,
            universal: self.universal,
            label: self.label@,
            id: opt_view(self.id),
        }
    }
}

/// The view of the parts of a URI or of the text of an error.
pub(crate) open spec fn extended_result(r: Result<UriTexts, String>) -> Result<
    UriParts,
    Seq<char>,
> {
    match r {
        Ok(p) => Ok(p.parts()),
        Err(e) => Err(e@),
    }
}

/// `pubky_app_specs::ExtendedParsedUri::try_from`: reads a `pubky://` URI of the app
/// pubky.app, or a tag of another app. The label and the id are those that `Resource`
/// displays and returns; what another app tags is always a tag with an id.
#[verifier::external_body]
pub(crate) fn parse_extended_uri(uri: &str) -> (r: Result<UriTexts, String>)
    ensures
        extended_uri(uri@) == extended_result(r),
        r is Ok && r->Ok_0.universal ==> r->Ok_0.label@ == "tags"@ && r->Ok_0.id is Some,
{
    let p = pubky_app_specs::ExtendedParsedUri::try_from(uri)?;
    Ok(UriTexts {
        user_id: p.user_id().to_string(),
        app: p.app().to_string(),
        universal: matches!(p, pubky_app_specs::ExtendedParsedUri::UniversalTag { .. }),
        label: p.resource().to_string(),
        id: p.resource().id(),
    })
}

/// A user or a homeserver: a public key in z-base-32.
#[derive(Debug, Clone, PartialEq, Eq, Hash)]
pub struct PubkyId {
    z32: String,
}

impl View for PubkyId {
    type V = Seq<char>;

    closed spec fn view(&self) -> Seq<char> {
        self.z32@
    }
}

impl PubkyId {
    /// Reads a public key from its text.
    pub fn try_from(s: &str) -> (r: Result<PubkyId, String>)
        ensures
            match r {
                Ok(id) => pubky_id_of(s@) == Ok::<Seq<char>, Seq<char>>(id@),
                Err(e) => pubky_id_of(s@) == Err::<Seq<char>, Seq<char>>(e@),
            },
            vstd::utf8::encode_utf8(s@).len() != 52 ==> (r matches Err(e) && e@
                == "Validation Error: the string is not 52 utf chars"@),
    {
        match parse_pubky_id(s) {
            Ok(z32) => Ok(PubkyId { z32 }),
            Err(e) => Err(e),
        }
    }

    /// A key that was read already.
    pub(crate) fn of_valid(z32: String) -> (r: PubkyId)
        ensures
            r@ == z32@,
    {
        PubkyId { z32 }
    }

    /// The text of the key.
    pub fn as_str(&self) -> (r: &str)
        ensures
            r@ == self@,
    {
        self.z32.as_str()
    }

    /// The text of the key.
    pub fn text(&self) -> (r: String)
        ensures
            r@ == self@,
    {
        self.z32.clone()
    }

    /// The same key once more.
    pub fn copy(&self) -> (r: PubkyId)
        ensures
            r@ == self@,
    {
        PubkyId { z32: self.z32.clone() }
    }
}

/// Whether `r` is what a list of texts is read as: a key for each text, in order, or the error of
/// the first text that is no key.
pub open spec fn ids_read_as(texts: Seq<String>, r: Result<Vec<PubkyId>, String>) -> bool {
    match r {
        Ok(ids) => ids@.len() == texts.len() && forall|i: int|
            0 <= i < texts.len() ==> pubky_id_of((#[trigger] texts[i])@) == Ok::<
                Seq<char>,
                Seq<char>,
            >(ids@[i]@),
        Err(e) => exists|k: int|
            0 <= k < texts.len() && pubky_id_of((#[trigger] texts[k])@) == Err::<
                Seq<char>,
                Seq<char>,
            >(e@) && forall|i: int| 0 <= i < k ==> pubky_id_of((#[trigger] texts[i])@) is Ok,
    }
}

/// Reads a list of public keys. One text that is no key fails the whole list.
pub fn read_ids(texts: &Vec<String>) -> (r: Result<Vec<PubkyId>, String>)
    ensures
        ids_read_as(texts@, r),
{
    let mut ids: Vec<PubkyId> = Vec::new();
    let mut i: usize = 0;
    while i < texts.len()
        invariant
            i <= texts.len(),
            ids@.len() == i,
            forall|j: int|
                0 <= j < i ==> pubky_id_of((#[trigger] texts@[j])@) == Ok::<Seq<char>, Seq<char>>(
                    ids@[j]@,
                ),
        decreases texts.len() - i,
    {
        match PubkyId::try_from(texts[i].as_str()) {
            Ok(id) => {
                ids.push(id);
            },
            Err(e) => {
                assert(pubky_id_of(texts@[i as int]@) == Err::<Seq<char>, Seq<char>>(e@));
                return Err(e);
            },
        }
        i = i + 1;
    }
    Ok(ids)
}

/// What a URI points at.
#[derive(Debug, Clone, PartialEq, Eq)]
pub enum Resource {
    User,
    Post(String),
    Follow(PubkyId),
    Mute(PubkyId),
    Bookmark(String),
    Tag(String),
    File(String),
    Blob(String),
    Feed(String),
    LastRead,
    Unknown,
}

/// What a URI points at, with the ids as texts.
#[verifier::ext_equal]
pub enum ResourceView {
    User,
    Post(Seq<char>),
    Follow(Seq<char>),
    Mute(Seq<char>),
    Bookmark(Seq<char>),
    Tag(Seq<char>),
    File(Seq<char>),
    Blob(Seq<char>),
    Feed(Seq<char>),
    LastRead,
    Unknown,
}

impl View for Resource {
    type V = ResourceView;

    open spec fn view(&self) -> ResourceView {
        match self {
            Resource::User => ResourceView::User,
            Resource::Post(id) => ResourceView::Post(id@),
            Resource::Follow(id) => ResourceView::Follow(id@),
            Resource::Mute(id) => ResourceView::Mute(id@),
            Resource::Bookmark(id) => ResourceView::Bookmark(id@),
            Resource::Tag(id) => ResourceView::Tag(id@),
            Resource::File(id) => ResourceView::File(id@),
            Resource::Blob(id) => ResourceView::Blob(id@),
            Resource::Feed(id) => ResourceView::Feed(id@),
            Resource::LastRead => ResourceView::LastRead,
            Resource::Unknown => ResourceView::Unknown,
        }
    }
}

/// The resource with a label and an id; the label of a collection needs an id.
pub open spec fn resource_of(label: Seq<char>, id: Option<Seq<char>>) -> ResourceView {
    if label == "profile.json"@ {
        ResourceView::User
    } else if label == "last_read"@ {
        ResourceView::LastRead
    } else {
        match id {
            None => ResourceView::Unknown,
            Some(id) => if label == "posts"@ {
                ResourceView::Post(id)
            } else if label == "follows"@ {
                ResourceView::Follow(id)
            } else if label == "mutes"@ {
                ResourceView::Mute(id)
            } else if label == "bookmarks"@ {
                ResourceView::Bookmark(id)
            } else if label == "tags"@ {
                ResourceView::Tag(id)
            } else if label == "files"@ {
                ResourceView::File(id)
            } else if label == "blobs"@ {
                ResourceView::Blob(id)
            } else if label == "feeds"@ {
                ResourceView::Feed(id)
            } else {
                ResourceView::Unknown
            },
        }
    }
}

impl Resource {
    /// The resource with a label and an id.
    pub(crate) fn from_parts(label: &str, id: Option<String>) -> (r: Resource)
        ensures
            r@ == resource_of(label@, opt_view(id)),
    {
        if *label == *"profile.json" {
            return Resource::User;
        }
        if *label == *"last_read" {
            return Resource::LastRead;
        }
        match id {
            None => Resource::Unknown,
            Some(id) => if *label == *"posts" {
                Resource::Post(id)
            } else if *label == *"follows" {
                Resource::Follow(PubkyId::of_valid(id))
            } else if *label == *"mutes" {
                Resource::Mute(PubkyId::of_valid(id))
            } else if *label == *"bookmarks" {
                Resource::Bookmark(id)
            } else if *label == *"tags" {
                Resource::Tag(id)
            } else if *label == *"files" {
                Resource::File(id)
            } else if *label == *"blobs" {
                Resource::Blob(id)
            } else if *label == *"feeds" {
                Resource::Feed(id)
            } else {
                Resource::Unknown
            },
        }
    }

    /// The same resource once more.
    pub fn copy(&self) -> (r: Resource)
        ensures
            r@ == self@,
    {
        match self {
            Resource::User => Resource::User,
            Resource::Post(id) => Resource::Post(id.clone()),
            Resource::Follow(id) => Resource::Follow(id.copy()),
            Resource::Mute(id) => Resource::Mute(id.copy()),
            Resource::Bookmark(id) => Resource::Bookmark(id.clone()),
            Resource::Tag(id) => Resource::Tag(id.clone()),
            Resource::File(id) => Resource::File(id.clone()),
            Resource::Blob(id) => Resource::Blob(id.clone()),
            Resource::Feed(id) => Resource::Feed(id.clone()),
            Resource::LastRead => Resource::LastRead,
            Resource::Unknown => Resource::Unknown,
        }
    }

    /// The label of the resource: the path segment that it stands under.
    pub fn label(&self) -> (r: &'static str)
        ensures
            r@ == self@.label(),
    {
        match self {
            Resource::User => "profile.json",
            Resource::Post(_) => "posts",
            Resource::Follow(_) => "follows",
            Resource::Mute(_) => "mutes",
            Resource::Bookmark(_) => "bookmarks",
            Resource::Tag(_) => "tags",
            Resource::File(_) => "files",
            Resource::Blob(_) => "blobs",
            Resource::Feed(_) => "feeds",
            Resource::LastRead => "last_read",
            Resource::Unknown => "unknown",
        }
    }

    /// The id of the resource; nothing where it has none.
    pub fn id(&self) -> (r: Option<String>)
        ensures
            opt_view(r) == self@.id(),
    {
        match self {
            Resource::Post(id) => Some(id.clone()),
            Resource::Follow(id) => Some(id.text()),
            Resource::Mute(id) => Some(id.text()),
            Resource::Bookmark(id) => Some(id.clone()),
            Resource::Tag(id) => Some(id.clone()),
            Resource::File(id) => Some(id.clone()),
            Resource::Blob(id) => Some(id.clone()),
            Resource::Feed(id) => Some(id.clone()),
            Resource::User => None,
            Resource::LastRead => None,
            Resource::Unknown => None,
        }
    }
}

impl ResourceView {
    /// The path segment that the resource stands under.
    pub open spec fn label(self) -> Seq<char> {
        match self {
            ResourceView::User => "profile.json"@,
            ResourceView::Post(_) => "posts"@,
            ResourceView::Follow(_) => "follows"@,
            ResourceView::Mute(_) => "mutes"@,
            ResourceView::Bookmark(_) => "bookmarks"@,
            ResourceView::Tag(_) => "tags"@,
            ResourceView::File(_) => "files"@,
            ResourceView::Blob(_) => "blobs"@,
            ResourceView::Feed(_) => "feeds"@,
            ResourceView::LastRead => "last_read"@,
            ResourceView::Unknown => "unknown"@,
        }
    }

    /// The id of the resource.
    pub open spec fn id(self) -> Option<Seq<char>> {
        match self {
            ResourceView::Post(id) => Some(id),
            ResourceView::Follow(id) => Some(id),
            ResourceView::Mute(id) => Some(id),
            ResourceView::Bookmark(id) => Some(id),
            ResourceView::Tag(id) => Some(id),
            ResourceView::File(id) => Some(id),
            ResourceView::Blob(id) => Some(id),
            ResourceView::Feed(id) => Some(id),
            _ => None,
        }
    }
}

/// A URI of the app pubky.app.
#[derive(Debug, Clone, PartialEq, Eq)]
pub struct ParsedUri {
    pub user_id: PubkyId,
    pub resource: Resource,
}

impl ParsedUri {
    /// Whether this is what the text `uri` says.
    pub open spec fn is_of(self, uri: Seq<char>) -> bool {
        strict_uri(uri) matches Ok(p) && self.user_id@ == p.0 && self.resource@ == resource_of(
            p.1,
            p.2,
        )
    }

    /// Reads a URI of the app pubky.app.
    pub fn try_from(uri: &str) -> (r: Result<ParsedUri, String>)
        ensures
            match r {
                Ok(p) => p.is_of(uri@),
                Err(e) => strict_uri(uri@) == Err::<
                    (Seq<char>, Seq<char>, Option<Seq<char>>),
                    Seq<char>,
                >(e@),
            },
    {
        match parse_strict_uri(uri) {
            Ok((user_id, label, id)) => Ok(
                ParsedUri {
                    user_id: PubkyId::of_valid(user_id),
                    resource: Resource::from_parts(label.as_str(), id),
                },
            ),
            Err(e) => Err(e),
        }
    }
}

/// A URI at the boundary where events come in: one of the app pubky.app, or a tag of
/// another app.
#[derive(Debug, Clone, PartialEq, Eq)]
pub enum ExtendedParsedUri {
    PubkyApp { user_id: PubkyId, resource: Resource },
    UniversalTag { user_id: PubkyId, app: String, resource: Resource },
}

impl ExtendedParsedUri {
    /// The user that the URI belongs to.
    pub open spec fn user(self) -> Seq<char> {
        match self {
            ExtendedParsedUri::PubkyApp { user_id, .. } => user_id@,
            ExtendedParsedUri::UniversalTag { user_id, .. } => user_id@,
        }
    }

    /// What the URI points at.
    pub open spec fn points_at(self) -> ResourceView {
        match self {
            ExtendedParsedUri::PubkyApp { resource, .. } => resource@,
            ExtendedParsedUri::UniversalTag { resource, .. } => resource@,
        }
    }

    /// Whether this is what the parts of a URI say.
    pub open spec fn made_of(self, p: UriParts) -> bool {
        &&& self.user() == p.user_id
        &&& self.points_at() == resource_of(p.label, p.id)
        &&& self is UniversalTag <==> p.universal
        &&& (self matches ExtendedParsedUri::UniversalTag { app, .. } ==> app@ == p.app)
    }

    /// Whether this is what the text `uri` says.
    pub open spec fn is_of(self, uri: Seq<char>) -> bool {
        extended_uri(uri) matches Ok(p) && self.made_of(p)
    }

    /// Reads a URI.
    pub fn try_from(uri: &str) -> (r: Result<ExtendedParsedUri, String>)
        ensures
            match r {
                Ok(p) => p.is_of(uri@) && (p is UniversalTag ==> p.points_at() is Tag),
                Err(e) => extended_uri(uri@) == Err::<UriParts, Seq<char>>(e@),
            },
    {
        match parse_extended_uri(uri) {
            Ok(texts) => {
                proof {
                    reveal_strlit("tags");
                    reveal_strlit("profile.json");
                    reveal_strlit("last_read");
                    reveal_strlit("posts");
                    reveal_strlit("follows");
                    reveal_strlit("mutes");
                    reveal_strlit("bookmarks");
                    assert("tags"@.len() == 4 && "posts"@.len() == 5);
                }
                let user_id = PubkyId::of_valid(texts.user_id);
                let resource = Resource::from_parts(texts.label.as_str(), texts.id);
                if texts.universal {
                    Ok(ExtendedParsedUri::UniversalTag { user_id, app: texts.app, resource })
                } else {
                    Ok(ExtendedParsedUri::PubkyApp { user_id, resource })
                }
            },
            Err(e) => Err(e),
        }
    }

    /// The user that the URI belongs to.
    pub fn user_id(&self) -> (r: &PubkyId)
        ensures
            r@ == self.user(),
    {
        match self {
            ExtendedParsedUri::PubkyApp { user_id, .. } => user_id,
            ExtendedParsedUri::UniversalTag { user_id, .. } => user_id,
        }
    }

    /// What the URI points at.
    pub fn resource(&self) -> (r: &Resource)
        ensures
            r@ == self.points_at(),
    {
        match self {
            ExtendedParsedUri::PubkyApp { resource, .. } => resource,
            ExtendedParsedUri::UniversalTag { resource, .. } => resource,
        }
    }
}

/// A resource is known by its label and its id.
pub proof fn law_resource_known_by_label_and_id(resource: ResourceView)
    ensures
        resource_of(resource.label(), resource.id()) == resource,
{
    reveal_strlit("profile.json");
    reveal_strlit("last_read");
    reveal_strlit("posts");
    reveal_strlit("follows");
    reveal_strlit("mutes");
    reveal_strlit("bookmarks");
    reveal_strlit("tags");
    reveal_strlit("files");
    reveal_strlit("blobs");
    reveal_strlit("feeds");
    reveal_strlit("unknown");
    assert("profile.json"@.len() == 12 && "last_read"@.len() == 9 && "posts"@.len() == 5
        && "follows"@.len() == 7 && "mutes"@.len() == 5 && "bookmarks"@.len() == 9
        && "tags"@.len() == 4 && "files"@.len() == 5 && "blobs"@.len() == 5 && "feeds"@.len() == 5
        && "unknown"@.len() == 7);
    assert("posts"@[0] == 'p' && "mutes"@[0] == 'm' && "files"@[1] == 'i' && "blobs"@[0] == 'b'
        && "feeds"@[1] == 'e' && "files"@[0] == 'f' && "feeds"@[0] == 'f');
    assert("follows"@[0] == 'f' && "unknown"@[0] == 'u');
    assert("bookmarks"@[0] == 'b' && "last_read"@[0] == 'l');
}

/// The view of a resource is that of its own kind, and only a collection of objects has ids.
pub proof fn law_views_keep_the_resource(resource: Resource)
    ensures
        resource is User <==> resource@ is User,
        resource is Post <==> resource@ is Post,
        resource is Follow <==> resource@ is Follow,
        resource is Mute <==> resource@ is Mute,
        resource is Bookmark <==> resource@ is Bookmark,
        resource is Tag <==> resource@ is Tag,
        resource is File <==> resource@ is File,
        resource is Blob <==> resource@ is Blob,
        resource is Feed <==> resource@ is Feed,
        resource is LastRead <==> resource@ is LastRead,
        resource is Unknown <==> resource@ is Unknown,
        resource@.id() is None <==> resource is User || resource is LastRead || resource is Unknown,
        resource matches Resource::Post(id) ==> resource@.id() == Some(id@),
        resource matches Resource::Follow(id) ==> resource@.id() == Some(id@),
        resource matches Resource::Mute(id) ==> resource@.id() == Some(id@),
        resource matches Resource::Bookmark(id) ==> resource@.id() == Some(id@),
        resource matches Resource::Tag(id) ==> resource@.id() == Some(id@),
        resource matches Resource::File(id) ==> resource@.id() == Some(id@),
        resource matches Resource::Blob(id) ==> resource@.id() == Some(id@),
        resource matches Resource::Feed(id) ==> resource@.id() == Some(id@),
{
}

/// The path segment of a collection names its kind: what stands under `bookmarks` is a bookmark,
/// what stands under `follows` is a follow, and so on; nothing else is known.
pub proof fn law_labels_name_the_kind(label: Seq<char>, id: Seq<char>)
    ensures
        ({
            let resource = resource_of(label, Some(id));
            &&& resource is User <==> label == "profile.json"@
            &&& resource is LastRead <==> label == "last_read"@
            &&& resource is Post <==> label == "posts"@
            &&& resource is Follow <==> label == "follows"@
            &&& resource is Mute <==> label == "mutes"@
            &&& resource is Bookmark <==> label == "bookmarks"@
            &&& resource is Tag <==> label == "tags"@
            &&& resource is File <==> label == "files"@
            &&& resource is Blob <==> label == "blobs"@
            &&& resource is Feed <==> label == "feeds"@
            &&& resource.id() is Some ==> resource.id() == Some(id)
        }),
{
    reveal_strlit("profile.json");
    reveal_strlit("last_read");
    reveal_strlit("posts");
    reveal_strlit("follows");
    reveal_strlit("mutes");
    reveal_strlit("bookmarks");
    reveal_strlit("tags");
    reveal_strlit("files");
    reveal_strlit("blobs");
    reveal_strlit("feeds");
    assert("profile.json"@.len() == 12 && "last_read"@.len() == 9 && "posts"@.len() == 5
        && "follows"@.len() == 7 && "mutes"@.len() == 5 && "bookmarks"@.len() == 9
        && "tags"@.len() == 4 && "files"@.len() == 5 && "blobs"@.len() == 5 && "feeds"@.len() == 5);
    assert("posts"@[0] == 'p' && "mutes"@[0] == 'm' && "files"@[1] == 'i' && "blobs"@[0] == 'b'
        && "feeds"@[1] == 'e' && "files"@[0] == 'f' && "feeds"@[0] == 'f');
    assert("bookmarks"@[0] == 'b' && "last_read"@[0] == 'l');
}

/// What a URI is read as is what its parts say: it is of the same user, points at what the label and the
/// id name, and is a tag of an app exactly where the parts name one, which is that app.
pub proof fn law_uris_are_what_their_parts_say(uri: ExtendedParsedUri, p: UriParts)
    requires
        uri.made_of(p),
    ensures
        uri.user() == p.user_id,
        uri.points_at() == resource_of(p.label, p.id),
        p.universal <==> uri is UniversalTag,
        p.universal ==> (uri matches ExtendedParsedUri::UniversalTag { app, .. } && app@ == p.app),
{
}

} // verus!
