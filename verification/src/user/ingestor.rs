//! Ingestion of previously unknown users, unless their homeserver is blacklisted.
use crate::config::stack::StackConfig;
use crate::text::views;
use crate::uri::{ParsedUri, PubkyId};
use crate::watcher::errors::ModelError;
use vstd::prelude::*;

verus! {

/// Homeservers that must never be indexed.
#[derive(Debug, Clone, PartialEq, Eq)]
pub struct HsBlacklist {
    ids: Vec<String>,
}

impl HsBlacklist {
    /// Whether a homeserver is on the list.
    pub closed spec fn lists(&self, hs_id: Seq<char>) -> bool {
        views(self.ids@).contains(hs_id)
    }

    /// A list of the given homeservers.
    pub fn new(ids: Vec<PubkyId>) -> (r: HsBlacklist)
        ensures
            forall|hs_id: Seq<char>| #[trigger]
                r.lists(hs_id) <==> exists|i: int| 0 <= i < ids@.len() && #[trigger] ids@[i]@ == hs_id,
    {
        let mut texts: Vec<String> = Vec::new();
        let mut i: usize = 0;
        while i < ids.len()
            invariant
                i <= ids.len(),
                texts@.len() == i,
                forall|j: int| 0 <= j < i ==> #[trigger] texts@[j]@ == ids@[j]@,
            decreases ids.len() - i,
        {
            texts.push(ids[i].text());
            i = i + 1;
        }
        let r = HsBlacklist { ids: texts };
        proof {
            assert forall|hs_id: Seq<char>| #[trigger] r.lists(hs_id) <==> exists|i: int|
                0 <= i < ids@.len() && #[trigger] ids@[i]@ == hs_id by {
                let all = views(r.ids@);
                if r.lists(hs_id) {
                    let k = choose|k: int| 0 <= k < all.len() && all[k] == hs_id;
                    assert(all[k] == r.ids@[k]@);
                    assert(ids@[k]@ == hs_id);
                }
                if exists|i: int| 0 <= i < ids@.len() && #[trigger] ids@[i]@ == hs_id {
                    let k = choose|i: int| 0 <= i < ids@.len() && #[trigger] ids@[i]@ == hs_id;
                    assert(all[k] == r.ids@[k]@);
                }
            }
        }
        r
    }

    /// The list of the homeservers that the stack forbids.
    pub fn from_config(config: &StackConfig) -> (r: HsBlacklist)
        ensures
            forall|hs_id: Seq<char>| #[trigger]
                r.lists(hs_id) <==> config.net.blacklists(hs_id),
    {
        let listed = &config.net.external_hs_pk_blacklist;
        let mut ids: Vec<PubkyId> = Vec::new();
        let mut i: usize = 0;
        while i < listed.len()
            invariant
                i <= listed.len(),
                ids@.len() == i,
                forall|j: int| 0 <= j < i ==> #[trigger] ids@[j]@ == listed@[j]@,
            decreases listed.len() - i,
        {
            ids.push(listed[i].copy());
            i = i + 1;
        }
        let ghost copied = ids@;
        let r = HsBlacklist::new(ids);
        proof {
            assert forall|hs_id: Seq<char>| #[trigger]
                r.lists(hs_id) <==> config.net.blacklists(hs_id) by {
                if r.lists(hs_id) {
                    let k = choose|k: int| 0 <= k < copied.len() && #[trigger] copied[k]@ == hs_id;
                    assert(listed@[k]@ == hs_id);
                }
                if config.net.blacklists(hs_id) {
                    let k = choose|k: int|
                        0 <= k < listed@.len() && #[trigger] listed@[k]@ == hs_id;
                    assert(copied[k]@ == hs_id);
                }
            }
        }
        r
    }

    /// The same list once more.
    pub fn copy(&self) -> (r: HsBlacklist)
        ensures
            forall|hs_id: Seq<char>| #[trigger] r.lists(hs_id) <==> self.lists(hs_id),
    {
        let mut ids: Vec<String> = Vec::new();
        let mut i: usize = 0;
        while i < self.ids.len()
            invariant
                i <= self.ids.len(),
                ids@.len() == i,
                forall|j: int| 0 <= j < i ==> #[trigger] ids@[j]@ == self.ids@[j]@,
            decreases self.ids.len() - i,
        {
            ids.push(self.ids[i].clone());
            i = i + 1;
        }
        assert(views(ids@) =~= views(self.ids@));
        HsBlacklist { ids }
    }

    /// Whether a homeserver is on the list.
    pub fn is_blacklisted(&self, hs_id: &str) -> (r: bool)
        ensures
            r == self.lists(hs_id@),
    {
        let mut i: usize = 0;
        let ghost all = views(self.ids@);
        while i < self.ids.len()
            invariant
                i <= self.ids.len(),
                all == views(self.ids@),
                forall|j: int| 0 <= j < i ==> all[j] != hs_id@,
            decreases self.ids.len() - i,
        {
            if *self.ids[i].as_str() == *hs_id {
                assert(all[i as int] == hs_id@);
                return true;
            }
            i = i + 1;
        }
        false
    }
}

/// What becomes of a user who is to be ingested.
#[derive(Debug, Clone, PartialEq, Eq)]
pub enum Ingestion {
    /// The user is known already.
    AlreadyKnown,
    /// The user publishes no homeserver, or is one.
    NoHomeserver,
    /// Store a stub of the user in the graph, bind the user to the homeserver and store the
    /// start of the user's cursor there. The user is not indexed: that would affect the
    /// timeline of events for this user.
    Ingest { user_id: String, hs_id: String, cursor: u64 },
}

/// Ingests previously-unknown users unless their homeserver is blacklisted.
#[derive(Debug, Clone, PartialEq, Eq)]
pub struct UserIngestor {
    hs_blacklist: HsBlacklist,
}

/// Whether `r` is the verdict on a user whose published homeserver resolved to `resolved`.
/// The user may be a homeserver itself, which no resolver finds: it is looked up first.
pub open spec fn homeserver_checked_as(
    blacklist: HsBlacklist,
    user_id: Seq<char>,
    resolved: Option<String>,
    r: Result<Option<String>, ModelError>,
) -> bool {
    if blacklist.lists(user_id) {
        r matches Err(ModelError::HsBlacklisted { hs_id }) && hs_id@ == user_id
    } else {
        match resolved {
            None => r == Ok::<Option<String>, ModelError>(None),
            Some(hs_id) => if blacklist.lists(hs_id@) {
                r == Err::<Option<String>, ModelError>(ModelError::HsBlacklisted { hs_id })
            } else {
                r == Ok::<Option<String>, ModelError>(Some(hs_id))
            },
        }
    }
}

impl UserIngestor {
    /// The homeservers that must never be indexed.
    pub closed spec fn blacklist(&self) -> HsBlacklist {
        self.hs_blacklist
    }

    /// Builds an ingestor enforcing the given homeserver blacklist.
    pub fn new(external_hs_pk_blacklist: Vec<PubkyId>) -> (r: UserIngestor)
        ensures
            forall|hs_id: Seq<char>| #[trigger]
                r.blacklist().lists(hs_id) <==> exists|i: int|
                    0 <= i < external_hs_pk_blacklist@.len() && #[trigger]
                    external_hs_pk_blacklist@[i]@ == hs_id,
    {
        UserIngestor { hs_blacklist: HsBlacklist::new(external_hs_pk_blacklist) }
    }

    /// Builds an ingestor enforcing the homeserver blacklist of the stack.
    pub fn from_config(config: &StackConfig) -> (r: UserIngestor)
        ensures
            forall|hs_id: Seq<char>| #[trigger]
                r.blacklist().lists(hs_id) <==> config.net.blacklists(hs_id),
    {
        UserIngestor { hs_blacklist: HsBlacklist::from_config(config) }
    }

    /// Refuses a user who is a blacklisted homeserver, before anything is resolved.
    pub fn check_user(&self, user_id: &PubkyId) -> (r: Result<(), ModelError>)
        ensures
            match r {
                Ok(_) => !self.blacklist().lists(user_id@),
                Err(e) => self.blacklist().lists(user_id@) && (
                e matches ModelError::HsBlacklisted { hs_id } && hs_id@ == user_id@),
            },
    {
        if self.hs_blacklist.is_blacklisted(user_id.as_str()) {
            Err(ModelError::HsBlacklisted { hs_id: user_id.text() })
        } else {
            Ok(())
        }
    }

    /// Refuses a user whose homeserver, resolved to `resolved`, is blacklisted.
    ///
    /// # Returns
    /// - `Ok(Some(hs_id))` if the user's homeserver resolved and is not blacklisted
    /// - `Ok(None)` if the user has no published homeserver or is a homeserver itself
    /// - `HsBlacklisted` if the user or the resolved homeserver is blacklisted
    pub fn ensure_hs_not_blacklisted(&self, user_id: &PubkyId, resolved: Option<String>) -> (r:
        Result<Option<String>, ModelError>)
        ensures
            homeserver_checked_as(self.blacklist(), user_id@, resolved, r),
    {
        match self.check_user(user_id) {
            Err(e) => Err(e),
            Ok(_) => match resolved {
                None => Ok(None),
                Some(hs_id) => if self.hs_blacklist.is_blacklisted(hs_id.as_str()) {
                    Err(ModelError::HsBlacklisted { hs_id })
                } else {
                    Ok(Some(hs_id))
                },
            },
        }
    }

    /// Plans the ingestion of a user. A known user is left alone whatever the homeserver.
    pub fn maybe_ingest_user(&self, user_id: &PubkyId, known: bool, resolved: Option<String>) -> (r:
        Result<Ingestion, ModelError>)
        ensures
            ingestion_planned_as(self.blacklist(), user_id@, known, resolved, r),
    {
        if known {
            return Ok(Ingestion::AlreadyKnown);
        }
        let checked = self.ensure_hs_not_blacklisted(user_id, resolved);
        let ghost verdict = checked;
        assert(homeserver_checked_as(self.blacklist(), user_id@, resolved, verdict));
        match checked {
            Err(e) => Err(e),
            Ok(None) => Ok(Ingestion::NoHomeserver),
            Ok(Some(hs_id)) => Ok(Ingestion::Ingest { user_id: user_id.text(), hs_id, cursor: 0 }),
        }
    }

    /// Plans the ingestion of the author of a referenced post.
    pub fn maybe_ingest_author_of_post(
        &self,
        referenced_post_uri: &ParsedUri,
        known: bool,
        resolved: Option<String>,
    ) -> (r: Result<Ingestion, ModelError>)
        ensures
            ingestion_planned_as(
                self.blacklist(),
                referenced_post_uri.user_id@,
                known,
                resolved,
                r,
            ),
    {
        self.maybe_ingest_user(&referenced_post_uri.user_id, known, resolved)
    }
}

/// Whether `r` is the plan for a user.
pub open spec fn ingestion_planned_as(
    blacklist: HsBlacklist,
    user_id: Seq<char>,
    known: bool,
    resolved: Option<String>,
    r: Result<Ingestion, ModelError>,
) -> bool {
    if known {
        r == Ok::<Ingestion, ModelError>(Ingestion::AlreadyKnown)
    } else {
        exists|verdict: Result<Option<String>, ModelError>| #[trigger]
            homeserver_checked_as(blacklist, user_id, resolved, verdict) && (match verdict {
                Err(e) => r == Err::<Ingestion, ModelError>(e),
                Ok(None) => r == Ok::<Ingestion, ModelError>(Ingestion::NoHomeserver),
                Ok(Some(h)) => r matches Ok(Ingestion::Ingest { user_id: u, hs_id, cursor }) && u@
                    == user_id && hs_id == h && cursor == 0,
            })
    }
}

/// Nobody is ingested from a blacklisted homeserver, and no blacklisted homeserver is
/// ingested as a user.
pub proof fn law_blacklisted_never_ingested(
    blacklist: HsBlacklist,
    user_id: Seq<char>,
    known: bool,
    resolved: Option<String>,
    r: Result<Ingestion, ModelError>,
)
    requires
        ingestion_planned_as(blacklist, user_id, known, resolved, r),
    ensures
        r matches Ok(Ingestion::Ingest { user_id: u, hs_id, .. }) ==> u@ == user_id && !blacklist.lists(
            u@,
        ) && !blacklist.lists(hs_id@),
        !known && blacklist.lists(user_id) ==> (r matches Err(ModelError::HsBlacklisted { hs_id })
            && hs_id@ == user_id),
{
    if !known {
        let verdict = choose|verdict: Result<Option<String>, ModelError>| #[trigger]
            homeserver_checked_as(blacklist, user_id, resolved, verdict) && (match verdict {
                Err(e) => r == Err::<Ingestion, ModelError>(e),
                Ok(None) => r == Ok::<Ingestion, ModelError>(Ingestion::NoHomeserver),
                Ok(Some(h)) => r matches Ok(Ingestion::Ingest { user_id: u, hs_id, cursor }) && u@
                    == user_id && hs_id == h && cursor == 0,
            });
        assert(homeserver_checked_as(blacklist, user_id, resolved, verdict));
    }
}

/// An unknown user whose homeserver is found and not blacklisted is ingested, bound to that
/// homeserver and from the start of its events; one without a homeserver is not, and a known user is
/// left alone.
pub proof fn law_unknown_users_are_ingested(
    blacklist: HsBlacklist,
    user_id: Seq<char>,
    known: bool,
    resolved: Option<String>,
    r: Result<Ingestion, ModelError>,
)
    requires
        ingestion_planned_as(blacklist, user_id, known, resolved, r),
    ensures
        r == Ok::<Ingestion, ModelError>(Ingestion::AlreadyKnown) <==> known,
        r == Ok::<Ingestion, ModelError>(Ingestion::NoHomeserver) <==> !known && resolved is None
            && !blacklist.lists(user_id),
        !known && !blacklist.lists(user_id) && resolved is Some && !blacklist.lists(resolved->0@)
            ==> (r matches Ok(Ingestion::Ingest { user_id: u, hs_id, cursor }) && u@ == user_id
            && hs_id == resolved->0 && cursor == 0),
        r is Err <==> !known && (blacklist.lists(user_id) || (resolved is Some && blacklist.lists(
            resolved->0@,
        ))),
{
    if !known {
        let verdict = choose|verdict: Result<Option<String>, ModelError>| #[trigger]
            homeserver_checked_as(blacklist, user_id, resolved, verdict) && (match verdict {
                Err(e) => r == Err::<Ingestion, ModelError>(e),
                Ok(None) => r == Ok::<Ingestion, ModelError>(Ingestion::NoHomeserver),
                Ok(Some(h)) => r matches Ok(Ingestion::Ingest { user_id: u, hs_id, cursor }) && u@
                    == user_id && hs_id == h && cursor == 0,
            });
        assert(homeserver_checked_as(blacklist, user_id, resolved, verdict));
    }
}

} // verus!
