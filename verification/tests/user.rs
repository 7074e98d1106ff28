use nexus::uri::{ParsedUri, PubkyId};
use nexus::user::ingestor::{HsBlacklist, Ingestion, UserIngestor};
use nexus::watcher::errors::{Disposition, EventProcessorError, ModelError};

const USER: &str = "8um71us3fyw6h8wbcxb5ar3rwusy1a6u49956ikzojg3gcwd1dty";
const HS: &str = "operrr8wsbpr3ue9d4qj41ge1kcc6r7fdiy6o3ugjrrhi4y77rdo";

fn id(s: &str) -> PubkyId {
    PubkyId::try_from(s).unwrap()
}

fn blacklisting(hs: &str) -> UserIngestor {
    UserIngestor::new(vec![id(hs)])
}

#[test]
fn test_maybe_ingest_user_aborts_on_blacklisted_homeserver() {
    let r = blacklisting(HS).maybe_ingest_user(&id(USER), false, Some(HS.to_string()));
    assert_eq!(r, Err(ModelError::HsBlacklisted { hs_id: HS.to_string() }));
}

#[test]
fn test_maybe_ingest_user_ingests_when_not_blacklisted() {
    let r = UserIngestor::new(vec![]).maybe_ingest_user(&id(USER), false, Some(HS.to_string()));
    assert_eq!(
        r,
        Ok(Ingestion::Ingest { user_id: USER.to_string(), hs_id: HS.to_string(), cursor: 0 })
    );
}

#[test]
fn known_users_are_left_alone() {
    let r = blacklisting(HS).maybe_ingest_user(&id(USER), true, Some(HS.to_string()));
    assert_eq!(r, Ok(Ingestion::AlreadyKnown));
}

#[test]
fn users_without_homeserver_are_skipped() {
    let r = blacklisting(HS).maybe_ingest_user(&id(USER), false, None);
    assert_eq!(r, Ok(Ingestion::NoHomeserver));
}

/// A blacklisted homeserver that is addressed as a user is refused too.
#[test]
fn test_file_ingest_aborts_when_source_is_blacklisted_hs_pk_directly() {
    let ingestor = blacklisting(HS);
    let refused = Err(ModelError::HsBlacklisted { hs_id: HS.to_string() });
    assert!(ingestor.check_user(&id(HS)).is_err());
    assert!(ingestor.check_user(&id(USER)).is_ok());
    assert_eq!(ingestor.ensure_hs_not_blacklisted(&id(HS), None), refused);
}

#[test]
fn test_file_ingest_aborts_on_blacklisted_source_homeserver() {
    let r = blacklisting(HS).ensure_hs_not_blacklisted(&id(USER), Some(HS.to_string()));
    let e = EventProcessorError::from(r.unwrap_err());
    assert_eq!(e, EventProcessorError::HsBlacklisted { hs_id: HS.to_string() });
    assert_eq!(e.disposition(), Disposition::Drop);
}

#[test]
fn test_file_ingest_proceeds_when_source_homeserver_not_blacklisted() {
    let r = blacklisting(USER).ensure_hs_not_blacklisted(&id(HS), Some("other".to_string()));
    assert_eq!(r, Ok(Some("other".to_string())));
}

#[test]
fn authors_of_posts_are_ingested_like_users() {
    let uri = format!("pubky://{USER}/pub/pubky.app/posts/0032SSN7Q4EVG");
    let post = ParsedUri::try_from(&uri).unwrap();
    let r = blacklisting(HS).maybe_ingest_author_of_post(&post, false, Some(HS.to_string()));
    assert!(matches!(r, Err(ModelError::HsBlacklisted { .. })));
}

#[test]
fn blacklists_hold_what_they_are_given() {
    let list = HsBlacklist::new(vec![id(HS)]);
    assert!(list.is_blacklisted(HS));
    assert!(!list.is_blacklisted(USER));
    assert!(list.copy().is_blacklisted(HS));
    assert!(!HsBlacklist::new(vec![]).is_blacklisted(HS));
}
