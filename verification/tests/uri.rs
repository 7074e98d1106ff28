use nexus::uri::{ExtendedParsedUri, ParsedUri, PubkyId, Resource};
use nexus::watcher::key_based::valid_users;

const USER: &str = "8um71us3fyw6h8wbcxb5ar3rwusy1a6u49956ikzojg3gcwd1dty";
const OTHER: &str = "operrr8wsbpr3ue9d4qj41ge1kcc6r7fdiy6o3ugjrrhi4y77rdo";

#[test]
fn ids_are_public_keys() {
    assert_eq!(PubkyId::try_from(USER).unwrap().as_str(), USER);
    assert_eq!(
        PubkyId::try_from("short").unwrap_err(),
        "Validation Error: the string is not 52 utf chars"
    );
    assert!(PubkyId::try_from(&"l".repeat(52)).is_err());
}

#[test]
fn strict_uris_of_posts() {
    let uri = format!("pubky://{USER}/pub/pubky.app/posts/0032SSN7Q4EVG");
    let p = ParsedUri::try_from(&uri).unwrap();
    assert_eq!(p.user_id.as_str(), USER);
    assert_eq!(p.resource, Resource::Post("0032SSN7Q4EVG".to_string()));
    assert!(ParsedUri::try_from("https://example.com").is_err());
}

#[test]
fn extended_uris_of_all_resources() {
    let base = format!("pubky://{USER}/pub/pubky.app");
    let cases = vec![
        (format!("{base}/profile.json"), Resource::User, "profile.json"),
        (
            format!("{base}/follows/{OTHER}"),
            Resource::Follow(PubkyId::try_from(OTHER).unwrap()),
            "follows",
        ),
        (
            format!("{base}/mutes/{OTHER}"),
            Resource::Mute(PubkyId::try_from(OTHER).unwrap()),
            "mutes",
        ),
        (format!("{base}/bookmarks/b"), Resource::Bookmark("b".to_string()), "bookmarks"),
        (format!("{base}/tags/t"), Resource::Tag("t".to_string()), "tags"),
        (format!("{base}/files/f"), Resource::File("f".to_string()), "files"),
        (format!("{base}/blobs/b"), Resource::Blob("b".to_string()), "blobs"),
        (format!("{base}/feeds/f"), Resource::Feed("f".to_string()), "feeds"),
        (format!("{base}/last_read"), Resource::LastRead, "last_read"),
        (format!("{base}/else"), Resource::Unknown, "unknown"),
    ];
    for (uri, resource, label) in cases {
        match ExtendedParsedUri::try_from(&uri).unwrap() {
            ExtendedParsedUri::PubkyApp { user_id, resource: found } => {
                assert_eq!(user_id.as_str(), USER);
                assert_eq!(found, resource, "{uri}");
                let theirs = pubky_app_specs::ExtendedParsedUri::try_from(uri.as_str()).unwrap();
                assert_eq!(found.label(), theirs.resource().to_string(), "{label}");
                assert_eq!(found.id(), theirs.resource().id());
            }
            ExtendedParsedUri::UniversalTag { .. } => panic!("{uri} is of pubky.app"),
        }
    }
}

#[test]
fn tags_of_other_apps() {
    let uri = format!("pubky://{USER}/pub/mapky.app/tags/ABC");
    match ExtendedParsedUri::try_from(&uri).unwrap() {
        ExtendedParsedUri::UniversalTag { user_id, app, .. } => {
            assert_eq!(user_id.as_str(), USER);
            assert_eq!(app, "mapky.app");
        }
        ExtendedParsedUri::PubkyApp { .. } => panic!("{uri} is of another app"),
    }
    let p = ExtendedParsedUri::try_from(&uri).unwrap();
    assert_eq!(p.user_id().as_str(), USER);
    assert_eq!(p.resource(), &Resource::Tag("ABC".to_string()));
    assert!(ExtendedParsedUri::try_from(&format!("pubky://{USER}/pub/mapky.app/else/ABC")).is_err());
}

#[test]
fn users_without_a_key_are_left_out() {
    let ids: Vec<String> = [USER, "nonsense", OTHER].iter().map(|s| s.to_string()).collect();
    assert_eq!(
        valid_users(&ids),
        vec![
            (USER.to_string(), USER.to_string()),
            (OTHER.to_string(), OTHER.to_string()),
        ]
    );
}

/// A key may come with a prefix; what counts is the key.
#[test]
fn keys_are_rendered_without_prefix() {
    let given = format!("pubky{USER}");
    let expected = given.parse::<pubky::PublicKey>().ok().map(|key| key.z32());
    let found = valid_users(&vec![given.clone()]);
    assert_eq!(found.first().map(|u| u.0.clone()), expected);
}
