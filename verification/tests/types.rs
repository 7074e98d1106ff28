use nexus::types::{DomainTrust, ReachError, StreamReach, StreamSorting, WotDepth};

#[test]
fn bare_wot_defaults_to_depth_2() {
    let reach: StreamReach = StreamReach::parse("wot").unwrap();
    assert_eq!(reach, StreamReach::Wot(WotDepth::default()));
    assert_eq!(WotDepth::default().get(), 2);
}

#[test]
fn wot_with_explicit_depth_parses() {
    let reach: StreamReach = StreamReach::parse("wot_3").unwrap();
    assert_eq!(reach, StreamReach::Wot(WotDepth::new(3).unwrap()));
}

#[test]
fn wot_out_of_range_is_rejected() {
    assert!(StreamReach::parse("wot_4").is_err());
}

#[test]
fn plain_reaches_parse() {
    assert_eq!(StreamReach::parse("followers"), Ok(StreamReach::Followers));
    assert_eq!(StreamReach::parse("following"), Ok(StreamReach::Following));
    assert_eq!(StreamReach::parse("friends"), Ok(StreamReach::Friends));
}

#[test]
fn reach_errors_say_what_is_wrong() {
    let e = StreamReach::parse("wot_x").unwrap_err();
    assert_eq!(e, ReachError::InvalidDepth("x".to_string()));
    assert_eq!(e.message(), "Invalid depth value: x");
    assert!(matches!(StreamReach::parse("wot_"), Err(ReachError::InvalidDepth(_))));
    assert!(matches!(StreamReach::parse("wot_256"), Err(ReachError::InvalidDepth(_))));
    assert!(matches!(StreamReach::parse("wot_-1"), Err(ReachError::InvalidDepth(_))));
    let e = StreamReach::parse("wot_0").unwrap_err();
    assert_eq!(e.message(), "'depth' must be between 1 and 3");
    let e = StreamReach::parse("Followers").unwrap_err();
    assert_eq!(e, ReachError::UnknownVariant("Followers".to_string()));
    assert_eq!(e.message(), "Followers");
}

/// A sign and leading zeros are read as the standard parser reads them.
#[test]
fn depths_parse_like_numbers() {
    for text in ["+2", "02", "002", "2", "+", "++2", "2 ", " 2", "", "300"] {
        let expected = text.parse::<u8>().ok().and_then(|n| WotDepth::new(n).ok());
        let read = StreamReach::parse(&format!("wot_{text}")).ok();
        assert_eq!(read, expected.map(StreamReach::Wot), "{text}");
    }
}

#[test]
fn depths_are_bounded() {
    assert!(WotDepth::new(0).is_err());
    assert!(WotDepth::new(1).is_ok());
    assert!(WotDepth::new(3).is_ok());
    assert_eq!(WotDepth::new(4).unwrap_err(), "'depth' must be between 1 and 3");
    assert_eq!(WotDepth::new(3).unwrap().text(), "3");
    assert_eq!(DomainTrust::Me.depth(), 0);
    assert_eq!(DomainTrust::Network(WotDepth::new(3).unwrap()).depth(), 3);
}

#[test]
fn reach_telemetry_carries_depth_for_wot_only() {
    assert_eq!(StreamReach::Friends.telemetry_dimensions(), ("friends", None));
    assert_eq!(
        StreamReach::Wot(WotDepth::default()).telemetry_dimensions(),
        ("wot", Some(2))
    );
    assert_eq!(StreamSorting::default(), StreamSorting::Timeline);
}
