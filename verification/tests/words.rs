//! Text, dates and messages.
use lidarr_backend::commands::{AlbumSearchCommand, ArtistSearchCommand};
use lidarr_backend::date::{is_later, ReleaseDate, MAX_TIMESTAMP, MIN_TIMESTAMP};
use lidarr_backend::error::{
    print_text_id, print_text_key, tolerate_response_parse_error, ApiError, LidarrError,
};
use lidarr_backend::models::MonitorTypes;
use lidarr_backend::provider::SelectableId;
use lidarr_backend::text::{
    flat_text, integer_text, join, natural_text, non_empty_text, same_text, starts_with,
    text_or_empty,
};

fn date(text: &str) -> ReleaseDate {
    let date = chrono::DateTime::parse_from_rfc3339(text).unwrap();
    ReleaseDate::new(
        date.timestamp(),
        date.timestamp_subsec_nanos(),
        date.offset().local_minus_utc(),
    )
    .unwrap()
}

#[test]
fn numbers_print_in_decimal() {
    assert_eq!(natural_text(0), "0");
    assert_eq!(natural_text(9), "9");
    assert_eq!(natural_text(10), "10");
    assert_eq!(natural_text(1234567890), "1234567890");
    assert_eq!(natural_text(u64::MAX), "18446744073709551615");
    assert_eq!(integer_text(0), "0");
    assert_eq!(integer_text(-1), "-1");
    assert_eq!(integer_text(2002), "2002");
    assert_eq!(integer_text(i32::MAX), "2147483647");
    assert_eq!(integer_text(i32::MIN), "-2147483648");
}

#[test]
fn parts_join_with_a_separator_between() {
    let parts = |texts: &[&str]| -> Vec<String> { texts.iter().map(|t| t.to_string()).collect() };
    assert_eq!(join(&parts(&[]), ", "), "");
    assert_eq!(join(&parts(&["one"]), ", "), "one");
    assert_eq!(join(&parts(&["one", "", "three"]), ", "), "one, , three");
    assert_eq!(join(&parts(&["a", "b"]), " · "), "a · b");
}

#[test]
fn texts_compare_by_their_characters() {
    assert!(same_text("Geogaddi", "Geogaddi"));
    assert!(!same_text("Geogaddi", "geogaddi"));
    assert!(!same_text("", "x"));
    assert!(starts_with("https://example.invalid", "https://"));
    assert!(starts_with("anything", ""));
    assert!(starts_with("same", "same"));
    assert!(!starts_with("http:/", "http://"));
    assert!(!starts_with("xhttp://", "http://"));
}

#[test]
fn absent_texts_merge() {
    assert_eq!(flat_text(&None), None);
    assert_eq!(flat_text(&Some(None)), None);
    assert_eq!(flat_text(&Some(Some("x".to_string()))).as_deref(), Some("x"));
    assert_eq!(text_or_empty(None), "");
    assert_eq!(text_or_empty(Some("x".to_string())), "x");
    assert_eq!(non_empty_text(Some(String::new())), None);
    assert_eq!(non_empty_text(Some(" ".to_string())).as_deref(), Some(" "));
    assert_eq!(non_empty_text(None), None);
}

#[test]
fn a_date_reports_the_year_of_its_own_offset() {
    assert_eq!(date("2002-02-13T00:00:00Z").year(), 2002);
    assert_eq!(date("1969-12-31T23:59:59Z").year(), 1969);
    assert_eq!(date("2000-12-31T23:59:59Z").year(), 2000);
    // The same instant is already in the next year further east
    assert_eq!(date("1999-12-31T23:30:00-01:00").year(), 1999);
    assert_eq!(date("2000-01-01T00:30:00Z").year(), 2000);
    assert_eq!(date("2000-01-01T00:30:00+05:30").year(), 2000);
    assert_eq!(date("0001-01-01T00:00:00Z").year(), 1);
}

#[test]
fn a_year_begins_and_ends_where_the_calendar_says() {
    // 2004 is a leap year, 1900 is not, 2000 is
    assert_eq!(ReleaseDate::new(1072915199, 0, 0).unwrap().year(), 2003);
    assert_eq!(ReleaseDate::new(1072915200, 0, 0).unwrap().year(), 2004);
    assert_eq!(ReleaseDate::new(1104537599, 0, 0).unwrap().year(), 2004);
    assert_eq!(ReleaseDate::new(1104537600, 0, 0).unwrap().year(), 2005);
    assert_eq!(ReleaseDate::new(-2208988801, 0, 0).unwrap().year(), 1899);
    assert_eq!(ReleaseDate::new(-2208988800, 0, 0).unwrap().year(), 1900);
    assert_eq!(ReleaseDate::new(-2177452801, 0, 0).unwrap().year(), 1900);
    assert_eq!(ReleaseDate::new(-2177452800, 0, 0).unwrap().year(), 1901);
    assert_eq!(ReleaseDate::new(978307199, 0, 0).unwrap().year(), 2000);
    assert_eq!(ReleaseDate::new(978307200, 0, 0).unwrap().year(), 2001);
}

#[test]
fn a_date_lies_in_the_calendar() {
    assert_eq!(MIN_TIMESTAMP, chrono::DateTime::<chrono::Utc>::MIN_UTC.timestamp());
    assert_eq!(MAX_TIMESTAMP, chrono::DateTime::<chrono::Utc>::MAX_UTC.timestamp());
    assert_eq!(ReleaseDate::new(MIN_TIMESTAMP, 0, 0).unwrap().year(), -262143);
    assert_eq!(ReleaseDate::new(MAX_TIMESTAMP, 0, 0).unwrap().year(), 262142);
    assert_eq!(ReleaseDate::new(MIN_TIMESTAMP, 0, -86399).unwrap().year(), -262144);
    assert_eq!(ReleaseDate::new(MAX_TIMESTAMP, 0, 86399).unwrap().year(), 262143);
    assert!(ReleaseDate::new(MIN_TIMESTAMP - 1, 0, 0).is_none());
    assert!(ReleaseDate::new(MAX_TIMESTAMP + 1, 0, 0).is_none());
    assert!(ReleaseDate::new(0, 0, 86400).is_none());
    assert!(ReleaseDate::new(0, 0, -86400).is_none());
}

#[test]
fn a_date_keeps_its_parts() {
    let date = ReleaseDate::new(1013558400, 5, -3600).unwrap();
    assert_eq!(date.parts(), (1013558400, 5, -3600));
}

#[test]
fn dates_compare_by_instant() {
    let early = Some(date("2000-01-01T00:00:00Z"));
    let late = Some(date("2000-01-01T00:00:00.000000001Z"));
    assert!(is_later(&late, &early));
    assert!(!is_later(&early, &late));
    assert!(!is_later(&early, &early));
    // One instant, two offsets
    let elsewhere = Some(date("2000-01-01T02:00:00+02:00"));
    assert!(!is_later(&early, &elsewhere) && !is_later(&elsewhere, &early));
    assert!(is_later(&early, &None));
    assert!(!is_later(&None, &early));
    assert!(!is_later(&None, &None));
}

#[test]
fn scopes_are_read_back_from_their_names() {
    let scopes = [
        (MonitorTypes::All, "all"),
        (MonitorTypes::Future, "future"),
        (MonitorTypes::Missing, "missing"),
        (MonitorTypes::Existing, "existing"),
        (MonitorTypes::Latest, "latest"),
        (MonitorTypes::First, "first"),
        (MonitorTypes::Nothing, "none"),
        (MonitorTypes::Unknown, "unknown"),
    ];
    for (scope, name) in scopes {
        assert_eq!(scope.to_string(), name);
        assert_eq!(MonitorTypes::from_name(name), Some(scope));
    }
    assert_eq!(MonitorTypes::from_name("All"), None);
    assert_eq!(MonitorTypes::from_name(""), None);
}

#[test]
fn commands_carry_their_names() {
    let artist = ArtistSearchCommand::new(7);
    assert_eq!(artist.name, "ArtistSearch");
    assert_eq!(artist.artist_id, 7);
    let albums = AlbumSearchCommand::new(vec![3, 1, 2]);
    assert_eq!(albums.name, "AlbumSearch");
    assert_eq!(albums.album_ids, vec![3, 1, 2]);
}

#[test]
fn every_error_says_what_went_wrong() {
    let texts = |items: &[&str]| -> Vec<String> { items.iter().map(|t| t.to_string()).collect() };
    let cases: Vec<(LidarrError, &str)> = vec![
        (
            LidarrError::RootFolderNotFound {
                path: "/nope".to_string(),
                available: texts(&["/music", "/music2"]),
            },
            "Root folder '/nope' not found. Available options: [/music, /music2]",
        ),
        (LidarrError::NoRootFolders, "Lidarr has no root folders configured"),
        (
            LidarrError::RootFolderWithoutPath,
            "The selected Lidarr root folder has no path",
        ),
        (
            LidarrError::ProfileNotFound {
                label: "Quality profile".to_string(),
                name: "Nope".to_string(),
                available: texts(&["Standard", "Lossless"]),
            },
            "Quality profile 'Nope' not found. Available options: [Standard, Lossless]",
        ),
        (
            LidarrError::NoProfiles {
                label: "Metadata profile".to_string(),
            },
            "Metadata profiles are not configured in Lidarr",
        ),
        (
            LidarrError::InvalidMonitorType,
            "Monitor type 'unknown' is not a valid scope. Available options: [all, future, missing, existing, latest, first, none]",
        ),
        (LidarrError::WrongBackend, "Configured backend not for Lidarr"),
        (
            LidarrError::NoOptionSelected {
                title: "Monitor".to_string(),
            },
            "No option was selected for 'Monitor'",
        ),
        (
            LidarrError::AlbumIdNotInteger {
                id: Some(SelectableId::String("a\"b".to_string())),
            },
            "Album must have an integer ID, got Some(String(\"a\\\"b\"))",
        ),
        (
            LidarrError::AlbumIdNotInteger { id: None },
            "Album must have an integer ID, got None",
        ),
        (
            LidarrError::MonitorIdNotString {
                id: Some(SelectableId::Integer(-5)),
            },
            "Monitor must have a string ID, got Some(Integer(-5))",
        ),
        (
            LidarrError::UnknownScope {
                name: "some".to_string(),
                cause: Some("invalid escape".to_string()),
            },
            "Failed to deserialize enum variant: some",
        ),
        (
            LidarrError::UnknownMetadata {
                key: Some("lidarr:other".to_string()),
            },
            "Unknown metadata key: Some(\"lidarr:other\")",
        ),
        (
            LidarrError::UnknownMetadata { key: None },
            "Unknown metadata key: None",
        ),
        (LidarrError::InvalidMediaType, "Invalid media type for Lidarr"),
        (
            LidarrError::NoMonitorSelected,
            "No monitor type was selected for a new artist",
        ),
        (
            LidarrError::AlbumWithoutArtist,
            "Lidarr returned an album with no artist",
        ),
        (
            LidarrError::AlbumWithoutMusicBrainzId,
            "Lidarr returned an album with no MusicBrainz id",
        ),
        (
            LidarrError::NoAlbumsListed,
            "Lidarr doesn't list any albums for this artist.",
        ),
        (LidarrError::NoAlbumsSelected, "No albums were selected."),
        (
            LidarrError::AlreadyMonitored {
                name: "Boards of Canada".to_string(),
            },
            "Already monitored for Boards of Canada, nothing more to add.",
        ),
        (
            LidarrError::Api(ApiError::Response("error in response".to_string())),
            "error in response",
        ),
        (LidarrError::Api(ApiError::Io("broken pipe".to_string())), "broken pipe"),
    ];
    for (error, text) in &cases {
        assert_eq!(error.message(), *text);
    }
    let shown = cases.iter().filter(|(error, _)| error.is_user_facing()).count();
    assert_eq!(shown, 3);
}

#[test]
fn a_printed_text_is_wrapped_as_an_id_or_a_key() {
    assert_eq!(print_text_id("\"all\""), "Some(String(\"all\"))");
    assert_eq!(print_text_key("\"k\""), "Some(\"k\")");
}

#[test]
fn only_what_a_requester_did_is_said_to_them() {
    assert!(LidarrError::NoAlbumsListed.is_user_facing());
    assert!(LidarrError::NoAlbumsSelected.is_user_facing());
    assert!(LidarrError::AlreadyMonitored {
        name: String::new()
    }
    .is_user_facing());
    assert!(!LidarrError::NoMonitorSelected.is_user_facing());
    assert!(!LidarrError::Api(ApiError::Reqwest(String::new())).is_user_facing());
}

#[test]
fn an_answer_that_does_not_parse_counts_as_success() {
    assert_eq!(
        tolerate_response_parse_error(Ok::<u64, ApiError>(5)).unwrap(),
        Some(5)
    );
    let unparsed: Result<u64, ApiError> = Err(ApiError::Serde("expected value".to_string()));
    assert_eq!(tolerate_response_parse_error(unparsed).unwrap(), None);
    for error in [
        ApiError::Response("r".to_string()),
        ApiError::Reqwest("r".to_string()),
        ApiError::Io("r".to_string()),
    ] {
        let failed: Result<u64, ApiError> = Err(error);
        assert_eq!(tolerate_response_parse_error(failed).unwrap_err().text(), "r");
    }
}
