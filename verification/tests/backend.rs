use lidarr_backend::config::{Configuration, LidarrSearchMode};
use lidarr_backend::date::ReleaseDate;
use lidarr_backend::field_keys;
use lidarr_backend::lidarr::{resolve_profile, resolve_rootfolder, AddSettings, Lidarr};
use lidarr_backend::media::{artist_poster, LidarrMedia, MediaItem};
use lidarr_backend::models::{
    AlbumResource, ArtistResource, MediaCover, MediaCoverTypes, MonitorTypes, RootFolderResource,
};
use lidarr_backend::picker::album_option;
use lidarr_backend::provider::{
    DropdownOption, FieldType, RequestDetails, SelectableId, ALL_ITEMS_ID,
};
use lidarr_backend::search::interleave;
use lidarr_backend::selection::{
    albums_to_monitor, format_albums, selected_albums, SelectedDetails,
};

/// A release date as it is written on the wire.
fn date(text: &str) -> ReleaseDate {
    let date = chrono::DateTime::parse_from_rfc3339(text).unwrap();
    ReleaseDate::new(
        date.timestamp(),
        date.timestamp_subsec_nanos(),
        date.offset().local_minus_utc(),
    )
    .unwrap()
}

/// A multi-select album picker over the given album ids, with the options at
/// `selected` indices chosen.
fn album_field(albums: &[(i32, &str)], selected: &[usize]) -> RequestDetails {
    RequestDetails {
        title: "Albums".into(),
        options: albums
            .iter()
            .map(|(id, title)| DropdownOption {
                title: title.to_string(),
                description: None,
                id: Some(SelectableId::Integer(*id)),
            })
            .collect(),
        selected_indices: selected.to_vec(),
        metadata: Some(field_keys::ALBUM.to_string()),
        field_type: FieldType::MultiSelect,
        always_show: true,
    }
}

fn monitor_field(id: &str, selected: bool) -> RequestDetails {
    RequestDetails {
        title: "Monitor".into(),
        options: vec![DropdownOption {
            title: "All Albums".into(),
            description: None,
            id: Some(SelectableId::String(id.into())),
        }],
        selected_indices: if selected { vec![0] } else { vec![] },
        metadata: Some(field_keys::MONITOR.to_string()),
        field_type: FieldType::Dropdown,
        always_show: false,
    }
}

#[test]
fn try_from_reads_the_monitor_scope() {
    let selected = SelectedDetails::try_from(vec![monitor_field("all", true)]).unwrap();
    assert_eq!(selected.monitor, Some(MonitorTypes::All));
    assert!(selected.album_ids.is_empty());
    assert!(!selected.all_albums);
}

#[test]
fn try_from_auto_selects_a_pinned_monitor_scope() {
    // A config pin collapses the field to one option the user never touches
    let selected = SelectedDetails::try_from(vec![monitor_field("latest", false)]).unwrap();
    assert_eq!(selected.monitor, Some(MonitorTypes::Latest));
}

#[test]
fn try_from_accepts_no_details_at_all() {
    // Album mode asks nothing: every add setting comes from the config
    let selected = SelectedDetails::try_from(Vec::new()).unwrap();
    assert!(selected.monitor.is_none());
    assert!(selected.album_ids.is_empty());
}

#[test]
fn try_from_errors_on_an_unselected_multi_option_field() {
    let mut detail = monitor_field("all", false);
    detail.options.push(DropdownOption {
        title: "None".into(),
        description: None,
        id: Some(SelectableId::String("none".into())),
    });
    assert!(SelectedDetails::try_from(vec![detail]).is_err());
}

#[test]
fn try_from_collects_multiple_albums() {
    let details = vec![album_field(
        &[(7, "Geogaddi"), (8, "Tomorrow's Harvest")],
        &[0, 1],
    )];
    let selected = SelectedDetails::try_from(details).unwrap();
    assert_eq!(selected.album_ids, vec![7, 8]);
    assert!(!selected.all_albums);
}

#[test]
fn try_from_all_albums_sentinel() {
    let details = vec![album_field(
        &[(ALL_ITEMS_ID, "All Albums"), (7, "Geogaddi")],
        &[0],
    )];
    let selected = SelectedDetails::try_from(details).unwrap();
    assert!(selected.all_albums);
    assert!(selected.album_ids.is_empty());
}

#[test]
fn albums_to_monitor_skips_already_monitored() {
    assert_eq!(albums_to_monitor(&[1, 2, 3], &[2]), vec![1, 3]);
    assert!(albums_to_monitor(&[1, 2], &[1, 2, 3]).is_empty());
}

#[test]
fn format_albums_names_one_and_counts_more() {
    // Album titles are long, so only a single pick is named outright
    assert_eq!(format_albums(&[]), "");
    assert_eq!(format_albums(&["Geogaddi".to_string()]), "Geogaddi");
    assert_eq!(
        format_albums(&["Geogaddi".to_string(), "Amnesiac".to_string()]),
        "2 albums"
    );
}

#[test]
fn selected_albums_separates_the_all_sentinel_from_titles() {
    let details = vec![album_field(
        &[
            (ALL_ITEMS_ID, "All Albums"),
            (7, "Geogaddi"),
            (8, "Amnesiac"),
        ],
        &[0, 1],
    )];
    let (titles, all_albums) = selected_albums(&details);
    assert!(all_albums);
    assert_eq!(titles, vec!["Geogaddi"]);
}

/// An album as the library reports it, for picker-label tests.
fn album(title: &str, album_type: &str, year: i32, monitored: bool) -> AlbumResource {
    AlbumResource {
        id: Some(1),
        title: Some(Some(title.to_string())),
        album_type: Some(Some(album_type.to_string())),
        monitored: Some(monitored),
        release_date: Some(Some(date(&format!("{year}-01-01T00:00:00Z")))),
        ..AlbumResource::new()
    }
}

/// A backend with no live connection, for `early_stop` decisions.
fn test_lidarr(search_mode: Option<LidarrSearchMode>) -> Lidarr {
    Lidarr {
        config: Configuration {
            base_path: "http://localhost:8686".to_owned(),
            api_key: None,
        },
        monitor: vec![],
        search_mode,
        add_settings: AddSettings {
            rootfolder_path: "/music".to_owned(),
            quality_profile_id: 1,
            metadata_profile_id: 1,
        },
    }
}

#[test]
fn early_stop_lets_an_unmonitored_album_through() {
    // Adding an artist gives Lidarr a row for their whole discography, so an
    // id alone must not read as "already requested"
    let lidarr = test_lidarr(Some(LidarrSearchMode::Album));
    let media = LidarrMedia::Album(AlbumResource {
        id: Some(42),
        monitored: Some(false),
        ..AlbumResource::new()
    });
    assert!(!lidarr.early_stop(&MediaItem::Lidarr(media)));
}

#[test]
fn early_stop_halts_on_a_monitored_album() {
    let lidarr = test_lidarr(Some(LidarrSearchMode::Album));
    let media = LidarrMedia::Album(AlbumResource {
        id: Some(42),
        monitored: Some(true),
        ..AlbumResource::new()
    });
    assert!(lidarr.early_stop(&MediaItem::Lidarr(media)));
}

#[test]
fn early_stop_never_halts_on_an_artist() {
    // An artist in the library still has albums worth requesting
    let lidarr = test_lidarr(Some(LidarrSearchMode::Artist));
    let media = LidarrMedia::Artist(ArtistResource {
        id: Some(42),
        monitored: Some(true),
        ..ArtistResource::new()
    });
    assert!(!lidarr.early_stop(&MediaItem::Lidarr(media)));
}

#[test]
fn picker_tags_an_album_with_its_type_and_year() {
    let option = album_option(&album("Geogaddi", "Album", 2002, false));
    assert_eq!(option.title, "Geogaddi");
    assert_eq!(option.description.as_deref(), Some("Album · 2002"));
}

#[test]
fn picker_marks_monitored_albums() {
    // Monitored albums stay listed so the user sees the whole discography
    let option = album_option(&album("Geogaddi", "Album", 2002, true));
    assert_eq!(
        option.description.as_deref(),
        Some("Album · 2002 · Already monitored")
    );
}

#[test]
fn picker_omits_the_subtitle_when_lidarr_knows_nothing() {
    let option = album_option(&AlbumResource {
        title: Some(Some("Untitled".to_string())),
        ..AlbumResource::new()
    });
    assert_eq!(option.title, "Untitled");
    assert!(option.description.is_none());
}

fn artist(name: &str) -> LidarrMedia {
    LidarrMedia::Artist(ArtistResource {
        artist_name: Some(Some(name.to_string())),
        ..ArtistResource::new()
    })
}

fn album_item(title: &str) -> LidarrMedia {
    LidarrMedia::Album(AlbumResource {
        title: Some(Some(title.to_string())),
        album_type: Some(Some("Album".to_string())),
        ..AlbumResource::new()
    })
}

fn titles(media: &[LidarrMedia]) -> Vec<String> {
    media.iter().map(|m| m.to_dropdown().title).collect()
}

fn cover(kind: MediaCoverTypes, remote_url: &str) -> MediaCover {
    MediaCover {
        cover_type: Some(kind),
        remote_url: Some(Some(remote_url.to_string())),
        ..MediaCover::new()
    }
}

fn artist_with_images(images: Vec<MediaCover>) -> ArtistResource {
    ArtistResource {
        images: Some(Some(images)),
        ..ArtistResource::new()
    }
}

#[test]
fn a_cached_cover_path_is_not_offered_to_discord() {
    // Lidarr hands back the local file once the media is in the library, and
    // Discord rejects the whole component if that reaches it
    let artist = artist_with_images(vec![cover(
        MediaCoverTypes::Poster,
        "/opt/lidarr-data/MediaCover/2/poster.jpg",
    )]);
    assert_eq!(artist_poster(&artist), None);
}

#[test]
fn the_poster_wins_over_whatever_lidarr_lists_first() {
    let artist = artist_with_images(vec![
        cover(
            MediaCoverTypes::Clearlogo,
            "https://example.invalid/logo.png",
        ),
        cover(
            MediaCoverTypes::Poster,
            "https://example.invalid/poster.jpg",
        ),
    ]);
    assert_eq!(
        artist_poster(&artist).as_deref(),
        Some("https://example.invalid/poster.jpg")
    );
}

#[test]
fn any_usable_cover_beats_no_thumbnail() {
    // No poster, but a real URL is still better than nothing
    let artist = artist_with_images(vec![cover(
        MediaCoverTypes::Clearlogo,
        "https://example.invalid/logo.png",
    )]);
    assert_eq!(
        artist_poster(&artist).as_deref(),
        Some("https://example.invalid/logo.png")
    );
}

#[test]
fn a_remote_poster_is_still_preferred_when_it_is_a_url() {
    let artist = ArtistResource {
        remote_poster: Some(Some("https://example.invalid/remote.jpg".to_string())),
        ..artist_with_images(vec![cover(
            MediaCoverTypes::Poster,
            "https://example.invalid/poster.jpg",
        )])
    };
    assert_eq!(
        artist_poster(&artist).as_deref(),
        Some("https://example.invalid/remote.jpg")
    );
}

#[test]
fn an_artist_already_in_the_library_says_so() {
    let media = LidarrMedia::Artist(ArtistResource {
        id: Some(7),
        artist_type: Some(Some("Group".to_string())),
        ..ArtistResource::new()
    });
    assert_eq!(
        media.to_dropdown().description.as_deref(),
        Some("Group · In library")
    );
}

#[test]
fn an_artist_lidarr_does_not_have_is_unmarked() {
    // A lookup miss reports id 0 rather than omitting it, so both must read
    // as "not in the library"
    for id in [None, Some(0)] {
        let media = LidarrMedia::Artist(ArtistResource {
            id,
            artist_type: Some(Some("Group".to_string())),
            ..ArtistResource::new()
        });
        assert_eq!(media.to_dropdown().description.as_deref(), Some("Group"));
    }
}

#[test]
fn interleave_alternates_between_the_two_lists() {
    // Truncation to Discord's cap must not be able to drop one kind entirely
    let merged = interleave(
        vec![artist("A1"), artist("A2")],
        vec![album_item("B1"), album_item("B2")],
    );
    assert_eq!(titles(&merged), ["A1", "B1", "A2", "B2"]);
}

#[test]
fn interleave_appends_the_longer_lists_tail() {
    let merged = interleave(
        vec![artist("A1")],
        vec![album_item("B1"), album_item("B2"), album_item("B3")],
    );
    assert_eq!(titles(&merged), ["A1", "B1", "B2", "B3"]);
}

#[test]
fn interleave_handles_an_empty_side() {
    assert_eq!(titles(&interleave(vec![], vec![album_item("B1")])), ["B1"]);
    assert_eq!(titles(&interleave(vec![artist("A1")], vec![])), ["A1"]);
    assert!(interleave(vec![], vec![]).is_empty());
}

#[test]
fn combined_search_tags_each_result_with_its_kind() {
    let lidarr = test_lidarr(None);
    let results: Vec<MediaItem> = vec![
        MediaItem::Lidarr(artist("Bad Religion")),
        MediaItem::Lidarr(album_item("Hypercaffium Spazzinate")),
    ];
    let options = lidarr.to_dropdown_options(&results);
    assert!(
        options[0]
            .description
            .as_deref()
            .unwrap()
            .starts_with("Artist"),
        "{:?}",
        options[0].description
    );
    // Albums announce themselves through their release type, not a second tag
    assert_eq!(options[1].description.as_deref(), Some("Album"));
}

#[test]
fn a_filtered_search_leaves_the_subtitle_alone() {
    // The command name already says which kind it searches
    let lidarr = test_lidarr(Some(LidarrSearchMode::Artist));
    let results: Vec<MediaItem> = vec![MediaItem::Lidarr(artist("Bad Religion"))];
    let tagged = lidarr.to_dropdown_options(&results);
    assert_eq!(
        tagged[0].description,
        artist("Bad Religion").to_dropdown().description
    );
}

fn rootfolder(path: &str, quality: i32, metadata: i32) -> RootFolderResource {
    RootFolderResource {
        path: Some(Some(path.to_string())),
        default_quality_profile_id: Some(quality),
        default_metadata_profile_id: Some(metadata),
        ..RootFolderResource::new()
    }
}

fn profiles() -> Vec<(i32, String)> {
    vec![(1, "Standard".to_string()), (2, "Lossless".to_string())]
}

#[test]
fn rootfolder_prefers_the_configured_path() {
    let folders = vec![rootfolder("/music", 1, 1), rootfolder("/music2", 2, 2)];
    let resolved = resolve_rootfolder(&folders, Some("/music2")).unwrap();
    assert_eq!(resolved.path.flatten().as_deref(), Some("/music2"));
}

#[test]
fn rootfolder_falls_back_to_the_first_rather_than_asking() {
    let folders = vec![rootfolder("/music", 1, 1), rootfolder("/music2", 2, 2)];
    let resolved = resolve_rootfolder(&folders, None).unwrap();
    assert_eq!(resolved.path.flatten().as_deref(), Some("/music"));
}

#[test]
fn rootfolder_errors_with_the_available_options() {
    let folders = vec![rootfolder("/music", 1, 1)];
    let err = resolve_rootfolder(&folders, Some("/nope"))
        .unwrap_err()
        .message();
    assert!(err.contains("/nope") && err.contains("/music"), "{err}");
}

#[test]
fn rootfolder_errors_when_lidarr_has_none() {
    assert!(resolve_rootfolder(&[], None).is_err());
}

#[test]
fn profile_prefers_the_config_pin() {
    let id =
        resolve_profile(&profiles(), Some("Lossless"), Some(1), "Quality profile").unwrap();
    assert_eq!(id, 2);
}

#[test]
fn profile_falls_back_to_the_root_folder_default() {
    let id = resolve_profile(&profiles(), None, Some(2), "Quality profile").unwrap();
    assert_eq!(id, 2);
}

#[test]
fn profile_ignores_a_root_folder_default_that_no_longer_exists() {
    // A deleted profile leaves a dangling id behind on the root folder
    let id = resolve_profile(&profiles(), None, Some(99), "Metadata profile").unwrap();
    assert_eq!(id, 1);
}

#[test]
fn profile_errors_naming_the_available_options() {
    let err = resolve_profile(&profiles(), Some("Nope"), None, "Quality profile")
        .unwrap_err()
        .message();
    assert!(
        err.contains("Quality profile 'Nope'") && err.contains("Standard, Lossless"),
        "{err}"
    );
}

#[test]
fn profile_errors_when_lidarr_has_none() {
    assert!(resolve_profile(&[], None, None, "Metadata profile").is_err());
}
