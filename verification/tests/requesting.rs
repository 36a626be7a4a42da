//! Requests, step by step.
use lidarr_backend::config::Configuration;
use lidarr_backend::error::{ApiError, LidarrError};
use lidarr_backend::field_keys;
use lidarr_backend::lidarr::{AddSettings, Lidarr};
use lidarr_backend::media::{LidarrMedia, MediaItem};
use lidarr_backend::models::{
    in_library, AlbumAddType, AlbumResource, ArtistResource, MonitorTypes, NewItemMonitorTypes,
};
use lidarr_backend::provider::{
    DropdownOption, FieldType, RequestDetails, SelectableId, ALL_ITEMS_ID,
};
use lidarr_backend::request::RequestStep;
use lidarr_backend::selection::SelectedDetails;

fn backend() -> Lidarr {
    Lidarr {
        config: Configuration {
            base_path: "http://localhost:8686".to_string(),
            api_key: None,
        },
        monitor: vec![MonitorTypes::All],
        search_mode: None,
        add_settings: AddSettings {
            rootfolder_path: "/music".to_string(),
            quality_profile_id: 3,
            metadata_profile_id: 4,
        },
    }
}

fn picks(ids: &[i32]) -> Vec<RequestDetails> {
    vec![RequestDetails {
        title: "Albums".to_string(),
        options: ids
            .iter()
            .map(|id| DropdownOption {
                title: "t".to_string(),
                description: None,
                id: Some(SelectableId::Integer(*id)),
            })
            .collect(),
        metadata: Some(field_keys::ALBUM.to_string()),
        selected_indices: (0..ids.len()).collect(),
        field_type: FieldType::MultiSelect,
        always_show: true,
    }]
}

fn artist(id: Option<i32>) -> ArtistResource {
    ArtistResource {
        id,
        artist_name: Some(Some("Boards of Canada".to_string())),
        foreign_artist_id: Some(Some("mbid".to_string())),
        other_fields: "{\"ended\":true}".to_string(),
        ..ArtistResource::new()
    }
}

fn album(id: Option<i32>, monitored: Option<bool>) -> AlbumResource {
    AlbumResource {
        id,
        monitored,
        ..AlbumResource::new()
    }
}

fn library() -> Vec<AlbumResource> {
    vec![
        album(Some(1), Some(true)),
        album(Some(2), Some(false)),
        album(Some(3), None),
        album(None, Some(false)),
        album(None, Some(true)),
    ]
}

fn selected(monitor: Option<MonitorTypes>, album_ids: &[i32], all_albums: bool) -> SelectedDetails {
    SelectedDetails {
        monitor,
        album_ids: album_ids.to_vec(),
        all_albums,
    }
}

/// Answers the first call of a request for more of an artist.
fn list(details: Vec<RequestDetails>, listed: Result<Vec<AlbumResource>, ApiError>) -> RequestStep {
    let media = MediaItem::Lidarr(LidarrMedia::Artist(artist(Some(9))));
    match backend().request(details, media) {
        RequestStep::ListAlbums { artist_id, next } => {
            assert_eq!(artist_id, 9);
            next.resume(listed)
        }
        other => panic!("{other:?}"),
    }
}

/// Answers the call after that for all albums.
fn fetch(listed: Vec<AlbumResource>, fetched: Result<ArtistResource, ApiError>) -> RequestStep {
    match list(picks(&[ALL_ITEMS_ID]), Ok(listed)) {
        RequestStep::GetArtist { artist_id, next } => {
            assert_eq!(artist_id, 9);
            next.resume(fetched)
        }
        other => panic!("{other:?}"),
    }
}

/// Checks that a step monitors albums, and goes through with it.
fn finish_monitoring(step: RequestStep, ids: &[i32]) {
    match step {
        RequestStep::MonitorAlbums { resource, next } => {
            assert_eq!(resource.album_ids, Some(Some(ids.to_vec())));
            assert_eq!(resource.monitored, Some(true));
            match next.resume(Ok(())) {
                RequestStep::SearchAlbums { command, next } => {
                    assert_eq!(command.name, "AlbumSearch");
                    assert_eq!(command.album_ids, ids.to_vec());
                    assert!(matches!(next.resume(Ok(())), RequestStep::Done));
                }
                other => panic!("{other:?}"),
            }
        }
        other => panic!("{other:?}"),
    }
}

#[test]
fn a_row_in_the_library_has_a_positive_id() {
    assert_eq!(in_library(Some(1)), Some(1));
    assert_eq!(in_library(Some(0)), None);
    assert_eq!(in_library(Some(-1)), None);
    assert_eq!(in_library(None), None);
}

#[test]
fn picked_albums_are_monitored_and_searched_for() {
    finish_monitoring(list(picks(&[3, 1, 2]), Ok(library())), &[3, 2]);
}

#[test]
fn picks_that_are_all_monitored_are_turned_down() {
    match list(picks(&[1]), Ok(library())) {
        RequestStep::Failed(error) => {
            assert_eq!(
                error.message(),
                "Already monitored for Boards of Canada, nothing more to add."
            );
            assert!(error.is_user_facing());
        }
        other => panic!("{other:?}"),
    }
}

#[test]
fn an_album_unknown_to_the_library_list_is_still_monitored() {
    finish_monitoring(list(picks(&[77]), Ok(vec![])), &[77]);
}

#[test]
fn no_picks_are_turned_down_before_any_call() {
    let step = backend().request_artist(selected(None, &[], false), artist(Some(9)));
    assert!(matches!(step, RequestStep::Failed(LidarrError::NoAlbumsSelected)));
}

#[test]
fn all_albums_widens_the_artist_first() {
    let fetched = ArtistResource {
        monitored: Some(false),
        monitor_new_items: Some(NewItemMonitorTypes::New),
        ..artist(Some(9))
    };
    match fetch(library(), Ok(fetched)) {
        RequestStep::UpdateArtist {
            id,
            move_files,
            artist,
            next,
        } => {
            assert_eq!(id, "9");
            assert!(!move_files);
            assert_eq!(artist.monitored, Some(true));
            assert_eq!(artist.monitor_new_items, Some(NewItemMonitorTypes::All));
            assert_eq!(artist.other_fields, "{\"ended\":true}");
            finish_monitoring(next.resume(Ok(())), &[2, 3]);
        }
        other => panic!("{other:?}"),
    }
}

#[test]
fn all_albums_of_a_widened_artist_are_only_monitored() {
    let fetched = ArtistResource {
        monitor_new_items: Some(NewItemMonitorTypes::All),
        ..artist(Some(9))
    };
    finish_monitoring(fetch(library(), Ok(fetched)), &[2, 3]);
}

#[test]
fn all_albums_stays_meaningful_while_the_artist_can_be_widened() {
    let everything = || vec![album(Some(1), Some(true))];
    match fetch(everything(), Ok(artist(Some(9)))) {
        RequestStep::UpdateArtist { next, .. } => {
            assert!(matches!(next.resume(Ok(())), RequestStep::Done));
        }
        other => panic!("{other:?}"),
    }
    let widened = ArtistResource {
        monitor_new_items: Some(NewItemMonitorTypes::All),
        ..artist(Some(9))
    };
    assert!(matches!(
        fetch(everything(), Ok(widened)),
        RequestStep::Failed(LidarrError::AlreadyMonitored { name }) if name == "Boards of Canada"
    ));
}

#[test]
fn an_artist_is_widened_once() {
    let wider = Lidarr::monitor_new_items(artist(Some(9))).unwrap();
    assert_eq!(wider.monitored, Some(true));
    assert!(Lidarr::monitor_new_items(wider).is_none());
}

#[test]
fn failed_calls_fail_the_request() {
    let sunk = |step: RequestStep| {
        matches!(
            step,
            RequestStep::Failed(LidarrError::Api(ApiError::Response(text))) if text == "404"
        )
    };
    let error = || ApiError::Response("404".to_string());
    assert!(sunk(list(picks(&[1]), Err(error()))));
    assert!(sunk(fetch(library(), Err(error()))));
    match fetch(library(), Ok(artist(Some(9)))) {
        RequestStep::UpdateArtist { next, .. } => assert!(sunk(next.resume(Err(error())))),
        other => panic!("{other:?}"),
    }
    match Lidarr::monitor_albums(vec![1]) {
        RequestStep::MonitorAlbums { next, .. } => assert!(sunk(next.resume(Err(error())))),
        other => panic!("{other:?}"),
    }
    match backend().request_artist(selected(Some(MonitorTypes::All), &[], false), artist(None)) {
        RequestStep::AddArtist { next, .. } => assert!(sunk(next.resume(Err(error())))),
        other => panic!("{other:?}"),
    }
}

#[test]
fn a_change_that_was_applied_counts_though_its_answer_did_not_parse() {
    let unparsed = || ApiError::Serde("expected value".to_string());
    match fetch(library(), Ok(artist(Some(9)))) {
        RequestStep::UpdateArtist { next, .. } => {
            finish_monitoring(next.resume(Err(unparsed())), &[2, 3]);
        }
        other => panic!("{other:?}"),
    }
    match backend().request_artist(selected(Some(MonitorTypes::All), &[], false), artist(None)) {
        RequestStep::AddArtist { next, .. } => {
            assert!(matches!(next.resume(Err(unparsed())), RequestStep::Done));
        }
        other => panic!("{other:?}"),
    }
    // Switching the monitoring and reading lists are not forgiven
    match Lidarr::monitor_albums(vec![1]) {
        RequestStep::MonitorAlbums { next, .. } => {
            assert!(matches!(
                next.resume(Err(unparsed())),
                RequestStep::Failed(LidarrError::Api(ApiError::Serde(_)))
            ));
        }
        other => panic!("{other:?}"),
    }
    assert!(matches!(
        list(picks(&[1]), Err(unparsed())),
        RequestStep::Failed(LidarrError::Api(ApiError::Serde(_)))
    ));
}

#[test]
fn a_new_artist_is_added_with_the_settings_and_the_scope() {
    let scopes = [
        (MonitorTypes::All, NewItemMonitorTypes::All),
        (MonitorTypes::Future, NewItemMonitorTypes::All),
        (MonitorTypes::Missing, NewItemMonitorTypes::Nothing),
        (MonitorTypes::Latest, NewItemMonitorTypes::Nothing),
        (MonitorTypes::Nothing, NewItemMonitorTypes::Nothing),
    ];
    for (scope, new_items) in scopes {
        for id in [None, Some(0)] {
            match backend().request_artist(selected(Some(scope), &[], false), artist(id)) {
                RequestStep::AddArtist { artist, .. } => {
                    assert_eq!(artist.id, id);
                    assert_eq!(artist.root_folder_path, Some(Some("/music".to_string())));
                    assert_eq!(artist.quality_profile_id, Some(3));
                    assert_eq!(artist.metadata_profile_id, Some(4));
                    assert_eq!(artist.monitored, Some(true));
                    assert_eq!(artist.monitor_new_items, Some(new_items));
                    assert_eq!(artist.foreign_artist_id, Some(Some("mbid".to_string())));
                    assert_eq!(artist.other_fields, "{\"ended\":true}");
                    let options = artist.add_options.unwrap();
                    assert_eq!(options.monitor, Some(scope));
                    assert_eq!(options.monitored, Some(true));
                    assert_eq!(options.search_for_missing_albums, Some(true));
                    assert_eq!(options.albums_to_monitor, None);
                }
                other => panic!("{other:?}"),
            }
        }
    }
    let step = backend().request_artist(selected(None, &[1], true), artist(None));
    assert!(matches!(step, RequestStep::Failed(LidarrError::NoMonitorSelected)));
}

#[test]
fn a_new_album_comes_alone() {
    let new = AlbumResource {
        id: Some(0),
        title: Some(Some("Geogaddi".to_string())),
        foreign_album_id: Some(Some("album-mbid".to_string())),
        artist: Some(Box::new(artist(Some(0)))),
        other_fields: "{\"ratings\":{}}".to_string(),
        ..AlbumResource::new()
    };
    let media = MediaItem::Lidarr(LidarrMedia::Album(new));
    match backend().request(vec![], media) {
        RequestStep::AddAlbum { album, next } => {
            assert_eq!(album.monitored, Some(true));
            assert_eq!(album.title, Some(Some("Geogaddi".to_string())));
            assert_eq!(album.foreign_album_id, Some(Some("album-mbid".to_string())));
            assert_eq!(album.other_fields, "{\"ratings\":{}}");
            let options = album.add_options.unwrap();
            assert_eq!(options.add_type, Some(AlbumAddType::Manual));
            assert_eq!(options.search_for_new_album, Some(true));
            let artist = album.artist.unwrap();
            assert_eq!(artist.root_folder_path, Some(Some("/music".to_string())));
            assert_eq!(artist.quality_profile_id, Some(3));
            assert_eq!(artist.metadata_profile_id, Some(4));
            assert_eq!(artist.monitored, Some(true));
            assert_eq!(artist.monitor_new_items, Some(NewItemMonitorTypes::Nothing));
            let options = artist.add_options.unwrap();
            assert_eq!(options.monitor, Some(MonitorTypes::Unknown));
            assert_eq!(
                options.albums_to_monitor,
                Some(Some(vec!["album-mbid".to_string()]))
            );
            assert_eq!(options.monitored, Some(true));
            assert_eq!(options.search_for_missing_albums, Some(false));
            assert!(matches!(next.resume(Ok(())), RequestStep::Done));
        }
        other => panic!("{other:?}"),
    }
}

#[test]
fn an_album_in_the_library_is_monitored_where_it_stands() {
    finish_monitoring(backend().request_album(album(Some(5), Some(false))), &[5]);
}

#[test]
fn an_album_needs_an_artist_and_a_musicbrainz_id() {
    assert!(matches!(
        backend().request_album(album(None, None)),
        RequestStep::Failed(LidarrError::AlbumWithoutArtist)
    ));
    let without_id = AlbumResource {
        artist: Some(Box::new(artist(None))),
        foreign_album_id: Some(None),
        ..AlbumResource::new()
    };
    assert!(matches!(
        backend().request_album(without_id),
        RequestStep::Failed(LidarrError::AlbumWithoutMusicBrainzId)
    ));
}

#[test]
fn a_request_is_read_before_the_media_is_looked_at() {
    let other = || {
        MediaItem::Other(DropdownOption {
            title: String::new(),
            description: None,
            id: None,
        })
    };
    assert!(matches!(
        backend().request(vec![], other()),
        RequestStep::Failed(LidarrError::InvalidMediaType)
    ));
    let mut unread = picks(&[1]);
    unread[0].metadata = None;
    assert!(matches!(
        backend().request(unread, other()),
        RequestStep::Failed(LidarrError::UnknownMetadata { key: None })
    ));
}
