//! What is shown of results and requests.
use lidarr_backend::config::{Configuration, LidarrSearchMode};
use lidarr_backend::date::ReleaseDate;
use lidarr_backend::error::{ApiError, LidarrError};
use lidarr_backend::field_keys;
use lidarr_backend::lidarr::{AddSettings, Lidarr};
use lidarr_backend::media::{
    album_artist_name, album_cover, artist_poster, cover_url, release_date, release_year,
    usable_url, LidarrMedia, MediaItem,
};
use lidarr_backend::models::{AlbumResource, ArtistResource, MediaCover, MediaCoverTypes};
use lidarr_backend::provider::{
    DropdownOption, FieldType, RequestDetails, SelectableId, ALL_ITEMS_ID,
};

fn backend(search_mode: Option<LidarrSearchMode>) -> Lidarr {
    Lidarr {
        config: Configuration {
            base_path: "http://localhost:8686".to_string(),
            api_key: None,
        },
        monitor: vec![],
        search_mode,
        add_settings: AddSettings {
            rootfolder_path: "/music".to_string(),
            quality_profile_id: 1,
            metadata_profile_id: 1,
        },
    }
}

fn text(value: &str) -> Option<Option<String>> {
    Some(Some(value.to_string()))
}

fn artist() -> ArtistResource {
    ArtistResource {
        id: Some(7),
        artist_name: text("Boards of Canada"),
        foreign_artist_id: text("artist-mbid"),
        overview: text("A duo."),
        artist_type: text("Group"),
        disambiguation: text("Scottish duo"),
        remote_poster: text("https://example.invalid/poster.jpg"),
        genres: Some(Some(vec!["IDM".to_string(), "Ambient".to_string()])),
        ..ArtistResource::new()
    }
}

fn album() -> AlbumResource {
    AlbumResource {
        id: Some(3),
        title: text("Geogaddi"),
        overview: text("An album."),
        foreign_album_id: text("album-mbid"),
        duration: Some(3_959_999),
        artist: Some(Box::new(artist())),
        // 13 February 2002
        release_date: Some(Some(ReleaseDate::new(1013558400, 0, 0).unwrap())),
        remote_cover: text("http://example.invalid/cover.jpg"),
        genres: Some(None),
        ..AlbumResource::new()
    }
}

fn artist_item(artist: ArtistResource) -> MediaItem {
    MediaItem::Lidarr(LidarrMedia::Artist(artist))
}

fn album_item(album: AlbumResource) -> MediaItem {
    MediaItem::Lidarr(LidarrMedia::Album(album))
}

fn foreign_item() -> MediaItem {
    MediaItem::Other(DropdownOption {
        title: "A movie".to_string(),
        description: Some("1999".to_string()),
        id: Some(SelectableId::Integer(5)),
    })
}

fn picks(options: &[(i32, &str)], chosen: &[usize]) -> Vec<RequestDetails> {
    vec![RequestDetails {
        title: "Albums".to_string(),
        options: options
            .iter()
            .map(|(id, title)| DropdownOption {
                title: title.to_string(),
                description: None,
                id: Some(SelectableId::Integer(*id)),
            })
            .collect(),
        metadata: Some(field_keys::ALBUM.to_string()),
        selected_indices: chosen.to_vec(),
        field_type: FieldType::MultiSelect,
        always_show: true,
    }]
}

fn cut(overview: &str) -> String {
    format!("{overview}..")
}

#[test]
fn an_address_is_usable_when_it_is_absolute() {
    let usable = |url: &str| usable_url(Some(url.to_string()));
    assert_eq!(usable("https://a").as_deref(), Some("https://a"));
    assert_eq!(usable("http://").as_deref(), Some("http://"));
    assert_eq!(usable("/data/MediaCover/2/poster.jpg"), None);
    assert_eq!(usable("ftp://a"), None);
    assert_eq!(usable("HTTPS://a"), None);
    assert_eq!(usable(""), None);
    assert_eq!(usable_url(None), None);
}

#[test]
fn the_first_usable_image_of_the_kind_beats_any_other() {
    let cover = |kind: Option<MediaCoverTypes>, url: &str| MediaCover {
        cover_type: kind,
        remote_url: text(url),
        ..MediaCover::new()
    };
    let images = vec![
        cover(None, "https://none"),
        cover(Some(MediaCoverTypes::Poster), "/local"),
        cover(Some(MediaCoverTypes::Poster), "https://poster"),
        cover(Some(MediaCoverTypes::Fanart), "https://fanart"),
    ];
    // The first poster is not usable, the second one is
    assert_eq!(
        cover_url(Some(&images), MediaCoverTypes::Poster).as_deref(),
        Some("https://poster")
    );
    assert_eq!(
        cover_url(Some(&images), MediaCoverTypes::Fanart).as_deref(),
        Some("https://fanart")
    );
    assert_eq!(
        cover_url(Some(&images), MediaCoverTypes::Cover).as_deref(),
        Some("https://none")
    );
    assert_eq!(cover_url(Some(&vec![]), MediaCoverTypes::Cover), None);
    assert_eq!(cover_url(None, MediaCoverTypes::Cover), None);
}

#[test]
fn an_album_prefers_its_cover() {
    assert_eq!(
        album_cover(&album()).as_deref(),
        Some("http://example.invalid/cover.jpg")
    );
    let listed = AlbumResource {
        remote_cover: text("/local.jpg"),
        images: Some(Some(vec![
            MediaCover {
                cover_type: Some(MediaCoverTypes::Disc),
                remote_url: text("https://disc"),
                ..MediaCover::new()
            },
            MediaCover {
                cover_type: Some(MediaCoverTypes::Cover),
                remote_url: text("https://cover"),
                ..MediaCover::new()
            },
        ])),
        ..AlbumResource::new()
    };
    assert_eq!(album_cover(&listed).as_deref(), Some("https://cover"));
    assert_eq!(album_cover(&AlbumResource::new()), None);
    assert_eq!(artist_poster(&ArtistResource::new()), None);
}

#[test]
fn what_an_album_comes_with_is_flattened() {
    assert_eq!(album_artist_name(&album()).as_deref(), Some("Boards of Canada"));
    assert_eq!(album_artist_name(&AlbumResource::new()), None);
    assert_eq!(release_date(&album()).unwrap().year(), 2002);
    assert_eq!(release_year(&album()).as_deref(), Some("2002"));
    let undated = AlbumResource {
        release_date: Some(None),
        ..AlbumResource::new()
    };
    assert!(release_date(&undated).is_none());
    assert_eq!(release_year(&undated), None);
}

#[test]
fn entries_carry_titles_tags_and_ids() {
    let entry = LidarrMedia::Artist(artist()).to_dropdown();
    assert_eq!(entry.title, "Boards of Canada");
    assert_eq!(entry.description.as_deref(), Some("Scottish duo · In library"));
    assert!(matches!(entry.id, Some(SelectableId::Integer(7))));

    let entry = LidarrMedia::Album(album()).to_dropdown();
    assert_eq!(entry.title, "Geogaddi");
    assert_eq!(
        entry.description.as_deref(),
        Some("Album · Boards of Canada · 2002")
    );
    assert!(matches!(entry.id, Some(SelectableId::Integer(3))));

    let single = AlbumResource {
        album_type: text("Single"),
        ..AlbumResource::new()
    };
    let entry = LidarrMedia::Album(single).to_dropdown();
    assert_eq!(entry.title, "");
    assert_eq!(entry.description.as_deref(), Some("Single"));
    assert!(entry.id.is_none());

    let plain = ArtistResource {
        disambiguation: text(""),
        ..ArtistResource::new()
    };
    assert_eq!(LidarrMedia::Artist(plain).to_dropdown().description, None);
    assert_eq!(foreign_item().to_dropdown().title, "A movie");
}

#[test]
fn a_search_makes_the_lookups_of_its_mode() {
    let both = backend(None).search("geogaddi");
    assert_eq!(both.artist_term.as_deref(), Some("geogaddi"));
    assert_eq!(both.album_term.as_deref(), Some("geogaddi"));
    let artists = backend(Some(LidarrSearchMode::Artist)).search("x");
    assert_eq!(artists.artist_term.as_deref(), Some("x"));
    assert_eq!(artists.album_term, None);
    let albums = backend(Some(LidarrSearchMode::Album)).search("x");
    assert_eq!(albums.artist_term, None);
    assert_eq!(albums.album_term.as_deref(), Some("x"));
}

#[test]
fn a_search_offers_all_hits_by_turns() {
    let named = |name: &str| ArtistResource {
        artist_name: text(name),
        ..ArtistResource::new()
    };
    let titled = |title: &str| AlbumResource {
        title: text(title),
        ..AlbumResource::new()
    };
    let results = backend(None)
        .search_results(
            Some(Ok(vec![named("A1"), named("A2"), named("A3")])),
            Some(Ok(vec![titled("B1")])),
        )
        .unwrap();
    let titles: Vec<String> = results.iter().map(|r| r.to_dropdown().title).collect();
    assert_eq!(titles, ["A1", "B1", "A2", "A3"]);
    let results = backend(Some(LidarrSearchMode::Album))
        .search_results(None, Some(Ok(vec![titled("B1"), titled("B2")])))
        .unwrap();
    let titles: Vec<String> = results.iter().map(|r| r.to_dropdown().title).collect();
    assert_eq!(titles, ["B1", "B2"]);
}

#[test]
fn either_failed_lookup_sinks_the_search() {
    let error = |text: &str| ApiError::Reqwest(text.to_string());
    let lidarr = backend(None);
    let sunk = |found: Result<Vec<MediaItem>, LidarrError>| found.unwrap_err().message();
    assert_eq!(
        sunk(lidarr.search_results(Some(Err(error("artists"))), Some(Ok(vec![])))),
        "artists"
    );
    assert_eq!(
        sunk(lidarr.search_results(Some(Ok(vec![])), Some(Err(error("albums"))))),
        "albums"
    );
    assert_eq!(
        sunk(lidarr.search_results(Some(Err(error("artists"))), Some(Err(error("albums"))))),
        "artists"
    );
}

#[test]
fn the_kind_is_said_where_kinds_share_a_list() {
    let results = [artist_item(artist()), foreign_item(), album_item(album())];
    let combined = backend(None).to_dropdown_options(&results);
    assert_eq!(combined.len(), 2);
    assert_eq!(
        combined[0].description.as_deref(),
        Some("Artist · Scottish duo · In library")
    );
    assert_eq!(
        combined[1].description.as_deref(),
        Some("Album · Boards of Canada · 2002")
    );
    let filtered = backend(Some(LidarrSearchMode::Album)).to_dropdown_options(&results);
    assert_eq!(filtered.len(), 3);
    assert_eq!(
        filtered[0].description.as_deref(),
        Some("Scottish duo · In library")
    );
    assert_eq!(filtered[1].title, "A movie");
    assert_eq!(filtered[1].description.as_deref(), Some("1999"));
}

#[test]
fn only_a_monitored_row_stops_a_request_early() {
    let lidarr = backend(None);
    let stops = |id: Option<i32>, monitored: Option<bool>| {
        lidarr.early_stop(&album_item(AlbumResource {
            id,
            monitored,
            ..AlbumResource::new()
        }))
    };
    assert!(stops(Some(1), Some(true)));
    assert!(!stops(Some(1), None));
    assert!(!stops(Some(0), Some(true)));
    assert!(!stops(None, Some(true)));
    assert!(!lidarr.early_stop(&foreign_item()));
}

#[test]
fn an_item_is_introduced_before_it_is_requested() {
    let lidarr = backend(None);
    let info = lidarr.display_info(&artist_item(artist()));
    assert_eq!(info.title, "Boards of Canada");
    assert_eq!(info.subtitle.as_deref(), Some("Scottish duo"));
    assert_eq!(info.description.as_deref(), Some("A duo."));
    assert_eq!(
        info.thumbnail_url.as_deref(),
        Some("https://example.invalid/poster.jpg")
    );
    let info = lidarr.display_info(&album_item(album()));
    assert_eq!(info.title, "Geogaddi");
    assert_eq!(info.subtitle.as_deref(), Some("Boards of Canada · 2002"));
    assert_eq!(info.description.as_deref(), Some("An album."));
    assert_eq!(
        info.thumbnail_url.as_deref(),
        Some("http://example.invalid/cover.jpg")
    );
    let info = lidarr.display_info(&album_item(AlbumResource::new()));
    assert!(info.title.is_empty() && info.subtitle.is_none() && info.description.is_none());
    let info = lidarr.display_info(&foreign_item());
    assert!(info.title.is_empty() && info.subtitle.is_none() && info.thumbnail_url.is_none());
}

#[test]
fn an_artist_is_announced_with_what_was_picked() {
    let lidarr = backend(None);
    let options = [(ALL_ITEMS_ID, "All Albums"), (1, "Geogaddi"), (2, "Twoism")];
    let summary = |chosen: &[usize]| {
        lidarr
            .announce(&picks(&options, chosen), &artist_item(artist()), cut)
            .summary
    };
    assert_eq!(summary(&[]), "Boards of Canada");
    assert_eq!(summary(&[1]), "Boards of Canada (Geogaddi)");
    assert_eq!(summary(&[1, 2]), "Boards of Canada (2 albums)");
    assert_eq!(summary(&[0, 1]), "Boards of Canada (All Albums)");

    let message = lidarr.announce(&picks(&options, &[2]), &artist_item(artist()), cut);
    assert_eq!(message.description, "Will be downloaded when available.");
    assert_eq!(
        message.thumbnail_url.as_deref(),
        Some("https://example.invalid/poster.jpg")
    );
    let card = message.embed_data.unwrap();
    assert_eq!(card.title, "Boards of Canada (Twoism)");
    assert_eq!(card.media_type, "Artist");
    assert_eq!(card.overview, "A duo...");
    assert_eq!(card.poster_url, "https://example.invalid/poster.jpg");
    assert_eq!(card.genres, vec!["IDM", "Ambient"]);
    assert_eq!(card.runtime_minutes, None);
    assert_eq!(card.studio_or_network, None);
    assert_eq!(card.director, None);
    assert_eq!(card.external_url, "https://musicbrainz.org/artist/artist-mbid");
}

#[test]
fn an_album_is_announced_with_its_artist() {
    let lidarr = backend(None);
    let message = lidarr.announce(&[], &album_item(album()), cut);
    assert_eq!(message.summary, "Boards of Canada - Geogaddi");
    assert_eq!(message.description, "Will be downloaded when available.");
    assert_eq!(
        message.thumbnail_url.as_deref(),
        Some("http://example.invalid/cover.jpg")
    );
    let card = message.embed_data.unwrap();
    assert_eq!(card.title, "Boards of Canada - Geogaddi");
    assert_eq!(card.media_type, "Album");
    assert_eq!(card.overview, "An album...");
    assert_eq!(card.poster_url, "http://example.invalid/cover.jpg");
    assert!(card.genres.is_empty());
    assert_eq!(card.runtime_minutes, Some(65));
    assert_eq!(card.studio_or_network.as_deref(), Some("Boards of Canada"));
    assert_eq!(card.director, None);
    assert_eq!(
        card.external_url,
        "https://musicbrainz.org/release-group/album-mbid"
    );
}

#[test]
fn an_album_is_announced_the_same_way_whatever_was_answered() {
    let lidarr = backend(None);
    let details = picks(&[(ALL_ITEMS_ID, "All Albums"), (1, "Twoism")], &[0, 1]);
    let short = || "short".to_string();
    let bare = lidarr.success_message(&[], &album_item(album()), short());
    let answered = lidarr.success_message(&details, &album_item(album()), short());
    assert_eq!(format!("{bare:?}"), format!("{answered:?}"));
    assert_eq!(bare.embed_data.unwrap().overview, "short");
    let bare = lidarr.announce(&[], &album_item(album()), cut);
    let answered = lidarr.announce(&details, &album_item(album()), cut);
    assert_eq!(format!("{bare:?}"), format!("{answered:?}"));
}

#[test]
fn only_a_known_runtime_is_shown() {
    let lidarr = backend(None);
    let minutes = |duration: Option<i32>| {
        let item = album_item(AlbumResource { duration, ..album() });
        lidarr
            .announce(&[], &item, cut)
            .embed_data
            .unwrap()
            .runtime_minutes
    };
    assert_eq!(minutes(None), None);
    assert_eq!(minutes(Some(0)), None);
    assert_eq!(minutes(Some(-60_000)), None);
    assert_eq!(minutes(Some(59_999)), Some(0));
    assert_eq!(minutes(Some(60_000)), Some(1));
    assert_eq!(minutes(Some(i32::MAX)), Some(35_791));
}

#[test]
fn no_card_without_a_musicbrainz_id() {
    let lidarr = backend(None);
    let unknown = ArtistResource {
        foreign_artist_id: None,
        ..artist()
    };
    let message = lidarr.announce(&[], &artist_item(unknown), cut);
    assert_eq!(message.summary, "Boards of Canada");
    assert!(message.embed_data.is_none());
    let nameless = AlbumResource {
        title: text("Twoism"),
        ..AlbumResource::new()
    };
    let message = lidarr.announce(&[], &album_item(nameless), cut);
    assert_eq!(message.summary, "Twoism");
    assert!(message.embed_data.is_none() && message.thumbnail_url.is_none());
    let message = lidarr.announce(&[], &foreign_item(), cut);
    assert_eq!(message.summary, "Request submitted");
    assert_eq!(message.description, "Will be downloaded when available.");
    assert!(message.embed_data.is_none() && message.thumbnail_url.is_none());
}
