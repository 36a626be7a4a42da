//! The questions, and what is read from their answers.
use lidarr_backend::config::Configuration;
use lidarr_backend::date::ReleaseDate;
use lidarr_backend::error::{ApiError, LidarrError};
use lidarr_backend::field_keys;
use lidarr_backend::lidarr::{AddSettings, Lidarr};
use lidarr_backend::media::{LidarrMedia, MediaItem};
use lidarr_backend::models::{AlbumResource, ArtistResource, MonitorTypes};
use lidarr_backend::picker::{sort_newest_first, DetailsStep};
use lidarr_backend::provider::{
    DropdownOption, FieldType, RequestDetails, SelectableId, ALL_ITEMS_ID, MAX_DROPDOWN_OPTIONS,
};
use lidarr_backend::selection::{
    deserialize_from_string, has_key, scope_of_name, selected_albums, SelectedDetails,
};

fn backend(monitor: Vec<MonitorTypes>) -> Lidarr {
    Lidarr {
        config: Configuration {
            base_path: "http://localhost:8686".to_string(),
            api_key: None,
        },
        monitor,
        search_mode: None,
        add_settings: AddSettings {
            rootfolder_path: "/music".to_string(),
            quality_profile_id: 1,
            metadata_profile_id: 1,
        },
    }
}

fn option(title: &str, id: Option<SelectableId>) -> DropdownOption {
    DropdownOption {
        title: title.to_string(),
        description: None,
        id,
    }
}

fn detail(key: Option<&str>, options: Vec<DropdownOption>, chosen: Vec<usize>) -> RequestDetails {
    RequestDetails {
        title: "Question".to_string(),
        options,
        metadata: key.map(|k| k.to_string()),
        selected_indices: chosen,
        field_type: FieldType::Dropdown,
        always_show: false,
    }
}

fn released(id: i32, title: &str, at: Option<i64>) -> AlbumResource {
    AlbumResource {
        id: Some(id),
        title: Some(Some(title.to_string())),
        release_date: Some(at.map(|t| ReleaseDate::new(t, 0, 0).unwrap())),
        ..AlbumResource::new()
    }
}

fn ids(albums: &[AlbumResource]) -> Vec<i32> {
    albums.iter().map(|a| a.id.unwrap()).collect()
}

#[test]
fn a_choice_is_read_by_position() {
    let field = detail(
        None,
        vec![option("a", None), option("b", None), option("c", None)],
        vec![2, 7, 0],
    );
    let chosen: Vec<&str> = field.selected_options().iter().map(|o| o.title.as_str()).collect();
    assert_eq!(chosen, ["c", "a"]);
    assert_eq!(field.selected_option().unwrap().title, "c");
    let outside = detail(None, vec![option("a", None)], vec![1]);
    assert!(outside.selected_option().is_none());
    let single = detail(None, vec![option("a", None)], vec![]);
    assert_eq!(single.selected_option().unwrap().title, "a");
    assert!(single.selected_options().is_empty());
    assert!(detail(None, vec![], vec![]).selected_option().is_none());
}

#[test]
fn a_scope_is_read_as_json_reads_it() {
    assert_eq!(deserialize_from_string("all").unwrap(), MonitorTypes::All);
    assert_eq!(deserialize_from_string("none").unwrap(), MonitorTypes::Nothing);
    // Between JSON quotes an escape stands for the character it names
    assert_eq!(deserialize_from_string("\\u0061ll").unwrap(), MonitorTypes::All);
    for wrong in ["", "All", "all ", "a\"ll", "\\x", "all\n", "ünknown"] {
        let error = deserialize_from_string(wrong).unwrap_err();
        assert_eq!(
            error.message(),
            format!("Failed to deserialize enum variant: {wrong}")
        );
    }
}

#[test]
fn an_id_that_cannot_be_read_keeps_the_reason() {
    for unreadable in ["\\x", "all\n", "all\\", "all\" x", "\\ud800"] {
        let error = deserialize_from_string(unreadable).unwrap_err();
        let reason = serde_json::from_str::<String>(&format!("\"{unreadable}\"")).unwrap_err();
        assert_eq!(error.cause(), Some(reason.to_string()));
    }
    assert_eq!(
        deserialize_from_string("\\x").unwrap_err().cause().as_deref(),
        Some("invalid escape at line 1 column 3")
    );
    assert_eq!(deserialize_from_string("sometimes").unwrap_err().cause(), None);
    assert_eq!(LidarrError::NoAlbumsSelected.cause(), None);
}

#[test]
fn a_scope_follows_from_the_name_that_was_read() {
    assert_eq!(
        scope_of_name("id", Ok("latest".to_string())).unwrap(),
        MonitorTypes::Latest
    );
    assert!(matches!(
        scope_of_name("id", Ok("id".to_string())),
        Err(LidarrError::UnknownScope { name, cause: None }) if name == "id"
    ));
    assert!(matches!(
        scope_of_name("id", Err("unreadable".to_string())),
        Err(LidarrError::UnknownScope { name, cause: Some(cause) })
            if name == "id" && cause == "unreadable"
    ));
}

#[test]
fn details_that_cannot_be_read_are_turned_down() {
    let key = Some(field_keys::MONITOR);
    let number = || option("n", Some(SelectableId::Integer(3)));
    let text = |t: &str| option("t", Some(SelectableId::String(t.to_string())));
    let read = |details: Vec<RequestDetails>| SelectedDetails::try_from(details).unwrap_err();

    assert!(matches!(
        read(vec![detail(key, vec![number(), number()], vec![])]),
        LidarrError::NoOptionSelected { title } if title == "Question"
    ));
    assert!(matches!(
        read(vec![detail(key, vec![number()], vec![0])]),
        LidarrError::MonitorIdNotString { id: Some(SelectableId::Integer(3)) }
    ));
    assert!(matches!(
        read(vec![detail(key, vec![option("x", None)], vec![])]),
        LidarrError::MonitorIdNotString { id: None }
    ));
    assert!(matches!(
        read(vec![detail(key, vec![text("sometimes")], vec![0])]),
        LidarrError::UnknownScope { name, cause: None } if name == "sometimes"
    ));
    assert!(matches!(
        read(vec![detail(Some("lidarr:other"), vec![text("all")], vec![0])]),
        LidarrError::UnknownMetadata { key: Some(key) } if key == "lidarr:other"
    ));
    assert!(matches!(
        read(vec![detail(None, vec![text("all")], vec![0])]),
        LidarrError::UnknownMetadata { key: None }
    ));
    assert!(matches!(
        read(vec![detail(Some(field_keys::ALBUM), vec![number(), text("7")], vec![0, 1])]),
        LidarrError::AlbumIdNotInteger { id: Some(SelectableId::String(id)) } if id == "7"
    ));
    assert!(matches!(
        read(vec![detail(Some(field_keys::ALBUM), vec![option("x", None)], vec![0])]),
        LidarrError::AlbumIdNotInteger { id: None }
    ));
}

#[test]
fn the_first_detail_that_cannot_be_read_decides() {
    let bad_album = detail(Some(field_keys::ALBUM), vec![option("x", None)], vec![0]);
    let unanswered = detail(Some(field_keys::MONITOR), vec![], vec![]);
    assert!(matches!(
        SelectedDetails::try_from(vec![bad_album, unanswered]),
        Err(LidarrError::AlbumIdNotInteger { id: None })
    ));
}

#[test]
fn the_last_scope_counts_and_albums_add_up() {
    let scope = |t: &str| {
        detail(
            Some(field_keys::MONITOR),
            vec![option("t", Some(SelectableId::String(t.to_string())))],
            vec![],
        )
    };
    let albums = |id: i32| {
        detail(
            Some(field_keys::ALBUM),
            vec![option("t", Some(SelectableId::Integer(id)))],
            vec![0],
        )
    };
    let selected = SelectedDetails::try_from(vec![
        scope("all"),
        albums(4),
        scope("first"),
        albums(4),
        albums(2),
    ])
    .unwrap();
    assert_eq!(selected.monitor, Some(MonitorTypes::First));
    assert_eq!(selected.album_ids, vec![4, 4, 2]);
    assert!(!selected.all_albums);
}

#[test]
fn keys_are_compared_whole() {
    let field = detail(Some("lidarr:album"), vec![], vec![]);
    assert!(has_key(&field, field_keys::ALBUM));
    assert!(!has_key(&field, field_keys::MONITOR));
    assert!(!has_key(&detail(None, vec![], vec![]), field_keys::ALBUM));
}

#[test]
fn only_the_first_picker_is_summed_up() {
    let picker = |title: &str| {
        detail(
            Some(field_keys::ALBUM),
            vec![option(title, Some(SelectableId::Integer(1)))],
            vec![0],
        )
    };
    let other = detail(Some(field_keys::MONITOR), vec![option("x", None)], vec![0]);
    let (titles, all) = selected_albums(&[other, picker("one"), picker("two")]);
    assert_eq!(titles, vec!["one"]);
    assert!(!all);
    let (titles, all) = selected_albums(&[]);
    assert!(titles.is_empty() && !all);
}

#[test]
fn each_offered_scope_is_read_back_when_it_is_picked() {
    let scopes = vec![
        MonitorTypes::All,
        MonitorTypes::Future,
        MonitorTypes::Missing,
        MonitorTypes::Existing,
        MonitorTypes::Latest,
        MonitorTypes::First,
        MonitorTypes::Nothing,
    ];
    let titles = [
        "All Albums",
        "Future Albums",
        "Missing Albums",
        "Existing Albums",
        "Latest Album",
        "First Album",
        "None",
    ];
    let lidarr = backend(scopes.clone());
    for i in 0..scopes.len() {
        let mut field = lidarr.monitor_field();
        assert_eq!(field.title, "Monitor");
        assert_eq!(field.metadata.as_deref(), Some("lidarr:monitor"));
        assert_eq!(field.field_type, FieldType::Dropdown);
        assert!(!field.always_show && field.selected_indices.is_empty());
        assert_eq!(field.options.len(), 7);
        assert_eq!(field.options[i].title, titles[i]);
        assert!(field.options[i].description.is_none());
        field.selected_indices = vec![i];
        let selected = SelectedDetails::try_from(vec![field]).unwrap();
        assert_eq!(selected.monitor, Some(scopes[i]));
    }
    // Several scopes need an answer, a pinned one does not
    assert!(SelectedDetails::try_from(vec![lidarr.monitor_field()]).is_err());
    let pinned = backend(vec![MonitorTypes::Existing]);
    let selected = SelectedDetails::try_from(vec![pinned.monitor_field()]).unwrap();
    assert_eq!(selected.monitor, Some(MonitorTypes::Existing));
}

#[test]
fn albums_are_put_newest_first() {
    let sorted = sort_newest_first(vec![
        released(1, "a", Some(100)),
        released(2, "b", None),
        released(3, "c", Some(300)),
        released(4, "d", Some(100)),
        AlbumResource {
            id: Some(5),
            ..AlbumResource::new()
        },
        released(6, "f", Some(200)),
    ]);
    // Albums of one date stay in order, those without a date come last
    assert_eq!(ids(&sorted), vec![3, 6, 1, 4, 2, 5]);
    assert!(sort_newest_first(vec![]).is_empty());
}

#[test]
fn a_picker_leads_with_all_albums() {
    let picker = backend(vec![])
        .build_album_picker(Ok(vec![
            released(1, "Old", Some(0)),
            released(2, "New", Some(1000)),
        ]))
        .unwrap();
    assert_eq!(picker.title, "Albums");
    assert_eq!(picker.metadata.as_deref(), Some("lidarr:album"));
    assert_eq!(picker.field_type, FieldType::MultiSelect);
    assert!(picker.always_show && picker.selected_indices.is_empty());
    let titles: Vec<&str> = picker.options.iter().map(|o| o.title.as_str()).collect();
    assert_eq!(titles, ["All Albums", "New", "Old"]);
    assert_eq!(
        picker.options[0].description.as_deref(),
        Some("Includes future releases")
    );
    assert!(matches!(
        picker.options[0].id,
        Some(SelectableId::Integer(ALL_ITEMS_ID))
    ));
    assert!(matches!(picker.options[1].id, Some(SelectableId::Integer(2))));
}

#[test]
fn a_picker_fits_a_dropdown_and_keeps_the_newest() {
    let listed = |count: i32| -> Vec<AlbumResource> {
        (1..=count).map(|i| released(i, "t", Some(i as i64))).collect()
    };
    let lidarr = backend(vec![]);
    let room = MAX_DROPDOWN_OPTIONS as i32 - 1;
    let whole = lidarr.build_album_picker(Ok(listed(room))).unwrap();
    assert_eq!(whole.options.len(), MAX_DROPDOWN_OPTIONS);
    let cut = lidarr.build_album_picker(Ok(listed(room + 10))).unwrap();
    assert_eq!(cut.options.len(), MAX_DROPDOWN_OPTIONS);
    assert!(matches!(cut.options[1].id, Some(SelectableId::Integer(id)) if id == room + 10));
    assert!(matches!(
        cut.options[MAX_DROPDOWN_OPTIONS - 1].id,
        Some(SelectableId::Integer(11))
    ));
}

#[test]
fn a_picker_needs_albums() {
    let lidarr = backend(vec![]);
    assert!(matches!(
        lidarr.build_album_picker(Ok(vec![])),
        Err(LidarrError::NoAlbumsListed)
    ));
    let failed = lidarr.build_album_picker(Err(ApiError::Serde("bad".to_string())));
    assert!(matches!(
        failed,
        Err(LidarrError::Api(ApiError::Serde(text))) if text == "bad"
    ));
}

#[test]
fn what_is_picked_is_what_is_read() {
    let mut picker = backend(vec![])
        .build_album_picker(Ok(vec![
            released(10, "a", Some(1)),
            released(20, "b", Some(2)),
            released(30, "c", Some(3)),
        ]))
        .unwrap();
    picker.selected_indices = vec![3, 1];
    let (titles, all) = selected_albums(std::slice::from_ref(&picker));
    assert_eq!(titles, vec!["a", "c"]);
    assert!(!all);
    let selected = SelectedDetails::try_from(vec![picker]).unwrap();
    assert_eq!(selected.album_ids, vec![10, 30]);
    assert!(!selected.all_albums);
}

#[test]
fn only_the_picked_albums_need_an_id() {
    let unknown = AlbumResource {
        title: Some(Some("b".to_string())),
        ..AlbumResource::new()
    };
    let picked = |chosen: Vec<usize>| {
        let mut picker = backend(vec![])
            .build_album_picker(Ok(vec![released(10, "a", Some(1)), unknown.clone()]))
            .unwrap();
        picker.selected_indices = chosen;
        SelectedDetails::try_from(vec![picker])
    };
    assert_eq!(picked(vec![1]).unwrap().album_ids, vec![10]);
    assert!(matches!(
        picked(vec![2]),
        Err(LidarrError::AlbumIdNotInteger { id: None })
    ));
}

#[test]
fn a_summary_matches_the_request_among_other_answers() {
    let options = vec![
        option("All Albums", Some(SelectableId::Integer(ALL_ITEMS_ID))),
        option("a", Some(SelectableId::Integer(10))),
        option("b", Some(SelectableId::Integer(20))),
    ];
    let details = vec![
        backend(vec![MonitorTypes::First]).monitor_field(),
        detail(Some(field_keys::ALBUM), options, vec![2, 0, 1]),
    ];
    let (titles, all) = selected_albums(&details);
    assert_eq!(titles, vec!["b", "a"]);
    assert!(all);
    let selected = SelectedDetails::try_from(details).unwrap();
    assert_eq!(selected.monitor, Some(MonitorTypes::First));
    assert_eq!(selected.album_ids, vec![20, 10]);
    assert!(selected.all_albums);
}

#[test]
fn an_album_without_a_type_or_date_says_whether_it_is_monitored() {
    let album = AlbumResource {
        album_type: Some(Some(String::new())),
        monitored: Some(true),
        ..AlbumResource::new()
    };
    let option = lidarr_backend::picker::album_option(&album);
    assert_eq!(option.title, "");
    assert_eq!(option.description.as_deref(), Some("Already monitored"));
    assert!(option.id.is_none());
}

#[test]
fn the_questions_depend_on_the_media() {
    let lidarr = backend(vec![MonitorTypes::All, MonitorTypes::First]);
    let artist = |id: Option<i32>| {
        MediaItem::Lidarr(LidarrMedia::Artist(ArtistResource {
            id,
            ..ArtistResource::new()
        }))
    };
    for id in [None, Some(0), Some(-3)] {
        match lidarr.additional_details(&artist(id)) {
            DetailsStep::Ask(details) => {
                assert_eq!(details.len(), 1);
                assert_eq!(details[0].options.len(), 2);
            }
            other => panic!("{other:?}"),
        }
    }
    assert!(matches!(
        lidarr.additional_details(&artist(Some(12))),
        DetailsStep::ListAlbums { artist_id: 12 }
    ));
    let album = MediaItem::Lidarr(LidarrMedia::Album(AlbumResource::new()));
    assert!(matches!(
        lidarr.additional_details(&album),
        DetailsStep::Ask(details) if details.is_empty()
    ));
    let other = MediaItem::Other(option("x", None));
    assert!(matches!(
        lidarr.additional_details(&other),
        DetailsStep::Failed(LidarrError::InvalidMediaType)
    ));
}
