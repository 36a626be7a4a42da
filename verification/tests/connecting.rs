//! Setting a backend up.
use lidarr_backend::config::{BackendConfig, LidarrSearchMode};
use lidarr_backend::error::LidarrError;
use lidarr_backend::lidarr::{named_profiles, resolve_profile, resolve_rootfolder, Lidarr};
use lidarr_backend::models::{MonitorTypes, ProfileResource, RootFolderResource};

fn folder(path: Option<&str>, quality: Option<i32>, metadata: Option<i32>) -> RootFolderResource {
    RootFolderResource {
        path: Some(path.map(|p| p.to_string())),
        default_quality_profile_id: quality,
        default_metadata_profile_id: metadata,
    }
}

fn profile(id: Option<i32>, name: Option<&str>) -> ProfileResource {
    ProfileResource {
        id,
        name: Some(name.map(|n| n.to_string())),
    }
}

fn quality() -> Vec<ProfileResource> {
    vec![
        profile(Some(1), Some("Any")),
        profile(None, Some("Half")),
        profile(Some(9), None),
        profile(Some(2), Some("Lossless")),
    ]
}

fn metadata() -> Vec<ProfileResource> {
    vec![profile(Some(5), Some("Standard")), profile(Some(6), Some("None"))]
}

fn build(
    quality_profile: Option<&str>,
    metadata_profile: Option<&str>,
    rootfolder: Option<&str>,
    monitor_type: Option<MonitorTypes>,
    folders: &[RootFolderResource],
) -> Result<Lidarr, LidarrError> {
    Lidarr::new(
        "http://localhost:8686".to_string(),
        "api key".to_string(),
        quality_profile.map(|t| t.to_string()),
        metadata_profile.map(|t| t.to_string()),
        rootfolder.map(|t| t.to_string()),
        monitor_type,
        None,
        folders,
        &quality(),
        &metadata(),
    )
}

#[test]
fn settings_come_from_the_configuration_first() {
    let folders = [folder(Some("/a"), Some(1), Some(5)), folder(Some("/b"), Some(1), Some(5))];
    let lidarr = build(
        Some("Lossless"),
        Some("None"),
        Some("/b"),
        Some(MonitorTypes::Latest),
        &folders,
    )
    .unwrap();
    assert_eq!(lidarr.add_settings.rootfolder_path, "/b");
    assert_eq!(lidarr.add_settings.quality_profile_id, 2);
    assert_eq!(lidarr.add_settings.metadata_profile_id, 6);
    assert_eq!(lidarr.monitor, vec![MonitorTypes::Latest]);
    assert_eq!(lidarr.search_mode, None);
    assert_eq!(lidarr.config.base_path, "http://localhost:8686");
    assert_eq!(lidarr.config.api_key.as_deref(), Some("api key"));
}

#[test]
fn settings_fall_back_to_lidarrs_own_defaults() {
    let folders = [folder(Some("/a"), Some(2), Some(6)), folder(Some("/b"), Some(1), Some(5))];
    let lidarr = build(None, None, None, None, &folders).unwrap();
    assert_eq!(lidarr.add_settings.rootfolder_path, "/a");
    assert_eq!(lidarr.add_settings.quality_profile_id, 2);
    assert_eq!(lidarr.add_settings.metadata_profile_id, 6);
    assert_eq!(
        lidarr.monitor,
        vec![
            MonitorTypes::All,
            MonitorTypes::Future,
            MonitorTypes::Missing,
            MonitorTypes::Existing,
            MonitorTypes::Latest,
            MonitorTypes::First,
            MonitorTypes::Nothing,
        ]
    );
}

#[test]
fn a_default_that_names_no_listed_profile_is_passed_over() {
    // The profile with id 9 has no name, so it is not among those listed
    let lidarr = build(None, None, None, None, &[folder(Some("/a"), Some(9), None)]).unwrap();
    assert_eq!(lidarr.add_settings.quality_profile_id, 1);
    assert_eq!(lidarr.add_settings.metadata_profile_id, 5);
}

#[test]
fn a_backend_fails_on_each_setting_it_cannot_resolve() {
    let folders = [folder(Some("/a"), None, None)];
    assert!(matches!(
        build(None, None, None, None, &[]),
        Err(LidarrError::NoRootFolders)
    ));
    assert!(matches!(
        build(None, None, Some("/z"), None, &folders),
        Err(LidarrError::RootFolderNotFound { .. })
    ));
    assert!(matches!(
        build(None, None, None, None, &[folder(None, None, None)]),
        Err(LidarrError::RootFolderWithoutPath)
    ));
    assert_eq!(
        build(Some("Half"), None, None, None, &folders)
            .unwrap_err()
            .message(),
        "Quality profile 'Half' not found. Available options: [Any, Lossless]"
    );
    assert_eq!(
        build(None, Some("Any"), None, None, &folders)
            .unwrap_err()
            .message(),
        "Metadata profile 'Any' not found. Available options: [Standard, None]"
    );
    assert!(matches!(
        build(None, None, None, Some(MonitorTypes::Unknown), &folders),
        Err(LidarrError::InvalidMonitorType)
    ));
}

#[test]
fn missing_profiles_are_named_by_their_kind() {
    let built = Lidarr::new(
        String::new(),
        String::new(),
        None,
        None,
        None,
        None,
        Some(LidarrSearchMode::Artist),
        &[folder(Some("/a"), Some(1), Some(1))],
        &quality(),
        &[],
    );
    assert_eq!(
        built.unwrap_err().message(),
        "Metadata profiles are not configured in Lidarr"
    );
}

#[test]
fn the_first_folder_with_the_path_is_taken() {
    let folders = [
        folder(None, Some(7), None),
        folder(Some("/a"), Some(1), None),
        folder(Some("/a"), Some(2), None),
    ];
    let found = resolve_rootfolder(&folders, Some("/a")).unwrap();
    assert_eq!(found.default_quality_profile_id, Some(1));
    // Folders without a path are not among the options
    assert_eq!(
        resolve_rootfolder(&folders, Some("/z")).unwrap_err().message(),
        "Root folder '/z' not found. Available options: [/a, /a]"
    );
    // The first folder is taken with or without a path
    assert_eq!(
        resolve_rootfolder(&folders, None).unwrap().default_quality_profile_id,
        Some(7)
    );
}

#[test]
fn a_configured_name_leaves_no_say_to_the_default() {
    let profiles = [(1, "Same".to_string()), (2, "Same".to_string())];
    assert_eq!(resolve_profile(&profiles, Some("Same"), Some(2), "P").unwrap(), 1);
    assert!(resolve_profile(&profiles, Some("same"), Some(2), "P").is_err());
}

#[test]
fn profiles_without_an_id_or_a_name_are_left_out() {
    assert_eq!(
        named_profiles(&quality()),
        vec![(1, "Any".to_string()), (2, "Lossless".to_string())]
    );
}

#[test]
fn only_a_lidarr_configuration_connects() {
    let settings = Lidarr::connect(BackendConfig::Lidarr {
        url: "http://u".to_string(),
        api_key: "k".to_string(),
        quality_profile: Some("q".to_string()),
        metadata_profile: Some("m".to_string()),
        rootfolder: Some("r".to_string()),
        monitor_type: Some(MonitorTypes::First),
        search_mode: Some(LidarrSearchMode::Album),
    })
    .unwrap();
    assert_eq!(settings.base_path, "http://u");
    assert_eq!(settings.key, "k");
    assert_eq!(settings.quality_profile.as_deref(), Some("q"));
    assert_eq!(settings.metadata_profile.as_deref(), Some("m"));
    assert_eq!(settings.rootfolder.as_deref(), Some("r"));
    assert_eq!(settings.monitor_type, Some(MonitorTypes::First));
    assert_eq!(settings.search_mode, Some(LidarrSearchMode::Album));
    assert!(matches!(
        Lidarr::connect(BackendConfig::Other),
        Err(LidarrError::WrongBackend)
    ));
}
