//! The backend's configuration.
use crate::models::MonitorTypes;
use vstd::prelude::*;

verus! {

/// Restricts a search to one kind of result.
#[derive(Clone, Copy, Debug, PartialEq, Eq, Structural)]
pub enum LidarrSearchMode {
    Artist,
    Album,
}

/// A backend as the configuration names it.
#[derive(Debug)]
pub enum BackendConfig {
    Lidarr {
        url: String,
        api_key: String,
        quality_profile: Option<String>,
        metadata_profile: Option<String>,
        rootfolder: Option<String>,
        monitor_type: Option<MonitorTypes>,
        search_mode: Option<LidarrSearchMode>,
    },
    /// A backend for another service
    Other,
}

/// The contents of a `BackendConfig`.
#[verifier::ext_equal]
pub enum BackendConfigView {
    Lidarr {
        url: Seq<char>,
        api_key: Seq<char>,
        quality_profile: Option<Seq<char>>,
        metadata_profile: Option<Seq<char>>,
        rootfolder: Option<Seq<char>>,
        monitor_type: Option<MonitorTypes>,
        search_mode: Option<LidarrSearchMode>,
    },
    Other,
}

impl DeepView for BackendConfig {
    type V = BackendConfigView;

    open spec fn deep_view(&self) -> BackendConfigView {
        match self {
            BackendConfig::Lidarr {
                url,
                api_key,
                quality_profile,
                metadata_profile,
                rootfolder,
                monitor_type,
                search_mode,
            } => BackendConfigView::Lidarr {
                url: url@,
                api_key: api_key@,
                quality_profile: quality_profile.deep_view(),
                metadata_profile: metadata_profile.deep_view(),
                rootfolder: rootfolder.deep_view(),
                monitor_type: *monitor_type,
                search_mode: *search_mode,
            },
            BackendConfig::Other => BackendConfigView::Other,
        }
    }
}

/// Where Lidarr is reached, and the key that opens it.
#[derive(Clone, Debug)]
pub struct Configuration {
    pub base_path: String,
    pub api_key: Option<String>,
}

/// The contents of a `Configuration`.
#[verifier::ext_equal]
pub struct ConfigurationView {
    pub base_path: Seq<char>,
    pub api_key: Option<Seq<char>>,
}

impl DeepView for Configuration {
    type V = ConfigurationView;

    open spec fn deep_view(&self) -> ConfigurationView {
        ConfigurationView { base_path: self.base_path@, api_key: self.api_key.deep_view() }
    }
}

} // verus!
