//! The backend and the settings it adds media with.
use crate::config::{
    BackendConfig, BackendConfigView, Configuration, ConfigurationView, LidarrSearchMode,
};
use crate::error;
use crate::error::{ErrorView, LidarrError};
use crate::models::{
    MonitorTypes, ProfileResource, ProfileView, RootFolderResource, RootFolderView,
};
use crate::seqs;
use crate::text;
use crate::text::{flat_text, push_item, same_text};
use vstd::prelude::*;

verus! {

/// Where and how artists get added. All of it is resolved once at connect time
/// from the configuration and Lidarr's own defaults, because none of it is a
/// decision a requester should be asked to make.
#[derive(Clone, Debug)]
pub struct AddSettings {
    pub rootfolder_path: String,
    pub quality_profile_id: i32,
    pub metadata_profile_id: i32,
}

/// A Lidarr backend.
#[derive(Clone, Debug)]
pub struct Lidarr {
    pub config: Configuration,
    /// Monitor scopes offered when adding a new artist; a pin in the configuration
    /// collapses this to a single entry the requester never has to touch
    pub monitor: Vec<MonitorTypes>,
    /// Restricts search to one kind; `None` searches both
    pub search_mode: Option<LidarrSearchMode>,
    pub add_settings: AddSettings,
}

/// The contents of an `AddSettings`.
#[verifier::ext_equal]
pub struct AddSettingsView {
    pub rootfolder_path: Seq<char>,
    pub quality_profile_id: i32,
    pub metadata_profile_id: i32,
}

/// The contents of a `Lidarr`.
#[verifier::ext_equal]
pub struct LidarrView {
    pub config: ConfigurationView,
    pub monitor: Seq<MonitorTypes>,
    pub search_mode: Option<LidarrSearchMode>,
    pub add_settings: AddSettingsView,
}

impl DeepView for AddSettings {
    type V = AddSettingsView;

    open spec fn deep_view(&self) -> AddSettingsView {
        AddSettingsView {
            rootfolder_path: self.rootfolder_path@,
            quality_profile_id: self.quality_profile_id,
            metadata_profile_id: self.metadata_profile_id,
        }
    }
}

impl DeepView for Lidarr {
    type V = LidarrView;

    open spec fn deep_view(&self) -> LidarrView {
        LidarrView {
            config: self.config.deep_view(),
            monitor: self.monitor@,
            search_mode: self.search_mode,
            add_settings: self.add_settings.deep_view(),
        }
    }
}

/// The path of a root folder, when Lidarr gives one.
pub open spec fn folder_path(folder: RootFolderView) -> Option<Seq<char>> {
    text::flat(folder.path)
}

/// The root folder to add into: the configured path, else the first.
pub open spec fn chosen_rootfolder(
    rootfolders: Seq<RootFolderView>,
    configured: Option<Seq<char>>,
) -> Result<RootFolderView, ErrorView> {
    match configured {
        Some(path) => match seqs::first_where(
            rootfolders,
            |folder: RootFolderView| folder_path(folder) == Some(path),
        ) {
            Some(folder) => Ok(folder),
            None => Err(
                ErrorView::RootFolderNotFound {
                    path,
                    available: rootfolders.filter_map(
                        |folder: RootFolderView| folder_path(folder),
                    ),
                },
            ),
        },
        None => if rootfolders.len() > 0 {
            Ok(rootfolders[0])
        } else {
            Err(ErrorView::NoRootFolders)
        },
    }
}

/// Whether a profile has a name.
pub open spec fn is_named(profile: (i32, Seq<char>), name: Seq<char>) -> bool {
    profile.1 == name
}

/// Whether one of the profiles has an id.
pub open spec fn has_profile(profiles: Seq<(i32, Seq<char>)>, id: i32) -> bool {
    exists|i: int| 0 <= i < profiles.len() && (#[trigger] profiles[i]).0 == id
}

/// The id of the profile to add with: the configured name, else the root folder's
/// default where it still exists, else the first.
pub open spec fn chosen_profile(
    profiles: Seq<(i32, Seq<char>)>,
    configured: Option<Seq<char>>,
    rootfolder_default: Option<i32>,
    label: Seq<char>,
) -> Result<i32, ErrorView> {
    match configured {
        Some(name) => match seqs::first_where(
            profiles,
            |profile: (i32, Seq<char>)| is_named(profile, name),
        ) {
            Some(profile) => Ok(profile.0),
            None => Err(
                ErrorView::ProfileNotFound {
                    label,
                    name,
                    available: profiles.map_values(|profile: (i32, Seq<char>)| profile.1),
                },
            ),
        },
        None => if rootfolder_default is Some && has_profile(profiles, rootfolder_default->0) {
            Ok(rootfolder_default->0)
        } else if profiles.len() > 0 {
            Ok(profiles[0].0)
        } else {
            Err(ErrorView::NoProfiles { label })
        },
    }
}

/// The id and name of a profile that has both.
pub open spec fn profile_pair(profile: ProfileView) -> Option<(i32, Seq<char>)> {
    match (profile.id, text::flat(profile.name)) {
        (Some(id), Some(name)) => Some((id, name)),
        _ => None,
    }
}

/// The ids and names of the profiles that have both.
pub open spec fn profile_pairs(profiles: Seq<ProfileView>) -> Seq<(i32, Seq<char>)> {
    profiles.filter_map(|profile: ProfileView| profile_pair(profile))
}

/// The monitor scopes to offer: the pinned one, else those of Lidarr's own
/// add-artist screen, in its order.
pub open spec fn offered_scopes(pinned: Option<MonitorTypes>) -> Result<
    Seq<MonitorTypes>,
    ErrorView,
> {
    match pinned {
        Some(MonitorTypes::Unknown) => Err(ErrorView::InvalidMonitorType),
        Some(scope) => Ok(seq![scope]),
        None => Ok(
            seq![
                MonitorTypes::All,
                MonitorTypes::Future,
                MonitorTypes::Missing,
                MonitorTypes::Existing,
                MonitorTypes::Latest,
                MonitorTypes::First,
                MonitorTypes::Nothing,
            ],
        ),
    }
}

/// The settings to add media with.
pub open spec fn resolved_settings(
    quality_profile: Option<Seq<char>>,
    metadata_profile: Option<Seq<char>>,
    rootfolder: Option<Seq<char>>,
    rootfolders: Seq<RootFolderView>,
    quality_profiles: Seq<ProfileView>,
    metadata_profiles: Seq<ProfileView>,
) -> Result<AddSettingsView, ErrorView> {
    match chosen_rootfolder(rootfolders, rootfolder) {
        Err(error) => Err(error),
        Ok(folder) => match folder_path(folder) {
            None => Err(ErrorView::RootFolderWithoutPath),
            Some(rootfolder_path) => match chosen_profile(
                profile_pairs(quality_profiles),
                quality_profile,
                folder.default_quality_profile_id,
                "Quality profile"@,
            ) {
                Err(error) => Err(error),
                Ok(quality_profile_id) => match chosen_profile(
                    profile_pairs(metadata_profiles),
                    metadata_profile,
                    folder.default_metadata_profile_id,
                    "Metadata profile"@,
                ) {
                    Err(error) => Err(error),
                    Ok(metadata_profile_id) => Ok(
                        AddSettingsView {
                            rootfolder_path,
                            quality_profile_id,
                            metadata_profile_id,
                        },
                    ),
                },
            },
        },
    }
}

/// Picks the root folder to add into: the configured path, else whichever Lidarr
/// lists first, matching what Lidarr's own Add Artist screen preselects.
pub fn resolve_rootfolder(
    rootfolders: &[RootFolderResource],
    configured: Option<&str>,
) -> (resolved: Result<RootFolderResource, LidarrError>)
    ensures
        error::outcome(resolved) == chosen_rootfolder(
            rootfolders.deep_view(),
            configured.deep_view(),
        ),
{
    let ghost folders = rootfolders.deep_view();
    match configured {
        Some(path) => {
            let ghost wanted = |folder: RootFolderView| folder_path(folder) == Some(path@);
            let ghost given = |folder: RootFolderView| folder_path(folder);
            let mut available: Vec<String> = Vec::new();
            let mut i: usize = 0;
            proof {
                assert(folders.skip(0) =~= folders);
                seqs::lemma_sift_none(folders, given);
                assert(available.deep_view() =~= folders.take(0).filter_map(given));
            }
            while i < rootfolders.len()
                invariant
                    i <= rootfolders@.len(),
                    folders == rootfolders.deep_view(),
                    configured.deep_view() == Some(path@),
                    wanted == (|folder: RootFolderView| folder_path(folder) == Some(path@)),
                    given == (|folder: RootFolderView| folder_path(folder)),
                    seqs::first_where(folders, wanted) == seqs::first_where(
                        folders.skip(i as int),
                        wanted,
                    ),
                    available.deep_view() == folders.take(i as int).filter_map(given),
                decreases rootfolders@.len() - i,
            {
                proof {
                    seqs::lemma_first_where_step(folders, wanted, i as int);
                    seqs::lemma_filter_map_step(folders, given, i as int);
                    assert(folders[i as int] == rootfolders[i as int].deep_view());
                }
                if let Some(found) = flat_text(&rootfolders[i].path) {
                    if same_text(found.as_str(), path) {
                        return Ok(rootfolders[i].clone());
                    }
                    push_item(&mut available, found);
                }
                i = i + 1;
            }
            assert(folders.take(i as int) =~= folders);
            Err(LidarrError::RootFolderNotFound { path: path.to_owned(), available })
        },
        None => if rootfolders.len() > 0 {
            Ok(rootfolders[0].clone())
        } else {
            Err(LidarrError::NoRootFolders)
        },
    }
}

/// Resolves a quality or metadata profile to its id: the configured name, else the
/// default Lidarr has attached to the chosen root folder, else its first profile.
///
/// `label` names the profile in errors, capitalized, e.g. "Quality profile".
pub fn resolve_profile(
    profiles: &[(i32, String)],
    configured: Option<&str>,
    rootfolder_default: Option<i32>,
    label: &str,
) -> (resolved: Result<i32, LidarrError>)
    ensures
        error::outcome(resolved) == chosen_profile(
            profiles.deep_view(),
            configured.deep_view(),
            rootfolder_default,
            label@,
        ),
{
    let ghost known = profiles.deep_view();
    if let Some(name) = configured {
        let ghost wanted = |profile: (i32, Seq<char>)| is_named(profile, name@);
        let mut available: Vec<String> = Vec::new();
        let mut i: usize = 0;
        assert(known.skip(0) =~= known);
        while i < profiles.len()
            invariant
                i <= profiles@.len(),
                known == profiles.deep_view(),
                configured.deep_view() == Some(name@),
                wanted == (|profile: (i32, Seq<char>)| is_named(profile, name@)),
                seqs::first_where(known, wanted) == seqs::first_where(
                    known.skip(i as int),
                    wanted,
                ),
                available.deep_view() =~= known.take(i as int).map_values(
                    |profile: (i32, Seq<char>)| profile.1,
                ),
            decreases profiles@.len() - i,
        {
            proof {
                seqs::lemma_first_where_step(known, wanted, i as int);
                assert(known[i as int] == profiles[i as int].deep_view());
            }
            if same_text(profiles[i].1.as_str(), name) {
                return Ok(profiles[i].0);
            }
            push_item(&mut available, profiles[i].1.clone());
            i = i + 1;
        }
        assert(known.take(i as int) =~= known);
        return Err(
            LidarrError::ProfileNotFound {
                label: label.to_owned(),
                name: name.to_owned(),
                available,
            },
        );
    }
    // A root folder can still point at a profile that has since been deleted
    if let Some(id) = rootfolder_default {
        let mut i: usize = 0;
        while i < profiles.len()
            invariant
                i <= profiles@.len(),
                known == profiles.deep_view(),
                configured is None,
                rootfolder_default == Some(id),
                forall|j: int| 0 <= j < i ==> (#[trigger] known[j]).0 != id,
            decreases profiles@.len() - i,
        {
            assert(known[i as int] == profiles[i as int].deep_view());
            if profiles[i].0 == id {
                assert(has_profile(known, id));
                return Ok(id);
            }
            i = i + 1;
        }
        assert(!has_profile(known, id));
    }
    if profiles.len() > 0 {
        assert(known[0] == profiles[0].deep_view());
        Ok(profiles[0].0)
    } else {
        Err(LidarrError::NoProfiles { label: label.to_owned() })
    }
}

/// The ids and names of the profiles that have both.
pub fn named_profiles(profiles: &[ProfileResource]) -> (pairs: Vec<(i32, String)>)
    ensures
        pairs.deep_view() == profile_pairs(profiles.deep_view()),
{
    let ghost given = profiles.deep_view();
    let ghost pair = |profile: ProfileView| profile_pair(profile);
    let mut pairs: Vec<(i32, String)> = Vec::new();
    let mut i: usize = 0;
    proof {
        seqs::lemma_sift_none(given, pair);
        assert(pairs.deep_view() =~= given.take(0).filter_map(pair));
    }
    while i < profiles.len()
        invariant
            i <= profiles@.len(),
            given == profiles.deep_view(),
            pair == (|profile: ProfileView| profile_pair(profile)),
            pairs.deep_view() == given.take(i as int).filter_map(pair),
        decreases profiles@.len() - i,
    {
        proof {
            seqs::lemma_filter_map_step(given, pair, i as int);
            assert(given[i as int] == profiles[i as int].deep_view());
        }
        match (profiles[i].id, flat_text(&profiles[i].name)) {
            (Some(id), Some(name)) => {
                push_item(&mut pairs, (id, name));
            },
            _ => {},
        }
        i = i + 1;
    }
    assert(given.take(i as int) =~= given);
    pairs
}

fn borrowed(text: &Option<String>) -> (view: Option<&str>)
    ensures
        view.deep_view() == text.deep_view(),
{
    match text {
        Some(text) => Some(text.as_str()),
        None => None,
    }
}

fn scopes_to_offer(pinned: Option<MonitorTypes>) -> (offered: Result<Vec<MonitorTypes>, LidarrError>)
    ensures
        offered matches Ok(scopes) ==> offered_scopes(pinned) == Ok::<Seq<MonitorTypes>, ErrorView>(
            scopes@,
        ),
        offered matches Err(error) ==> offered_scopes(pinned) == Err::<
            Seq<MonitorTypes>,
            ErrorView,
        >(error.deep_view()),
{
    match pinned {
        Some(scope) => {
            if scope == MonitorTypes::Unknown {
                return Err(LidarrError::InvalidMonitorType);
            }
            let scopes = vec![scope];
            assert(scopes@ =~= seq![scope]);
            Ok(scopes)
        },
        None => {
            let scopes = vec![
                MonitorTypes::All,
                MonitorTypes::Future,
                MonitorTypes::Missing,
                MonitorTypes::Existing,
                MonitorTypes::Latest,
                MonitorTypes::First,
                MonitorTypes::Nothing,
            ];
            assert(scopes@ =~= offered_scopes(pinned)->Ok_0);
            Ok(scopes)
        },
    }
}

/// What connecting to Lidarr needs, as the configuration gives it.
#[derive(Debug)]
pub struct ConnectSettings {
    pub base_path: String,
    pub key: String,
    pub quality_profile: Option<String>,
    pub metadata_profile: Option<String>,
    pub rootfolder: Option<String>,
    pub monitor_type: Option<MonitorTypes>,
    pub search_mode: Option<LidarrSearchMode>,
}

impl Lidarr {
    /// Builds the backend from its configuration and from what Lidarr lists: its
    /// root folders and its quality and metadata profiles.
    pub fn new(
        base_path: String,
        key: String,
        quality_profile: Option<String>,
        metadata_profile: Option<String>,
        rootfolder: Option<String>,
        monitor_type: Option<MonitorTypes>,
        search_mode: Option<LidarrSearchMode>,
        rootfolders: &[RootFolderResource],
        quality_profiles: &[ProfileResource],
        metadata_profiles: &[ProfileResource],
    ) -> (built: Result<Lidarr, LidarrError>)
        ensures
            error::outcome(built) == (match resolved_settings(
                quality_profile.deep_view(),
                metadata_profile.deep_view(),
                rootfolder.deep_view(),
                rootfolders.deep_view(),
                quality_profiles.deep_view(),
                metadata_profiles.deep_view(),
            ) {
                Err(error) => Err(error),
                Ok(add_settings) => match offered_scopes(monitor_type) {
                    Err(error) => Err(error),
                    Ok(monitor) => Ok(
                        (LidarrView {
                            config: (ConfigurationView {
                                base_path: base_path@,
                                api_key: Some(key@),
                            }),
                            monitor,
                            search_mode,
                            add_settings,
                        }),
                    ),
                },
            }),
    {
        let folder = match resolve_rootfolder(rootfolders, borrowed(&rootfolder)) {
            Ok(folder) => folder,
            Err(error) => {
                return Err(error);
            },
        };
        let rootfolder_path = match flat_text(&folder.path) {
            Some(path) => path,
            None => {
                return Err(LidarrError::RootFolderWithoutPath);
            },
        };
        let quality_pairs = named_profiles(quality_profiles);
        let metadata_pairs = named_profiles(metadata_profiles);
        let quality_profile_id = match resolve_profile(
            quality_pairs.as_slice(),
            borrowed(&quality_profile),
            folder.default_quality_profile_id,
            "Quality profile",
        ) {
            Ok(id) => id,
            Err(error) => {
                return Err(error);
            },
        };
        let metadata_profile_id = match resolve_profile(
            metadata_pairs.as_slice(),
            borrowed(&metadata_profile),
            folder.default_metadata_profile_id,
            "Metadata profile",
        ) {
            Ok(id) => id,
            Err(error) => {
                return Err(error);
            },
        };
        let monitor = match scopes_to_offer(monitor_type) {
            Ok(scopes) => scopes,
            Err(error) => {
                return Err(error);
            },
        };
        Ok(
            Lidarr {
                config: Configuration { base_path, api_key: Some(key) },
                monitor,
                search_mode,
                add_settings: AddSettings {
                    rootfolder_path,
                    quality_profile_id,
                    metadata_profile_id,
                },
            },
        )
    }

    /// What connecting needs, when the configured backend is one for Lidarr.
    pub fn connect(backend: BackendConfig) -> (settings: Result<ConnectSettings, LidarrError>)
        ensures
            settings is Ok <==> backend is Lidarr,
            settings matches Ok(settings) ==> backend.deep_view() == (BackendConfigView::Lidarr {
                url: settings.base_path@,
                api_key: settings.key@,
                quality_profile: settings.quality_profile.deep_view(),
                metadata_profile: settings.metadata_profile.deep_view(),
                rootfolder: settings.rootfolder.deep_view(),
                monitor_type: settings.monitor_type,
                search_mode: settings.search_mode,
            }),
            settings matches Err(error) ==> error.deep_view() == ErrorView::WrongBackend,
    {
        match backend {
            BackendConfig::Lidarr {
                url,
                api_key,
                quality_profile,
                metadata_profile,
                rootfolder,
                monitor_type,
                search_mode,
            } => Ok(
                ConnectSettings {
                    base_path: url,
                    key: api_key,
                    quality_profile,
                    metadata_profile,
                    rootfolder,
                    monitor_type,
                    search_mode,
                },
            ),
            BackendConfig::Other => Err(LidarrError::WrongBackend),
        }
    }
}

} // verus!
