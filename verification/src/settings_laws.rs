//! What holds of the settings that media is added with.
use crate::error::ErrorView;
use crate::lidarr;
use crate::lidarr::AddSettingsView;
use crate::models::{MonitorTypes, ProfileView, RootFolderView};
use crate::seqs;
use vstd::prelude::*;

verus! {

/// A configured path picks the first root folder that has it. Where none has it, the
/// error lists the paths that there are, in order.
pub proof fn law_configured_folder_is_picked(
    rootfolders: Seq<RootFolderView>,
    path: Seq<char>,
    place: int,
)
    requires
        0 <= place <= rootfolders.len(),
        forall|i: int|
            0 <= i < place ==> (#[trigger] rootfolders[i]).path != Some(Some(path)),
    ensures
        place < rootfolders.len() && rootfolders[place].path == Some(Some(path))
            ==> lidarr::chosen_rootfolder(rootfolders, Some(path)) == Ok::<
            RootFolderView,
            ErrorView,
        >(rootfolders[place]),
        place == rootfolders.len() ==> lidarr::chosen_rootfolder(rootfolders, Some(path)) == Err::<
            RootFolderView,
            ErrorView,
        >(
            ErrorView::RootFolderNotFound {
                path,
                available: rootfolders.filter_map(
                    |folder: RootFolderView|
                        match folder.path {
                            Some(Some(path)) => Some(path),
                            _ => None,
                        },
                ),
            },
        ),
{
    let wanted = |folder: RootFolderView| lidarr::folder_path(folder) == Some(path);
    seqs::lemma_first_where(rootfolders, wanted);
    let given = |folder: RootFolderView| lidarr::folder_path(folder);
    let paths = |folder: RootFolderView|
        match folder.path {
            Some(Some(path)) => Some(path),
            _ => None,
        };
    assert(given =~= paths);
    assert forall|i: int| 0 <= i < place implies !wanted(#[trigger] rootfolders[i]) by {
        assert(rootfolders[i].path != Some(Some(path)));
    }
    if place < rootfolders.len() && rootfolders[place].path == Some(Some(path)) {
        assert(wanted(rootfolders[place]));
        let found = seqs::first_where(rootfolders, wanted)->0;
        let k = choose|k: int|
            0 <= k < rootfolders.len() && #[trigger] rootfolders[k] == found && (forall|j: int|
                0 <= j < k ==> !wanted(#[trigger] rootfolders[j]));
        if k < place {
            assert(!wanted(rootfolders[k]));
        }
        if place < k {
            assert(!wanted(rootfolders[place]));
        }
    }
}

/// Without a configured path the first root folder is taken, if there is one.
pub proof fn law_first_folder_is_the_default(rootfolders: Seq<RootFolderView>)
    ensures
        rootfolders.len() > 0 ==> lidarr::chosen_rootfolder(rootfolders, None) == Ok::<
            RootFolderView,
            ErrorView,
        >(rootfolders[0]),
        rootfolders.len() == 0 ==> lidarr::chosen_rootfolder(rootfolders, None) == Err::<
            RootFolderView,
            ErrorView,
        >(ErrorView::NoRootFolders),
{
}

/// A configured name picks the first profile that has it. Where none has it, the error
/// lists the names that there are, in order.
pub proof fn law_configured_profile_is_picked(
    profiles: Seq<(i32, Seq<char>)>,
    name: Seq<char>,
    rootfolder_default: Option<i32>,
    label: Seq<char>,
    place: int,
)
    requires
        0 <= place <= profiles.len(),
        forall|i: int| 0 <= i < place ==> (#[trigger] profiles[i]).1 != name,
    ensures
        place < profiles.len() && profiles[place].1 == name ==> lidarr::chosen_profile(
            profiles,
            Some(name),
            rootfolder_default,
            label,
        ) == Ok::<i32, ErrorView>(profiles[place].0),
        place == profiles.len() ==> lidarr::chosen_profile(
            profiles,
            Some(name),
            rootfolder_default,
            label,
        ) == Err::<i32, ErrorView>(
            ErrorView::ProfileNotFound {
                label,
                name,
                available: Seq::new(profiles.len(), |i: int| profiles[i].1),
            },
        ),
{
    let wanted = |profile: (i32, Seq<char>)| lidarr::is_named(profile, name);
    seqs::lemma_first_where(profiles, wanted);
    assert forall|i: int| 0 <= i < place implies !wanted(#[trigger] profiles[i]) by {
        assert(profiles[i].1 != name);
    }
    assert(profiles.map_values(|profile: (i32, Seq<char>)| profile.1) =~= Seq::new(
        profiles.len(),
        |i: int| profiles[i].1,
    ));
    if place < profiles.len() && profiles[place].1 == name {
        assert(wanted(profiles[place]));
        let found = seqs::first_where(profiles, wanted)->0;
        let k = choose|k: int|
            0 <= k < profiles.len() && #[trigger] profiles[k] == found && (forall|j: int|
                0 <= j < k ==> !wanted(#[trigger] profiles[j]));
        if k < place {
            assert(!wanted(profiles[k]));
        }
        if place < k {
            assert(!wanted(profiles[place]));
        }
    }
}

/// Without a configured name the root folder's default is taken where a profile has its
/// id, else the first profile, if there is one.
pub proof fn law_default_profile_is_picked(
    profiles: Seq<(i32, Seq<char>)>,
    rootfolder_default: Option<i32>,
    label: Seq<char>,
)
    ensures
        ({
            let chosen = lidarr::chosen_profile(profiles, None, rootfolder_default, label);
            let listed = rootfolder_default matches Some(id) && exists|i: int|
                0 <= i < profiles.len() && (#[trigger] profiles[i]).0 == id;
            &&& listed ==> chosen == Ok::<i32, ErrorView>(rootfolder_default->0)
            &&& !listed && profiles.len() > 0 ==> chosen == Ok::<i32, ErrorView>(profiles[0].0)
            &&& profiles.len() == 0 ==> chosen == Err::<i32, ErrorView>(
                ErrorView::NoProfiles { label },
            )
        }),
{
}

/// One more profile is among those to choose from when it has an id and a name, and
/// leaves the others as they are.
pub proof fn law_profiles_need_id_and_name(profiles: Seq<ProfileView>, profile: ProfileView)
    ensures
        lidarr::profile_pairs(Seq::empty()) == Seq::<(i32, Seq<char>)>::empty(),
        lidarr::profile_pairs(profiles.push(profile)) == (match (profile.id, profile.name) {
            (Some(id), Some(Some(name))) => lidarr::profile_pairs(profiles).push((id, name)),
            _ => lidarr::profile_pairs(profiles),
        }),
{
    reveal(Seq::filter_map);
    assert(profiles.push(profile).drop_last() =~= profiles);
}

/// A pinned scope is the only one offered, unless it leaves the scope undefined; without
/// a pin all the defined ones are, in the order of Lidarr's own screen.
pub proof fn law_scopes_on_offer(scope: MonitorTypes)
    ensures
        scope != MonitorTypes::Unknown ==> lidarr::offered_scopes(Some(scope)) == Ok::<
            Seq<MonitorTypes>,
            ErrorView,
        >(seq![scope]),
        lidarr::offered_scopes(Some(MonitorTypes::Unknown)) == Err::<Seq<MonitorTypes>, ErrorView>(
            ErrorView::InvalidMonitorType,
        ),
        lidarr::offered_scopes(None) == Ok::<Seq<MonitorTypes>, ErrorView>(
            seq![
                MonitorTypes::All,
                MonitorTypes::Future,
                MonitorTypes::Missing,
                MonitorTypes::Existing,
                MonitorTypes::Latest,
                MonitorTypes::First,
                MonitorTypes::Nothing,
            ],
        ),
{
}

/// The settings are the path of the chosen root folder and, for each kind of profile,
/// the one chosen among that kind with the folder's default for it. What cannot be
/// resolved is an error: the folder before its path, that before the quality profile, and
/// that before the metadata profile.
pub proof fn law_settings_are_resolved_each_from_its_own(
    quality_profile: Option<Seq<char>>,
    metadata_profile: Option<Seq<char>>,
    rootfolder: Option<Seq<char>>,
    rootfolders: Seq<RootFolderView>,
    quality_profiles: Seq<ProfileView>,
    metadata_profiles: Seq<ProfileView>,
)
    ensures
        ({
            let settings = lidarr::resolved_settings(
                quality_profile,
                metadata_profile,
                rootfolder,
                rootfolders,
                quality_profiles,
                metadata_profiles,
            );
            match lidarr::chosen_rootfolder(rootfolders, rootfolder) {
                Err(error) => settings == Err::<AddSettingsView, ErrorView>(error),
                Ok(folder) => {
                    let quality = lidarr::chosen_profile(
                        lidarr::profile_pairs(quality_profiles),
                        quality_profile,
                        folder.default_quality_profile_id,
                        "Quality profile"@,
                    );
                    let metadata = lidarr::chosen_profile(
                        lidarr::profile_pairs(metadata_profiles),
                        metadata_profile,
                        folder.default_metadata_profile_id,
                        "Metadata profile"@,
                    );
                    match folder.path {
                        Some(Some(path)) => {
                            &&& quality matches Err(error) ==> settings == Err::<
                                AddSettingsView,
                                ErrorView,
                            >(error)
                            &&& quality is Ok ==> (metadata matches Err(error) ==> settings
                                == Err::<AddSettingsView, ErrorView>(error))
                            &&& quality is Ok && metadata is Ok ==> settings == Ok::<
                                AddSettingsView,
                                ErrorView,
                            >(
                                AddSettingsView {
                                    rootfolder_path: path,
                                    quality_profile_id: quality->Ok_0,
                                    metadata_profile_id: metadata->Ok_0,
                                },
                            )
                        },
                        _ => settings == Err::<AddSettingsView, ErrorView>(
                            ErrorView::RootFolderWithoutPath,
                        ),
                    }
                },
            }
        }),
{
}

} // verus!
