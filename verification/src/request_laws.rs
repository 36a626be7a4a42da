//! What holds of every request, whatever Lidarr answers.
use crate::commands::AlbumSearchView;
use crate::display;
use crate::error::{ApiErrorView, ErrorView};
use crate::laws;
use crate::lidarr::AddSettingsView;
use crate::media;
use crate::media::{LidarrMediaView, MediaItemView};
use crate::media_laws;
use crate::models;
use crate::models::{
    AddAlbumOptions, AddArtistOptionsView, AlbumAddType, AlbumView, AlbumsMonitoredView,
    ArtistView, MonitorTypes, NewItemMonitorTypes,
};
use crate::picker;
use crate::picker::DetailsStepView;
use crate::picker_laws;
use crate::provider::{DropdownOptionView, RequestDetailsView};
use crate::request;
use crate::request::{AlbumsListedView, ArtistFetchedView, StepView};
use crate::selection;
use crate::selection::SelectedView;
use crate::text;
use vstd::prelude::*;

verus! {

/// Whether a request goes from one step to another under some answer of Lidarr.
pub open spec fn leads_to(step: StepView, following: StepView) -> bool {
    match step {
        StepView::ListAlbums { artist_id, next } => exists|reply: Result<
            Seq<AlbumView>,
            ApiErrorView,
        >| following == #[trigger] request::after_listing(next, reply),
        StepView::GetArtist { artist_id, next } => exists|reply: Result<ArtistView, ApiErrorView>|
            following == #[trigger] request::after_fetching(next, reply),
        StepView::UpdateArtist { id, move_files, artist, to_monitor } => exists|
            reply: Result<(), ApiErrorView>,
        | following == #[trigger] request::after_updating(to_monitor, reply),
        StepView::MonitorAlbums { resource, album_ids } => exists|
            reply: Result<(), ApiErrorView>,
        | following == #[trigger] request::after_monitoring(album_ids, reply),
        StepView::SearchAlbums { command } => exists|reply: Result<(), ApiErrorView>|
            following == #[trigger] request::after_submitting(reply),
        StepView::AddArtist { artist } => exists|reply: Result<(), ApiErrorView>|
            following == #[trigger] request::after_submitting(reply),
        StepView::AddAlbum { album } => exists|reply: Result<(), ApiErrorView>|
            following == #[trigger] request::after_submitting(reply),
        StepView::Done => false,
        StepView::Failed(_) => false,
    }
}

/// An upper bound on the calls a request still makes, the one of this step included.
pub open spec fn calls_left(step: StepView) -> nat {
    match step {
        StepView::ListAlbums { artist_id, next } => 5,
        StepView::GetArtist { artist_id, next } => 4,
        StepView::UpdateArtist { id, move_files, artist, to_monitor } => 3,
        StepView::MonitorAlbums { resource, album_ids } => 2,
        StepView::SearchAlbums { command } => 1,
        StepView::AddArtist { artist } => 1,
        StepView::AddAlbum { album } => 1,
        StepView::Done => 0,
        StepView::Failed(_) => 0,
    }
}

/// Every request comes to an end: whatever Lidarr answers, each call leaves fewer to
/// make.
pub proof fn law_requests_end(step: StepView, following: StepView)
    requires
        leads_to(step, following),
    ensures
        calls_left(following) < calls_left(step),
{
}

/// Whether the call of a step only ever switches monitoring on.
pub open spec fn is_additive(step: StepView) -> bool {
    match step {
        StepView::UpdateArtist { id, move_files, artist, to_monitor } => artist.monitored == Some(
            true,
        ) && artist.monitor_new_items == Some(NewItemMonitorTypes::All) && !move_files,
        StepView::MonitorAlbums { resource, album_ids } => resource == (AlbumsMonitoredView {
            album_ids: Some(Some(album_ids)),
            monitored: Some(true),
        }) && album_ids.len() > 0,
        StepView::SearchAlbums { command } => command.name == "AlbumSearch"@,
        StepView::AddArtist { artist } => artist.monitored == Some(true),
        StepView::AddAlbum { album } => album.monitored == Some(true),
        _ => true,
    }
}

/// A request starts with a call that unmonitors nothing.
pub proof fn law_requests_start_additive(
    settings: AddSettingsView,
    details: Seq<RequestDetailsView>,
    item: MediaItemView,
)
    ensures
        is_additive(request::first_step(settings, details, item)),
{
}

/// A request never unmonitors anything: whatever Lidarr answers, each further call
/// only switches monitoring on.
pub proof fn law_requests_stay_additive(step: StepView, following: StepView)
    requires
        is_additive(step),
        leads_to(step, following),
    ensures
        is_additive(following),
{
}

/// A call that fails ends the request with that failure, except that a change whose
/// answer did not parse has been applied and goes on as if it had.
pub proof fn law_failed_calls_fail_the_request(
    listed: AlbumsListedView,
    fetched: ArtistFetchedView,
    album_ids: Seq<i32>,
    error: ApiErrorView,
)
    ensures
        request::after_listing(listed, Err(error)) == StepView::Failed(ErrorView::Api(error)),
        request::after_fetching(fetched, Err(error)) == StepView::Failed(ErrorView::Api(error)),
        request::after_monitoring(album_ids, Err(error)) == StepView::Failed(
            ErrorView::Api(error),
        ),
        !(error is Serde) ==> request::after_updating(album_ids, Err(error)) == StepView::Failed(
            ErrorView::Api(error),
        ) && request::after_submitting(Err(error)) == StepView::Failed(ErrorView::Api(error)),
        error is Serde ==> request::after_updating(album_ids, Err(error))
            == request::after_updating(album_ids, Ok(())) && request::after_submitting(Err(error))
            == StepView::Done,
{
}

/// Picked albums that Lidarr already monitors are left out of the request, the
/// others are all in it, in the order they were picked.
pub proof fn law_only_missing_albums_are_monitored(requested: Seq<i32>, already: Seq<i32>)
    ensures
        forall|id: i32|
            #[trigger] request::missing_ids(requested, already).contains(id) <==> requested.contains(
                id,
            ) && !already.contains(id),
        request::missing_ids(requested, already).len() == 0 <==> (forall|id: i32|
            #[trigger] requested.contains(id) ==> already.contains(id)),
        (forall|id: i32| #[trigger] requested.contains(id) ==> !already.contains(id))
            ==> request::missing_ids(requested, already) == requested,
{
    let kept = |id: i32| !already.contains(id);
    let missing = request::missing_ids(requested, already);
    assert forall|id: i32| #[trigger] missing.contains(id) <==> requested.contains(id)
        && !already.contains(id) by {
        if missing.contains(id) {
            requested.lemma_filter_contains_rev(kept, id);
            let i = choose|i: int| 0 <= i < missing.len() && missing[i] == id;
            requested.lemma_filter_pred(kept, i);
        }
        if requested.contains(id) && !already.contains(id) {
            let i = choose|i: int| 0 <= i < requested.len() && requested[i] == id;
            requested.lemma_filter_contains(kept, i);
        }
    }
    if missing.len() == 0 {
        assert forall|id: i32| #[trigger] requested.contains(id) implies already.contains(id) by {
            if !already.contains(id) {
                assert(missing.contains(id));
            }
        }
    } else {
        assert(missing.contains(missing[0]));
        assert(requested.contains(missing[0]));
    }
    if forall|id: i32| #[trigger] requested.contains(id) ==> !already.contains(id) {
        lemma_keep_all(requested, kept);
    }
}

proof fn lemma_keep_all(items: Seq<i32>, kept: spec_fn(i32) -> bool)
    requires
        forall|item: i32| #[trigger] items.contains(item) ==> kept(item),
    ensures
        items.filter(kept) == items,
    decreases items.len(),
{
    reveal(Seq::filter);
    if items.len() > 0 {
        let fewer = items.drop_last();
        assert forall|item: i32| #[trigger] fewer.contains(item) implies kept(item) by {
            let i = choose|i: int| 0 <= i < fewer.len() && fewer[i] == item;
            assert(items[i] == item);
            assert(items.contains(item));
        }
        lemma_keep_all(fewer, kept);
        assert(items.contains(items.last()));
        assert(items =~= fewer.push(items.last()));
    }
}

/// Everything that "All Albums" monitors is an album of the library that Lidarr did
/// not monitor, and every such album with an id is in it.
pub proof fn law_all_albums_covers_the_rest(library: Seq<AlbumView>, id: i32)
    ensures
        request::unmonitored_ids(library).contains(id) <==> exists|i: int|
            0 <= i < library.len() && !models::is_monitored(#[trigger] library[i])
                && library[i].id == Some(id),
    decreases library.len(),
{
    reveal(Seq::filter_map);
    let off = |album: AlbumView| request::unmonitored_id(album);
    let all = request::unmonitored_ids(library);
    if library.len() > 0 {
        let fewer = library.drop_last();
        let last = library.last();
        law_all_albums_covers_the_rest(fewer, id);
        let before = request::unmonitored_ids(fewer);
        assert(all == (match off(last) {
            Some(value) => before.push(value),
            None => before,
        }));
        if all.contains(id) {
            let k = choose|k: int| 0 <= k < all.len() && all[k] == id;
            if k < before.len() {
                assert(before[k] == id);
                assert(before.contains(id));
                let i = choose|i: int|
                    0 <= i < fewer.len() && !models::is_monitored(#[trigger] fewer[i])
                        && fewer[i].id == Some(id);
                assert(library[i] == fewer[i]);
            } else {
                assert(library[library.len() - 1] == last);
            }
        }
        if exists|i: int|
            0 <= i < library.len() && !models::is_monitored(#[trigger] library[i]) && library[i].id
                == Some(id) {
            let i = choose|i: int|
                0 <= i < library.len() && !models::is_monitored(#[trigger] library[i])
                    && library[i].id == Some(id);
            if i < fewer.len() {
                assert(fewer[i] == library[i]);
                assert(before.contains(id));
                let k = choose|k: int| 0 <= k < before.len() && before[k] == id;
                assert(all[k] == id);
            } else {
                assert(all[all.len() - 1] == id);
            }
        }
    }
}

/// A request for albums of an artist in the library, with every call answered, ends
/// well exactly when it adds something; the calls monitor what it adds and search
/// for it.
pub proof fn law_album_picks_run(
    listed: AlbumsListedView,
    library: Seq<AlbumView>,
)
    requires
        !listed.selected.all_albums,
    ensures
        ({
            let to_monitor = request::missing_ids(
                listed.selected.album_ids,
                request::monitored_ids(library),
            );
            let step = request::after_listing(listed, Ok(library));
            &&& to_monitor.len() == 0 ==> step == StepView::Failed(
                ErrorView::AlreadyMonitored { name: listed.name },
            )
            &&& to_monitor.len() > 0 ==> step == request::monitoring(to_monitor)
                && request::after_monitoring(to_monitor, Ok(())) == (StepView::SearchAlbums {
                command: AlbumSearchView { name: "AlbumSearch"@, album_ids: to_monitor },
            }) && request::after_submitting(Ok(())) == StepView::Done
        }),
{
}

/// "All Albums" is a meaningful request as long as one album or the future releases
/// are not monitored yet, and is turned down only when all of them are.
pub proof fn law_all_albums_run(
    listed: AlbumsListedView,
    library: Seq<AlbumView>,
    artist: ArtistView,
)
    requires
        listed.selected.all_albums,
    ensures
        ({
            let to_monitor = request::unmonitored_ids(library);
            let fetched = ArtistFetchedView {
                artist_id: listed.artist_id,
                name: listed.name,
                to_monitor,
            };
            let step = request::after_fetching(fetched, Ok(artist));
            &&& request::after_listing(listed, Ok(library)) == (StepView::GetArtist {
                artist_id: listed.artist_id,
                next: fetched,
            })
            &&& step == StepView::Failed(ErrorView::AlreadyMonitored { name: listed.name })
                <==> to_monitor.len() == 0 && artist.monitor_new_items == Some(
                NewItemMonitorTypes::All,
            )
            &&& artist.monitor_new_items != Some(NewItemMonitorTypes::All) ==> {
                &&& step is UpdateArtist
                &&& to_monitor.len() == 0 ==> request::after_updating(to_monitor, Ok(()))
                    == StepView::Done
                &&& to_monitor.len() > 0 ==> request::after_updating(to_monitor, Ok(()))
                    == request::monitoring(to_monitor)
            }
            &&& artist.monitor_new_items == Some(NewItemMonitorTypes::All) && to_monitor.len() > 0
                ==> step == request::monitoring(to_monitor)
        }),
{
}

/// Monitoring an artist's future releases leaves the rest of the artist as it is,
/// and does not need doing twice.
pub proof fn law_widening_is_idempotent(artist: ArtistView)
    ensures
        request::widened(artist) matches Some(wider) ==> request::widened(wider) is None && wider
            == (ArtistView {
            monitored: Some(true),
            monitor_new_items: Some(NewItemMonitorTypes::All),
            ..artist
        }),
        request::widened(artist) is None <==> artist.monitor_new_items == Some(
            NewItemMonitorTypes::All,
        ),
{
}

/// An artist in the library is never added again, nor is one of its albums: its
/// request starts by listing the albums, or is turned down for picking none of them,
/// and a step that follows another never adds anything.
pub proof fn law_known_artist_is_never_added(
    settings: AddSettingsView,
    selected: SelectedView,
    artist: ArtistView,
    step: StepView,
    following: StepView,
)
    requires
        models::library_id(artist.id) is Some,
        leads_to(step, following),
    ensures
        request::artist_request(settings, selected, artist) is ListAlbums
            || request::artist_request(settings, selected, artist) == StepView::Failed(
            ErrorView::NoAlbumsSelected,
        ),
        request::artist_request(settings, selected, artist) is ListAlbums
            <==> selected.album_ids.len() > 0 || selected.all_albums,
        !(following is AddArtist) && !(following is AddAlbum),
{
}

/// The albums picked from an artist's picker are the ones that the request goes on
/// with: it asks Lidarr for that artist's albums, and carries the picks along in the
/// order they were made.
pub proof fn law_picks_reach_the_request(
    settings: AddSettingsView,
    artist: ArtistView,
    albums: Seq<AlbumView>,
    chosen: Seq<usize>,
)
    requires
        models::library_id(artist.id) is Some,
        picker_laws::picks_have_ids(albums, chosen),
    ensures
        ({
            let picked = chosen.filter_map(
                |index: usize| picker_laws::album_id_at(albums, index),
            );
            let step = request::first_step(
                settings,
                seq![laws::answered(picker::album_question(albums), chosen)],
                MediaItemView::Lidarr(LidarrMediaView::Artist(artist)),
            );
            step == (if picked.len() == 0 && !chosen.contains(0) {
                StepView::Failed(ErrorView::NoAlbumsSelected)
            } else {
                StepView::ListAlbums {
                    artist_id: artist.id->0,
                    next: AlbumsListedView {
                        artist_id: artist.id->0,
                        name: text::or_empty(text::flat(artist.artist_name)),
                        selected: SelectedView {
                            monitor: None,
                            album_ids: picked,
                            all_albums: chosen.contains(0),
                        },
                    },
                }
            })
        }),
{
    picker_laws::law_picked_albums_are_requested(albums, chosen);
}

/// An artist that a lookup reports without a row in the library, by no id or by one
/// that is not positive, is new: it is not marked as in the library, the question
/// about it is the scope, and requesting it lists no albums.
pub proof fn law_lookup_miss_is_new(
    settings: AddSettingsView,
    scopes: Seq<MonitorTypes>,
    selected: SelectedView,
    artist: ArtistView,
)
    requires
        artist.id is None || artist.id->0 <= 0,
    ensures
        media::artist_tags(artist) == media::tag(media::artist_detail(artist)),
        picker::questions(scopes, MediaItemView::Lidarr(LidarrMediaView::Artist(artist)))
            == DetailsStepView::Ask(seq![picker::monitor_question(scopes)]),
        request::artist_request(settings, selected, artist) == (match selected.monitor {
            Some(scope) => StepView::AddArtist {
                artist: request::artist_to_add(artist, settings, scope),
            },
            None => StepView::Failed(ErrorView::NoMonitorSelected),
        }),
{
    assert(media::artist_tags(artist) =~= media::tag(media::artist_detail(artist)));
}

/// What a requester is asked about an artist is what the request needs: whichever
/// scope is picked for a new artist, the artist is added with it.
pub proof fn law_new_artist_is_added_as_picked(
    settings: AddSettingsView,
    scopes: Seq<MonitorTypes>,
    index: usize,
    artist: ArtistView,
)
    requires
        index < scopes.len(),
        models::library_id(artist.id) is None,
    ensures
        request::first_step(
            settings,
            seq![laws::answered(picker::monitor_question(scopes), seq![index])],
            MediaItemView::Lidarr(LidarrMediaView::Artist(artist)),
        ) == (StepView::AddArtist {
            artist: request::artist_to_add(artist, settings, scopes[index as int]),
        }),
{
    laws::law_picked_scope_is_requested(scopes, index);
}

/// An artist added with a scope is monitored with that scope, and later albums are
/// monitored only for the scopes that speak of them.
pub proof fn law_new_artist_keeps_its_scope(
    artist: ArtistView,
    settings: AddSettingsView,
    scope: MonitorTypes,
)
    ensures
        ({
            let added = request::artist_to_add(artist, settings, scope);
            &&& added.add_options matches Some(options) && options.monitor == Some(scope)
            &&& added.monitor_new_items == Some(NewItemMonitorTypes::All) <==> scope
                == MonitorTypes::All || scope == MonitorTypes::Future
            &&& added.root_folder_path == Some(Some(settings.rootfolder_path))
            &&& added.quality_profile_id == Some(settings.quality_profile_id)
            &&& added.metadata_profile_id == Some(settings.metadata_profile_id)
            &&& added.artist_name == artist.artist_name
            &&& added.foreign_artist_id == artist.foreign_artist_id
            &&& added.other_fields == artist.other_fields
        }),
{
}

/// Adding an album monitors and searches for that one album: its artist is added
/// with the album as the only one to monitor, without a search of its own.
pub proof fn law_new_album_comes_alone(settings: AddSettingsView, album: AlbumView)
    ensures
        request::album_request(settings, album) matches StepView::AddAlbum { album: added } ==> {
            &&& models::library_id(album.id) is None
            &&& added.foreign_album_id == album.foreign_album_id
            &&& added.add_options matches Some(options) && options.search_for_new_album == Some(
                true,
            )
            &&& added.artist matches Some(artist) && artist.monitor_new_items == Some(
                NewItemMonitorTypes::Nothing,
            ) && (artist.add_options matches Some(options) && options.albums_to_monitor == Some(
                Some(seq![text::flat(album.foreign_album_id)->0]),
            ) && options.search_for_missing_albums == Some(false))
        },
{
}

/// An album that has a row in the library is never added again: its request monitors
/// that row, if the request is not stopped before for having been made.
pub proof fn law_known_album_is_monitored_in_place(settings: AddSettingsView, album: AlbumView)
    requires
        models::library_id(album.id) is Some,
    ensures
        request::album_request(settings, album) == request::monitoring(seq![album.id->0]),
        display::stops_early(MediaItemView::Lidarr(LidarrMediaView::Album(album)))
            <==> models::is_monitored(album),
{
}

/// An artist is never settled: whatever Lidarr has of it, a request for more goes
/// ahead.
pub proof fn law_artists_never_stop_early(artist: ArtistView)
    ensures
        !display::stops_early(MediaItemView::Lidarr(LidarrMediaView::Artist(artist))),
{
}

/// Nothing is asked about an album, and its request needs no answers.
pub proof fn law_albums_need_no_answers(
    settings: AddSettingsView,
    scopes: Seq<MonitorTypes>,
    album: AlbumView,
)
    ensures
        picker::questions(scopes, MediaItemView::Lidarr(LidarrMediaView::Album(album)))
            == DetailsStepView::Ask(Seq::empty()),
        request::first_step(
            settings,
            Seq::empty(),
            MediaItemView::Lidarr(LidarrMediaView::Album(album)),
        ) == request::album_request(settings, album),
{
}

/// Whether an id is that of a row in the library.
pub open spec fn is_row(id: Option<i32>) -> bool {
    id matches Some(row) && row > 0
}

/// A new artist is added as it was found, except for the settings it is added with and for
/// what the picked scope asks: the artist is monitored, Lidarr searches for the albums at
/// once, and albums that appear later are monitored for the scopes that speak of them
/// alone.
pub proof fn law_new_artist_is_added_and_searched_for(
    settings: AddSettingsView,
    selected: SelectedView,
    artist: ArtistView,
    scope: MonitorTypes,
)
    requires
        !is_row(artist.id),
        selected.monitor == Some(scope),
    ensures
        request::artist_request(settings, selected, artist) == (StepView::AddArtist {
            artist: ArtistView {
                root_folder_path: Some(Some(settings.rootfolder_path)),
                quality_profile_id: Some(settings.quality_profile_id),
                metadata_profile_id: Some(settings.metadata_profile_id),
                monitored: Some(true),
                monitor_new_items: Some(
                    match scope {
                        MonitorTypes::All => NewItemMonitorTypes::All,
                        MonitorTypes::Future => NewItemMonitorTypes::All,
                        _ => NewItemMonitorTypes::Nothing,
                    },
                ),
                add_options: Some(
                    AddArtistOptionsView {
                        monitor: Some(scope),
                        albums_to_monitor: None,
                        monitored: Some(true),
                        search_for_missing_albums: Some(true),
                    },
                ),
                ..artist
            },
        }),
        request::artist_to_add(artist, settings, scope).add_options == Some(
            AddArtistOptionsView {
                monitor: Some(scope),
                albums_to_monitor: None,
                monitored: Some(true),
                search_for_missing_albums: Some(true),
            },
        ),
{
}

/// A new artist cannot be added without a scope. More of an artist with a row needs a pick,
/// and goes on by listing that artist's albums, with what was picked and the name to answer
/// with.
pub proof fn law_artist_requests_need_an_answer(
    settings: AddSettingsView,
    selected: SelectedView,
    artist: ArtistView,
    name: Seq<char>,
)
    requires
        media_laws::reads(artist.artist_name, name),
    ensures
        !is_row(artist.id) && selected.monitor is None ==> request::artist_request(
            settings,
            selected,
            artist,
        ) == StepView::Failed(ErrorView::NoMonitorSelected),
        is_row(artist.id) && selected.album_ids.len() == 0 && !selected.all_albums
            ==> request::artist_request(settings, selected, artist) == StepView::Failed(
            ErrorView::NoAlbumsSelected,
        ),
        is_row(artist.id) && (selected.album_ids.len() > 0 || selected.all_albums)
            ==> request::artist_request(settings, selected, artist) == (StepView::ListAlbums {
            artist_id: artist.id->0,
            next: AlbumsListedView { artist_id: artist.id->0, name, selected },
        }),
{
}

/// A new album with an artist and a MusicBrainz id is added as it was found, monitored and
/// searched for, with its artist under the settings and monitored. The one scope that
/// defers to the list of albums keeps the artist to this album: the rest of the discography
/// is neither monitored nor searched for, nor is what appears later.
pub proof fn law_new_album_is_added_by_itself(
    settings: AddSettingsView,
    album: AlbumView,
    artist: ArtistView,
    id: Seq<char>,
)
    requires
        !is_row(album.id),
        album.artist == Some(artist),
        album.foreign_album_id == Some(Some(id)),
    ensures
        request::album_request(settings, album) == (StepView::AddAlbum {
            album: AlbumView {
                artist: Some(
                    ArtistView {
                        root_folder_path: Some(Some(settings.rootfolder_path)),
                        quality_profile_id: Some(settings.quality_profile_id),
                        metadata_profile_id: Some(settings.metadata_profile_id),
                        monitored: Some(true),
                        monitor_new_items: Some(NewItemMonitorTypes::Nothing),
                        add_options: Some(
                            AddArtistOptionsView {
                                monitor: Some(MonitorTypes::Unknown),
                                albums_to_monitor: Some(Some(seq![id])),
                                monitored: Some(true),
                                search_for_missing_albums: Some(false),
                            },
                        ),
                        ..artist
                    },
                ),
                monitored: Some(true),
                add_options: Some(
                    AddAlbumOptions {
                        add_type: Some(AlbumAddType::Manual),
                        search_for_new_album: Some(true),
                    },
                ),
                ..album
            },
        }),
{
}

/// An album with a row is monitored there, whatever else it comes with. A new one needs an
/// artist before a MusicBrainz id, and both.
pub proof fn law_album_requests_need_a_row_or_an_artist(
    settings: AddSettingsView,
    album: AlbumView,
)
    ensures
        is_row(album.id) ==> request::album_request(settings, album) == (StepView::MonitorAlbums {
            resource: AlbumsMonitoredView {
                album_ids: Some(Some(seq![album.id->0])),
                monitored: Some(true),
            },
            album_ids: seq![album.id->0],
        }),
        !is_row(album.id) && album.artist is None ==> request::album_request(settings, album)
            == StepView::Failed(ErrorView::AlbumWithoutArtist),
        !is_row(album.id) && album.artist is Some && !(album.foreign_album_id matches Some(
            Some(_),
        )) ==> request::album_request(settings, album) == StepView::Failed(
            ErrorView::AlbumWithoutMusicBrainzId,
        ),
{
}

/// A request starts from what was answered and from the kind of media: answers that cannot
/// be read fail it, and so does media of another backend.
pub proof fn law_requests_start_from_the_answers(
    settings: AddSettingsView,
    details: Seq<RequestDetailsView>,
    artist: ArtistView,
    album: AlbumView,
    option: DropdownOptionView,
    item: MediaItemView,
)
    ensures
        match selection::selection(details) {
            Err(error) => request::first_step(settings, details, item) == StepView::Failed(error),
            Ok(selected) => {
                &&& request::first_step(
                    settings,
                    details,
                    MediaItemView::Lidarr(LidarrMediaView::Artist(artist)),
                ) == request::artist_request(settings, selected, artist)
                &&& request::first_step(
                    settings,
                    details,
                    MediaItemView::Lidarr(LidarrMediaView::Album(album)),
                ) == request::album_request(settings, album)
                &&& request::first_step(settings, details, MediaItemView::Other(option))
                    == StepView::Failed(ErrorView::InvalidMediaType)
            },
        },
{
}

/// One more album in the library counts as monitored where Lidarr says so and as not
/// monitored elsewhere, as long as it has an id; the others count as before, in their order.
pub proof fn law_albums_are_counted_one_by_one(library: Seq<AlbumView>, album: AlbumView)
    ensures
        request::monitored_ids(Seq::empty()) == Seq::<i32>::empty(),
        request::unmonitored_ids(Seq::empty()) == Seq::<i32>::empty(),
        request::monitored_ids(library.push(album)) == (match album.id {
            Some(id) => if album.monitored == Some(true) {
                request::monitored_ids(library).push(id)
            } else {
                request::monitored_ids(library)
            },
            None => request::monitored_ids(library),
        }),
        request::unmonitored_ids(library.push(album)) == (match album.id {
            Some(id) => if album.monitored == Some(true) {
                request::unmonitored_ids(library)
            } else {
                request::unmonitored_ids(library).push(id)
            },
            None => request::unmonitored_ids(library),
        }),
{
    reveal(Seq::filter_map);
    assert(library.push(album).drop_last() =~= library);
}

/// One more picked album is added to what is missing unless it is monitored already; the
/// others stay as they were picked.
pub proof fn law_picks_are_missing_one_by_one(requested: Seq<i32>, already: Seq<i32>, id: i32)
    ensures
        request::missing_ids(Seq::empty(), already) == Seq::<i32>::empty(),
        request::missing_ids(requested.push(id), already) == (if already.contains(id) {
            request::missing_ids(requested, already)
        } else {
            request::missing_ids(requested, already).push(id)
        }),
{
    reveal(Seq::filter);
    assert(requested.push(id).drop_last() =~= requested);
}

/// Picked albums that are missing are monitored at once, and nothing else is touched; with
/// none missing the request is turned down by the artist's name.
pub proof fn law_picks_are_monitored_at_once(
    artist_id: i32,
    name: Seq<char>,
    selected: SelectedView,
    library: Seq<AlbumView>,
)
    requires
        !selected.all_albums,
    ensures
        ({
            let missing = request::missing_ids(
                selected.album_ids,
                request::monitored_ids(library),
            );
            let step = request::after_listing(
                AlbumsListedView { artist_id, name, selected },
                Ok(library),
            );
            &&& missing.len() == 0 ==> step == StepView::Failed(
                ErrorView::AlreadyMonitored { name },
            )
            &&& missing.len() > 0 ==> step == (StepView::MonitorAlbums {
                resource: AlbumsMonitoredView {
                    album_ids: Some(Some(missing)),
                    monitored: Some(true),
                },
                album_ids: missing,
            })
        }),
{
}

/// "All Albums" of an artist in the library is carried through: the artist is fetched by its
/// own id, updated where future releases are not monitored yet, with nothing else changed and
/// no files moved, and then all albums that Lidarr did not monitor are monitored, whether or
/// not the artist had to be updated.
pub proof fn law_all_albums_are_carried_through(
    artist_id: i32,
    name: Seq<char>,
    selected: SelectedView,
    library: Seq<AlbumView>,
    artist: ArtistView,
)
    requires
        selected.all_albums,
    ensures
        ({
            let left = request::unmonitored_ids(library);
            let fetched = ArtistFetchedView { artist_id, name, to_monitor: left };
            let monitoring = StepView::MonitorAlbums {
                resource: AlbumsMonitoredView {
                    album_ids: Some(Some(left)),
                    monitored: Some(true),
                },
                album_ids: left,
            };
            let wide = artist.monitor_new_items == Some(NewItemMonitorTypes::All);
            &&& request::after_listing(
                AlbumsListedView { artist_id, name, selected },
                Ok(library),
            ) == (StepView::GetArtist { artist_id, next: fetched })
            &&& !wide ==> request::after_fetching(fetched, Ok(artist)) == (
            StepView::UpdateArtist {
                id: text::decimal(artist_id as int),
                move_files: false,
                artist: ArtistView {
                    monitored: Some(true),
                    monitor_new_items: Some(NewItemMonitorTypes::All),
                    ..artist
                },
                to_monitor: left,
            })
            &&& left.len() > 0 ==> request::after_updating(left, Ok(())) == monitoring
            &&& left.len() == 0 ==> request::after_updating(left, Ok(())) == StepView::Done
            &&& wide && left.len() > 0 ==> request::after_fetching(fetched, Ok(artist))
                == monitoring
            &&& wide && left.len() == 0 ==> request::after_fetching(fetched, Ok(artist))
                == StepView::Failed(ErrorView::AlreadyMonitored { name })
        }),
{
}

/// What a request carries from one step to the next does not depend on the artist that was
/// fetched: whichever artist it is, what is monitored in the end is what was left to monitor.
pub proof fn law_fetching_loses_no_album(
    fetched: ArtistFetchedView,
    artist: ArtistView,
)
    ensures
        request::after_fetching(fetched, Ok(artist)) matches StepView::UpdateArtist {
            id,
            move_files,
            artist: updated,
            to_monitor,
        } ==> to_monitor == fetched.to_monitor && id == text::decimal(fetched.artist_id as int),
        request::after_fetching(fetched, Ok(artist)) matches StepView::MonitorAlbums {
            resource,
            album_ids,
        } ==> album_ids == fetched.to_monitor && resource.album_ids == Some(
            Some(fetched.to_monitor),
        ),
        request::after_fetching(fetched, Ok(artist)) is UpdateArtist || request::after_fetching(
            fetched,
            Ok(artist),
        ) is MonitorAlbums || (fetched.to_monitor.len() == 0 && artist.monitor_new_items == Some(
            NewItemMonitorTypes::All,
        )),
{
}

/// Albums that were monitored are searched for, all of them in one command, and a request
/// whose last call worked is done.
pub proof fn law_monitored_albums_are_searched_for(album_ids: Seq<i32>)
    ensures
        request::after_monitoring(album_ids, Ok(())) == (StepView::SearchAlbums {
            command: AlbumSearchView { name: "AlbumSearch"@, album_ids },
        }),
        request::after_submitting(Ok(())) == StepView::Done,
        request::monitoring(album_ids) == (StepView::MonitorAlbums {
            resource: AlbumsMonitoredView {
                album_ids: Some(Some(album_ids)),
                monitored: Some(true),
            },
            album_ids,
        }),
{
}

} // verus!
