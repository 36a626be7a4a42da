//! Requesting an artist or an album.
//!
//! A request alternates between decisions and calls to Lidarr. Each step names the
//! call to make next, together with what resumes the request once that call came to
//! something.
use crate::commands::{AlbumSearchCommand, AlbumSearchView};
use crate::error;
use crate::error::{
    tolerate_response_parse_error, ApiError, ApiErrorView, ErrorView, LidarrError,
};
use crate::lidarr::{AddSettingsView, Lidarr};
use crate::media::{LidarrMedia, LidarrMediaView, MediaItem, MediaItemView};
use crate::models;
use crate::models::{
    in_library, AddAlbumOptions, AddArtistOptions, AddArtistOptionsView, AlbumAddType,
    AlbumResource, AlbumView, AlbumsMonitoredResource, AlbumsMonitoredView, ArtistResource,
    ArtistView, MonitorTypes, NewItemMonitorTypes,
};
use crate::provider::{RequestDetails, RequestDetailsView};
use crate::selection;
use crate::selection::{albums_to_monitor, SelectedDetails, SelectedView};
use crate::seqs;
use crate::text;
use crate::text::{flat_text, integer_text, text_or_empty};
use vstd::prelude::*;

verus! {

/// A request for more of an artist in the library, once the albums are listed.
#[derive(Debug)]
pub struct AlbumsListed {
    pub artist_id: i32,
    pub name: String,
    pub selected: SelectedDetails,
}

/// A request for all of an artist in the library, once the artist is fetched.
#[derive(Debug)]
pub struct ArtistFetched {
    pub artist_id: i32,
    pub name: String,
    pub to_monitor: Vec<i32>,
}

/// A request for all of an artist in the library, once the artist is updated.
#[derive(Debug)]
pub struct ArtistUpdated {
    pub to_monitor: Vec<i32>,
}

/// A request for albums in the library, once they are monitored.
#[derive(Debug)]
pub struct AlbumsMonitored {
    pub album_ids: Vec<i32>,
}

/// A request whose last call is made.
#[derive(Debug)]
pub struct Submitted {}

/// What a request does next.
#[derive(Debug)]
pub enum RequestStep {
    /// List the albums of an artist
    ListAlbums { artist_id: i32, next: AlbumsListed },
    /// Fetch an artist
    GetArtist { artist_id: i32, next: ArtistFetched },
    /// Replace an artist
    UpdateArtist { id: String, move_files: bool, artist: ArtistResource, next: ArtistUpdated },
    /// Switch the monitoring of albums
    MonitorAlbums { resource: AlbumsMonitoredResource, next: AlbumsMonitored },
    /// Run a search for albums
    SearchAlbums { command: AlbumSearchCommand, next: Submitted },
    /// Add an artist
    AddArtist { artist: ArtistResource, next: Submitted },
    /// Add an album
    AddAlbum { album: AlbumResource, next: Submitted },
    /// The request went through
    Done,
    Failed(LidarrError),
}

/// The contents of a `RequestStep`, with those of what resumes it.
#[verifier::ext_equal]
pub enum StepView {
    ListAlbums { artist_id: i32, next: AlbumsListedView },
    GetArtist { artist_id: i32, next: ArtistFetchedView },
    UpdateArtist { id: Seq<char>, move_files: bool, artist: ArtistView, to_monitor: Seq<i32> },
    MonitorAlbums { resource: AlbumsMonitoredView, album_ids: Seq<i32> },
    SearchAlbums { command: AlbumSearchView },
    AddArtist { artist: ArtistView },
    AddAlbum { album: AlbumView },
    Done,
    Failed(ErrorView),
}

/// The contents of an `AlbumsListed`.
#[verifier::ext_equal]
pub struct AlbumsListedView {
    pub artist_id: i32,
    pub name: Seq<char>,
    pub selected: SelectedView,
}

/// The contents of an `ArtistFetched`.
#[verifier::ext_equal]
pub struct ArtistFetchedView {
    pub artist_id: i32,
    pub name: Seq<char>,
    pub to_monitor: Seq<i32>,
}

impl DeepView for AlbumsListed {
    type V = AlbumsListedView;

    open spec fn deep_view(&self) -> AlbumsListedView {
        AlbumsListedView {
            artist_id: self.artist_id,
            name: self.name@,
            selected: self.selected.deep_view(),
        }
    }
}

impl DeepView for ArtistFetched {
    type V = ArtistFetchedView;

    open spec fn deep_view(&self) -> ArtistFetchedView {
        ArtistFetchedView {
            artist_id: self.artist_id,
            name: self.name@,
            to_monitor: self.to_monitor@,
        }
    }
}

impl DeepView for RequestStep {
    type V = StepView;

    open spec fn deep_view(&self) -> StepView {
        match self {
            RequestStep::ListAlbums { artist_id, next } => StepView::ListAlbums {
                artist_id: *artist_id,
                next: next.deep_view(),
            },
            RequestStep::GetArtist { artist_id, next } => StepView::GetArtist {
                artist_id: *artist_id,
                next: next.deep_view(),
            },
            RequestStep::UpdateArtist { id, move_files, artist, next } => StepView::UpdateArtist {
                id: id@,
                move_files: *move_files,
                artist: artist.deep_view(),
                to_monitor: next.to_monitor@,
            },
            RequestStep::MonitorAlbums { resource, next } => StepView::MonitorAlbums {
                resource: resource.deep_view(),
                album_ids: next.album_ids@,
            },
            RequestStep::SearchAlbums { command, next } => StepView::SearchAlbums {
                command: command.deep_view(),
            },
            RequestStep::AddArtist { artist, next } => StepView::AddArtist {
                artist: artist.deep_view(),
            },
            RequestStep::AddAlbum { album, next } => StepView::AddAlbum {
                album: album.deep_view(),
            },
            RequestStep::Done => StepView::Done,
            RequestStep::Failed(error) => StepView::Failed(error.deep_view()),
        }
    }
}

/// Monitoring albums that are in the library.
pub open spec fn monitoring(album_ids: Seq<i32>) -> StepView {
    StepView::MonitorAlbums {
        resource: AlbumsMonitoredView { album_ids: Some(Some(album_ids)), monitored: Some(true) },
        album_ids,
    }
}

/// Searching for albums once they are monitored.
pub open spec fn after_monitoring(
    album_ids: Seq<i32>,
    reply: Result<(), ApiErrorView>,
) -> StepView {
    match reply {
        Ok(_) => StepView::SearchAlbums {
            command: AlbumSearchView { name: "AlbumSearch"@, album_ids },
        },
        Err(error) => StepView::Failed(ErrorView::Api(error)),
    }
}

/// The end of a request, once its last call came to something.
pub open spec fn after_submitting(reply: Result<(), ApiErrorView>) -> StepView {
    match error::tolerated(reply) {
        Ok(_) => StepView::Done,
        Err(error) => StepView::Failed(ErrorView::Api(error)),
    }
}

/// Monitoring the albums a request adds, of which there may be none left.
pub open spec fn monitoring_any(to_monitor: Seq<i32>) -> StepView {
    if to_monitor.len() == 0 {
        StepView::Done
    } else {
        monitoring(to_monitor)
    }
}

/// The id of an album that Lidarr does not monitor.
pub open spec fn unmonitored_id(album: AlbumView) -> Option<i32> {
    if models::is_monitored(album) {
        None
    } else {
        album.id
    }
}

/// The id of an album that Lidarr monitors.
pub open spec fn monitored_id(album: AlbumView) -> Option<i32> {
    if models::is_monitored(album) {
        album.id
    } else {
        None
    }
}

/// The ids of the albums that Lidarr does not monitor.
pub open spec fn unmonitored_ids(albums: Seq<AlbumView>) -> Seq<i32> {
    albums.filter_map(|album: AlbumView| unmonitored_id(album))
}

/// The ids of the albums that Lidarr monitors.
pub open spec fn monitored_ids(albums: Seq<AlbumView>) -> Seq<i32> {
    albums.filter_map(|album: AlbumView| monitored_id(album))
}

/// The requested albums that are not among the monitored ones.
pub open spec fn missing_ids(requested: Seq<i32>, already_monitored: Seq<i32>) -> Seq<i32> {
    requested.filter(|id: i32| !already_monitored.contains(id))
}

/// The albums that a selection adds to those Lidarr monitors already.
pub open spec fn ids_to_monitor(selected: SelectedView, library: Seq<AlbumView>) -> Seq<i32> {
    if selected.all_albums {
        unmonitored_ids(library)
    } else {
        missing_ids(selected.album_ids, monitored_ids(library))
    }
}

/// How a request for more of an artist goes on once the albums are listed.
pub open spec fn after_listing(
    request: AlbumsListedView,
    reply: Result<Seq<AlbumView>, ApiErrorView>,
) -> StepView {
    match reply {
        Err(error) => StepView::Failed(ErrorView::Api(error)),
        Ok(library) => {
            let to_monitor = ids_to_monitor(request.selected, library);
            if request.selected.all_albums {
                StepView::GetArtist {
                    artist_id: request.artist_id,
                    next: ArtistFetchedView {
                        artist_id: request.artist_id,
                        name: request.name,
                        to_monitor,
                    },
                }
            } else if to_monitor.len() == 0 {
                StepView::Failed(ErrorView::AlreadyMonitored { name: request.name })
            } else {
                monitoring(to_monitor)
            }
        },
    }
}

/// The artist with future releases monitored, unless they already are.
pub open spec fn widened(artist: ArtistView) -> Option<ArtistView> {
    if artist.monitor_new_items == Some(NewItemMonitorTypes::All) {
        None
    } else {
        Some(
            ArtistView {
                monitor_new_items: Some(NewItemMonitorTypes::All),
                monitored: Some(true),
                ..artist
            },
        )
    }
}

/// How a request for all of an artist goes on once the artist is fetched.
pub open spec fn after_fetching(
    request: ArtistFetchedView,
    reply: Result<ArtistView, ApiErrorView>,
) -> StepView {
    match reply {
        Err(error) => StepView::Failed(ErrorView::Api(error)),
        Ok(artist) => match widened(artist) {
            Some(artist) => StepView::UpdateArtist {
                id: text::decimal(request.artist_id as int),
                move_files: false,
                artist,
                to_monitor: request.to_monitor,
            },
            None => if request.to_monitor.len() == 0 {
                StepView::Failed(ErrorView::AlreadyMonitored { name: request.name })
            } else {
                monitoring(request.to_monitor)
            },
        },
    }
}

/// How a request for all of an artist goes on once the artist is updated.
pub open spec fn after_updating(
    to_monitor: Seq<i32>,
    reply: Result<(), ApiErrorView>,
) -> StepView {
    match error::tolerated(reply) {
        Err(error) => StepView::Failed(ErrorView::Api(error)),
        Ok(_) => monitoring_any(to_monitor),
    }
}

/// Whether albums that appear later are monitored for an artist added with a scope.
pub open spec fn new_items_for(scope: MonitorTypes) -> NewItemMonitorTypes {
    if scope == MonitorTypes::All || scope == MonitorTypes::Future {
        NewItemMonitorTypes::All
    } else {
        NewItemMonitorTypes::Nothing
    }
}

/// An artist with the settings to add media with.
pub open spec fn with_settings(artist: ArtistView, settings: AddSettingsView) -> ArtistView {
    ArtistView {
        root_folder_path: Some(Some(settings.rootfolder_path)),
        quality_profile_id: Some(settings.quality_profile_id),
        metadata_profile_id: Some(settings.metadata_profile_id),
        monitored: Some(true),
        ..artist
    }
}

/// A new artist as it is added with a scope.
pub open spec fn artist_to_add(
    artist: ArtistView,
    settings: AddSettingsView,
    scope: MonitorTypes,
) -> ArtistView {
    ArtistView {
        monitor_new_items: Some(new_items_for(scope)),
        add_options: Some(
            AddArtistOptionsView {
                monitor: Some(scope),
                albums_to_monitor: None,
                monitored: Some(true),
                search_for_missing_albums: Some(true),
            },
        ),
        ..with_settings(artist, settings)
    }
}

/// The first step of a request for an artist.
pub open spec fn artist_request(
    settings: AddSettingsView,
    selected: SelectedView,
    artist: ArtistView,
) -> StepView {
    match models::library_id(artist.id) {
        Some(artist_id) => if selected.album_ids.len() == 0 && !selected.all_albums {
            StepView::Failed(ErrorView::NoAlbumsSelected)
        } else {
            StepView::ListAlbums {
                artist_id,
                next: AlbumsListedView {
                    artist_id,
                    name: text::or_empty(text::flat(artist.artist_name)),
                    selected,
                },
            }
        },
        None => match selected.monitor {
            Some(scope) => StepView::AddArtist { artist: artist_to_add(artist, settings, scope) },
            None => StepView::Failed(ErrorView::NoMonitorSelected),
        },
    }
}

/// The artist of a new album as it is added: Lidarr monitors that one album and no
/// other.
pub open spec fn artist_of_new_album(
    artist: ArtistView,
    settings: AddSettingsView,
    foreign_album_id: Seq<char>,
) -> ArtistView {
    ArtistView {
        monitor_new_items: Some(NewItemMonitorTypes::Nothing),
        add_options: Some(
            AddArtistOptionsView {
                monitor: Some(MonitorTypes::Unknown),
                albums_to_monitor: Some(Some(seq![foreign_album_id])),
                monitored: Some(true),
                search_for_missing_albums: Some(false),
            },
        ),
        ..with_settings(artist, settings)
    }
}

/// A new album as it is added.
pub open spec fn album_to_add(
    album: AlbumView,
    artist: ArtistView,
    settings: AddSettingsView,
    foreign_album_id: Seq<char>,
) -> AlbumView {
    AlbumView {
        artist: Some(artist_of_new_album(artist, settings, foreign_album_id)),
        monitored: Some(true),
        add_options: Some(
            AddAlbumOptions {
                add_type: Some(AlbumAddType::Manual),
                search_for_new_album: Some(true),
            },
        ),
        ..album
    }
}

/// The first step of a request for an album.
pub open spec fn album_request(settings: AddSettingsView, album: AlbumView) -> StepView {
    match models::library_id(album.id) {
        Some(album_id) => monitoring(seq![album_id]),
        None => match album.artist {
            None => StepView::Failed(ErrorView::AlbumWithoutArtist),
            Some(artist) => match text::flat(album.foreign_album_id) {
                None => StepView::Failed(ErrorView::AlbumWithoutMusicBrainzId),
                Some(id) => StepView::AddAlbum { album: album_to_add(album, artist, settings, id) },
            },
        },
    }
}

/// The first step of a request.
pub open spec fn first_step(
    settings: AddSettingsView,
    details: Seq<RequestDetailsView>,
    item: MediaItemView,
) -> StepView {
    match selection::selection(details) {
        Err(error) => StepView::Failed(error),
        Ok(selected) => match item {
            MediaItemView::Lidarr(LidarrMediaView::Artist(artist)) => artist_request(
                settings,
                selected,
                artist,
            ),
            MediaItemView::Lidarr(LidarrMediaView::Album(album)) => album_request(settings, album),
            MediaItemView::Other(_) => StepView::Failed(ErrorView::InvalidMediaType),
        },
    }
}

/// Splits the ids of the albums that have one by whether Lidarr monitors them: those
/// it does, then those it does not.
fn split_by_monitoring(albums: &Vec<AlbumResource>) -> (split: (Vec<i32>, Vec<i32>))
    ensures
        split.0@ == monitored_ids(albums.deep_view()),
        split.1@ == unmonitored_ids(albums.deep_view()),
{
    let ghost all = albums.deep_view();
    let ghost on = |album: AlbumView| monitored_id(album);
    let ghost off = |album: AlbumView| unmonitored_id(album);
    let mut monitored: Vec<i32> = Vec::new();
    let mut unmonitored: Vec<i32> = Vec::new();
    let mut i: usize = 0;
    proof {
        seqs::lemma_sift_none(all, on);
        seqs::lemma_sift_none(all, off);
    }
    while i < albums.len()
        invariant
            i <= albums@.len(),
            all == albums.deep_view(),
            on == (|album: AlbumView| monitored_id(album)),
            off == (|album: AlbumView| unmonitored_id(album)),
            monitored@ == all.take(i as int).filter_map(on),
            unmonitored@ == all.take(i as int).filter_map(off),
        decreases albums@.len() - i,
    {
        proof {
            seqs::lemma_filter_map_step(all, on, i as int);
            seqs::lemma_filter_map_step(all, off, i as int);
            assert(all[i as int] == albums[i as int].deep_view());
        }
        if let Some(id) = albums[i].id {
            if albums[i].is_monitored() {
                monitored.push(id);
            } else {
                unmonitored.push(id);
            }
        }
        i = i + 1;
    }
    assert(all.take(i as int) =~= all);
    (monitored, unmonitored)
}

impl AlbumsListed {
    /// Goes on once the albums are listed.
    pub fn resume(self, reply: Result<Vec<AlbumResource>, ApiError>) -> (step: RequestStep)
        ensures
            step.deep_view() == after_listing(self.deep_view(), error::outcome(reply)),
    {
        let library = match reply {
            Ok(library) => library,
            Err(error) => {
                return RequestStep::Failed(LidarrError::Api(error));
            },
        };
        let (monitored, unmonitored) = split_by_monitoring(&library);
        if self.selected.all_albums {
            // "All Albums" also keeps future releases monitored, so it stays a
            // meaningful change even when everything released so far is already on
            RequestStep::GetArtist {
                artist_id: self.artist_id,
                next: ArtistFetched {
                    artist_id: self.artist_id,
                    name: self.name,
                    to_monitor: unmonitored,
                },
            }
        } else {
            // Additive only: never unmonitor something the library already tracks
            let to_monitor = albums_to_monitor(
                self.selected.album_ids.as_slice(),
                monitored.as_slice(),
            );
            if to_monitor.len() == 0 {
                RequestStep::Failed(LidarrError::AlreadyMonitored { name: self.name })
            } else {
                Lidarr::monitor_albums(to_monitor)
            }
        }
    }
}

impl ArtistFetched {
    /// Goes on once the artist is fetched.
    pub fn resume(self, reply: Result<ArtistResource, ApiError>) -> (step: RequestStep)
        ensures
            step.deep_view() == after_fetching(self.deep_view(), error::outcome(reply)),
    {
        let artist = match reply {
            Ok(artist) => artist,
            Err(error) => {
                return RequestStep::Failed(LidarrError::Api(error));
            },
        };
        match Lidarr::monitor_new_items(artist) {
            Some(artist) => RequestStep::UpdateArtist {
                id: integer_text(self.artist_id),
                move_files: false,
                artist,
                next: ArtistUpdated { to_monitor: self.to_monitor },
            },
            None => if self.to_monitor.len() == 0 {
                RequestStep::Failed(LidarrError::AlreadyMonitored { name: self.name })
            } else {
                Lidarr::monitor_albums(self.to_monitor)
            },
        }
    }
}

impl ArtistUpdated {
    /// Goes on once the artist is updated.
    pub fn resume(self, reply: Result<(), ApiError>) -> (step: RequestStep)
        ensures
            step.deep_view() == after_updating(self.to_monitor@, error::outcome(reply)),
    {
        match tolerate_response_parse_error(reply) {
            Ok(_) => if self.to_monitor.len() == 0 {
                RequestStep::Done
            } else {
                Lidarr::monitor_albums(self.to_monitor)
            },
            Err(error) => RequestStep::Failed(LidarrError::Api(error)),
        }
    }
}

impl AlbumsMonitored {
    /// Goes on once the albums are monitored.
    pub fn resume(self, reply: Result<(), ApiError>) -> (step: RequestStep)
        ensures
            step.deep_view() == after_monitoring(self.album_ids@, error::outcome(reply)),
    {
        match reply {
            // One search command covers every newly monitored album
            Ok(_) => RequestStep::SearchAlbums {
                command: AlbumSearchCommand::new(self.album_ids),
                next: Submitted {  },
            },
            Err(error) => RequestStep::Failed(LidarrError::Api(error)),
        }
    }
}

impl Submitted {
    /// Ends the request once its last call is made.
    pub fn resume(self, reply: Result<(), ApiError>) -> (step: RequestStep)
        ensures
            step.deep_view() == after_submitting(error::outcome(reply)),
    {
        match tolerate_response_parse_error(reply) {
            Ok(_) => RequestStep::Done,
            Err(error) => RequestStep::Failed(LidarrError::Api(error)),
        }
    }
}

impl Lidarr {
    /// The artist to send back so that Lidarr keeps grabbing future releases, which
    /// per-album monitoring flags can't express. None when it already does.
    pub fn monitor_new_items(artist: ArtistResource) -> (update: Option<ArtistResource>)
        ensures
            update.deep_view() == widened(artist.deep_view()),
    {
        if let Some(NewItemMonitorTypes::All) = artist.monitor_new_items {
            return None;
        }
        let mut artist = artist;
        artist.monitor_new_items = Some(NewItemMonitorTypes::All);
        artist.monitored = Some(true);
        Some(artist)
    }

    /// Monitors albums already in the library and searches for them.
    pub fn monitor_albums(album_ids: Vec<i32>) -> (step: RequestStep)
        ensures
            step.deep_view() == monitoring(album_ids@),
    {
        let copy = album_ids.clone();
        assert(copy@ =~= album_ids@);
        assert(copy.deep_view() =~= album_ids@);
        RequestStep::MonitorAlbums {
            resource: AlbumsMonitoredResource {
                album_ids: Some(Some(copy)),
                monitored: Some(true),
            },
            next: AlbumsMonitored { album_ids },
        }
    }

    /// Adds a new artist, or monitors more of one that's already in the library.
    pub fn request_artist(&self, selected: SelectedDetails, artist: ArtistResource) -> (step:
        RequestStep)
        ensures
            step.deep_view() == artist_request(
                self.deep_view().add_settings,
                selected.deep_view(),
                artist.deep_view(),
            ),
    {
        if let Some(artist_id) = in_library(artist.id) {
            if selected.album_ids.len() == 0 && !selected.all_albums {
                return RequestStep::Failed(LidarrError::NoAlbumsSelected);
            }
            return RequestStep::ListAlbums {
                artist_id,
                next: AlbumsListed {
                    artist_id,
                    name: text_or_empty(flat_text(&artist.artist_name)),
                    selected,
                },
            };
        }
        let scope = match selected.monitor {
            Some(scope) => scope,
            None => {
                return RequestStep::Failed(LidarrError::NoMonitorSelected);
            },
        };
        let mut artist = artist;
        artist.root_folder_path = Some(Some(self.add_settings.rootfolder_path.clone()));
        artist.quality_profile_id = Some(self.add_settings.quality_profile_id);
        artist.metadata_profile_id = Some(self.add_settings.metadata_profile_id);
        artist.monitored = Some(true);
        // Left unset this defaults to all, which would turn a narrow pick like
        // "Latest Album" into the whole discography as new albums appear
        artist.monitor_new_items =
        Some(
            match scope {
                MonitorTypes::All => NewItemMonitorTypes::All,
                MonitorTypes::Future => NewItemMonitorTypes::All,
                _ => NewItemMonitorTypes::Nothing,
            },
        );
        artist.add_options =
        Some(
            Box::new(
                AddArtistOptions {
                    monitor: Some(scope),
                    albums_to_monitor: None,
                    monitored: Some(true),
                    search_for_missing_albums: Some(true),
                },
            ),
        );
        RequestStep::AddArtist { artist, next: Submitted {  } }
    }

    /// Adds a single album, letting Lidarr create the artist if it needs to.
    pub fn request_album(&self, album: AlbumResource) -> (step: RequestStep)
        ensures
            step.deep_view() == album_request(self.deep_view().add_settings, album.deep_view()),
    {
        // Lidarr already has a row for every album of an artist in the library, and
        // rejects adding one twice, so monitor it where it stands
        if let Some(album_id) = in_library(album.id) {
            let ids = vec![album_id];
            assert(ids@ =~= seq![album_id]);
            return Lidarr::monitor_albums(ids);
        }
        let ghost given = album.deep_view();
        let foreign_album_id = flat_text(&album.foreign_album_id);
        let mut album = album;
        let mut artist = match album.artist {
            Some(artist) => artist,
            None => {
                return RequestStep::Failed(LidarrError::AlbumWithoutArtist);
            },
        };
        let foreign_album_id = match foreign_album_id {
            Some(id) => id,
            None => {
                return RequestStep::Failed(LidarrError::AlbumWithoutMusicBrainzId);
            },
        };
        artist.root_folder_path = Some(Some(self.add_settings.rootfolder_path.clone()));
        artist.quality_profile_id = Some(self.add_settings.quality_profile_id);
        artist.metadata_profile_id = Some(self.add_settings.metadata_profile_id);
        artist.monitored = Some(true);
        // Setting the album's own monitoring isn't enough: the refresh that follows
        // the add re-adds the discography and decides each album itself, so the list
        // of albums to monitor is what pins it to this one record. An unknown scope is
        // the only one that defers to that list; none would also unmonitor the artist.
        artist.monitor_new_items = Some(NewItemMonitorTypes::Nothing);
        let pinned = vec![foreign_album_id];
        assert(pinned.deep_view() =~= seq![foreign_album_id@]);
        artist.add_options =
        Some(
            Box::new(
                AddArtistOptions {
                    monitor: Some(MonitorTypes::Unknown),
                    albums_to_monitor: Some(Some(pinned)),
                    monitored: Some(true),
                    // Lidarr drops the album-specific search when the artist is
                    // searching too, which would grab the whole discography instead
                    search_for_missing_albums: Some(false),
                },
            ),
        );
        album.artist = Some(artist);
        album.monitored = Some(true);
        album.add_options =
        Some(
            Box::new(
                AddAlbumOptions {
                    add_type: Some(AlbumAddType::Manual),
                    search_for_new_album: Some(true),
                },
            ),
        );
        RequestStep::AddAlbum { album, next: Submitted {  } }
    }

    /// Requests media with the answers to the questions about it.
    pub fn request(&self, details: Vec<RequestDetails>, media: MediaItem) -> (step: RequestStep)
        ensures
            step.deep_view() == first_step(
                self.deep_view().add_settings,
                details.deep_view(),
                media.deep_view(),
            ),
    {
        let selected = match SelectedDetails::try_from(details) {
            Ok(selected) => selected,
            Err(error) => {
                return RequestStep::Failed(error);
            },
        };
        match media {
            MediaItem::Lidarr(LidarrMedia::Artist(artist)) => self.request_artist(selected, artist),
            MediaItem::Lidarr(LidarrMedia::Album(album)) => self.request_album(album),
            MediaItem::Other(_) => RequestStep::Failed(LidarrError::InvalidMediaType),
        }
    }
}

} // verus!
