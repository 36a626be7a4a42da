//! The Lidarr resources that the backend reads and fills in.
//!
//! A field that Lidarr may either omit or send as null is doubly optional. What a
//! resource holds beyond the fields read here is carried along as text, so that it
//! goes back to Lidarr as it came.
use crate::date::{ReleaseDate, ReleaseDateView};
use crate::text::same_text;
use vstd::prelude::*;

verus! {

/// How much of a new artist's discography Lidarr monitors.
#[derive(Clone, Copy, Debug, PartialEq, Eq, Structural)]
pub enum MonitorTypes {
    All,
    Future,
    Missing,
    Existing,
    Latest,
    First,
    Nothing,
    Unknown,
}

/// Whether Lidarr monitors the albums that appear after an artist was added.
#[derive(Clone, Copy, Debug, PartialEq, Eq, Structural)]
pub enum NewItemMonitorTypes {
    All,
    Nothing,
    New,
}

/// What an image shows.
#[derive(Clone, Copy, Debug, PartialEq, Eq, Structural)]
pub enum MediaCoverTypes {
    Unknown,
    Poster,
    Banner,
    Fanart,
    Screenshot,
    Headshot,
    Cover,
    Disc,
    Logo,
    Clearlogo,
}

/// What made Lidarr add an album.
#[derive(Clone, Copy, Debug, PartialEq, Eq, Structural)]
pub enum AlbumAddType {
    Automatic,
    Manual,
}

/// An image of an artist or album.
#[derive(Clone, Debug)]
pub struct MediaCover {
    pub cover_type: Option<MediaCoverTypes>,
    pub remote_url: Option<Option<String>>,
    /// The remaining fields, as JSON text
    pub other_fields: String,
}

/// How an artist is to be added.
#[derive(Clone, Debug)]
pub struct AddArtistOptions {
    pub monitor: Option<MonitorTypes>,
    pub albums_to_monitor: Option<Option<Vec<String>>>,
    pub monitored: Option<bool>,
    pub search_for_missing_albums: Option<bool>,
}

/// How an album is to be added.
#[derive(Clone, Copy, Debug)]
pub struct AddAlbumOptions {
    pub add_type: Option<AlbumAddType>,
    pub search_for_new_album: Option<bool>,
}

/// An artist.
#[derive(Clone, Debug)]
pub struct ArtistResource {
    pub id: Option<i32>,
    pub artist_name: Option<Option<String>>,
    pub foreign_artist_id: Option<Option<String>>,
    pub overview: Option<Option<String>>,
    pub artist_type: Option<Option<String>>,
    pub disambiguation: Option<Option<String>>,
    pub images: Option<Option<Vec<MediaCover>>>,
    pub remote_poster: Option<Option<String>>,
    pub quality_profile_id: Option<i32>,
    pub metadata_profile_id: Option<i32>,
    pub monitored: Option<bool>,
    pub monitor_new_items: Option<NewItemMonitorTypes>,
    pub root_folder_path: Option<Option<String>>,
    pub genres: Option<Option<Vec<String>>>,
    pub add_options: Option<Box<AddArtistOptions>>,
    /// The remaining fields, as JSON text
    pub other_fields: String,
}

/// An album.
#[derive(Clone, Debug)]
pub struct AlbumResource {
    pub id: Option<i32>,
    pub title: Option<Option<String>>,
    pub overview: Option<Option<String>>,
    pub foreign_album_id: Option<Option<String>>,
    pub monitored: Option<bool>,
    pub duration: Option<i32>,
    pub album_type: Option<Option<String>>,
    pub genres: Option<Option<Vec<String>>>,
    pub artist: Option<Box<ArtistResource>>,
    pub release_date: Option<Option<ReleaseDate>>,
    pub images: Option<Option<Vec<MediaCover>>>,
    pub remote_cover: Option<Option<String>>,
    pub add_options: Option<Box<AddAlbumOptions>>,
    /// The remaining fields, as JSON text
    pub other_fields: String,
}

/// A request to switch the monitoring of albums.
#[derive(Clone, Debug)]
pub struct AlbumsMonitoredResource {
    pub album_ids: Option<Option<Vec<i32>>>,
    pub monitored: Option<bool>,
}

/// A folder that Lidarr keeps music in.
#[derive(Debug)]
pub struct RootFolderResource {
    pub path: Option<Option<String>>,
    pub default_metadata_profile_id: Option<i32>,
    pub default_quality_profile_id: Option<i32>,
}

/// A quality or metadata profile.
#[derive(Clone, Debug)]
pub struct ProfileResource {
    pub id: Option<i32>,
    pub name: Option<Option<String>>,
}

/// The contents of a `MediaCover`.
#[verifier::ext_equal]
pub struct MediaCoverView {
    pub cover_type: Option<MediaCoverTypes>,
    pub remote_url: Option<Option<Seq<char>>>,
    pub other_fields: Seq<char>,
}

/// The contents of an `AddArtistOptions`.
#[verifier::ext_equal]
pub struct AddArtistOptionsView {
    pub monitor: Option<MonitorTypes>,
    pub albums_to_monitor: Option<Option<Seq<Seq<char>>>>,
    pub monitored: Option<bool>,
    pub search_for_missing_albums: Option<bool>,
}

/// The contents of an `ArtistResource`.
#[verifier::ext_equal]
pub struct ArtistView {
    pub id: Option<i32>,
    pub artist_name: Option<Option<Seq<char>>>,
    pub foreign_artist_id: Option<Option<Seq<char>>>,
    pub overview: Option<Option<Seq<char>>>,
    pub artist_type: Option<Option<Seq<char>>>,
    pub disambiguation: Option<Option<Seq<char>>>,
    pub images: Option<Option<Seq<MediaCoverView>>>,
    pub remote_poster: Option<Option<Seq<char>>>,
    pub quality_profile_id: Option<i32>,
    pub metadata_profile_id: Option<i32>,
    pub monitored: Option<bool>,
    pub monitor_new_items: Option<NewItemMonitorTypes>,
    pub root_folder_path: Option<Option<Seq<char>>>,
    pub genres: Option<Option<Seq<Seq<char>>>>,
    pub add_options: Option<AddArtistOptionsView>,
    pub other_fields: Seq<char>,
}

/// The contents of an `AlbumResource`.
#[verifier::ext_equal]
pub struct AlbumView {
    pub id: Option<i32>,
    pub title: Option<Option<Seq<char>>>,
    pub overview: Option<Option<Seq<char>>>,
    pub foreign_album_id: Option<Option<Seq<char>>>,
    pub monitored: Option<bool>,
    pub duration: Option<i32>,
    pub album_type: Option<Option<Seq<char>>>,
    pub genres: Option<Option<Seq<Seq<char>>>>,
    pub artist: Option<ArtistView>,
    pub release_date: Option<Option<ReleaseDateView>>,
    pub images: Option<Option<Seq<MediaCoverView>>>,
    pub remote_cover: Option<Option<Seq<char>>>,
    pub add_options: Option<AddAlbumOptions>,
    pub other_fields: Seq<char>,
}

/// The contents of an `AlbumsMonitoredResource`.
#[verifier::ext_equal]
pub struct AlbumsMonitoredView {
    pub album_ids: Option<Option<Seq<i32>>>,
    pub monitored: Option<bool>,
}

/// The contents of a `RootFolderResource`.
#[verifier::ext_equal]
pub struct RootFolderView {
    pub path: Option<Option<Seq<char>>>,
    pub default_metadata_profile_id: Option<i32>,
    pub default_quality_profile_id: Option<i32>,
}

/// The contents of a `ProfileResource`.
#[verifier::ext_equal]
pub struct ProfileView {
    pub id: Option<i32>,
    pub name: Option<Option<Seq<char>>>,
}

impl DeepView for MediaCover {
    type V = MediaCoverView;

    open spec fn deep_view(&self) -> MediaCoverView {
        MediaCoverView {
            cover_type: self.cover_type,
            remote_url: self.remote_url.deep_view(),
            other_fields: self.other_fields@,
        }
    }
}

impl DeepView for AddArtistOptions {
    type V = AddArtistOptionsView;

    open spec fn deep_view(&self) -> AddArtistOptionsView {
        AddArtistOptionsView {
            monitor: self.monitor,
            albums_to_monitor: self.albums_to_monitor.deep_view(),
            monitored: self.monitored,
            search_for_missing_albums: self.search_for_missing_albums,
        }
    }
}

impl DeepView for AddAlbumOptions {
    type V = AddAlbumOptions;

    open spec fn deep_view(&self) -> AddAlbumOptions {
        *self
    }
}

impl DeepView for ArtistResource {
    type V = ArtistView;

    open spec fn deep_view(&self) -> ArtistView {
        ArtistView {
            id: self.id,
            artist_name: self.artist_name.deep_view(),
            foreign_artist_id: self.foreign_artist_id.deep_view(),
            overview: self.overview.deep_view(),
            artist_type: self.artist_type.deep_view(),
            disambiguation: self.disambiguation.deep_view(),
            images: self.images.deep_view(),
            remote_poster: self.remote_poster.deep_view(),
            quality_profile_id: self.quality_profile_id,
            metadata_profile_id: self.metadata_profile_id,
            monitored: self.monitored,
            monitor_new_items: self.monitor_new_items,
            root_folder_path: self.root_folder_path.deep_view(),
            genres: self.genres.deep_view(),
            add_options: self.add_options.deep_view(),
            other_fields: self.other_fields@,
        }
    }
}

impl DeepView for AlbumResource {
    type V = AlbumView;

    open spec fn deep_view(&self) -> AlbumView {
        AlbumView {
            id: self.id,
            title: self.title.deep_view(),
            overview: self.overview.deep_view(),
            foreign_album_id: self.foreign_album_id.deep_view(),
            monitored: self.monitored,
            duration: self.duration,
            album_type: self.album_type.deep_view(),
            genres: self.genres.deep_view(),
            artist: self.artist.deep_view(),
            release_date: self.release_date.deep_view(),
            images: self.images.deep_view(),
            remote_cover: self.remote_cover.deep_view(),
            add_options: self.add_options.deep_view(),
            other_fields: self.other_fields@,
        }
    }
}

impl DeepView for AlbumsMonitoredResource {
    type V = AlbumsMonitoredView;

    open spec fn deep_view(&self) -> AlbumsMonitoredView {
        AlbumsMonitoredView {
            album_ids: self.album_ids.deep_view(),
            monitored: self.monitored,
        }
    }
}

impl DeepView for RootFolderResource {
    type V = RootFolderView;

    open spec fn deep_view(&self) -> RootFolderView {
        RootFolderView {
            path: self.path.deep_view(),
            default_metadata_profile_id: self.default_metadata_profile_id,
            default_quality_profile_id: self.default_quality_profile_id,
        }
    }
}

impl DeepView for ProfileResource {
    type V = ProfileView;

    open spec fn deep_view(&self) -> ProfileView {
        ProfileView { id: self.id, name: self.name.deep_view() }
    }
}

impl MediaCoverView {
    /// An image of which nothing is known.
    pub open spec fn blank() -> MediaCoverView {
        MediaCoverView { cover_type: None, remote_url: None, other_fields: Seq::empty() }
    }
}

impl ArtistView {
    /// An artist of which nothing is known.
    pub open spec fn blank() -> ArtistView {
        ArtistView {
            id: None,
            artist_name: None,
            foreign_artist_id: None,
            overview: None,
            artist_type: None,
            disambiguation: None,
            images: None,
            remote_poster: None,
            quality_profile_id: None,
            metadata_profile_id: None,
            monitored: None,
            monitor_new_items: None,
            root_folder_path: None,
            genres: None,
            add_options: None,
            other_fields: Seq::empty(),
        }
    }
}

impl AlbumView {
    /// An album of which nothing is known.
    pub open spec fn blank() -> AlbumView {
        AlbumView {
            id: None,
            title: None,
            overview: None,
            foreign_album_id: None,
            monitored: None,
            duration: None,
            album_type: None,
            genres: None,
            artist: None,
            release_date: None,
            images: None,
            remote_cover: None,
            add_options: None,
            other_fields: Seq::empty(),
        }
    }
}

/// The id of a row in the Lidarr library. A lookup that found no row reports zero
/// or leaves the id out.
pub open spec fn library_id(id: Option<i32>) -> Option<i32> {
    match id {
        Some(id) => if id > 0 {
            Some(id)
        } else {
            None
        },
        None => None,
    }
}

/// Whether Lidarr monitors an album. One that does not say is not monitored.
pub open spec fn is_monitored(album: AlbumView) -> bool {
    album.monitored == Some(true)
}

impl MediaCover {
    /// An image of which nothing is known.
    pub fn new() -> (cover: MediaCover)
        ensures
            cover.deep_view() == MediaCoverView::blank(),
    {
        MediaCover { cover_type: None, remote_url: None, other_fields: String::new() }
    }
}

impl ArtistResource {
    /// An artist of which nothing is known.
    pub fn new() -> (artist: ArtistResource)
        ensures
            artist.deep_view() == ArtistView::blank(),
    {
        ArtistResource {
            id: None,
            artist_name: None,
            foreign_artist_id: None,
            overview: None,
            artist_type: None,
            disambiguation: None,
            images: None,
            remote_poster: None,
            quality_profile_id: None,
            metadata_profile_id: None,
            monitored: None,
            monitor_new_items: None,
            root_folder_path: None,
            genres: None,
            add_options: None,
            other_fields: String::new(),
        }
    }
}

impl AlbumResource {
    /// An album of which nothing is known.
    pub fn new() -> (album: AlbumResource)
        ensures
            album.deep_view() == AlbumView::blank(),
    {
        AlbumResource {
            id: None,
            title: None,
            overview: None,
            foreign_album_id: None,
            monitored: None,
            duration: None,
            album_type: None,
            genres: None,
            artist: None,
            release_date: None,
            images: None,
            remote_cover: None,
            add_options: None,
            other_fields: String::new(),
        }
    }
}

impl RootFolderResource {
    /// A root folder of which nothing is known.
    pub fn new() -> (folder: RootFolderResource)
        ensures
            folder.deep_view() == (RootFolderView {
                path: None,
                default_metadata_profile_id: None,
                default_quality_profile_id: None,
            }),
    {
        RootFolderResource {
            path: None,
            default_metadata_profile_id: None,
            default_quality_profile_id: None,
        }
    }
}

impl Clone for RootFolderResource {
    fn clone(&self) -> (copy: RootFolderResource)
        ensures
            copy.deep_view() == self.deep_view(),
    {
        let path = match &self.path {
            Some(Some(path)) => Some(Some(path.clone())),
            Some(None) => Some(None),
            None => None,
        };
        RootFolderResource {
            path,
            default_metadata_profile_id: self.default_metadata_profile_id,
            default_quality_profile_id: self.default_quality_profile_id,
        }
    }
}

/// The id of a row in the Lidarr library, when the id is that of one.
pub fn in_library(id: Option<i32>) -> (row: Option<i32>)
    ensures
        row == library_id(id),
{
    match id {
        Some(id) => if id > 0 {
            Some(id)
        } else {
            None
        },
        None => None,
    }
}

impl AlbumResource {
    /// Whether Lidarr monitors the album.
    pub fn is_monitored(&self) -> (monitored: bool)
        ensures
            monitored == is_monitored(self.deep_view()),
    {
        match self.monitored {
            Some(monitored) => monitored,
            None => false,
        }
    }
}

/// The name that Lidarr's API gives a monitor scope.
pub open spec fn scope_name(scope: MonitorTypes) -> Seq<char> {
    match scope {
        MonitorTypes::All => "all"@,
        MonitorTypes::Future => "future"@,
        MonitorTypes::Missing => "missing"@,
        MonitorTypes::Existing => "existing"@,
        MonitorTypes::Latest => "latest"@,
        MonitorTypes::First => "first"@,
        MonitorTypes::Nothing => "none"@,
        MonitorTypes::Unknown => "unknown"@,
    }
}

/// The monitor scope of a name, when it is the name of one.
pub open spec fn scope_named(name: Seq<char>) -> Option<MonitorTypes> {
    if exists|scope: MonitorTypes| #[trigger] scope_name(scope) == name {
        Some(choose|scope: MonitorTypes| #[trigger] scope_name(scope) == name)
    } else {
        None
    }
}

proof fn lemma_scope_names_differ(first: MonitorTypes, second: MonitorTypes)
    ensures
        scope_name(first) == scope_name(second) ==> first == second,
{
    reveal_strlit("all");
    reveal_strlit("future");
    reveal_strlit("missing");
    reveal_strlit("existing");
    reveal_strlit("latest");
    reveal_strlit("first");
    reveal_strlit("none");
    reveal_strlit("unknown");
    let a = scope_name(first);
    let b = scope_name(second);
    if first != second && a == b {
        assert(a.len() == b.len());
        assert(a[0] == b[0]);
        assert(a[1] == b[1]);
        assert(false);
    }
}

/// A scope is read back from its name.
pub proof fn lemma_scope_named(scope: MonitorTypes)
    ensures
        scope_named(scope_name(scope)) == Some(scope),
{
    let name = scope_name(scope);
    let found = choose|other: MonitorTypes| #[trigger] scope_name(other) == name;
    lemma_scope_names_differ(scope, found);
}

impl MonitorTypes {
    /// The name that Lidarr's API gives the scope.
    pub fn to_string(&self) -> (name: String)
        ensures
            name@ == scope_name(*self),
    {
        let name: &'static str = match self {
            MonitorTypes::All => "all",
            MonitorTypes::Future => "future",
            MonitorTypes::Missing => "missing",
            MonitorTypes::Existing => "existing",
            MonitorTypes::Latest => "latest",
            MonitorTypes::First => "first",
            MonitorTypes::Nothing => "none",
            MonitorTypes::Unknown => "unknown",
        };
        name.to_owned()
    }

    /// The scope of a name, when it is the name of one.
    pub fn from_name(name: &str) -> (scope: Option<MonitorTypes>)
        ensures
            scope == scope_named(name@),
    {
        let scope = if same_text(name, "all") {
            MonitorTypes::All
        } else if same_text(name, "future") {
            MonitorTypes::Future
        } else if same_text(name, "missing") {
            MonitorTypes::Missing
        } else if same_text(name, "existing") {
            MonitorTypes::Existing
        } else if same_text(name, "latest") {
            MonitorTypes::Latest
        } else if same_text(name, "first") {
            MonitorTypes::First
        } else if same_text(name, "none") {
            MonitorTypes::Nothing
        } else if same_text(name, "unknown") {
            MonitorTypes::Unknown
        } else {
            return None;
        };
        proof {
            lemma_scope_named(scope);
        }
        Some(scope)
    }
}

} // verus!
