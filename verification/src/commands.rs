//! The commands Lidarr can be told to run.
use vstd::prelude::*;

verus! {

/// Searches for the missing albums of an artist.
#[derive(Clone, Debug)]
pub struct ArtistSearchCommand {
    /// What Lidarr knows the command by
    pub name: String,
    pub artist_id: i32,
}

/// Searches for albums.
#[derive(Clone, Debug)]
pub struct AlbumSearchCommand {
    /// What Lidarr knows the command by
    pub name: String,
    pub album_ids: Vec<i32>,
}

/// The contents of an `ArtistSearchCommand`.
#[verifier::ext_equal]
pub struct ArtistSearchView {
    pub name: Seq<char>,
    pub artist_id: i32,
}

/// The contents of an `AlbumSearchCommand`.
#[verifier::ext_equal]
pub struct AlbumSearchView {
    pub name: Seq<char>,
    pub album_ids: Seq<i32>,
}

impl DeepView for ArtistSearchCommand {
    type V = ArtistSearchView;

    open spec fn deep_view(&self) -> ArtistSearchView {
        ArtistSearchView { name: self.name@, artist_id: self.artist_id }
    }
}

impl DeepView for AlbumSearchCommand {
    type V = AlbumSearchView;

    open spec fn deep_view(&self) -> AlbumSearchView {
        AlbumSearchView { name: self.name@, album_ids: self.album_ids@ }
    }
}

impl ArtistSearchCommand {
    /// The command for one artist.
    pub fn new(artist_id: i32) -> (command: ArtistSearchCommand)
        ensures
            command.deep_view() == (ArtistSearchView { name: "ArtistSearch"@, artist_id }),
            command.artist_id == artist_id,
    {
        ArtistSearchCommand { name: "ArtistSearch".to_owned(), artist_id }
    }
}

impl AlbumSearchCommand {
    /// The command for a list of albums.
    pub fn new(album_ids: Vec<i32>) -> (command: AlbumSearchCommand)
        ensures
            command.deep_view() == (AlbumSearchView {
                name: "AlbumSearch"@,
                album_ids: album_ids@,
            }),
            command.album_ids == album_ids,
    {
        AlbumSearchCommand { name: "AlbumSearch".to_owned(), album_ids }
    }
}

} // verus!
