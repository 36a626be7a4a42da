//! Searching, and the list a search offers.
use crate::config::LidarrSearchMode;
use crate::error;
use crate::error::{ApiError, ApiErrorView, ErrorView, LidarrError};
use crate::lidarr::Lidarr;
use crate::media;
use crate::media::{LidarrMedia, LidarrMediaView, MediaItem, MediaItemView};
use crate::models::{AlbumResource, AlbumView, ArtistResource, ArtistView};
use crate::provider::{DropdownOption, DropdownOptionView};
use crate::seqs;
use crate::text::push_item;
use vstd::prelude::*;

verus! {

/// The smaller of two lengths.
pub open spec fn shorter(first: nat, second: nat) -> nat {
    if first <= second {
        first
    } else {
        second
    }
}

/// Two lists merged by turns, the first list leading, until the shorter one ends;
/// what is left of the longer one follows.
pub open spec fn interleaved<A>(first: Seq<A>, second: Seq<A>) -> Seq<A> {
    let turns = shorter(first.len(), second.len());
    Seq::new(
        first.len() + second.len(),
        |i: int|
            if i < 2 * turns {
                if i % 2 == 0 {
                    first[i / 2]
                } else {
                    second[i / 2]
                }
            } else if first.len() > turns {
                first[i - turns]
            } else {
                second[i - turns]
            },
    )
}

proof fn lemma_interleaved_step<A>(first: Seq<A>, second: Seq<A>)
    ensures
        first.len() > 0 && second.len() > 0 ==> interleaved(first, second) == seq![
            first.first(),
            second.first(),
        ] + interleaved(first.drop_first(), second.drop_first()),
        first.len() == 0 ==> interleaved(first, second) == second,
        second.len() == 0 ==> interleaved(first, second) == first,
{
    if first.len() > 0 && second.len() > 0 {
        assert(interleaved(first, second) =~= seq![first.first(), second.first()] + interleaved(
            first.drop_first(),
            second.drop_first(),
        ));
    }
    if first.len() == 0 {
        assert(interleaved(first, second) =~= second);
    }
    if second.len() == 0 {
        assert(interleaved(first, second) =~= first);
    }
}

/// The items in reverse order, so that taking them off the end goes through them in
/// their own.
fn reversed<T>(items: Vec<T>) -> (stack: Vec<T>)
    ensures
        stack@ == items@.reverse(),
{
    let ghost all = items@;
    let mut items = items;
    let mut stack: Vec<T> = Vec::new();
    loop
        invariant
            items@.len() + stack@.len() == all.len(),
            forall|i: int| 0 <= i < items@.len() ==> items@[i] == all[i],
            forall|i: int| 0 <= i < stack@.len() ==> stack@[i] == all[all.len() - 1 - i],
        ensures
            stack@.len() == all.len(),
            forall|i: int| 0 <= i < stack@.len() ==> stack@[i] == all[all.len() - 1 - i],
        decreases items@.len(),
    {
        match items.pop() {
            Some(item) => {
                stack.push(item);
            },
            None => {
                break;
            },
        }
    }
    assert(stack@ =~= all.reverse());
    stack
}

/// Alternates between artist and album hits, keeping each list's own relevance
/// order. Concatenating instead would let Discord's option cap truncate one kind
/// away entirely on a broad search.
pub fn interleave(artists: Vec<LidarrMedia>, albums: Vec<LidarrMedia>) -> (merged: Vec<LidarrMedia>)
    ensures
        merged@ == interleaved(artists@, albums@),
{
    let ghost all = interleaved(artists@, albums@);
    let mut merged: Vec<LidarrMedia> = Vec::new();
    let ghost mut artists_left = artists@;
    let ghost mut albums_left = albums@;
    let mut artists = reversed(artists);
    let mut albums = reversed(albums);
    assert(artists@ =~= artists_left.reverse());
    assert(albums@ =~= albums_left.reverse());
    assert(merged@ + interleaved(artists_left, albums_left) =~= all);
    while artists.len() > 0 || albums.len() > 0
        invariant
            artists@ == artists_left.reverse(),
            albums@ == albums_left.reverse(),
            merged@ + interleaved(artists_left, albums_left) == all,
        decreases artists_left.len() + albums_left.len(),
    {
        proof {
            lemma_interleaved_step(artists_left, albums_left);
        }
        let ghost before = merged@;
        let ghost artists_before = artists_left;
        let ghost albums_before = albums_left;
        if let Some(artist) = artists.pop() {
            merged.push(artist);
            proof {
                artists_left = artists_left.drop_first();
                assert(artists@ =~= artists_left.reverse());
            }
        }
        if let Some(album) = albums.pop() {
            merged.push(album);
            proof {
                albums_left = albums_left.drop_first();
                assert(albums@ =~= albums_left.reverse());
            }
        }
        proof {
            lemma_interleaved_step(artists_left, albums_left);
            assert(merged@ + interleaved(artists_left, albums_left) =~= before + interleaved(
                artists_before,
                albums_before,
            ));
        }
    }
    assert(merged@ =~= all);
    merged
}

/// The lookups that a search makes. Each holds the term to look up; a kind that is
/// not searched has none.
#[derive(Debug)]
pub struct SearchCalls {
    pub artist_term: Option<String>,
    pub album_term: Option<String>,
}

/// Whether a backend searches for artists.
pub open spec fn searches_artists(mode: Option<LidarrSearchMode>) -> bool {
    mode != Some(LidarrSearchMode::Album)
}

/// Whether a backend searches for albums.
pub open spec fn searches_albums(mode: Option<LidarrSearchMode>) -> bool {
    mode != Some(LidarrSearchMode::Artist)
}

/// The hits of a lookup. One that was not made has none.
pub open spec fn hits<A>(lookup: Option<Result<Seq<A>, ApiErrorView>>) -> Result<
    Seq<A>,
    ApiErrorView,
> {
    match lookup {
        Some(answer) => answer,
        None => Ok(Seq::empty()),
    }
}

/// What a lookup came to, with contents in place of values.
pub open spec fn lookup_view<A: DeepView>(
    lookup: Option<Result<Vec<A>, ApiError>>,
) -> Option<Result<Seq<A::V>, ApiErrorView>> {
    match lookup {
        Some(answer) => Some(error::outcome(answer)),
        None => None,
    }
}

/// The results of a search: the hits of both lookups by turns. Either failure sinks
/// the search.
pub open spec fn results_of(
    artists: Result<Seq<ArtistView>, ApiErrorView>,
    albums: Result<Seq<AlbumView>, ApiErrorView>,
) -> Result<Seq<MediaItemView>, ErrorView> {
    match (artists, albums) {
        (Err(error), _) => Err(ErrorView::Api(error)),
        (Ok(_), Err(error)) => Err(ErrorView::Api(error)),
        (Ok(artists), Ok(albums)) => Ok(
            interleaved(
                artists.map_values(
                    |artist: ArtistView| MediaItemView::Lidarr(LidarrMediaView::Artist(artist)),
                ),
                albums.map_values(
                    |album: AlbumView| MediaItemView::Lidarr(LidarrMediaView::Album(album)),
                ),
            ),
        ),
    }
}

fn wrap_artists(artists: Vec<ArtistResource>) -> (media: Vec<LidarrMedia>)
    ensures
        media@ == artists@.map_values(|artist: ArtistResource| LidarrMedia::Artist(artist)),
{
    let mut media: Vec<LidarrMedia> = Vec::new();
    for artist in hit: artists
        invariant
            media@ =~= hit.seq().take(hit.index() as int).map_values(
                |artist: ArtistResource| LidarrMedia::Artist(artist),
            ),
    {
        media.push(LidarrMedia::Artist(artist));
    }
    assert(media@ =~= artists@.map_values(|artist: ArtistResource| LidarrMedia::Artist(artist)));
    media
}

fn wrap_albums(albums: Vec<AlbumResource>) -> (media: Vec<LidarrMedia>)
    ensures
        media@ == albums@.map_values(|album: AlbumResource| LidarrMedia::Album(album)),
{
    let mut media: Vec<LidarrMedia> = Vec::new();
    for album in hit: albums
        invariant
            media@ =~= hit.seq().take(hit.index() as int).map_values(
                |album: AlbumResource| LidarrMedia::Album(album),
            ),
    {
        media.push(LidarrMedia::Album(album));
    }
    assert(media@ =~= albums@.map_values(|album: AlbumResource| LidarrMedia::Album(album)));
    media
}

fn wrap_media(media: Vec<LidarrMedia>) -> (items: Vec<MediaItem>)
    ensures
        items@ == media@.map_values(|media: LidarrMedia| MediaItem::Lidarr(media)),
{
    let mut items: Vec<MediaItem> = Vec::new();
    for result in hit: media
        invariant
            items@ =~= hit.seq().take(hit.index() as int).map_values(
                |media: LidarrMedia| MediaItem::Lidarr(media),
            ),
    {
        items.push(MediaItem::Lidarr(result));
    }
    assert(items@ =~= media@.map_values(|media: LidarrMedia| MediaItem::Lidarr(media)));
    items
}

/// How an entry reads in a list that holds artists and albums: artists are tagged
/// as such, albums already lead with their release type.
pub open spec fn tagged_dropdown(media: LidarrMediaView) -> DropdownOptionView {
    let option = media::dropdown_of(media);
    match media {
        LidarrMediaView::Artist(_) => DropdownOptionView {
            description: Some(
                match option.description {
                    Some(rest) => "Artist · "@ + rest,
                    None => "Artist"@,
                },
            ),
            ..option
        },
        LidarrMediaView::Album(_) => option,
    }
}

/// The entry of an item in a list that holds artists and albums. Items of other
/// backends have none.
pub open spec fn combined_entry(item: MediaItemView) -> Option<DropdownOptionView> {
    match item {
        MediaItemView::Lidarr(media) => Some(tagged_dropdown(media)),
        MediaItemView::Other(_) => None,
    }
}

/// The entries of a list of results. The kind is only said where both kinds share
/// the list.
pub open spec fn entries(
    mode: Option<LidarrSearchMode>,
    results: Seq<MediaItemView>,
) -> Seq<DropdownOptionView> {
    if mode is Some {
        results.map_values(|item: MediaItemView| media::item_dropdown(item))
    } else {
        results.filter_map(|item: MediaItemView| combined_entry(item))
    }
}

fn tag_dropdown(media: &LidarrMedia) -> (option: DropdownOption)
    ensures
        option.deep_view() == tagged_dropdown(media.deep_view()),
{
    let mut option = media.to_dropdown();
    if let LidarrMedia::Artist(_) = media {
        option.description = Some(
            match option.description {
                Some(rest) => "Artist · ".to_owned().concat(rest.as_str()),
                None => "Artist".to_owned(),
            },
        );
    }
    option
}

impl Lidarr {
    /// The lookups to make for a term.
    pub fn search(&self, term: &str) -> (calls: SearchCalls)
        ensures
            calls.artist_term.deep_view() == (if searches_artists(self.search_mode) {
                Some(term@)
            } else {
                None
            }),
            calls.album_term.deep_view() == (if searches_albums(self.search_mode) {
                Some(term@)
            } else {
                None
            }),
    {
        let (artists, albums) = match self.search_mode {
            Some(LidarrSearchMode::Album) => (false, true),
            Some(LidarrSearchMode::Artist) => (true, false),
            None => (true, true),
        };
        SearchCalls {
            artist_term: if artists {
                Some(term.to_owned())
            } else {
                None
            },
            album_term: if albums {
                Some(term.to_owned())
            } else {
                None
            },
        }
    }

    /// The results of a search, from what its lookups came to. A lookup that was not
    /// made is left out.
    pub fn search_results(
        &self,
        artist_hits: Option<Result<Vec<ArtistResource>, ApiError>>,
        album_hits: Option<Result<Vec<AlbumResource>, ApiError>>,
    ) -> (results: Result<Vec<MediaItem>, LidarrError>)
        ensures
            error::outcome(results) == results_of(
                hits(lookup_view(artist_hits)),
                hits(lookup_view(album_hits)),
            ),
    {
        let artists = match artist_hits {
            Some(Ok(artists)) => artists,
            Some(Err(error)) => {
                return Err(LidarrError::Api(error));
            },
            None => Vec::new(),
        };
        let albums = match album_hits {
            Some(Ok(albums)) => albums,
            Some(Err(error)) => {
                return Err(LidarrError::Api(error));
            },
            None => Vec::new(),
        };
        let ghost artist_views = artists.deep_view();
        let ghost album_views = albums.deep_view();
        let results = wrap_media(interleave(wrap_artists(artists), wrap_albums(albums)));
        proof {
            assert(artist_hits is None ==> artist_views =~= Seq::empty());
            assert(album_hits is None ==> album_views =~= Seq::empty());
            assert(results.deep_view() =~= interleaved(
                artist_views.map_values(
                    |artist: ArtistView| MediaItemView::Lidarr(LidarrMediaView::Artist(artist)),
                ),
                album_views.map_values(
                    |album: AlbumView| MediaItemView::Lidarr(LidarrMediaView::Album(album)),
                ),
            ));
        }
        Ok(results)
    }

    /// The entries of a list of results. A filtered command says which kind it
    /// searches in its own name, so the tag only earns its place when both kinds
    /// share one list.
    pub fn to_dropdown_options(&self, results: &[MediaItem]) -> (options: Vec<DropdownOption>)
        ensures
            options.deep_view() == entries(self.search_mode, results.deep_view()),
    {
        let ghost given = results.deep_view();
        let ghost entry = |item: MediaItemView| combined_entry(item);
        let mut options: Vec<DropdownOption> = Vec::new();
        let mut i: usize = 0;
        if self.search_mode.is_some() {
            while i < results.len()
                invariant
                    i <= results@.len(),
                    given == results.deep_view(),
                    options.deep_view() =~= given.take(i as int).map_values(
                        |item: MediaItemView| media::item_dropdown(item),
                    ),
                decreases results@.len() - i,
            {
                assert(given[i as int] == results[i as int].deep_view());
                push_item(&mut options, results[i].to_dropdown());
                i = i + 1;
            }
        } else {
            proof {
                seqs::lemma_sift_none(given, entry);
                assert(options.deep_view() =~= given.take(0).filter_map(entry));
            }
            while i < results.len()
                invariant
                    i <= results@.len(),
                    given == results.deep_view(),
                    entry == (|item: MediaItemView| combined_entry(item)),
                    options.deep_view() == given.take(i as int).filter_map(entry),
                decreases results@.len() - i,
            {
                proof {
                    seqs::lemma_filter_map_step(given, entry, i as int);
                    assert(given[i as int] == results[i as int].deep_view());
                }
                if let MediaItem::Lidarr(media) = &results[i] {
                    push_item(&mut options, tag_dropdown(media));
                }
                i = i + 1;
            }
        }
        assert(given.take(i as int) =~= given);
        options
    }
}

} // verus!
