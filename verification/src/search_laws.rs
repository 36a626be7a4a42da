//! What holds of a search and of the questions about its results.
use crate::config::LidarrSearchMode;
use crate::error::{ApiError, ApiErrorView, ErrorView};
use crate::media::{LidarrMediaView, MediaItemView};
use crate::media_laws;
use crate::models::{AlbumView, ArtistView, MonitorTypes};
use crate::picker;
use crate::picker::DetailsStepView;
use crate::picker_laws;
use crate::provider::{
    DropdownOptionView, FieldType, RequestDetailsView, SelectableIdView, ALL_ITEMS_ID,
};
use crate::search;
use crate::text;
use vstd::prelude::*;

verus! {

/// The results of a search alternate between artists and albums while both last, an
/// artist leading, and go on with what is left of the longer list: the list itself keeps
/// each lookup's order and gives every hit its one place.
pub proof fn law_results_alternate(artists: Seq<ArtistView>, albums: Seq<AlbumView>)
    ensures
        search::results_of(Ok(artists), Ok(albums)) is Ok,
        ({
            let results = search::results_of(Ok(artists), Ok(albums))->Ok_0;
            &&& results.len() == artists.len() + albums.len()
            &&& forall|k: int|
                0 <= k < artists.len() && k < albums.len() ==> results[2 * k]
                    == MediaItemView::Lidarr(LidarrMediaView::Artist(#[trigger] artists[k]))
            &&& forall|k: int|
                0 <= k < artists.len() && k < albums.len() ==> results[2 * k + 1]
                    == MediaItemView::Lidarr(LidarrMediaView::Album(#[trigger] albums[k]))
            &&& forall|k: int|
                albums.len() <= k < artists.len() ==> results[albums.len() + k]
                    == MediaItemView::Lidarr(LidarrMediaView::Artist(#[trigger] artists[k]))
            &&& forall|k: int|
                artists.len() <= k < albums.len() ==> results[artists.len() + k]
                    == MediaItemView::Lidarr(LidarrMediaView::Album(#[trigger] albums[k]))
        }),
{
}

/// A failed lookup sinks the search with its own failure, that of the artists first.
pub proof fn law_failed_lookups_sink_the_search(
    artists: Seq<ArtistView>,
    albums: Result<Seq<AlbumView>, ApiErrorView>,
    failure: ApiErrorView,
)
    ensures
        search::results_of(Err(failure), albums) == Err::<Seq<MediaItemView>, ErrorView>(
            ErrorView::Api(failure),
        ),
        search::results_of(Ok(artists), Err(failure)) == Err::<Seq<MediaItemView>, ErrorView>(
            ErrorView::Api(failure),
        ),
{
}

/// A lookup that was made counts for what it came to; one that was not has no hits.
pub proof fn law_lookups_count_for_what_they_are<A: DeepView>(
    found: Vec<A>,
    failure: ApiError,
    answer: Result<Seq<A::V>, ApiErrorView>,
)
    ensures
        search::hits(Some(answer)) == answer,
        search::hits(None::<Result<Seq<A::V>, ApiErrorView>>) == Ok::<Seq<A::V>, ApiErrorView>(
            Seq::empty(),
        ),
        search::lookup_view(Some(Ok::<Vec<A>, ApiError>(found))) == Some(
            Ok::<Seq<A::V>, ApiErrorView>(found.deep_view()),
        ),
        search::lookup_view(Some(Err::<Vec<A>, ApiError>(failure))) == Some(
            Err::<Seq<A::V>, ApiErrorView>(failure.deep_view()),
        ),
        search::lookup_view(None::<Result<Vec<A>, ApiError>>) is None,
{
}

/// A search looks up artists unless it is one for albums, and albums unless it is one for
/// artists.
pub proof fn law_searches_look_up_their_kinds()
    ensures
        search::searches_artists(None) && search::searches_albums(None),
        search::searches_artists(Some(LidarrSearchMode::Artist)),
        !search::searches_albums(Some(LidarrSearchMode::Artist)),
        !search::searches_artists(Some(LidarrSearchMode::Album)),
        search::searches_albums(Some(LidarrSearchMode::Album)),
{
}

/// Each scope has its title in the question for it, and its own name as the id.
pub proof fn law_scopes_have_their_options()
    ensures
        picker::scope_option(MonitorTypes::All) == (DropdownOptionView {
            title: "All Albums"@,
            description: None,
            id: Some(SelectableIdView::Text("all"@)),
        }),
        picker::scope_option(MonitorTypes::Future) == (DropdownOptionView {
            title: "Future Albums"@,
            description: None,
            id: Some(SelectableIdView::Text("future"@)),
        }),
        picker::scope_option(MonitorTypes::Missing) == (DropdownOptionView {
            title: "Missing Albums"@,
            description: None,
            id: Some(SelectableIdView::Text("missing"@)),
        }),
        picker::scope_option(MonitorTypes::Existing) == (DropdownOptionView {
            title: "Existing Albums"@,
            description: None,
            id: Some(SelectableIdView::Text("existing"@)),
        }),
        picker::scope_option(MonitorTypes::Latest) == (DropdownOptionView {
            title: "Latest Album"@,
            description: None,
            id: Some(SelectableIdView::Text("latest"@)),
        }),
        picker::scope_option(MonitorTypes::First) == (DropdownOptionView {
            title: "First Album"@,
            description: None,
            id: Some(SelectableIdView::Text("first"@)),
        }),
        picker::scope_option(MonitorTypes::Nothing) == (DropdownOptionView {
            title: "None"@,
            description: None,
            id: Some(SelectableIdView::Text("none"@)),
        }),
        picker::scope_option(MonitorTypes::Unknown) == (DropdownOptionView {
            title: "Unknown"@,
            description: None,
            id: Some(SelectableIdView::Text("unknown"@)),
        }),
{
}

/// The monitor question has one option for each scope on offer, in order, and no answer
/// yet; it need not be asked where there is only one.
pub proof fn law_monitor_question(scopes: Seq<MonitorTypes>)
    ensures
        picker::monitor_question(scopes) == (RequestDetailsView {
            title: "Monitor"@,
            options: Seq::new(scopes.len(), |i: int| picker::scope_option(scopes[i])),
            metadata: Some("lidarr:monitor"@),
            selected_indices: Seq::empty(),
            field_type: FieldType::Dropdown,
            always_show: false,
        }),
{
    assert(picker::monitor_question(scopes).options =~= Seq::new(
        scopes.len(),
        |i: int| picker::scope_option(scopes[i]),
    ));
}

/// The album question lists the picker's options, takes several answers, has none yet and
/// is always asked.
pub proof fn law_album_question(albums: Seq<AlbumView>)
    ensures
        picker::album_question(albums) == (RequestDetailsView {
            title: "Albums"@,
            options: picker::picker_options(albums),
            metadata: Some("lidarr:album"@),
            selected_indices: Seq::empty(),
            field_type: FieldType::MultiSelect,
            always_show: true,
        }),
{
}

/// A picker leads with all albums and goes on with the newest ones, until all are listed
/// or the dropdown is full.
pub proof fn law_picker_lists_the_newest(albums: Seq<AlbumView>, place: int)
    ensures
        ({
            let options = picker::picker_options(albums);
            &&& options.len() == (if albums.len() < 24 {
                albums.len() + 1
            } else {
                25
            })
            &&& options[0] == (DropdownOptionView {
                title: "All Albums"@,
                description: Some("Includes future releases"@),
                id: Some(SelectableIdView::Integer(ALL_ITEMS_ID)),
            })
            &&& 0 < place < options.len() ==> options[place] == picker::picker_option(
                picker::newest_first(albums)[place - 1],
            )
        }),
{
}

/// Whether an album came out after another, as far as they say. One that says nothing
/// came out before any that does.
pub open spec fn came_later(first: AlbumView, second: AlbumView) -> bool {
    match first.release_date {
        Some(Some(one)) => match second.release_date {
            Some(Some(other)) => one.timestamp > other.timestamp || (one.timestamp
                == other.timestamp && one.nanos > other.nanos),
            _ => true,
        },
        _ => false,
    }
}

/// The newest albums come first. Every album has one place, none stands behind one that it
/// came out after, and of two that came out together the one listed first comes first.
pub proof fn law_newest_albums_come_first(albums: Seq<AlbumView>) -> (order: Seq<int>)
    ensures
        order.len() == albums.len(),
        forall|i: int| 0 <= i < order.len() ==> 0 <= #[trigger] order[i] < albums.len(),
        forall|i: int, j: int|
            0 <= i < j < order.len() ==> #[trigger] order[i] != #[trigger] order[j],
        picker::newest_first(albums).len() == albums.len(),
        forall|i: int|
            0 <= i < order.len() ==> picker::newest_first(albums)[i] == albums[#[trigger] order[i]],
        forall|i: int, j: int|
            0 <= i < j < order.len() ==> !came_later(
                albums[#[trigger] order[j]],
                albums[#[trigger] order[i]],
            ),
        forall|i: int, j: int|
            0 <= i < j < order.len() && !came_later(
                albums[#[trigger] order[i]],
                albums[#[trigger] order[j]],
            ) ==> order[i] < order[j],
{
    let order = picker_laws::law_newest_first(albums);
    assert forall|i: int, j: int| 0 <= i < j < order.len() implies #[trigger] order[i]
        != #[trigger] order[j] && !came_later(albums[order[j]], albums[order[i]]) && (!came_later(
        albums[order[i]],
        albums[order[j]],
    ) ==> order[i] < order[j]) by {
        assert(picker::comes_before(albums, order[i], order[j]));
    }
    order
}

/// An album's entry in the picker has its title and id, and says its release type, where
/// it has one, then its year, where known, and then that it is monitored, where it is.
pub proof fn law_picker_entry(
    album: AlbumView,
    title: Seq<char>,
    year: Option<Seq<char>>,
    tags: Seq<Seq<char>>,
)
    requires
        media_laws::reads(album.title, title),
        media_laws::is_of(album, year),
        tags == (match album.album_type {
            Some(Some(words)) => if words.len() > 0 {
                seq![words]
            } else {
                Seq::empty()
            },
            _ => Seq::empty(),
        }) + (match year {
            Some(year) => seq![year],
            None => Seq::empty(),
        }) + (if album.monitored == Some(true) {
            seq!["Already monitored"@]
        } else {
            Seq::empty()
        }),
    ensures
        picker::picker_option(album) == (DropdownOptionView {
            title,
            description: if tags.len() == 0 {
                None
            } else {
                Some(text::joined(tags, " · "@))
            },
            id: media_laws::entry_id(album.id),
        }),
{
    assert(picker::picker_tags(album) =~= tags);
}

/// There is a picker exactly where listing the albums worked and found some; a failed call
/// and an empty list are told apart.
pub proof fn law_pickers_need_albums(albums: Seq<AlbumView>, failure: ApiErrorView)
    ensures
        picker::picker_from(Err(failure)) == Err::<RequestDetailsView, ErrorView>(
            ErrorView::Api(failure),
        ),
        albums.len() == 0 ==> picker::picker_from(Ok(albums)) == Err::<
            RequestDetailsView,
            ErrorView,
        >(ErrorView::NoAlbumsListed),
        albums.len() > 0 ==> picker::picker_from(Ok(albums)) == Ok::<
            RequestDetailsView,
            ErrorView,
        >(picker::album_question(albums)),
{
}

/// Of an artist with a positive id the albums are asked for, of any other the scope; of an
/// album nothing is, and media of another backend is turned down.
pub proof fn law_questions_fit_the_media(
    scopes: Seq<MonitorTypes>,
    artist: ArtistView,
    album: AlbumView,
    option: DropdownOptionView,
)
    ensures
        picker::questions(scopes, MediaItemView::Lidarr(LidarrMediaView::Artist(artist))) == (
        match artist.id {
            Some(id) => if id > 0 {
                DetailsStepView::ListAlbums { artist_id: id }
            } else {
                DetailsStepView::Ask(seq![picker::monitor_question(scopes)])
            },
            None => DetailsStepView::Ask(seq![picker::monitor_question(scopes)]),
        }),
        picker::questions(scopes, MediaItemView::Lidarr(LidarrMediaView::Album(album)))
            == DetailsStepView::Ask(Seq::empty()),
        picker::questions(scopes, MediaItemView::Other(option)) == DetailsStepView::Failed(
            ErrorView::InvalidMediaType,
        ),
{
}

} // verus!
