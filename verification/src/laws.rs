//! What holds of the backend as a whole.
use crate::config::LidarrSearchMode;
use crate::display;
use crate::error::{ApiErrorView, ErrorView};
use crate::field_keys;
use crate::lidarr;
use crate::media;
use crate::media::{LidarrMediaView, MediaItemView};
use crate::models;
use crate::models::{AlbumView, ArtistView, MediaCoverView, MonitorTypes, RootFolderView};
use crate::picker;
use crate::provider::{RequestDetailsView, SuccessMessageView};
use crate::search;
use crate::selection;
use crate::selection::SelectedView;
use crate::seqs;
use crate::text;
use vstd::prelude::*;

verus! {

/// A question with an answer to it.
pub open spec fn answered(question: RequestDetailsView, chosen: Seq<usize>) -> RequestDetailsView {
    RequestDetailsView { selected_indices: chosen, ..question }
}

proof fn lemma_scope_names_need_no_escape(scope: MonitorTypes)
    ensures
        selection::needs_no_escape(models::scope_name(scope)),
{
    reveal_strlit("all");
    reveal_strlit("future");
    reveal_strlit("missing");
    reveal_strlit("existing");
    reveal_strlit("latest");
    reveal_strlit("first");
    reveal_strlit("none");
    reveal_strlit("unknown");
}

proof fn lemma_keys_differ()
    ensures
        field_keys::ALBUM@ != field_keys::MONITOR@,
{
    reveal_strlit("lidarr:monitor");
    reveal_strlit("lidarr:album");
    assert(field_keys::ALBUM@.len() != field_keys::MONITOR@.len());
}

pub(crate) proof fn lemma_single_detail(detail: RequestDetailsView)
    ensures
        selection::selection(seq![detail]) == selection::with_detail(
            selection::nothing_selected(),
            detail,
        ),
{
    reveal_with_fuel(selection::selection, 2);
    assert(seq![detail].drop_last() =~= Seq::empty());
}

proof fn lemma_scope_option_read(scope: MonitorTypes)
    ensures
        selection::scope_from(
            models::scope_name(scope),
            selection::unescaped(models::scope_name(scope)),
        ) == Ok::<MonitorTypes, ErrorView>(scope),
{
    lemma_scope_names_need_no_escape(scope);
    models::lemma_scope_named(scope);
}

/// The scope a requester picks from those offered is the scope the request is made
/// with.
pub proof fn law_picked_scope_is_requested(scopes: Seq<MonitorTypes>, index: usize)
    requires
        index < scopes.len(),
    ensures
        selection::selection(seq![answered(picker::monitor_question(scopes), seq![index])]) == Ok::<
            SelectedView,
            ErrorView,
        >(SelectedView {
            monitor: Some(scopes[index as int]),
            album_ids: Seq::empty(),
            all_albums: false,
        }),
{
    let detail = answered(picker::monitor_question(scopes), seq![index]);
    lemma_single_detail(detail);
    lemma_keys_differ();
    lemma_scope_option_read(scopes[index as int]);
    assert(detail.selected_option() == Some(picker::scope_option(scopes[index as int])));
}

/// A scope pinned in the configuration is requested without an answer.
pub proof fn law_pinned_scope_needs_no_answer(scope: MonitorTypes)
    ensures
        selection::selection(seq![picker::monitor_question(seq![scope])]) == Ok::<
            SelectedView,
            ErrorView,
        >(SelectedView { monitor: Some(scope), album_ids: Seq::empty(), all_albums: false }),
{
    let detail = picker::monitor_question(seq![scope]);
    lemma_single_detail(detail);
    lemma_keys_differ();
    lemma_scope_option_read(scope);
    assert(detail.selected_option() == Some(picker::scope_option(scope)));
}

/// A choice between several scopes has to be made.
pub proof fn law_open_scope_needs_an_answer(scopes: Seq<MonitorTypes>)
    requires
        scopes.len() != 1,
    ensures
        selection::selection(seq![picker::monitor_question(scopes)]) == Err::<
            SelectedView,
            ErrorView,
        >(ErrorView::NoOptionSelected { title: "Monitor"@ }),
{
    lemma_single_detail(picker::monitor_question(scopes));
    lemma_keys_differ();
}

/// A backend offers at least one scope, none of them twice, and never the one that
/// leaves the scope undefined; a pinned scope is the only one.
pub proof fn law_offered_scopes(pinned: Option<MonitorTypes>)
    ensures
        lidarr::offered_scopes(pinned) is Err <==> pinned == Some(MonitorTypes::Unknown),
        lidarr::offered_scopes(pinned) matches Ok(scopes) ==> scopes.len() > 0
            && scopes.no_duplicates() && !scopes.contains(MonitorTypes::Unknown) && (
        pinned is Some ==> scopes == seq![pinned->0]),
{
}

/// The settings a backend adds with name things Lidarr has: a root folder it lists,
/// and profiles it lists.
pub proof fn law_settings_exist_in_lidarr(
    quality_profile: Option<Seq<char>>,
    metadata_profile: Option<Seq<char>>,
    rootfolder: Option<Seq<char>>,
    rootfolders: Seq<RootFolderView>,
    quality_profiles: Seq<models::ProfileView>,
    metadata_profiles: Seq<models::ProfileView>,
)
    ensures
        lidarr::resolved_settings(
            quality_profile,
            metadata_profile,
            rootfolder,
            rootfolders,
            quality_profiles,
            metadata_profiles,
        ) matches Ok(settings) ==> {
            &&& exists|i: int|
                0 <= i < rootfolders.len() && lidarr::folder_path(#[trigger] rootfolders[i])
                    == Some(settings.rootfolder_path)
            &&& lidarr::has_profile(
                lidarr::profile_pairs(quality_profiles),
                settings.quality_profile_id,
            )
            &&& lidarr::has_profile(
                lidarr::profile_pairs(metadata_profiles),
                settings.metadata_profile_id,
            )
        },
{
    law_rootfolder_is_listed(rootfolders, rootfolder);
    if lidarr::chosen_rootfolder(rootfolders, rootfolder) is Ok {
        let folder = lidarr::chosen_rootfolder(rootfolders, rootfolder)->Ok_0;
        let i = choose|i: int| 0 <= i < rootfolders.len() && rootfolders[i] == folder;
        assert(lidarr::folder_path(rootfolders[i]) == lidarr::folder_path(folder));
        law_profile_is_listed(
            lidarr::profile_pairs(quality_profiles),
            quality_profile,
            folder.default_quality_profile_id,
            "Quality profile"@,
        );
        law_profile_is_listed(
            lidarr::profile_pairs(metadata_profiles),
            metadata_profile,
            folder.default_metadata_profile_id,
            "Metadata profile"@,
        );
    }
}

/// The chosen root folder is one that Lidarr lists, and has the configured path
/// where one is configured.
pub proof fn law_rootfolder_is_listed(
    rootfolders: Seq<RootFolderView>,
    configured: Option<Seq<char>>,
)
    ensures
        lidarr::chosen_rootfolder(rootfolders, configured) matches Ok(folder)
            ==> rootfolders.contains(folder) && (configured is Some ==> lidarr::folder_path(folder)
            == configured),
{
    if configured is Some {
        let path = configured->0;
        seqs::lemma_first_where(
            rootfolders,
            |folder: RootFolderView| lidarr::folder_path(folder) == Some(path),
        );
    }
}

/// The chosen profile is one that Lidarr lists.
pub proof fn law_profile_is_listed(
    profiles: Seq<(i32, Seq<char>)>,
    configured: Option<Seq<char>>,
    rootfolder_default: Option<i32>,
    label: Seq<char>,
)
    ensures
        lidarr::chosen_profile(profiles, configured, rootfolder_default, label) matches Ok(id)
            ==> lidarr::has_profile(profiles, id),
{
    if configured is Some {
        let name = configured->0;
        seqs::lemma_first_where(
            profiles,
            |profile: (i32, Seq<char>)| lidarr::is_named(profile, name),
        );
    } else if profiles.len() > 0 {
        assert(profiles[0].0 == profiles[0].0);
    }
}

/// A root folder's default that names no profile any more counts as no default, and
/// a configured name leaves no say to the default.
pub proof fn law_default_profile_yields(
    profiles: Seq<(i32, Seq<char>)>,
    configured: Option<Seq<char>>,
    rootfolder_default: i32,
    label: Seq<char>,
)
    requires
        configured is Some || !lidarr::has_profile(profiles, rootfolder_default),
    ensures
        lidarr::chosen_profile(profiles, configured, Some(rootfolder_default), label)
            == lidarr::chosen_profile(profiles, configured, None, label),
{
}

/// Where the first list's items stand in the merged one.
pub open spec fn place_of_first(second: nat, k: int) -> int {
    if k < second {
        2 * k
    } else {
        second + k
    }
}

/// Where the second list's items stand in the merged one.
pub open spec fn place_of_second(first: nat, k: int) -> int {
    if k < first {
        2 * k + 1
    } else {
        first + k
    }
}

/// Merging keeps each list's own order: an item further down its list stands
/// further down the merged one.
pub proof fn law_interleaving_keeps_order<A>(first: Seq<A>, second: Seq<A>)
    ensures
        forall|k: int|
            0 <= k < first.len() ==> 0 <= #[trigger] place_of_first(second.len(), k) < first.len()
                + second.len() && search::interleaved(first, second)[place_of_first(
                second.len(),
                k,
            )] == first[k],
        forall|k: int|
            0 <= k < second.len() ==> 0 <= #[trigger] place_of_second(first.len(), k) < first.len()
                + second.len() && search::interleaved(first, second)[place_of_second(
                first.len(),
                k,
            )] == second[k],
        forall|j: int, k: int|
            0 <= j < k ==> #[trigger] place_of_first(second.len(), j)
                < #[trigger] place_of_first(second.len(), k),
        forall|j: int, k: int|
            0 <= j < k ==> #[trigger] place_of_second(first.len(), j)
                < #[trigger] place_of_second(first.len(), k),
{
}

/// Merging loses nothing and repeats nothing.
pub proof fn law_interleaving_is_a_merge<A>(first: Seq<A>, second: Seq<A>)
    ensures
        search::interleaved(first, second).to_multiset() =~= first.to_multiset().add(
            second.to_multiset(),
        ),
    decreases first.len(),
{
    broadcast use vstd::seq_lib::group_to_multiset_ensures;

    let merged = search::interleaved(first, second);
    if first.len() == 0 {
        assert(merged =~= second);
        assert(first =~= Seq::empty());
    } else if second.len() == 0 {
        assert(merged =~= first);
        assert(second =~= Seq::empty());
    } else {
        let rest = search::interleaved(first.drop_first(), second.drop_first());
        law_interleaving_is_a_merge(first.drop_first(), second.drop_first());
        assert(merged =~= seq![first[0], second[0]] + rest);
        assert(merged =~= rest.insert(0, second[0]).insert(0, first[0]));
        assert(first =~= first.drop_first().insert(0, first[0]));
        assert(second =~= second.drop_first().insert(0, second[0]));
    }
}

/// Cutting a merged list short drops neither kind entirely: of a list with room for
/// the first entries, every other one is left to each kind that has as many.
pub proof fn law_no_kind_is_cut_off<A>(first: Seq<A>, second: Seq<A>, room: int, k: int)
    requires
        0 <= room <= first.len() + second.len(),
        0 <= k,
    ensures
        k < first.len() && 2 * k < room ==> search::interleaved(first, second).take(room).contains(
            first[k],
        ),
        k < second.len() && 2 * k + 1 < room ==> search::interleaved(first, second).take(
            room,
        ).contains(second[k]),
{
    law_interleaving_keeps_order(first, second);
    let shown = search::interleaved(first, second).take(room);
    if k < first.len() && 2 * k < room {
        assert(shown[place_of_first(second.len(), k)] == first[k]);
    }
    if k < second.len() && 2 * k + 1 < room {
        assert(shown[place_of_second(first.len(), k)] == second[k]);
    }
}

/// Every search looks something up, and a filtered one looks up its kind alone.
pub proof fn law_search_mode_filters(mode: Option<LidarrSearchMode>)
    ensures
        search::searches_artists(mode) || search::searches_albums(mode),
        mode == Some(LidarrSearchMode::Artist) ==> !search::searches_albums(mode),
        mode == Some(LidarrSearchMode::Album) ==> !search::searches_artists(mode),
        mode is None ==> search::searches_artists(mode) && search::searches_albums(mode),
{
}

/// A search succeeds only when none of its lookups failed, and then offers all that
/// they found and nothing else.
pub proof fn law_search_is_all_or_nothing(
    artists: Result<Seq<ArtistView>, ApiErrorView>,
    albums: Result<Seq<AlbumView>, ApiErrorView>,
)
    ensures
        search::results_of(artists, albums) is Ok <==> artists is Ok && albums is Ok,
        search::results_of(artists, albums) matches Ok(results) ==> results.to_multiset()
            =~= artists->Ok_0.map_values(
            |artist: ArtistView| MediaItemView::Lidarr(LidarrMediaView::Artist(artist)),
        ).to_multiset().add(
            albums->Ok_0.map_values(
                |album: AlbumView| MediaItemView::Lidarr(LidarrMediaView::Album(album)),
            ).to_multiset(),
        ),
{
    if artists is Ok && albums is Ok {
        law_interleaving_is_a_merge(
            artists->Ok_0.map_values(
                |artist: ArtistView| MediaItemView::Lidarr(LidarrMediaView::Artist(artist)),
            ),
            albums->Ok_0.map_values(
                |album: AlbumView| MediaItemView::Lidarr(LidarrMediaView::Album(album)),
            ),
        );
    }
}

/// A filtered search offers the hits of its one lookup, in their order.
pub proof fn law_filtered_search_is_one_kind(artists: Seq<ArtistView>, albums: Seq<AlbumView>)
    ensures
        search::results_of(Ok(artists), search::hits(None)) == Ok::<Seq<MediaItemView>, ErrorView>(
            artists.map_values(
                |artist: ArtistView| MediaItemView::Lidarr(LidarrMediaView::Artist(artist)),
            ),
        ),
        search::results_of(search::hits(None), Ok(albums)) == Ok::<Seq<MediaItemView>, ErrorView>(
            albums.map_values(
                |album: AlbumView| MediaItemView::Lidarr(LidarrMediaView::Album(album)),
            ),
        ),
{
    let by_artist = artists.map_values(
        |artist: ArtistView| MediaItemView::Lidarr(LidarrMediaView::Artist(artist)),
    );
    let by_album = albums.map_values(
        |album: AlbumView| MediaItemView::Lidarr(LidarrMediaView::Album(album)),
    );
    let no_artists = Seq::<ArtistView>::empty().map_values(
        |artist: ArtistView| MediaItemView::Lidarr(LidarrMediaView::Artist(artist)),
    );
    let no_albums = Seq::<AlbumView>::empty().map_values(
        |album: AlbumView| MediaItemView::Lidarr(LidarrMediaView::Album(album)),
    );
    assert(search::interleaved(by_artist, no_albums) =~= by_artist);
    assert(search::interleaved(no_artists, by_album) =~= by_album);
}

proof fn lemma_all_kept<A, B>(items: Seq<A>, kept: spec_fn(A) -> Option<B>)
    requires
        forall|i: int| 0 <= i < items.len() ==> kept(#[trigger] items[i]) is Some,
    ensures
        items.filter_map(kept) == items.map_values(|item: A| kept(item)->0),
    decreases items.len(),
{
    reveal(Seq::filter_map);
    if items.len() == 0 {
        assert(items.filter_map(kept) =~= items.map_values(|item: A| kept(item)->0));
    } else {
        let fewer = items.drop_last();
        assert forall|i: int| 0 <= i < fewer.len() implies kept(#[trigger] fewer[i]) is Some by {
            assert(fewer[i] == items[i]);
        }
        lemma_all_kept(fewer, kept);
        assert(kept(items[items.len() - 1]) is Some);
        assert(items.filter_map(kept) =~= items.map_values(|item: A| kept(item)->0));
    }
}

/// The list of a combined search has one entry per result, in order. An artist's
/// says so at its head; an album's reads as it does in a filtered list.
pub proof fn law_combined_list_tells_kinds_apart(results: Seq<LidarrMediaView>, i: int)
    requires
        0 <= i < results.len(),
    ensures
        ({
            let items = results.map_values(|media: LidarrMediaView| MediaItemView::Lidarr(media));
            let combined = search::entries(None, items);
            let own = media::dropdown_of(results[i]);
            &&& combined.len() == results.len()
            &&& combined[i].title == own.title && combined[i].id == own.id
            &&& results[i] is Artist ==> (combined[i].description matches Some(description)
                && "Artist"@.is_prefix_of(description))
            &&& results[i] is Album ==> combined[i] == own
        }),
{
    let items = results.map_values(|media: LidarrMediaView| MediaItemView::Lidarr(media));
    let entry = |item: MediaItemView| search::combined_entry(item);
    assert forall|j: int| 0 <= j < items.len() implies entry(#[trigger] items[j]) is Some by {}
    lemma_all_kept(items, entry);
    let combined = search::entries(None, items);
    assert(combined[i] == search::tagged_dropdown(results[i]));
    if results[i] is Artist {
        reveal_strlit("Artist");
        reveal_strlit("Artist · ");
        let description = combined[i].description->0;
        assert("Artist"@ =~= description.subrange(0, "Artist"@.len() as int));
    }
}

/// A filtered list shows each result as the result itself asks for.
pub proof fn law_filtered_list_adds_nothing(mode: LidarrSearchMode, results: Seq<MediaItemView>)
    ensures
        search::entries(Some(mode), results).len() == results.len(),
        forall|i: int|
            0 <= i < results.len() ==> #[trigger] search::entries(Some(mode), results)[i]
                == media::item_dropdown(results[i]),
{
}

proof fn lemma_found_is_usable(images: Seq<MediaCoverView>, preferred: models::MediaCoverTypes)
    ensures
        media::chosen_cover(Some(images), preferred) matches Some(url) ==> media::is_usable(url),
{
    seqs::lemma_first_found(images, |cover: MediaCoverView| media::cover_link(cover));
    seqs::lemma_first_found(images, |cover: MediaCoverView| media::kind_link(cover, preferred));
}

/// No thumbnail that Discord would reject is ever shown: any that is shown is an
/// absolute address.
pub proof fn law_thumbnails_are_usable(artist: ArtistView, album: AlbumView)
    ensures
        media::poster_of(artist) matches Some(url) ==> media::is_usable(url),
        media::cover_of(album) matches Some(url) ==> media::is_usable(url),
{
    if text::flat(artist.images) is Some {
        lemma_found_is_usable(text::flat(artist.images)->0, models::MediaCoverTypes::Poster);
    }
    if text::flat(album.images) is Some {
        lemma_found_is_usable(text::flat(album.images)->0, models::MediaCoverTypes::Cover);
    }
}

/// Any usable image beats no thumbnail: an artist or album goes without one only
/// when nothing it comes with is usable.
pub proof fn law_any_usable_image_is_shown(artist: ArtistView, album: AlbumView)
    ensures
        media::poster_of(artist) is None <==> {
            &&& media::usable_only(text::flat(artist.remote_poster)) is None
            &&& text::flat(artist.images) matches Some(images) ==> forall|i: int|
                0 <= i < images.len() ==> media::cover_link(#[trigger] images[i]) is None
        },
        media::cover_of(album) is None <==> {
            &&& media::usable_only(text::flat(album.remote_cover)) is None
            &&& text::flat(album.images) matches Some(images) ==> forall|i: int|
                0 <= i < images.len() ==> media::cover_link(#[trigger] images[i]) is None
        },
{
    if text::flat(artist.images) is Some {
        lemma_no_cover(text::flat(artist.images)->0, models::MediaCoverTypes::Poster);
    }
    if text::flat(album.images) is Some {
        lemma_no_cover(text::flat(album.images)->0, models::MediaCoverTypes::Cover);
    }
}

proof fn lemma_no_cover(images: Seq<MediaCoverView>, preferred: models::MediaCoverTypes)
    ensures
        media::chosen_cover(Some(images), preferred) is None <==> (forall|i: int|
            0 <= i < images.len() ==> media::cover_link(#[trigger] images[i]) is None),
{
    seqs::lemma_first_found(images, |cover: MediaCoverView| media::cover_link(cover));
    seqs::lemma_first_found(images, |cover: MediaCoverView| media::kind_link(cover, preferred));
}

/// The artwork wins over whatever is listed first: as long as one image of the wanted
/// kind is usable, the first of those is shown.
pub proof fn law_preferred_image_wins(
    images: Seq<MediaCoverView>,
    preferred: models::MediaCoverTypes,
    i: int,
)
    requires
        0 <= i < images.len(),
        images[i].cover_type == Some(preferred),
        media::cover_link(images[i]) is Some,
        forall|j: int|
            0 <= j < i ==> (#[trigger] images[j]).cover_type != Some(preferred)
                || media::cover_link(images[j]) is None,
    ensures
        media::chosen_cover(Some(images), preferred) == media::cover_link(images[i]),
{
    let find = |cover: MediaCoverView| media::kind_link(cover, preferred);
    seqs::lemma_first_found(images, find);
    assert(find(images[i]) is Some);
    let k = choose|k: int|
        0 <= k < images.len() && find(#[trigger] images[k]) == seqs::first_found(images, find) && (
        forall|j: int| 0 <= j < k ==> find(#[trigger] images[j]) is None);
    assert(k == i) by {
        if k < i {
            assert(find(images[k]) is None);
        } else if i < k {
            assert(find(images[i]) is None);
        }
    }
}

/// What is shown once a request went through is settled by the answers and the media,
/// as long as overviews of the same text are cut to the same text: two messages for the
/// same ones are the same.
pub proof fn law_messages_are_settled<F: Fn(&str) -> String>(
    shorten: F,
    details: Seq<RequestDetailsView>,
    item: MediaItemView,
    first: SuccessMessageView,
    second: SuccessMessageView,
)
    requires
        display::goes_by_text(shorten),
        display::announces(shorten, details, item, first),
        display::announces(shorten, details, item, second),
    ensures
        first == second,
{
}

/// An album is announced the same way whatever answers come with it: by its artist,
/// where known, and its title, with the whole minutes of a known runtime on its card.
pub proof fn law_album_message_ignores_answers(
    details: Seq<RequestDetailsView>,
    other_details: Seq<RequestDetailsView>,
    album: AlbumView,
    overview: Seq<char>,
)
    ensures
        ({
            let item = MediaItemView::Lidarr(LidarrMediaView::Album(album));
            let message = display::message_of(details, item, overview);
            &&& message == display::message_of(other_details, item, overview)
            &&& message.summary == (match media::artist_name_of(album) {
                Some(artist) => artist + " - "@ + text::or_empty(text::flat(album.title)),
                None => text::or_empty(text::flat(album.title)),
            })
            &&& message.embed_data is Some <==> text::flat(album.foreign_album_id) is Some
            &&& message.embed_data matches Some(card) ==> {
                &&& card.title == message.summary
                &&& card.overview == overview
                &&& card.studio_or_network == media::artist_name_of(album)
                &&& card.runtime_minutes is Some <==> (album.duration matches Some(duration)
                    && duration > 0)
                &&& card.runtime_minutes matches Some(minutes) ==> minutes * 60000
                    <= album.duration->0 < (minutes + 1) * 60000
            }
        }),
{
}

/// The messages that may announce an album do not depend on the answers that come with
/// it, however its overview is cut.
pub proof fn law_album_announcements_ignore_answers<F: Fn(&str) -> String>(
    shorten: F,
    details: Seq<RequestDetailsView>,
    other_details: Seq<RequestDetailsView>,
    album: AlbumView,
    message: SuccessMessageView,
)
    ensures
        display::announces(
            shorten,
            details,
            MediaItemView::Lidarr(LidarrMediaView::Album(album)),
            message,
        ) <==> display::announces(
            shorten,
            other_details,
            MediaItemView::Lidarr(LidarrMediaView::Album(album)),
            message,
        ),
{
}

} // verus!
