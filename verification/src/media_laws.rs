//! What holds of what is shown: images, entries, introductions and announcements.
use crate::date;
use crate::date::ReleaseDateView;
use crate::display;
use crate::media;
use crate::media::{LidarrMediaView, MediaItemView};
use crate::models::{AlbumView, ArtistView, MediaCoverTypes, MediaCoverView};
use crate::provider::{
    DropdownOptionView, EmbedDataView, MediaDisplayInfoView, RequestDetailsView, SelectableIdView,
    SuccessMessageView,
};
use crate::search;
use crate::selection;
use crate::seqs;
use crate::text;
use vstd::prelude::*;

verus! {

/// Whether a field reads as some words: it holds them, or holds nothing and they are
/// empty.
pub open spec fn reads(field: Option<Option<Seq<char>>>, words: Seq<char>) -> bool {
    match field {
        Some(Some(held)) => held == words,
        _ => words == Seq::<char>::empty(),
    }
}

/// Whether an address is absolute.
pub open spec fn absolute(url: Seq<char>) -> bool {
    "https://"@.is_prefix_of(url) || "http://"@.is_prefix_of(url)
}

/// Whether a field gives an absolute address.
pub open spec fn gives(field: Option<Option<Seq<char>>>, url: Seq<char>) -> bool {
    field == Some(Some(url)) && absolute(url)
}

/// Whether a field gives no absolute address.
pub open spec fn gives_none(field: Option<Option<Seq<char>>>) -> bool {
    field matches Some(Some(url)) ==> !absolute(url)
}

/// An address can be shown exactly when it is absolute, and is shown as it stands.
pub proof fn law_absolute_addresses_are_kept(url: Seq<char>)
    ensures
        media::is_usable(url) <==> absolute(url),
        absolute(url) ==> media::usable_only(Some(url)) == Some(url),
        !absolute(url) ==> media::usable_only(Some(url)) is None,
        media::usable_only(None) is None,
{
}

/// The first image of the wanted kind that gives an address is shown. Where none of that
/// kind does, it is the first of any kind that does, and where none does, there is none.
pub proof fn law_wanted_images_come_first(
    images: Seq<MediaCoverView>,
    wanted: MediaCoverTypes,
    place: int,
    url: Seq<char>,
)
    ensures
        media::chosen_cover(None, wanted) is None,
        (forall|j: int| 0 <= j < images.len() ==> gives_none((#[trigger] images[j]).remote_url))
            ==> media::chosen_cover(Some(images), wanted) is None,
        0 <= place < images.len() && gives(images[place].remote_url, url)
            && images[place].cover_type == Some(wanted) && (forall|j: int|
            0 <= j < place && (#[trigger] images[j]).cover_type == Some(wanted) ==> gives_none(
                images[j].remote_url,
            )) ==> media::chosen_cover(Some(images), wanted) == Some(url),
        0 <= place < images.len() && gives(images[place].remote_url, url) && (forall|j: int|
            0 <= j < images.len() && (#[trigger] images[j]).cover_type == Some(wanted)
                ==> gives_none(images[j].remote_url)) && (forall|j: int|
            0 <= j < place ==> gives_none((#[trigger] images[j]).remote_url))
            ==> media::chosen_cover(Some(images), wanted) == Some(url),
{
    let any = |cover: MediaCoverView| media::cover_link(cover);
    let own = |cover: MediaCoverView| media::kind_link(cover, wanted);
    seqs::lemma_first_found(images, any);
    seqs::lemma_first_found(images, own);
    assert forall|j: int| 0 <= j < images.len() implies (any(#[trigger] images[j]) is None
        <==> gives_none(images[j].remote_url)) by {}
    assert forall|j: int| 0 <= j < images.len() implies (own(#[trigger] images[j]) is None <==> (
    images[j].cover_type == Some(wanted) ==> gives_none(images[j].remote_url))) by {}
    if 0 <= place < images.len() && gives(images[place].remote_url, url) {
        assert(any(images[place]) == Some(url));
        if seqs::first_found(images, own) is Some {
            let k = choose|k: int|
                0 <= k < images.len() && own(#[trigger] images[k]) == seqs::first_found(images, own)
                    && (forall|j: int| 0 <= j < k ==> own(#[trigger] images[j]) is None);
            if images[place].cover_type == Some(wanted) {
                assert(own(images[place]) == Some(url));
                assert(place < k ==> own(images[place]) is None);
            }
            assert(images[k].cover_type == Some(wanted));
        } else {
            let k = choose|k: int|
                0 <= k < images.len() && any(#[trigger] images[k]) == seqs::first_found(images, any)
                    && (forall|j: int| 0 <= j < k ==> any(#[trigger] images[j]) is None);
            assert(place < k ==> any(images[place]) is None);
            assert(own(images[place]) is None);
        }
    }
}

/// The address an artist comes with is shown where it is absolute; else it is that of
/// the artist's images, a poster before any other.
pub proof fn law_artist_image(artist: ArtistView, url: Seq<char>)
    ensures
        gives(artist.remote_poster, url) ==> media::poster_of(artist) == Some(url),
        gives_none(artist.remote_poster) ==> media::poster_of(artist) == (match artist.images {
            Some(Some(images)) => media::chosen_cover(Some(images), MediaCoverTypes::Poster),
            _ => None,
        }),
{
}

/// The address an album comes with is shown where it is absolute; else it is that of the
/// album's images, a cover before any other.
pub proof fn law_album_image(album: AlbumView, url: Seq<char>)
    ensures
        gives(album.remote_cover, url) ==> media::cover_of(album) == Some(url),
        gives_none(album.remote_cover) ==> media::cover_of(album) == (match album.images {
            Some(Some(images)) => media::chosen_cover(Some(images), MediaCoverTypes::Cover),
            _ => None,
        }),
{
}

/// Whether a detail is what tells an artist apart: a disambiguation that says something,
/// else the artist type.
pub open spec fn tells_apart(artist: ArtistView, detail: Option<Seq<char>>) -> bool {
    match artist.disambiguation {
        Some(Some(words)) => if words.len() > 0 {
            detail == Some(words)
        } else {
            is_type(artist, detail)
        },
        _ => is_type(artist, detail),
    }
}

/// Whether a detail is the type of an artist.
pub open spec fn is_type(artist: ArtistView, detail: Option<Seq<char>>) -> bool {
    match artist.artist_type {
        Some(Some(words)) => detail == Some(words),
        _ => detail is None,
    }
}

/// Whether a name is that of an album's artist, as far as the album says.
pub open spec fn is_by(album: AlbumView, name: Option<Seq<char>>) -> bool {
    match album.artist {
        Some(artist) => match artist.artist_name {
            Some(Some(words)) => name == Some(words),
            _ => name is None,
        },
        None => name is None,
    }
}

/// Whether a year is the one that an album came out in, in decimal, as far as the album
/// says.
pub open spec fn is_of(album: AlbumView, year: Option<Seq<char>>) -> bool {
    match album.release_date {
        Some(Some(date)) => year == Some(text::decimal(date::year_of(date))),
        _ => year is None,
    }
}

/// The id of an entry.
pub open spec fn entry_id(id: Option<i32>) -> Option<SelectableIdView> {
    match id {
        Some(id) => Some(SelectableIdView::Integer(id)),
        None => None,
    }
}

proof fn lemma_joined_few(a: Seq<char>, b: Seq<char>, c: Seq<char>, separator: Seq<char>)
    ensures
        text::joined(seq![a], separator) == a,
        text::joined(seq![a, b], separator) == a + separator + b,
        text::joined(seq![a, b, c], separator) == a + separator + b + separator + c,
{
    reveal_with_fuel(text::joined, 4);
    assert(seq![a, b].drop_first() =~= seq![b]);
    assert(seq![a, b, c].drop_first() =~= seq![b, c]);
    assert(seq![b, c].drop_first() =~= seq![c]);
    assert(text::joined(seq![a, b, c], separator) =~= a + separator + b + separator + c);
}

/// An artist's entry has the artist's name and id, and says what tells the artist apart,
/// then whether the artist has a row in the library.
pub proof fn law_artist_entry(artist: ArtistView, name: Seq<char>, detail: Option<Seq<char>>)
    requires
        reads(artist.artist_name, name),
        tells_apart(artist, detail),
    ensures
        ({
            let known = artist.id matches Some(id) && id > 0;
            media::dropdown_of(LidarrMediaView::Artist(artist)) == (DropdownOptionView {
                title: name,
                description: match detail {
                    Some(words) => if known {
                        Some(words + " · "@ + "In library"@)
                    } else {
                        Some(words)
                    },
                    None => if known {
                        Some("In library"@)
                    } else {
                        None
                    },
                },
                id: entry_id(artist.id),
            })
        }),
{
    let known = artist.id matches Some(id) && id > 0;
    let tags = media::artist_tags(artist);
    match detail {
        Some(words) => {
            lemma_joined_few(words, "In library"@, "In library"@, " · "@);
            if known {
                assert(tags =~= seq![words, "In library"@]);
            } else {
                assert(tags =~= seq![words]);
            }
        },
        None => {
            lemma_joined_few("In library"@, "In library"@, "In library"@, " · "@);
            if known {
                assert(tags =~= seq!["In library"@]);
            } else {
                assert(tags =~= Seq::empty());
            }
        },
    }
}

/// An album's entry has the album's title and id, and says its release type, `Album`
/// where it has none, then its artist and its year, as far as they are known.
pub proof fn law_album_entry(
    album: AlbumView,
    title: Seq<char>,
    kind: Seq<char>,
    name: Option<Seq<char>>,
    year: Option<Seq<char>>,
)
    requires
        reads(album.title, title),
        match album.album_type {
            Some(Some(words)) => kind == (if words.len() > 0 {
                words
            } else {
                "Album"@
            }),
            _ => kind == "Album"@,
        },
        is_by(album, name),
        is_of(album, year),
    ensures
        media::dropdown_of(LidarrMediaView::Album(album)) == (DropdownOptionView {
            title,
            description: Some(
                match (name, year) {
                    (Some(name), Some(year)) => kind + " · "@ + name + " · "@ + year,
                    (Some(name), None) => kind + " · "@ + name,
                    (None, Some(year)) => kind + " · "@ + year,
                    (None, None) => kind,
                },
            ),
            id: entry_id(album.id),
        }),
{
    let tags = media::album_tags(album);
    match (name, year) {
        (Some(name), Some(year)) => {
            lemma_joined_few(kind, name, year, " · "@);
            assert(tags =~= seq![kind, name, year]);
        },
        (Some(name), None) => {
            lemma_joined_few(kind, name, name, " · "@);
            assert(tags =~= seq![kind, name]);
        },
        (None, Some(year)) => {
            lemma_joined_few(kind, year, year, " · "@);
            assert(tags =~= seq![kind, year]);
        },
        (None, None) => {
            lemma_joined_few(kind, kind, kind, " · "@);
            assert(tags =~= seq![kind]);
        },
    }
}

/// Media of another backend is listed by the entry it asks for.
pub proof fn law_items_are_listed_by_their_entries(
    result: LidarrMediaView,
    option: DropdownOptionView,
)
    ensures
        media::item_dropdown(MediaItemView::Lidarr(result)) == media::dropdown_of(result),
        media::item_dropdown(MediaItemView::Other(option)) == option,
{
}

/// One more result adds its entry at the end of a list. Where both kinds share the list
/// an artist's entry leads with its kind, and media of another backend adds none.
pub proof fn law_lists_grow_by_their_results(
    results: Seq<MediaItemView>,
    item: MediaItemView,
    mode: crate::config::LidarrSearchMode,
)
    ensures
        search::entries(None, Seq::empty()) == Seq::<DropdownOptionView>::empty(),
        search::entries(Some(mode), Seq::empty()) == Seq::<DropdownOptionView>::empty(),
        search::entries(Some(mode), results.push(item)) == search::entries(
            Some(mode),
            results,
        ).push(media::item_dropdown(item)),
        search::entries(None, results.push(item)) == (match item {
            MediaItemView::Lidarr(LidarrMediaView::Artist(artist)) => {
                let own = media::dropdown_of(LidarrMediaView::Artist(artist));
                search::entries(None, results).push(
                    DropdownOptionView {
                        title: own.title,
                        description: match own.description {
                            Some(words) => Some("Artist · "@ + words),
                            None => Some("Artist"@),
                        },
                        id: own.id,
                    },
                )
            },
            MediaItemView::Lidarr(LidarrMediaView::Album(album)) => search::entries(
                None,
                results,
            ).push(media::dropdown_of(LidarrMediaView::Album(album))),
            MediaItemView::Other(_) => search::entries(None, results),
        }),
{
    reveal(Seq::filter_map);
    assert(results.push(item).drop_last() =~= results);
    assert(search::entries(Some(mode), results.push(item)) =~= search::entries(
        Some(mode),
        results,
    ).push(media::item_dropdown(item)));
}

/// A request stops early exactly for an album with a positive id that Lidarr says it
/// monitors. An album without a row goes ahead whatever it says of its monitoring, and so
/// do artists and media of other backends.
pub proof fn law_early_stops(album: AlbumView, artist: ArtistView, option: DropdownOptionView)
    ensures
        album.id is None ==> !display::stops_early(
            MediaItemView::Lidarr(LidarrMediaView::Album(album)),
        ),
        album.id matches Some(id) ==> id <= 0 ==> !display::stops_early(
            MediaItemView::Lidarr(LidarrMediaView::Album(album)),
        ),
        album.id matches Some(id) ==> id > 0 ==> (display::stops_early(
            MediaItemView::Lidarr(LidarrMediaView::Album(album)),
        ) <==> album.monitored == Some(true)),
        !display::stops_early(MediaItemView::Lidarr(LidarrMediaView::Artist(artist))),
        !display::stops_early(MediaItemView::Other(option)),
{
}

/// Whether words are what a field holds, where it holds any.
pub open spec fn holds(field: Option<Option<Seq<char>>>, words: Option<Seq<char>>) -> bool {
    match field {
        Some(Some(held)) => words == Some(held),
        _ => words is None,
    }
}

/// An artist is introduced by name, by what tells the artist apart, and by the artist's
/// overview and image.
pub proof fn law_artist_introduction(
    artist: ArtistView,
    name: Seq<char>,
    detail: Option<Seq<char>>,
    overview: Option<Seq<char>>,
)
    requires
        reads(artist.artist_name, name),
        tells_apart(artist, detail),
        holds(artist.overview, overview),
    ensures
        display::info_of(MediaItemView::Lidarr(LidarrMediaView::Artist(artist))) == (
        MediaDisplayInfoView {
            title: name,
            subtitle: detail,
            description: overview,
            thumbnail_url: media::poster_of(artist),
        }),
{
}

/// An album is introduced by its title, by its artist and year as far as they are known,
/// and by its overview and cover.
pub proof fn law_album_introduction(
    album: AlbumView,
    title: Seq<char>,
    name: Option<Seq<char>>,
    year: Option<Seq<char>>,
    overview: Option<Seq<char>>,
)
    requires
        reads(album.title, title),
        is_by(album, name),
        is_of(album, year),
        holds(album.overview, overview),
    ensures
        display::info_of(MediaItemView::Lidarr(LidarrMediaView::Album(album))) == (
        MediaDisplayInfoView {
            title,
            subtitle: match (name, year) {
                (Some(name), Some(year)) => Some(name + " · "@ + year),
                (Some(name), None) => Some(name),
                (None, year) => year,
            },
            description: overview,
            thumbnail_url: media::cover_of(album),
        }),
{
    let tags = media::tag(media::artist_name_of(album)) + media::tag(media::year_text(album));
    match (name, year) {
        (Some(name), Some(year)) => {
            lemma_joined_few(name, year, year, " · "@);
            assert(tags =~= seq![name, year]);
        },
        (Some(name), None) => {
            lemma_joined_few(name, name, name, " · "@);
            assert(tags =~= seq![name]);
        },
        (None, Some(year)) => {
            lemma_joined_few(year, year, year, " · "@);
            assert(tags =~= seq![year]);
        },
        (None, None) => {
            assert(tags =~= Seq::empty());
        },
    }
}

/// Nothing is said of media of another backend before it is requested, and only that it
/// was requested afterwards.
pub proof fn law_foreign_media_is_not_described(
    details: Seq<RequestDetailsView>,
    option: DropdownOptionView,
    overview: Seq<char>,
)
    ensures
        display::info_of(MediaItemView::Other(option)) == (MediaDisplayInfoView {
            title: Seq::empty(),
            subtitle: None,
            description: None,
            thumbnail_url: None,
        }),
        display::message_of(details, MediaItemView::Other(option), overview) == (
        SuccessMessageView {
            summary: "Request submitted"@,
            description: "Will be downloaded when available."@,
            thumbnail_url: None,
            embed_data: None,
        }),
{
}

/// What was picked follows the name of an artist in brackets: all albums, the one album,
/// or how many there are. Nothing follows where nothing was picked.
pub proof fn law_picks_follow_the_name(details: Seq<RequestDetailsView>)
    ensures
        ({
            let options = selection::picked_options(details);
            let titles = selection::picked_titles(options);
            let said = display::detail_text(details);
            &&& selection::picked_all(options) ==> said == " (All Albums)"@
            &&& !selection::picked_all(options) && titles.len() == 0 ==> said == Seq::<
                char,
            >::empty()
            &&& !selection::picked_all(options) && titles.len() == 1 && titles[0].len() == 0
                ==> said == Seq::<char>::empty()
            &&& !selection::picked_all(options) && titles.len() == 1 && titles[0].len() > 0
                ==> said == " ("@ + titles[0] + ")"@
            &&& !selection::picked_all(options) && titles.len() > 1 ==> said == " ("@ + (
            text::digits(titles.len()) + " albums"@) + ")"@
        }),
{
    reveal_strlit(" albums");
}

/// Whether a list is what a field holds, or is empty where it holds none.
pub open spec fn lists(
    field: Option<Option<Seq<Seq<char>>>>,
    genres: Seq<Seq<char>>,
) -> bool {
    match field {
        Some(Some(held)) => held == genres,
        _ => genres == Seq::<Seq<char>>::empty(),
    }
}

/// An artist is announced by name and by what was picked, with the artist's image. There
/// is a card exactly where MusicBrainz knows the artist, and it links there.
pub proof fn law_artist_announcement(
    details: Seq<RequestDetailsView>,
    artist: ArtistView,
    name: Seq<char>,
    genres: Seq<Seq<char>>,
    overview: Seq<char>,
)
    requires
        reads(artist.artist_name, name),
        lists(artist.genres, genres),
    ensures
        display::message_of(
            details,
            MediaItemView::Lidarr(LidarrMediaView::Artist(artist)),
            overview,
        ) == (SuccessMessageView {
            summary: name + display::detail_text(details),
            description: "Will be downloaded when available."@,
            thumbnail_url: media::poster_of(artist),
            embed_data: match artist.foreign_artist_id {
                Some(Some(id)) => Some(
                    EmbedDataView {
                        title: name + display::detail_text(details),
                        media_type: "Artist"@,
                        overview,
                        poster_url: match media::poster_of(artist) {
                            Some(url) => url,
                            None => Seq::empty(),
                        },
                        genres,
                        runtime_minutes: None,
                        studio_or_network: None,
                        director: None,
                        external_url: "https://musicbrainz.org/artist/"@ + id,
                    },
                ),
                _ => None,
            },
        }),
{
}

/// An album is announced by its artist, where known, and its title, with its cover. There
/// is a card exactly where MusicBrainz knows the album, and it links there; it tells the
/// runtime in whole minutes, where Lidarr gives one in milliseconds.
pub proof fn law_album_announcement(
    details: Seq<RequestDetailsView>,
    album: AlbumView,
    title: Seq<char>,
    name: Option<Seq<char>>,
    genres: Seq<Seq<char>>,
    overview: Seq<char>,
)
    requires
        reads(album.title, title),
        is_by(album, name),
        lists(album.genres, genres),
    ensures
        ({
            let summary = match name {
                Some(name) => name + " - "@ + title,
                None => title,
            };
            display::message_of(
                details,
                MediaItemView::Lidarr(LidarrMediaView::Album(album)),
                overview,
            ) == (SuccessMessageView {
                summary,
                description: "Will be downloaded when available."@,
                thumbnail_url: media::cover_of(album),
                embed_data: match album.foreign_album_id {
                    Some(Some(id)) => Some(
                        EmbedDataView {
                            title: summary,
                            media_type: "Album"@,
                            overview,
                            poster_url: match media::cover_of(album) {
                                Some(url) => url,
                                None => Seq::empty(),
                            },
                            genres,
                            runtime_minutes: match album.duration {
                                Some(duration) => if duration > 0 {
                                    Some((duration as int / 60000) as u32)
                                } else {
                                    None
                                },
                                None => None,
                            },
                            studio_or_network: name,
                            director: None,
                            external_url: "https://musicbrainz.org/release-group/"@ + id,
                        },
                    ),
                    _ => None,
                },
            })
        }),
{
}

/// An artist or album has a card exactly where MusicBrainz knows it, and what the card
/// shortens is its overview.
pub proof fn law_cards_shorten_the_overview(
    artist: ArtistView,
    album: AlbumView,
    option: DropdownOptionView,
    artist_overview: Seq<char>,
    album_overview: Seq<char>,
)
    requires
        reads(artist.overview, artist_overview),
        reads(album.overview, album_overview),
    ensures
        display::has_card(MediaItemView::Lidarr(LidarrMediaView::Artist(artist))) <==> (
        artist.foreign_artist_id matches Some(Some(_))),
        display::has_card(MediaItemView::Lidarr(LidarrMediaView::Album(album))) <==> (
        album.foreign_album_id matches Some(Some(_))),
        !display::has_card(MediaItemView::Other(option)),
        display::overview_of(MediaItemView::Lidarr(LidarrMediaView::Artist(artist)))
            == artist_overview,
        display::overview_of(MediaItemView::Lidarr(LidarrMediaView::Album(album)))
            == album_overview,
{
}

/// An announcement is the message with the overview as the shortening function leaves it;
/// without a card there is no overview in it.
pub proof fn law_announcements_hold_the_shortened_overview<F: Fn(&str) -> String>(
    shorten: F,
    details: Seq<RequestDetailsView>,
    item: MediaItemView,
    message: SuccessMessageView,
    other: Seq<char>,
)
    requires
        display::announces(shorten, details, item, message),
    ensures
        display::has_card(item) ==> exists|overview: &str, short: String|
            overview@ == display::overview_of(item) && #[trigger] shorten.ensures(
                (overview,),
                short,
            ) && message == display::message_of(details, item, short@),
        !display::has_card(item) ==> message == display::message_of(details, item, other)
            && message.embed_data is None,
{
}

/// A year is told in decimal and is the year of the album's date, where it has one.
pub proof fn law_years_are_told(album: AlbumView, date: ReleaseDateView)
    ensures
        album.release_date == Some(Some(date)) ==> media::date_of(album) == Some(date)
            && media::year_text(album) == Some(text::decimal(date::year_of(date))),
        !(album.release_date matches Some(Some(_))) ==> media::date_of(album) is None
            && media::year_text(album) is None,
{
}

/// The artist of an album is the one that the album names.
pub proof fn law_albums_name_their_artist(album: AlbumView, name: Option<Seq<char>>)
    requires
        is_by(album, name),
    ensures
        media::artist_name_of(album) == name,
{
}

/// What tells an artist apart is the disambiguation where it says something.
pub proof fn law_artists_are_told_apart(artist: ArtistView, detail: Option<Seq<char>>)
    requires
        tells_apart(artist, detail),
    ensures
        media::artist_detail(artist) == detail,
{
}

/// Tags stand in one line with a dot between them; without tags there is no line. One
/// more tag comes last.
pub proof fn law_tags_stand_in_one_line(tags: Seq<Seq<char>>, words: Seq<char>, id: i32)
    ensures
        tags.len() == 0 ==> media::tag_line(tags) is None,
        tags.len() > 0 ==> media::tag_line(tags) == Some(text::joined(tags, " · "@)),
        media::tag(Some(words)) == seq![words],
        media::tag(None) == Seq::<Seq<char>>::empty(),
        media::option_id(Some(id)) == Some(SelectableIdView::Integer(id)),
        media::option_id(None) is None,
{
}

} // verus!
