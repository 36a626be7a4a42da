//! What is shown of one result, before and after it is requested.
use crate::lidarr::Lidarr;
use crate::media;
use crate::media::{
    album_artist_name, album_cover, artist_poster, detail_of_artist, join_tags, push_tag,
    release_year, LidarrMedia, LidarrMediaView, MediaItem, MediaItemView,
};
use crate::models;
use crate::models::{in_library, AlbumResource, AlbumView, ArtistResource, ArtistView};
use crate::provider::{
    EmbedData, EmbedDataView, MediaDisplayInfo, MediaDisplayInfoView, RequestDetails,
    RequestDetailsView, SuccessMessage, SuccessMessageView,
};
use crate::selection;
use crate::selection::{format_albums, selected_albums};
use crate::text;
use crate::text::{flat_text, text_or_empty};
use vstd::prelude::*;

verus! {

/// Whether a request for an item has nothing left to do. An artist in the library
/// still has albums worth requesting; an album is settled once Lidarr monitors it.
pub open spec fn stops_early(item: MediaItemView) -> bool {
    match item {
        MediaItemView::Lidarr(LidarrMediaView::Album(album)) => models::library_id(album.id)
            is Some && models::is_monitored(album),
        _ => false,
    }
}

/// What is shown of an item before it is requested.
pub open spec fn info_of(item: MediaItemView) -> MediaDisplayInfoView {
    match item {
        MediaItemView::Lidarr(LidarrMediaView::Artist(artist)) => MediaDisplayInfoView {
            title: text::or_empty(text::flat(artist.artist_name)),
            subtitle: media::artist_detail(artist),
            description: text::flat(artist.overview),
            thumbnail_url: media::poster_of(artist),
        },
        MediaItemView::Lidarr(LidarrMediaView::Album(album)) => MediaDisplayInfoView {
            title: text::or_empty(text::flat(album.title)),
            subtitle: media::tag_line(
                media::tag(media::artist_name_of(album)) + media::tag(media::year_text(album)),
            ),
            description: text::flat(album.overview),
            thumbnail_url: media::cover_of(album),
        },
        MediaItemView::Other(_) => MediaDisplayInfoView {
            title: Seq::empty(),
            subtitle: None,
            description: None,
            thumbnail_url: None,
        },
    }
}

/// What was picked of an artist, as it follows the artist's name.
pub open spec fn detail_text(details: Seq<RequestDetailsView>) -> Seq<char> {
    let options = selection::picked_options(details);
    let line = selection::albums_line(selection::picked_titles(options));
    if selection::picked_all(options) {
        " (All Albums)"@
    } else if line.len() == 0 {
        Seq::empty()
    } else {
        " ("@ + line + ")"@
    }
}

/// The genres, or none where Lidarr gives no list.
pub open spec fn genre_list(genres: Option<Option<Seq<Seq<char>>>>) -> Seq<Seq<char>> {
    match text::flat(genres) {
        Some(genres) => genres,
        None => Seq::empty(),
    }
}

/// The whole minutes of a duration in milliseconds. Lidarr leaves the duration at
/// zero for an album it hasn't added yet, so only a positive one is known.
pub open spec fn minutes(duration: Option<i32>) -> Option<u32> {
    match duration {
        Some(duration) => if duration > 0 {
            Some((duration as int / 60000) as u32)
        } else {
            None
        },
        None => None,
    }
}

/// The one line that names an album: its artist, when known, and its title.
pub open spec fn album_summary(album: AlbumView) -> Seq<char> {
    let title = text::or_empty(text::flat(album.title));
    match media::artist_name_of(album) {
        Some(artist) => artist + " - "@ + title,
        None => title,
    }
}

/// Whether the announcement of an item has a card: it does when MusicBrainz knows
/// the item.
pub open spec fn has_card(item: MediaItemView) -> bool {
    match item {
        MediaItemView::Lidarr(LidarrMediaView::Artist(artist)) => text::flat(
            artist.foreign_artist_id,
        ) is Some,
        MediaItemView::Lidarr(LidarrMediaView::Album(album)) => text::flat(album.foreign_album_id)
            is Some,
        MediaItemView::Other(_) => false,
    }
}

/// The overview text that a card shortens.
pub open spec fn overview_of(item: MediaItemView) -> Seq<char> {
    match item {
        MediaItemView::Lidarr(LidarrMediaView::Artist(artist)) => text::or_empty(
            text::flat(artist.overview),
        ),
        MediaItemView::Lidarr(LidarrMediaView::Album(album)) => text::or_empty(
            text::flat(album.overview),
        ),
        MediaItemView::Other(_) => Seq::empty(),
    }
}

/// The announcement of an artist, given the shortened overview.
pub open spec fn artist_message(
    details: Seq<RequestDetailsView>,
    artist: ArtistView,
    overview: Seq<char>,
) -> SuccessMessageView {
    let summary = text::or_empty(text::flat(artist.artist_name)) + detail_text(details);
    SuccessMessageView {
        summary,
        description: "Will be downloaded when available."@,
        thumbnail_url: media::poster_of(artist),
        embed_data: match text::flat(artist.foreign_artist_id) {
            Some(id) => Some(
                EmbedDataView {
                    title: summary,
                    media_type: "Artist"@,
                    overview,
                    poster_url: text::or_empty(media::poster_of(artist)),
                    genres: genre_list(artist.genres),
                    runtime_minutes: None,
                    studio_or_network: None,
                    director: None,
                    external_url: "https://musicbrainz.org/artist/"@ + id,
                },
            ),
            None => None,
        },
    }
}

/// The announcement of an album, given the shortened overview.
pub open spec fn album_message(album: AlbumView, overview: Seq<char>) -> SuccessMessageView {
    SuccessMessageView {
        summary: album_summary(album),
        description: "Will be downloaded when available."@,
        thumbnail_url: media::cover_of(album),
        embed_data: match text::flat(album.foreign_album_id) {
            Some(id) => Some(
                EmbedDataView {
                    title: album_summary(album),
                    media_type: "Album"@,
                    overview,
                    poster_url: text::or_empty(media::cover_of(album)),
                    genres: genre_list(album.genres),
                    runtime_minutes: minutes(album.duration),
                    studio_or_network: media::artist_name_of(album),
                    director: None,
                    external_url: "https://musicbrainz.org/release-group/"@ + id,
                },
            ),
            None => None,
        },
    }
}

/// What is shown once a request went through, given the shortened overview.
pub open spec fn message_of(
    details: Seq<RequestDetailsView>,
    item: MediaItemView,
    overview: Seq<char>,
) -> SuccessMessageView {
    match item {
        MediaItemView::Lidarr(LidarrMediaView::Artist(artist)) => artist_message(
            details,
            artist,
            overview,
        ),
        MediaItemView::Lidarr(LidarrMediaView::Album(album)) => album_message(album, overview),
        MediaItemView::Other(_) => SuccessMessageView {
            summary: "Request submitted"@,
            description: "Will be downloaded when available."@,
            thumbnail_url: None,
            embed_data: None,
        },
    }
}

/// Whether what a function makes of a text depends on the characters alone.
pub open spec fn goes_by_text<F: Fn(&str) -> String>(shorten: F) -> bool {
    forall|first: &str, second: &str, short_first: String, short_second: String|
        first@ == second@ && #[trigger] shorten.ensures((first,), short_first)
            && #[trigger] shorten.ensures((second,), short_second) ==> short_first@
            == short_second@
}

/// Whether a message is one that announces an item: its card, where it has one, holds
/// what the shortening function makes of the overview.
pub open spec fn announces<F: Fn(&str) -> String>(
    shorten: F,
    details: Seq<RequestDetailsView>,
    item: MediaItemView,
    message: SuccessMessageView,
) -> bool {
    if has_card(item) {
        exists|overview: &str, short: String|
            overview@ == overview_of(item) && #[trigger] shorten.ensures((overview,), short)
                && message == message_of(details, item, short@)
    } else {
        message == message_of(details, item, Seq::empty())
    }
}

fn copy_text(text: &Option<String>) -> (copy: Option<String>)
    ensures
        copy.deep_view() == text.deep_view(),
{
    match text {
        Some(text) => Some(text.clone()),
        None => None,
    }
}

fn copy_genres(genres: &Option<Option<Vec<String>>>) -> (copy: Vec<String>)
    ensures
        copy.deep_view() == genre_list(genres.deep_view()),
{
    match genres {
        Some(Some(genres)) => {
            let copy = genres.clone();
            assert(copy.deep_view() =~= genres.deep_view());
            copy
        },
        _ => {
            let none: Vec<String> = Vec::new();
            assert(none.deep_view() =~= Seq::empty());
            none
        },
    }
}

fn picked_text(details: &[RequestDetails]) -> (line: String)
    ensures
        line@ == detail_text(details.deep_view()),
{
    let (titles, all_albums) = selected_albums(details);
    if all_albums {
        " (All Albums)".to_owned()
    } else {
        let line = format_albums(titles.as_slice());
        if line.as_str().is_empty() {
            String::new()
        } else {
            " (".to_owned().concat(line.as_str()).concat(")")
        }
    }
}

fn known_minutes(duration: Option<i32>) -> (known: Option<u32>)
    ensures
        known == minutes(duration),
{
    match duration {
        Some(duration) => if duration > 0 {
            Some((duration as u32) / 60000)
        } else {
            None
        },
        None => None,
    }
}

fn announce_artist(
    details: &[RequestDetails],
    artist: &ArtistResource,
    overview: String,
) -> (message: SuccessMessage)
    ensures
        message.deep_view() == artist_message(
            details.deep_view(),
            artist.deep_view(),
            overview@,
        ),
{
    let poster = artist_poster(artist);
    let summary = text_or_empty(flat_text(&artist.artist_name)).concat(
        picked_text(details).as_str(),
    );
    let embed_data = match flat_text(&artist.foreign_artist_id) {
        Some(id) => Some(
            EmbedData {
                title: summary.clone(),
                media_type: "Artist",
                overview,
                poster_url: text_or_empty(copy_text(&poster)),
                genres: copy_genres(&artist.genres),
                runtime_minutes: None,
                studio_or_network: None,
                director: None,
                external_url: "https://musicbrainz.org/artist/".to_owned().concat(id.as_str()),
            },
        ),
        None => None,
    };
    SuccessMessage {
        summary,
        description: "Will be downloaded when available.".to_owned(),
        thumbnail_url: poster,
        embed_data,
    }
}

fn announce_album(album: &AlbumResource, overview: String) -> (message: SuccessMessage)
    ensures
        message.deep_view() == album_message(album.deep_view(), overview@),
{
    let title = text_or_empty(flat_text(&album.title));
    let artist = album_artist_name(album);
    let cover = album_cover(album);
    let summary = match &artist {
        Some(artist) => artist.clone().concat(" - ").concat(title.as_str()),
        None => title,
    };
    let embed_data = match flat_text(&album.foreign_album_id) {
        Some(id) => Some(
            EmbedData {
                title: summary.clone(),
                media_type: "Album",
                overview,
                poster_url: text_or_empty(copy_text(&cover)),
                genres: copy_genres(&album.genres),
                runtime_minutes: known_minutes(album.duration),
                studio_or_network: artist,
                director: None,
                external_url: "https://musicbrainz.org/release-group/".to_owned().concat(
                    id.as_str(),
                ),
            },
        ),
        None => None,
    };
    SuccessMessage {
        summary,
        description: "Will be downloaded when available.".to_owned(),
        thumbnail_url: cover,
        embed_data,
    }
}

/// The overview of an item whose announcement has a card.
fn card_overview(media: &MediaItem) -> (overview: Option<String>)
    ensures
        overview is Some <==> has_card(media.deep_view()),
        overview matches Some(overview) ==> overview@ == overview_of(media.deep_view()),
{
    match media {
        MediaItem::Lidarr(LidarrMedia::Artist(artist)) => match &artist.foreign_artist_id {
            Some(Some(_)) => Some(text_or_empty(flat_text(&artist.overview))),
            _ => None,
        },
        MediaItem::Lidarr(LidarrMedia::Album(album)) => match &album.foreign_album_id {
            Some(Some(_)) => Some(text_or_empty(flat_text(&album.overview))),
            _ => None,
        },
        MediaItem::Other(_) => None,
    }
}

impl Lidarr {
    /// Whether a request for the media has nothing left to do.
    pub fn early_stop(&self, media: &MediaItem) -> (stop: bool)
        ensures
            stop == stops_early(media.deep_view()),
    {
        match media {
            // Adding an artist gives Lidarr a row for their whole discography, so
            // an id only means Lidarr knows the album. Monitoring is what tells us
            // somebody actually asked for it.
            MediaItem::Lidarr(LidarrMedia::Album(album)) => in_library(album.id).is_some()
                && album.is_monitored(),
            _ => false,
        }
    }

    /// What is shown of the media before it is requested.
    pub fn display_info(&self, media: &MediaItem) -> (info: MediaDisplayInfo)
        ensures
            info.deep_view() == info_of(media.deep_view()),
    {
        match media {
            MediaItem::Lidarr(LidarrMedia::Artist(artist)) => MediaDisplayInfo {
                title: text_or_empty(flat_text(&artist.artist_name)),
                subtitle: detail_of_artist(artist),
                description: flat_text(&artist.overview),
                thumbnail_url: artist_poster(artist),
            },
            MediaItem::Lidarr(LidarrMedia::Album(album)) => {
                let mut tags: Vec<String> = Vec::new();
                assert(tags.deep_view() =~= Seq::empty());
                push_tag(&mut tags, album_artist_name(album));
                push_tag(&mut tags, release_year(album));
                assert(tags.deep_view() =~= media::tag(
                    media::artist_name_of(album.deep_view()),
                ) + media::tag(media::year_text(album.deep_view())));
                MediaDisplayInfo {
                    title: text_or_empty(flat_text(&album.title)),
                    subtitle: join_tags(&tags),
                    description: flat_text(&album.overview),
                    thumbnail_url: album_cover(album),
                }
            },
            MediaItem::Other(_) => MediaDisplayInfo {
                title: String::new(),
                subtitle: None,
                description: None,
                thumbnail_url: None,
            },
        }
    }

    /// What is shown once a request for the media went through. `overview` is as much
    /// of the media's overview as a card has room for.
    pub fn success_message(
        &self,
        details: &[RequestDetails],
        media: &MediaItem,
        overview: String,
    ) -> (message: SuccessMessage)
        ensures
            message.deep_view() == message_of(
                details.deep_view(),
                media.deep_view(),
                overview@,
            ),
    {
        match media {
            MediaItem::Lidarr(LidarrMedia::Artist(artist)) => announce_artist(
                details,
                artist,
                overview,
            ),
            MediaItem::Lidarr(LidarrMedia::Album(album)) => announce_album(album, overview),
            MediaItem::Other(_) => SuccessMessage {
                summary: "Request submitted".to_owned(),
                description: "Will be downloaded when available.".to_owned(),
                thumbnail_url: None,
                embed_data: None,
            },
        }
    }

    /// What is shown once a request for the media went through. `shorten` cuts the
    /// overview down to what a card has room for, where there is a card.
    pub fn announce<F: Fn(&str) -> String>(
        &self,
        details: &[RequestDetails],
        media: &MediaItem,
        shorten: F,
    ) -> (message: SuccessMessage)
        requires
            forall|overview: &str| #[trigger] shorten.requires((overview,)),
        ensures
            announces(shorten, details.deep_view(), media.deep_view(), message.deep_view()),
    {
        let overview = match card_overview(media) {
            Some(overview) => shorten(overview.as_str()),
            None => String::new(),
        };
        self.success_message(details, media, overview)
    }
}

} // verus!
