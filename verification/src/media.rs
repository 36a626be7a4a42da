//! Search results, and what is shown of them.
use crate::date;
use crate::models;
use crate::models::{
    in_library, AlbumResource, AlbumView, ArtistResource, ArtistView, MediaCover, MediaCoverTypes,
    MediaCoverView,
};
use crate::provider::{DropdownOption, DropdownOptionView, SelectableId, SelectableIdView};
use crate::seqs;
use crate::text;
use crate::text::{
    flat_text, integer_text, join, non_empty_text, push_item, starts_with, text_or_empty,
};
use vstd::prelude::*;

verus! {

/// A Lidarr search result. Artist and album searches return different resources,
/// but they share one list.
#[derive(Clone, Debug)]
pub enum LidarrMedia {
    Artist(ArtistResource),
    Album(AlbumResource),
}

/// Something a backend was handed as media.
#[derive(Debug)]
pub enum MediaItem {
    /// A result of this backend
    Lidarr(LidarrMedia),
    /// A result of another backend, by the entry it asks for
    Other(DropdownOption),
}

/// The contents of a `LidarrMedia`.
#[verifier::ext_equal]
pub enum LidarrMediaView {
    Artist(ArtistView),
    Album(AlbumView),
}

/// The contents of a `MediaItem`.
#[verifier::ext_equal]
pub enum MediaItemView {
    Lidarr(LidarrMediaView),
    Other(DropdownOptionView),
}

impl DeepView for LidarrMedia {
    type V = LidarrMediaView;

    open spec fn deep_view(&self) -> LidarrMediaView {
        match self {
            LidarrMedia::Artist(artist) => LidarrMediaView::Artist(artist.deep_view()),
            LidarrMedia::Album(album) => LidarrMediaView::Album(album.deep_view()),
        }
    }
}

impl DeepView for MediaItem {
    type V = MediaItemView;

    open spec fn deep_view(&self) -> MediaItemView {
        match self {
            MediaItem::Lidarr(media) => MediaItemView::Lidarr(media.deep_view()),
            MediaItem::Other(option) => MediaItemView::Other(option.deep_view()),
        }
    }
}

/// Whether Discord takes a text as the address of an image: it is absolute.
pub open spec fn is_usable(url: Seq<char>) -> bool {
    "https://"@.is_prefix_of(url) || "http://"@.is_prefix_of(url)
}

/// The address when Discord takes it.
pub open spec fn usable_only(candidate: Option<Seq<char>>) -> Option<Seq<char>> {
    match candidate {
        Some(url) => if is_usable(url) {
            Some(url)
        } else {
            None
        },
        None => None,
    }
}

/// The usable address of an image.
pub open spec fn cover_link(cover: MediaCoverView) -> Option<Seq<char>> {
    usable_only(text::flat(cover.remote_url))
}

/// The usable address of an image of a kind.
pub open spec fn kind_link(cover: MediaCoverView, kind: MediaCoverTypes) -> Option<Seq<char>> {
    if cover.cover_type == Some(kind) {
        cover_link(cover)
    } else {
        None
    }
}

/// The first usable address among the images of a kind.
pub open spec fn link_of_kind(
    images: Seq<MediaCoverView>,
    kind: MediaCoverTypes,
) -> Option<Seq<char>> {
    seqs::first_found(images, |cover: MediaCoverView| kind_link(cover, kind))
}

/// The first usable address among the images.
pub open spec fn any_link(images: Seq<MediaCoverView>) -> Option<Seq<char>> {
    seqs::first_found(images, |cover: MediaCoverView| cover_link(cover))
}

/// The first usable address among the images of the wanted kind, else among all of
/// them.
pub open spec fn chosen_cover(
    images: Option<Seq<MediaCoverView>>,
    preferred: MediaCoverTypes,
) -> Option<Seq<char>> {
    match images {
        Some(images) => text::either(link_of_kind(images, preferred), any_link(images)),
        None => None,
    }
}

/// The best available cover art for an album.
pub open spec fn cover_of(album: AlbumView) -> Option<Seq<char>> {
    text::either(
        usable_only(text::flat(album.remote_cover)),
        chosen_cover(text::flat(album.images), MediaCoverTypes::Cover),
    )
}

/// The best available image for an artist.
pub open spec fn poster_of(artist: ArtistView) -> Option<Seq<char>> {
    text::either(
        usable_only(text::flat(artist.remote_poster)),
        chosen_cover(text::flat(artist.images), MediaCoverTypes::Poster),
    )
}

/// Discards anything Discord would reject as a thumbnail.
///
/// Lidarr rewrites the address to the local file it cached the cover into once the
/// media is in the library. Sending that fails the whole component, so anything
/// that isn't absolute is dropped in favour of no thumbnail at all.
pub fn usable_url(candidate: Option<String>) -> (usable: Option<String>)
    ensures
        usable.deep_view() == usable_only(candidate.deep_view()),
{
    match candidate {
        Some(url) => if starts_with(url.as_str(), "https://") || starts_with(
            url.as_str(),
            "http://",
        ) {
            Some(url)
        } else {
            None
        },
        None => None,
    }
}

fn usable_of_kind(images: &Vec<MediaCover>, kind: MediaCoverTypes) -> (url: Option<String>)
    ensures
        url.deep_view() == link_of_kind(images.deep_view(), kind),
{
    let ghost covers = images.deep_view();
    let ghost link = |cover: MediaCoverView| kind_link(cover, kind);
    let mut i: usize = 0;
    assert(covers.skip(0) =~= covers);
    while i < images.len()
        invariant
            i <= images@.len(),
            covers == images.deep_view(),
            link == (|cover: MediaCoverView| kind_link(cover, kind)),
            seqs::first_found(covers, link) == seqs::first_found(covers.skip(i as int), link),
        decreases images@.len() - i,
    {
        proof {
            seqs::lemma_first_found_step(covers, link, i as int);
            assert(covers[i as int] == images[i as int].deep_view());
        }
        if let Some(cover_type) = images[i].cover_type {
            if cover_type == kind {
                let url = usable_url(flat_text(&images[i].remote_url));
                if url.is_some() {
                    return url;
                }
            }
        }
        i = i + 1;
    }
    None
}

fn any_usable(images: &Vec<MediaCover>) -> (url: Option<String>)
    ensures
        url.deep_view() == any_link(images.deep_view()),
{
    let ghost covers = images.deep_view();
    let ghost link = |cover: MediaCoverView| cover_link(cover);
    let mut i: usize = 0;
    assert(covers.skip(0) =~= covers);
    while i < images.len()
        invariant
            i <= images@.len(),
            covers == images.deep_view(),
            link == (|cover: MediaCoverView| cover_link(cover)),
            seqs::first_found(covers, link) == seqs::first_found(covers.skip(i as int), link),
        decreases images@.len() - i,
    {
        proof {
            seqs::lemma_first_found_step(covers, link, i as int);
            assert(covers[i as int] == images[i as int].deep_view());
        }
        let url = usable_url(flat_text(&images[i].remote_url));
        if url.is_some() {
            return url;
        }
        i = i + 1;
    }
    None
}

/// The best usable image of the wanted kind, else any other usable one.
///
/// Lidarr returns several cover types per item and does not order them, so without
/// a preference the first entry is whatever the metadata source listed first.
pub fn cover_url(images: Option<&Vec<MediaCover>>, preferred: MediaCoverTypes) -> (url: Option<
    String,
>)
    ensures
        url.deep_view() == chosen_cover(images.deep_view(), preferred),
{
    match images {
        Some(images) => match usable_of_kind(images, preferred) {
            Some(url) => Some(url),
            None => any_usable(images),
        },
        None => None,
    }
}

fn borrowed_images(images: &Option<Option<Vec<MediaCover>>>) -> (listed: Option<&Vec<MediaCover>>)
    ensures
        listed.deep_view() == text::flat(images.deep_view()),
{
    match images {
        Some(Some(images)) => Some(images),
        _ => None,
    }
}

/// The best available cover art for an album.
pub fn album_cover(album: &AlbumResource) -> (url: Option<String>)
    ensures
        url.deep_view() == cover_of(album.deep_view()),
{
    match usable_url(flat_text(&album.remote_cover)) {
        Some(url) => Some(url),
        None => cover_url(borrowed_images(&album.images), MediaCoverTypes::Cover),
    }
}

/// The best available image for an artist.
pub fn artist_poster(artist: &ArtistResource) -> (url: Option<String>)
    ensures
        url.deep_view() == poster_of(artist.deep_view()),
{
    match usable_url(flat_text(&artist.remote_poster)) {
        Some(url) => Some(url),
        None => cover_url(borrowed_images(&artist.images), MediaCoverTypes::Poster),
    }
}

/// The artist an album belongs to, as carried by a lookup result.
pub open spec fn artist_name_of(album: AlbumView) -> Option<Seq<char>> {
    match album.artist {
        Some(artist) => text::flat(artist.artist_name),
        None => None,
    }
}

/// The artist an album belongs to, as carried by a lookup result.
pub fn album_artist_name(album: &AlbumResource) -> (name: Option<String>)
    ensures
        name.deep_view() == artist_name_of(album.deep_view()),
{
    match &album.artist {
        Some(artist) => flat_text(&artist.artist_name),
        None => None,
    }
}

/// The album's release date.
pub open spec fn date_of(album: AlbumView) -> Option<date::ReleaseDateView> {
    text::flat(album.release_date)
}

/// The album's release date.
pub fn release_date(album: &AlbumResource) -> (date: Option<date::ReleaseDate>)
    ensures
        date.deep_view() == date_of(album.deep_view()),
{
    match album.release_date {
        Some(date) => date,
        None => None,
    }
}

/// The year an album came out, in decimal.
pub open spec fn year_text(album: AlbumView) -> Option<Seq<char>> {
    match date_of(album) {
        Some(date) => Some(text::decimal(date::year_of(date))),
        None => None,
    }
}

/// The year an album came out, in decimal.
pub fn release_year(album: &AlbumResource) -> (year: Option<String>)
    ensures
        year.deep_view() == year_text(album.deep_view()),
{
    match release_date(album) {
        Some(date) => Some(integer_text(date.year())),
        None => None,
    }
}

/// A tag that may be absent, as a list.
pub open spec fn tag(text: Option<Seq<char>>) -> Seq<Seq<char>> {
    match text {
        Some(text) => seq![text],
        None => Seq::empty(),
    }
}

/// The tags in one line, when there are any.
pub open spec fn tag_line(tags: Seq<Seq<char>>) -> Option<Seq<char>> {
    if tags.len() == 0 {
        None
    } else {
        Some(text::joined(tags, " · "@))
    }
}

/// Appends a tag when there is one.
pub fn push_tag(tags: &mut Vec<String>, tag: Option<String>)
    ensures
        final(tags).deep_view() == old(tags).deep_view() + self::tag(tag.deep_view()),
{
    match tag {
        Some(tag) => {
            push_item(tags, tag);
        },
        None => {},
    }
    assert(tags.deep_view() =~= old(tags).deep_view() + self::tag(tag.deep_view()));
}

/// The tags in one line, when there are any.
pub fn join_tags(tags: &Vec<String>) -> (line: Option<String>)
    ensures
        line.deep_view() == tag_line(tags.deep_view()),
{
    if tags.len() == 0 {
        None
    } else {
        Some(join(tags, " · "))
    }
}

/// An id as that of an option.
pub open spec fn option_id(id: Option<i32>) -> Option<SelectableIdView> {
    match id {
        Some(id) => Some(SelectableIdView::Integer(id)),
        None => None,
    }
}

/// An id as that of an option.
pub fn selectable(id: Option<i32>) -> (selectable: Option<SelectableId>)
    ensures
        selectable.deep_view() == option_id(id),
{
    match id {
        Some(id) => Some(SelectableId::Integer(id)),
        None => None,
    }
}

/// What tells same-named artists apart: the disambiguation, else the artist type.
pub open spec fn artist_detail(artist: ArtistView) -> Option<Seq<char>> {
    text::either(
        text::non_empty(text::flat(artist.disambiguation)),
        text::flat(artist.artist_type),
    )
}

/// What tells same-named artists apart: the disambiguation, else the artist type.
pub fn detail_of_artist(artist: &ArtistResource) -> (detail: Option<String>)
    ensures
        detail.deep_view() == artist_detail(artist.deep_view()),
{
    match non_empty_text(flat_text(&artist.disambiguation)) {
        Some(detail) => Some(detail),
        None => flat_text(&artist.artist_type),
    }
}

/// What is said of an artist in a list of results.
pub open spec fn artist_tags(artist: ArtistView) -> Seq<Seq<char>> {
    tag(artist_detail(artist)) + tag(
        if models::library_id(artist.id) is Some {
            Some("In library"@)
        } else {
            None
        },
    )
}

/// What is said of an album in a list of results: its release type, its artist and
/// its year.
pub open spec fn album_tags(album: AlbumView) -> Seq<Seq<char>> {
    tag(text::either(text::non_empty(text::flat(album.album_type)), Some("Album"@))) + tag(
        artist_name_of(album),
    ) + tag(year_text(album))
}

/// The entry of a result in a dropdown.
pub open spec fn dropdown_of(media: LidarrMediaView) -> DropdownOptionView {
    match media {
        LidarrMediaView::Artist(artist) => DropdownOptionView {
            title: text::or_empty(text::flat(artist.artist_name)),
            description: tag_line(artist_tags(artist)),
            id: option_id(artist.id),
        },
        LidarrMediaView::Album(album) => DropdownOptionView {
            title: text::or_empty(text::flat(album.title)),
            description: tag_line(album_tags(album)),
            id: option_id(album.id),
        },
    }
}

/// The entry that any media asks for in a dropdown.
pub open spec fn item_dropdown(item: MediaItemView) -> DropdownOptionView {
    match item {
        MediaItemView::Lidarr(media) => dropdown_of(media),
        MediaItemView::Other(option) => option,
    }
}

impl LidarrMedia {
    /// The entry of the result in a dropdown.
    pub fn to_dropdown(&self) -> (option: DropdownOption)
        ensures
            option.deep_view() == dropdown_of(self.deep_view()),
    {
        let mut tags: Vec<String> = Vec::new();
        assert(tags.deep_view() =~= Seq::empty());
        match self {
            LidarrMedia::Artist(artist) => {
                // Disambiguation is what MusicBrainz uses to tell same-named
                // artists apart, so it leads when present
                push_tag(&mut tags, detail_of_artist(artist));
                // The only warning that picking this one changes a library entry
                // rather than adding something new
                push_tag(
                    &mut tags,
                    if in_library(artist.id).is_some() {
                        Some("In library".to_owned())
                    } else {
                        None
                    },
                );
                assert(tags.deep_view() =~= artist_tags(artist.deep_view()));
                DropdownOption {
                    title: text_or_empty(flat_text(&artist.artist_name)),
                    description: join_tags(&tags),
                    id: selectable(artist.id),
                }
            },
            LidarrMedia::Album(album) => {
                // Leading with the release type doubles as the kind marker when
                // artists and albums share one list. The artist follows, since
                // album titles repeat across artists.
                let kind = match non_empty_text(flat_text(&album.album_type)) {
                    Some(kind) => kind,
                    None => "Album".to_owned(),
                };
                push_tag(&mut tags, Some(kind));
                push_tag(&mut tags, album_artist_name(album));
                push_tag(&mut tags, release_year(album));
                assert(tags.deep_view() =~= album_tags(album.deep_view()));
                DropdownOption {
                    title: text_or_empty(flat_text(&album.title)),
                    description: join_tags(&tags),
                    id: selectable(album.id),
                }
            },
        }
    }
}

impl MediaItem {
    /// The entry that the media asks for in a dropdown.
    pub fn to_dropdown(&self) -> (option: DropdownOption)
        ensures
            option.deep_view() == item_dropdown(self.deep_view()),
    {
        match self {
            MediaItem::Lidarr(media) => media.to_dropdown(),
            MediaItem::Other(option) => option.clone(),
        }
    }
}

} // verus!
