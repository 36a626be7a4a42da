//! The questions a requester is asked.
use crate::date;
use crate::date::is_later;
use crate::error;
use crate::error::{ApiError, ApiErrorView, ErrorView, LidarrError};
use crate::field_keys;
use crate::lidarr::Lidarr;
use crate::media;
use crate::media::{
    join_tags, push_tag, release_date, release_year, selectable, LidarrMedia, LidarrMediaView,
    MediaItem, MediaItemView,
};
use crate::models;
use crate::models::{in_library, AlbumResource, AlbumView, MonitorTypes};
use crate::provider::{
    DropdownOption, DropdownOptionView, FieldType, RequestDetails, RequestDetailsView,
    SelectableId, SelectableIdView, ALL_ITEMS_ID, MAX_DROPDOWN_OPTIONS,
};
use crate::search;
use crate::text;
use crate::text::{flat_text, non_empty_text, push_item, text_or_empty};
use vstd::prelude::*;

verus! {

/// How a monitor scope is called in the question for it.
pub open spec fn scope_title(scope: MonitorTypes) -> Seq<char> {
    match scope {
        MonitorTypes::All => "All Albums"@,
        MonitorTypes::Future => "Future Albums"@,
        MonitorTypes::Missing => "Missing Albums"@,
        MonitorTypes::Existing => "Existing Albums"@,
        MonitorTypes::Latest => "Latest Album"@,
        MonitorTypes::First => "First Album"@,
        MonitorTypes::Nothing => "None"@,
        MonitorTypes::Unknown => "Unknown"@,
    }
}

/// The option that stands for a monitor scope.
pub open spec fn scope_option(scope: MonitorTypes) -> DropdownOptionView {
    DropdownOptionView {
        title: scope_title(scope),
        description: None,
        id: Some(SelectableIdView::Text(models::scope_name(scope))),
    }
}

/// The question for the scope to add a new artist with.
pub open spec fn monitor_question(scopes: Seq<MonitorTypes>) -> RequestDetailsView {
    RequestDetailsView {
        title: "Monitor"@,
        options: scopes.map_values(|scope: MonitorTypes| scope_option(scope)),
        metadata: Some(field_keys::MONITOR@),
        selected_indices: Seq::empty(),
        field_type: FieldType::Dropdown,
        always_show: false,
    }
}

fn option_of_scope(scope: MonitorTypes) -> (option: DropdownOption)
    ensures
        option.deep_view() == scope_option(scope),
{
    let title: &'static str = match scope {
        MonitorTypes::All => "All Albums",
        MonitorTypes::Future => "Future Albums",
        MonitorTypes::Missing => "Missing Albums",
        MonitorTypes::Existing => "Existing Albums",
        MonitorTypes::Latest => "Latest Album",
        MonitorTypes::First => "First Album",
        MonitorTypes::Nothing => "None",
        MonitorTypes::Unknown => "Unknown",
    };
    DropdownOption {
        title: title.to_owned(),
        description: None,
        id: Some(SelectableId::String(scope.to_string())),
    }
}

/// What is said of an album in the picker.
pub open spec fn picker_tags(album: AlbumView) -> Seq<Seq<char>> {
    media::tag(text::non_empty(text::flat(album.album_type))) + media::tag(
        media::year_text(album),
    ) + media::tag(
        if models::is_monitored(album) {
            Some("Already monitored"@)
        } else {
            None
        },
    )
}

/// The entry of an album in the picker.
pub open spec fn picker_option(album: AlbumView) -> DropdownOptionView {
    DropdownOptionView {
        title: text::or_empty(text::flat(album.title)),
        description: media::tag_line(picker_tags(album)),
        id: media::option_id(album.id),
    }
}

/// One entry in the album picker.
///
/// Already-monitored albums are listed and tagged rather than hidden, so the
/// requester sees the whole discography; the request rejects those picks later.
pub fn album_option(album: &AlbumResource) -> (option: DropdownOption)
    ensures
        option.deep_view() == picker_option(album.deep_view()),
{
    let mut tags: Vec<String> = Vec::new();
    assert(tags.deep_view() =~= Seq::empty());
    push_tag(&mut tags, non_empty_text(flat_text(&album.album_type)));
    push_tag(&mut tags, release_year(album));
    push_tag(
        &mut tags,
        if album.is_monitored() {
            Some("Already monitored".to_owned())
        } else {
            None
        },
    );
    assert(tags.deep_view() =~= picker_tags(album.deep_view()));
    DropdownOption {
        title: text_or_empty(flat_text(&album.title)),
        description: join_tags(&tags),
        id: selectable(album.id),
    }
}

/// Whether the album at one position comes before that at another when the newest
/// lead. Albums of the same date keep their places.
pub open spec fn comes_before(albums: Seq<AlbumView>, first: int, second: int) -> bool {
    let first_date = media::date_of(albums[first]);
    let second_date = media::date_of(albums[second]);
    date::later(first_date, second_date) || (!date::later(second_date, first_date) && first
        < second)
}

/// Whether a list of positions goes through all albums, newest first.
pub open spec fn is_release_order(albums: Seq<AlbumView>, order: Seq<int>) -> bool {
    &&& order.len() == albums.len()
    &&& forall|i: int| 0 <= i < order.len() ==> 0 <= #[trigger] order[i] < albums.len()
    &&& forall|position: int|
        0 <= position < albums.len() ==> #[trigger] order.contains(position)
    &&& forall|i: int, j: int|
        0 <= i < j < order.len() ==> comes_before(albums, #[trigger] order[i], #[trigger] order[j])
}

/// The albums, newest first. Those without a date come last, and albums of the same
/// date stay in the order they came in.
pub open spec fn newest_first(albums: Seq<AlbumView>) -> Seq<AlbumView> {
    let order = choose|order: Seq<int>| is_release_order(albums, order);
    Seq::new(albums.len(), |i: int| albums[order[i]])
}

proof fn lemma_orders_agree(albums: Seq<AlbumView>, first: Seq<int>, second: Seq<int>, i: int)
    requires
        is_release_order(albums, first),
        is_release_order(albums, second),
        0 <= i < albums.len(),
    ensures
        first[i] == second[i],
    decreases i,
{
    assert forall|j: int| 0 <= j < i implies first[j] == second[j] by {
        lemma_orders_agree(albums, first, second, j);
    }
    if first[i] != second[i] {
        assert(second.contains(first[i]));
        assert(first.contains(second[i]));
        let a = choose|a: int| 0 <= a < second.len() && second[a] == first[i];
        let b = choose|b: int| 0 <= b < first.len() && first[b] == second[i];
        if a < i {
            assert(first[a] == second[a]);
            assert(comes_before(albums, first[a], first[i]));
        }
        if b < i {
            assert(first[b] == second[b]);
            assert(comes_before(albums, second[b], second[i]));
        }
        assert(comes_before(albums, second[i], second[a]));
        assert(comes_before(albums, first[i], first[b]));
    }
}

/// There is only one way to put albums newest first.
pub proof fn lemma_one_release_order(albums: Seq<AlbumView>, order: Seq<int>)
    requires
        is_release_order(albums, order),
    ensures
        newest_first(albums) == Seq::new(albums.len(), |i: int| albums[order[i]]),
{
    let chosen = choose|order: Seq<int>| is_release_order(albums, order);
    assert forall|i: int| 0 <= i < albums.len() implies chosen[i] == order[i] by {
        lemma_orders_agree(albums, chosen, order, i);
    }
    assert(newest_first(albums) =~= Seq::new(albums.len(), |i: int| albums[order[i]]));
}

/// Puts albums newest first.
pub fn sort_newest_first(albums: Vec<AlbumResource>) -> (sorted: Vec<AlbumResource>)
    ensures
        sorted.deep_view() == newest_first(albums.deep_view()),
{
    let ghost all = albums.deep_view();
    let mut albums = albums;
    let mut sorted: Vec<AlbumResource> = Vec::new();
    let ghost mut order: Seq<int> = Seq::empty();
    while albums.len() > 0
        invariant
            albums@.len() + sorted@.len() == all.len(),
            albums.deep_view() == all.take(albums@.len() as int),
            order.len() == sorted@.len(),
            forall|i: int|
                0 <= i < order.len() ==> albums@.len() <= #[trigger] order[i] < all.len()
                    && sorted@[i].deep_view() == all[order[i]],
            forall|position: int|
                albums@.len() <= position < all.len() ==> #[trigger] order.contains(position),
            forall|i: int, j: int|
                0 <= i < j < order.len() ==> comes_before(
                    all,
                    #[trigger] order[i],
                    #[trigger] order[j],
                ),
        decreases albums@.len(),
    {
        let ghost before = albums.deep_view();
        if let Some(album) = albums.pop() {
            let ghost position = albums@.len() as int;
            assert(before[position] == album.deep_view());
            assert(all[position] == album.deep_view());
            assert(albums.deep_view() =~= all.take(position));
            let date = release_date(&album);
            let mut place: usize = 0;
            while place < sorted.len() && is_later(&release_date(&sorted[place]), &date)
                invariant
                    place <= sorted@.len(),
                    order.len() == sorted@.len(),
                    date.deep_view() == media::date_of(all[position]),
                    forall|i: int|
                        0 <= i < order.len() ==> position < #[trigger] order[i] < all.len()
                            && sorted@[i].deep_view() == all[order[i]],
                    forall|i: int|
                        0 <= i < place ==> comes_before(all, #[trigger] order[i], position),
                decreases sorted@.len() - place,
            {
                place = place + 1;
            }
            proof {
                let old_order = order;
                assert forall|i: int| place <= i < old_order.len() implies comes_before(
                    all,
                    position,
                    #[trigger] old_order[i],
                ) by {
                    assert(!date::later(
                        media::date_of(all[old_order[place as int]]),
                        media::date_of(all[position]),
                    ));
                    if i > place {
                        assert(comes_before(all, old_order[place as int], old_order[i]));
                    }
                }
                order = old_order.insert(place as int, position);
                assert forall|p: int| position <= p < all.len() implies #[trigger] order.contains(
                    p,
                ) by {
                    if p == position {
                        assert(order[place as int] == p);
                    } else {
                        assert(old_order.contains(p));
                        let k = choose|k: int| 0 <= k < old_order.len() && old_order[k] == p;
                        if k < place {
                            assert(order[k] == p);
                        } else {
                            assert(order[k + 1] == p);
                        }
                    }
                }
            }
            sorted.insert(place, album);
        }
    }
    proof {
        assert(is_release_order(all, order));
        lemma_one_release_order(all, order);
        assert(sorted.deep_view() =~= Seq::new(all.len(), |i: int| all[order[i]]));
    }
    sorted
}

/// The option that stands for all albums of an artist.
pub open spec fn all_albums_option() -> DropdownOptionView {
    DropdownOptionView {
        title: "All Albums"@,
        description: Some("Includes future releases"@),
        id: Some(SelectableIdView::Integer(ALL_ITEMS_ID)),
    }
}

/// How many albums a picker has room for beside the entry for all of them.
pub open spec fn album_capacity() -> nat {
    (MAX_DROPDOWN_OPTIONS - 1) as nat
}

/// The options of an album picker: all albums, then the newest ones, as many as fit.
pub open spec fn picker_options(albums: Seq<AlbumView>) -> Seq<DropdownOptionView> {
    seq![all_albums_option()] + newest_first(albums).take(
        search::shorter(albums.len(), album_capacity()) as int,
    ).map_values(|album: AlbumView| picker_option(album))
}

/// The question for the albums of an artist to monitor.
pub open spec fn album_question(albums: Seq<AlbumView>) -> RequestDetailsView {
    RequestDetailsView {
        title: "Albums"@,
        options: picker_options(albums),
        metadata: Some(field_keys::ALBUM@),
        selected_indices: Seq::empty(),
        field_type: FieldType::MultiSelect,
        always_show: true,
    }
}

/// The album picker that follows from what listing the albums came to.
pub open spec fn picker_from(listed: Result<Seq<AlbumView>, ApiErrorView>) -> Result<
    RequestDetailsView,
    ErrorView,
> {
    match listed {
        Err(error) => Err(ErrorView::Api(error)),
        Ok(albums) => if albums.len() == 0 {
            Err(ErrorView::NoAlbumsListed)
        } else {
            Ok(album_question(albums))
        },
    }
}

/// What to ask about some media, as far as it can be said.
#[derive(Debug)]
pub enum DetailsStep {
    /// Ask these questions
    Ask(Vec<RequestDetails>),
    /// List the albums of an artist and build the album picker from them
    ListAlbums { artist_id: i32 },
    Failed(LidarrError),
}

/// The contents of a `DetailsStep`.
#[verifier::ext_equal]
pub enum DetailsStepView {
    Ask(Seq<RequestDetailsView>),
    ListAlbums { artist_id: i32 },
    Failed(ErrorView),
}

impl DeepView for DetailsStep {
    type V = DetailsStepView;

    open spec fn deep_view(&self) -> DetailsStepView {
        match self {
            DetailsStep::Ask(details) => DetailsStepView::Ask(details.deep_view()),
            DetailsStep::ListAlbums { artist_id } => DetailsStepView::ListAlbums {
                artist_id: *artist_id,
            },
            DetailsStep::Failed(error) => DetailsStepView::Failed(error.deep_view()),
        }
    }
}

/// What to ask about an item: of an artist in the library, which albums; of a new
/// one, how much to monitor; of an album, nothing.
pub open spec fn questions(scopes: Seq<MonitorTypes>, item: MediaItemView) -> DetailsStepView {
    match item {
        MediaItemView::Lidarr(LidarrMediaView::Artist(artist)) => match models::library_id(
            artist.id,
        ) {
            Some(artist_id) => DetailsStepView::ListAlbums { artist_id },
            None => DetailsStepView::Ask(seq![monitor_question(scopes)]),
        },
        MediaItemView::Lidarr(LidarrMediaView::Album(_)) => DetailsStepView::Ask(Seq::empty()),
        MediaItemView::Other(_) => DetailsStepView::Failed(ErrorView::InvalidMediaType),
    }
}

impl Lidarr {
    /// The monitoring scope to add a new artist with. Only shown for artists that
    /// aren't in the library yet, since it's an add-time decision Lidarr can't
    /// revisit.
    pub fn monitor_field(&self) -> (field: RequestDetails)
        ensures
            field.deep_view() == monitor_question(self.monitor@),
    {
        let mut options: Vec<DropdownOption> = Vec::new();
        let mut i: usize = 0;
        while i < self.monitor.len()
            invariant
                i <= self.monitor@.len(),
                options.deep_view() =~= self.monitor@.take(i as int).map_values(
                    |scope: MonitorTypes| scope_option(scope),
                ),
            decreases self.monitor@.len() - i,
        {
            push_item(&mut options, option_of_scope(self.monitor[i]));
            i = i + 1;
        }
        assert(self.monitor@.take(i as int) =~= self.monitor@);
        RequestDetails {
            title: "Monitor".to_owned(),
            options,
            metadata: Some(field_keys::MONITOR.to_owned()),
            selected_indices: Vec::new(),
            field_type: FieldType::Dropdown,
            always_show: false,
        }
    }

    /// Builds the multi-select album picker for an artist already in the library,
    /// from what listing that artist's albums came to.
    pub fn build_album_picker(&self, listed: Result<Vec<AlbumResource>, ApiError>) -> (picker:
        Result<RequestDetails, LidarrError>)
        ensures
            error::outcome(picker) == picker_from(error::outcome(listed)),
    {
        let albums = match listed {
            Ok(albums) => albums,
            Err(error) => {
                return Err(LidarrError::Api(error));
            },
        };
        if albums.len() == 0 {
            return Err(LidarrError::NoAlbumsListed);
        }
        let ghost all = albums.deep_view();
        // Newest first. A long discography overruns Discord's option cap, and a
        // recent release is the likelier ask.
        let albums = sort_newest_first(albums);
        // "All Albums" leads the list and is mutually exclusive with the rest
        let mut options: Vec<DropdownOption> = Vec::new();
        options.push(
            DropdownOption {
                title: "All Albums".to_owned(),
                description: Some("Includes future releases".to_owned()),
                id: Some(SelectableId::Integer(ALL_ITEMS_ID)),
            },
        );
        let ghost sorted = newest_first(all);
        let mut i: usize = 0;
        assert(options.deep_view() =~= seq![all_albums_option()]);
        while i < albums.len() && i < MAX_DROPDOWN_OPTIONS - 1
            invariant
                i <= albums@.len(),
                i <= MAX_DROPDOWN_OPTIONS - 1,
                albums.deep_view() == sorted,
                options.deep_view() =~= seq![all_albums_option()] + sorted.take(
                    i as int,
                ).map_values(|album: AlbumView| picker_option(album)),
            decreases albums@.len() - i,
        {
            assert(sorted[i as int] == albums[i as int].deep_view());
            push_item(&mut options, album_option(&albums[i]));
            i = i + 1;
        }
        Ok(
            RequestDetails {
                title: "Albums".to_owned(),
                options,
                metadata: Some(field_keys::ALBUM.to_owned()),
                selected_indices: Vec::new(),
                field_type: FieldType::MultiSelect,
                always_show: true,
            },
        )
    }

    /// What to ask about the media.
    pub fn additional_details(&self, media: &MediaItem) -> (step: DetailsStep)
        ensures
            step.deep_view() == questions(self.monitor@, media.deep_view()),
    {
        match media {
            MediaItem::Lidarr(LidarrMedia::Artist(artist)) => match in_library(artist.id) {
                // Where and how the artist was added is already settled, so the only
                // thing left is which albums to monitor
                Some(artist_id) => DetailsStep::ListAlbums { artist_id },
                None => {
                    let mut details: Vec<RequestDetails> = Vec::new();
                    details.push(self.monitor_field());
                    assert(details.deep_view() =~= seq![monitor_question(self.monitor@)]);
                    DetailsStep::Ask(details)
                },
            },
            // The album is the whole request and the add settings come from the
            // configuration, so there is nothing to ask
            MediaItem::Lidarr(LidarrMedia::Album(_)) => {
                let details: Vec<RequestDetails> = Vec::new();
                assert(details.deep_view() =~= Seq::empty());
                DetailsStep::Ask(details)
            },
            MediaItem::Other(_) => DetailsStep::Failed(LidarrError::InvalidMediaType),
        }
    }
}

} // verus!
