//! What holds of the album picker and of what is picked from it.
use crate::date;
use crate::error::ErrorView;
use crate::field_keys;
use crate::laws;
use crate::media;
use crate::models;
use crate::models::AlbumView;
use crate::picker;
use crate::provider::{
    DropdownOptionView, RequestDetailsView, SelectableIdView, ALL_ITEMS_ID, MAX_DROPDOWN_OPTIONS,
};
use crate::selection;
use crate::selection::SelectedView;
use crate::seqs;
use vstd::prelude::*;

verus! {

spec fn orders_first(albums: Seq<AlbumView>, order: Seq<int>, count: int) -> bool {
    &&& order.len() == count
    &&& forall|i: int| 0 <= i < order.len() ==> 0 <= #[trigger] order[i] < count
    &&& forall|position: int| 0 <= position < count ==> #[trigger] order.contains(position)
    &&& forall|i: int, j: int|
        0 <= i < j < order.len() ==> picker::comes_before(
            albums,
            #[trigger] order[i],
            #[trigger] order[j],
        )
}

proof fn lemma_place(albums: Seq<AlbumView>, order: Seq<int>, position: int, from: int) -> (place:
    int)
    requires
        0 <= from <= order.len(),
        forall|i: int| 0 <= i < order.len() ==> #[trigger] order[i] != position,
        forall|i: int|
            0 <= i < from ==> picker::comes_before(albums, #[trigger] order[i], position),
    ensures
        0 <= place <= order.len(),
        forall|i: int|
            0 <= i < place ==> picker::comes_before(albums, #[trigger] order[i], position),
        place < order.len() ==> picker::comes_before(albums, position, order[place]),
    decreases order.len() - from,
{
    if from == order.len() {
        from
    } else if picker::comes_before(albums, position, order[from]) {
        from
    } else {
        assert(order[from] != position);
        lemma_place(albums, order, position, from + 1)
    }
}

proof fn lemma_order_exists(albums: Seq<AlbumView>, count: int) -> (order: Seq<int>)
    requires
        0 <= count <= albums.len(),
    ensures
        orders_first(albums, order, count),
    decreases count,
{
    if count == 0 {
        Seq::empty()
    } else {
        let fewer = lemma_order_exists(albums, count - 1);
        let position = count - 1;
        let place = lemma_place(albums, fewer, position, 0);
        let order = fewer.insert(place, position);
        assert forall|i: int| place <= i < fewer.len() implies picker::comes_before(
            albums,
            position,
            #[trigger] fewer[i],
        ) by {
            if i > place {
                assert(picker::comes_before(albums, fewer[place], fewer[i]));
            }
        }
        assert forall|p: int| 0 <= p < count implies #[trigger] order.contains(p) by {
            if p == position {
                assert(order[place] == p);
            } else {
                assert(fewer.contains(p));
                let k = choose|k: int| 0 <= k < fewer.len() && fewer[k] == p;
                if k < place {
                    assert(order[k] == p);
                } else {
                    assert(order[k + 1] == p);
                }
            }
        }
        order
    }
}

/// Putting albums newest first only rearranges them: every album keeps exactly one
/// place, no album comes before a more recent one, and albums of the same date stay
/// in the order they came in.
pub proof fn law_newest_first(albums: Seq<AlbumView>) -> (order: Seq<int>)
    ensures
        picker::is_release_order(albums, order),
        picker::newest_first(albums) == Seq::new(albums.len(), |i: int| albums[order[i]]),
        forall|i: int, j: int|
            0 <= i < j < albums.len() ==> !date::later(
                media::date_of(#[trigger] picker::newest_first(albums)[j]),
                media::date_of(#[trigger] picker::newest_first(albums)[i]),
            ),
{
    let order = lemma_order_exists(albums, albums.len() as int);
    picker::lemma_one_release_order(albums, order);
    assert forall|i: int, j: int| 0 <= i < j < albums.len() implies !date::later(
        media::date_of(#[trigger] picker::newest_first(albums)[j]),
        media::date_of(#[trigger] picker::newest_first(albums)[i]),
    ) by {
        assert(picker::comes_before(albums, order[i], order[j]));
    }
    order
}

/// A picker fits a Discord dropdown, and leads with the entry for all albums.
pub proof fn law_picker_fits(albums: Seq<AlbumView>)
    ensures
        picker::picker_options(albums).len() <= MAX_DROPDOWN_OPTIONS,
        picker::picker_options(albums)[0] == picker::all_albums_option(),
        picker::picker_options(albums).len() == (if albums.len() < MAX_DROPDOWN_OPTIONS {
            albums.len() + 1
        } else {
            MAX_DROPDOWN_OPTIONS as nat
        }),
{
}

/// A discography that fits is listed whole, monitored albums with the rest.
pub proof fn law_picker_hides_nothing(albums: Seq<AlbumView>, position: int)
    requires
        0 <= position < albums.len(),
        albums.len() < MAX_DROPDOWN_OPTIONS,
    ensures
        picker::picker_options(albums).contains(picker::picker_option(albums[position])),
{
    let order = law_newest_first(albums);
    assert(order.contains(position));
    let k = choose|k: int| 0 <= k < order.len() && order[k] == position;
    assert(picker::picker_options(albums)[k + 1] == picker::picker_option(albums[position]));
}

/// Of a discography that does not fit, no album is listed in place of a more recent
/// one.
pub proof fn law_picker_prefers_recent(albums: Seq<AlbumView>, shown: int, hidden: int)
    requires
        0 <= shown < picker::album_capacity() <= hidden < albums.len(),
    ensures
        picker::picker_options(albums)[shown + 1] == picker::picker_option(
            picker::newest_first(albums)[shown],
        ),
        !date::later(
            media::date_of(picker::newest_first(albums)[hidden]),
            media::date_of(picker::newest_first(albums)[shown]),
        ),
{
    let order = law_newest_first(albums);
}

/// A monitored album says so in the picker, and no other album does by way of its
/// monitoring.
pub proof fn law_picker_marks_monitored(album: AlbumView)
    ensures
        models::is_monitored(album) ==> picker::picker_tags(album).len() > 0
            && picker::picker_tags(album).last() == "Already monitored"@,
        picker::picker_tags(AlbumView { monitored: Some(false), ..album }) == picker::picker_tags(
            AlbumView { monitored: None, ..album },
        ),
{
}

/// The id of the album at a position of a picker.
pub open spec fn album_id_at(albums: Seq<AlbumView>, index: usize) -> Option<i32> {
    if 0 < index < picker::picker_options(albums).len() {
        picker::newest_first(albums)[index - 1].id
    } else {
        None
    }
}

/// Whether every album picked by position has an id of its own. Positions outside the
/// picker and that of "All Albums" pick no album.
pub open spec fn picks_have_ids(albums: Seq<AlbumView>, chosen: Seq<usize>) -> bool {
    forall|k: int|
        0 <= k < chosen.len() && 0 < #[trigger] chosen[k] < picker::picker_options(albums).len()
            ==> album_id_at(albums, chosen[k]) is Some && album_id_at(albums, chosen[k]) != Some(
            ALL_ITEMS_ID,
        )
}

proof fn lemma_picked(albums: Seq<AlbumView>, chosen: Seq<usize>)
    requires
        picks_have_ids(albums, chosen),
    ensures
        selection::with_albums(
            selection::nothing_selected(),
            laws::answered(picker::album_question(albums), chosen).selected_options(),
        ) == Ok::<SelectedView, ErrorView>(
            SelectedView {
                monitor: None,
                album_ids: chosen.filter_map(|index: usize| album_id_at(albums, index)),
                all_albums: chosen.contains(0),
            },
        ),
    decreases chosen.len(),
{
    reveal(Seq::filter_map);
    let detail = laws::answered(picker::album_question(albums), chosen);
    let at = |index: usize| detail.option_at(index);
    let ids = |index: usize| album_id_at(albums, index);
    if chosen.len() == 0 {
        assert(detail.selected_options() =~= Seq::empty());
        assert(chosen.filter_map(ids) =~= Seq::empty());
    } else {
        let fewer = chosen.drop_last();
        let last = chosen.last();
        let before = laws::answered(picker::album_question(albums), fewer);
        let at_before = |index: usize| before.option_at(index);
        assert forall|k: int|
            0 <= k < fewer.len() && 0 < #[trigger] fewer[k] < picker::picker_options(
                albums,
            ).len() implies album_id_at(albums, fewer[k]) is Some && album_id_at(albums, fewer[k])
            != Some(ALL_ITEMS_ID) by {
            assert(fewer[k] == chosen[k]);
        }
        lemma_picked(albums, fewer);
        assert(chosen[chosen.len() - 1] == last);
        assert(at =~= at_before);
        assert(chosen =~= fewer.push(last));
        assert(chosen.contains(0) <==> fewer.contains(0) || last == 0) by {
            if fewer.contains(0) {
                let k = choose|k: int| 0 <= k < fewer.len() && fewer[k] == 0;
                assert(chosen[k] == 0);
            }
            if last == 0 {
                assert(chosen[chosen.len() - 1] == 0);
            }
            if chosen.contains(0) && last != 0 {
                let k = choose|k: int| 0 <= k < chosen.len() && chosen[k] == 0;
                assert(fewer[k] == 0);
            }
        }
        if detail.option_at(last) is Some {
            let option = detail.option_at(last)->0;
            assert(detail.selected_options() == before.selected_options().push(option));
            assert(detail.selected_options().drop_last() =~= before.selected_options());
            if last > 0 {
                let album = picker::newest_first(albums)[last - 1];
                assert(option == picker::picker_option(album));
            } else {
                assert(option == picker::all_albums_option());
            }
        } else {
            assert(last > 0);
            assert(detail.selected_options() == before.selected_options());
        }
    }
    let read = selection::with_albums(selection::nothing_selected(), detail.selected_options());
    assert(read is Ok);
    assert(read->Ok_0 =~= SelectedView {
        monitor: None,
        album_ids: chosen.filter_map(ids),
        all_albums: chosen.contains(0),
    });
}

/// The albums a requester picks are the albums the request is made for, in the order
/// they were picked; "All Albums" is kept apart from them.
pub proof fn law_picked_albums_are_requested(albums: Seq<AlbumView>, chosen: Seq<usize>)
    requires
        picks_have_ids(albums, chosen),
    ensures
        selection::selection(seq![laws::answered(picker::album_question(albums), chosen)]) == Ok::<
            SelectedView,
            ErrorView,
        >(
            SelectedView {
                monitor: None,
                album_ids: chosen.filter_map(|index: usize| album_id_at(albums, index)),
                all_albums: chosen.contains(0),
            },
        ),
{
    let detail = laws::answered(picker::album_question(albums), chosen);
    laws::lemma_single_detail(detail);
    lemma_picked(albums, chosen);
}

/// Whether a list of ids and a choice of all albums are those of the chosen options:
/// "All Albums" is chosen exactly when all of them are, and each other option gives the
/// id and the title at its own place.
pub open spec fn sums_up(
    options: Seq<DropdownOptionView>,
    album_ids: Seq<i32>,
    all_albums: bool,
) -> bool {
    let own = options.filter(|option: DropdownOptionView| !selection::is_all_albums(option));
    let titles = selection::picked_titles(options);
    &&& all_albums == selection::picked_all(options)
    &&& album_ids.len() == own.len()
    &&& titles.len() == own.len()
    &&& forall|i: int|
        0 <= i < own.len() ==> (#[trigger] own[i]).title == titles[i] && own[i].id == Some(
            SelectableIdView::Integer(album_ids[i]),
        )
}

proof fn lemma_summary(start: SelectedView, options: Seq<DropdownOptionView>)
    requires
        start.album_ids.len() == 0,
        !start.all_albums,
    ensures
        selection::with_albums(start, options) matches Ok(selected) ==> sums_up(
            options,
            selected.album_ids,
            selected.all_albums,
        ),
    decreases options.len(),
{
    reveal(Seq::filter_map);
    reveal(Seq::filter);
    if options.len() > 0 {
        let fewer = options.drop_last();
        lemma_summary(start, fewer);
        assert(selection::picked_all(options) <==> selection::picked_all(fewer)
            || selection::is_all_albums(options.last())) by {
            if selection::picked_all(fewer) {
                let k = choose|k: int|
                    0 <= k < fewer.len() && selection::is_all_albums(#[trigger] fewer[k]);
                assert(selection::is_all_albums(options[k]));
            }
            if selection::is_all_albums(options.last()) {
                assert(selection::is_all_albums(options[options.len() - 1]));
            }
            if selection::picked_all(options) && !selection::is_all_albums(options.last()) {
                let k = choose|k: int|
                    0 <= k < options.len() && selection::is_all_albums(#[trigger] options[k]);
                assert(selection::is_all_albums(fewer[k]));
            }
        }
        let read = selection::with_albums(start, options);
        if read is Ok {
            let own = |option: DropdownOptionView| !selection::is_all_albums(option);
            let before = selection::with_albums(start, fewer)->Ok_0;
            if selection::is_all_albums(options.last()) {
                assert(options.filter(own) == fewer.filter(own));
                assert(selection::picked_titles(options) == selection::picked_titles(fewer));
                assert(read->Ok_0.album_ids == before.album_ids);
            } else {
                assert(options.filter(own) == fewer.filter(own).push(options.last()));
                assert(selection::picked_titles(options) == selection::picked_titles(fewer).push(
                    options.last().title,
                ));
                let kept = fewer.filter(own);
                assert(read->Ok_0.album_ids == before.album_ids.push(
                    options.last().id->0->Integer_0,
                ));
                assert forall|i: int| 0 <= i < options.filter(own).len() implies (
                #[trigger] options.filter(own)[i]).title == selection::picked_titles(options)[i]
                    && options.filter(own)[i].id == Some(
                    SelectableIdView::Integer(read->Ok_0.album_ids[i]),
                ) by {
                    if i < kept.len() {
                        assert(options.filter(own)[i] == kept[i]);
                    }
                }
            }
        }
    }
}

/// Whether a detail is an album picker.
pub open spec fn is_picker(detail: RequestDetailsView) -> bool {
    detail.metadata == Some(field_keys::ALBUM@)
}

/// Whether no two of the details are album pickers.
pub open spec fn one_picker_at_most(details: Seq<RequestDetailsView>) -> bool {
    forall|i: int, j: int|
        0 <= i < j < details.len() ==> !(is_picker(#[trigger] details[i]) && is_picker(
            #[trigger] details[j],
        ))
}

proof fn lemma_picked_options(details: Seq<RequestDetailsView>)
    requires
        one_picker_at_most(details),
    ensures
        forall|p: int|
            0 <= p < details.len() && is_picker(#[trigger] details[p])
                ==> selection::picked_options(details) == details[p].selected_options(),
        (forall|i: int| 0 <= i < details.len() ==> !is_picker(#[trigger] details[i]))
            ==> selection::picked_options(details) == Seq::<DropdownOptionView>::empty(),
{
    let wanted = |detail: RequestDetailsView| detail.metadata == Some(field_keys::ALBUM@);
    seqs::lemma_first_where(details, wanted);
    assert forall|p: int|
        0 <= p < details.len() && is_picker(
            #[trigger] details[p],
        ) implies selection::picked_options(details) == details[p].selected_options() by {
        assert(wanted(details[p]));
        let found = seqs::first_where(details, wanted)->0;
        let k = choose|k: int|
            0 <= k < details.len() && #[trigger] details[k] == found && (forall|j: int|
                0 <= j < k ==> !wanted(#[trigger] details[j]));
        assert(is_picker(details[k]));
        assert(k == p);
    }
    if forall|i: int| 0 <= i < details.len() ==> !is_picker(#[trigger] details[i]) {
        assert forall|i: int| 0 <= i < details.len() implies !wanted(#[trigger] details[i]) by {
            assert(!is_picker(details[i]));
        }
    }
}

/// The summary of a request for albums says what was requested, whatever else the
/// requester was asked: "All Albums" exactly when all of them were, and one title for
/// each requested album, in the same order and from the same option as its id.
pub proof fn law_summary_matches_request(details: Seq<RequestDetailsView>)
    requires
        one_picker_at_most(details),
    ensures
        selection::selection(details) matches Ok(selected) ==> sums_up(
            selection::picked_options(details),
            selected.album_ids,
            selected.all_albums,
        ),
    decreases details.len(),
{
    reveal(Seq::filter_map);
    reveal(Seq::filter);
    lemma_picked_options(details);
    if details.len() > 0 {
        let fewer = details.drop_last();
        assert forall|i: int, j: int| 0 <= i < j < fewer.len() implies !(is_picker(
            #[trigger] fewer[i],
        ) && is_picker(#[trigger] fewer[j])) by {
            assert(fewer[i] == details[i] && fewer[j] == details[j]);
        }
        law_summary_matches_request(fewer);
        lemma_picked_options(fewer);
        let last = details.last();
        assert(details[details.len() - 1] == last);
        if is_picker(last) {
            assert forall|i: int| 0 <= i < fewer.len() implies !is_picker(#[trigger] fewer[i]) by {
                assert(fewer[i] == details[i]);
            }
            if selection::selection(fewer) is Ok {
                let before = selection::selection(fewer)->Ok_0;
                assert(before.album_ids.len() == 0 && !before.all_albums);
                lemma_summary(before, last.selected_options());
            }
        } else if exists|p: int| 0 <= p < fewer.len() && is_picker(#[trigger] fewer[p]) {
            let p = choose|p: int| 0 <= p < fewer.len() && is_picker(#[trigger] fewer[p]);
            assert(details[p] == fewer[p]);
            assert(selection::picked_options(details) == selection::picked_options(fewer));
        } else {
            assert forall|i: int| 0 <= i < details.len() implies !is_picker(
                #[trigger] details[i],
            ) by {
                if i < fewer.len() {
                    assert(details[i] == fewer[i]);
                }
            }
        }
    }
}

} // verus!
