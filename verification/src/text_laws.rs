//! What holds of text, dates and the names of things.
use crate::date;
use crate::date::ReleaseDateView;
use crate::field_keys;
use crate::models;
use crate::models::{AlbumView, ArtistView, MediaCoverView, MonitorTypes};
use crate::provider::{DropdownOptionView, RequestDetailsView, ALL_ITEMS_ID, MAX_DROPDOWN_OPTIONS};
use crate::text;
use vstd::prelude::*;

verus! {

/// The number that a run of decimal digits stands for.
pub open spec fn value_of(run: Seq<char>) -> int
    decreases run.len(),
{
    if run.len() == 0 {
        0
    } else {
        10 * value_of(run.drop_last()) + (run.last() as int - 48)
    }
}

/// A natural number is read back from its digits: they are digits throughout, they
/// stand for the number, and only zero begins with a zero.
pub proof fn law_digits_read_back(number: nat)
    ensures
        text::digits(number).len() > 0,
        forall|i: int|
            0 <= i < text::digits(number).len() ==> 48 <= #[trigger] text::digits(number)[i] as int
                <= 57,
        value_of(text::digits(number)) == number,
        text::digits(number)[0] == '0' <==> number == 0,
        number == 0 ==> text::digits(number).len() == 1,
    decreases number,
{
    let run = text::digits(number);
    if number < 10 {
        assert(run == seq![(48 + number) as char]);
        assert(run.drop_last() =~= Seq::empty());
        assert(value_of(run.drop_last()) == 0);
    } else {
        law_digits_read_back(number / 10);
        assert(run.drop_last() =~= text::digits(number / 10));
        assert(run[0] == text::digits(number / 10)[0]);
        assert forall|i: int| 0 <= i < run.len() implies 48 <= #[trigger] run[i] as int <= 57 by {
            if i < run.len() - 1 {
                assert(run[i] == text::digits(number / 10)[i]);
            }
        }
    }
}

/// A negative number is a minus sign before the digits of its magnitude; any other is
/// its digits alone.
pub proof fn law_decimal_has_its_sign(number: int)
    ensures
        number < 0 ==> text::decimal(number).len() > 1 && text::decimal(number)[0] == '-'
            && text::decimal(number).drop_first() == text::digits((-number) as nat),
        number >= 0 ==> text::decimal(number) == text::digits(number as nat),
{
    if number < 0 {
        law_digits_read_back((-number) as nat);
        assert(text::decimal(number).drop_first() =~= text::digits((-number) as nat));
    }
}

/// Joining two lists of parts puts one separator between what each of them joins to;
/// a single part joins to itself, and no parts to nothing.
pub proof fn law_joining_distributes(
    first: Seq<Seq<char>>,
    second: Seq<Seq<char>>,
    part: Seq<char>,
    separator: Seq<char>,
)
    ensures
        text::joined(Seq::empty(), separator) == Seq::<char>::empty(),
        text::joined(seq![part], separator) == part,
        first.len() > 0 && second.len() > 0 ==> text::joined(first + second, separator)
            == text::joined(first, separator) + separator + text::joined(second, separator),
    decreases first.len(),
{
    if first.len() > 0 && second.len() > 0 {
        let both = first + second;
        if first.len() == 1 {
            assert(both.drop_first() =~= second);
        } else {
            law_joining_distributes(first.drop_first(), second, part, separator);
            assert(both.drop_first() =~= first.drop_first() + second);
        }
        assert(text::joined(both, separator) =~= text::joined(first, separator) + separator
            + text::joined(second, separator));
    }
}

/// A text that may be absent in two ways is there only when neither holds, and what is
/// there is kept as it is.
pub proof fn law_absent_texts(value: Seq<char>, other: Option<Seq<char>>)
    ensures
        text::flat(Some(Some(value))) == Some(value),
        text::flat(Some(None::<Seq<char>>)) is None,
        text::flat(None::<Option<Seq<char>>>) is None,
        text::or_empty(Some(value)) == value,
        text::or_empty(None) == Seq::<char>::empty(),
        text::non_empty(Some(value)) == (if value == Seq::<char>::empty() {
            None
        } else {
            Some(value)
        }),
        text::non_empty(None) is None,
        text::either(Some(value), other) == Some(value),
        text::either(None, other) == other,
{
    if value.len() == 0 {
        assert(value =~= Seq::<char>::empty());
    }
}

/// The years follow one another without gaps from the start of 1970, a leap year being
/// a day longer: every fourth year is one, but of the centuries only every fourth.
pub proof fn law_years_follow_the_calendar(year: int)
    ensures
        date::year_begins(1970) == 0,
        date::year_begins(year + 1) - date::year_begins(year) == (if year % 4 == 0 && (year % 100
            != 0 || year % 400 == 0) {
            366 * 86400int
        } else {
            365 * 86400int
        }),
{
}

/// The year of a date is the one that its local time lies in: from where the year begins
/// to just before the next one does.
pub proof fn law_date_lies_in_its_year(date: ReleaseDateView, year: int)
    ensures
        date::falls_in_year(date.timestamp, date.offset, year) <==> date::year_begins(year)
            <= date.timestamp + date.offset < date::year_begins(year + 1),
        date::year_begins(year) <= date.timestamp + date.offset < date::year_begins(year + 1)
            ==> date::year_of(date) == year,
{
    if date::falls_in_year(date.timestamp, date.offset, year) {
        date::lemma_one_year(date.timestamp, date.offset, date::year_of(date), year);
    }
}

/// A date is more recent than another exactly when its instant is, whatever the
/// offsets; any date is more recent than none.
pub proof fn law_recency_goes_by_instant(first: ReleaseDateView, second: ReleaseDateView)
    ensures
        date::later(Some(first), Some(second)) <==> first.timestamp > second.timestamp || (
        first.timestamp == second.timestamp && first.nanos > second.nanos),
        date::later(Some(first), None),
        !date::later(None, Some(first)),
        !date::later(None, None),
{
}

/// The calendar of release dates reaches from the start of the year -262143 to the end
/// of 262142, and an offset stays below one day.
pub proof fn law_calendar_bounds(timestamp: int, offset: int)
    ensures
        date::in_calendar(timestamp, offset) <==> date::year_begins(-262143) <= timestamp
            < date::year_begins(262143) && -86400 < offset < 86400,
{
}

/// Only a positive id is that of a row in the library.
pub proof fn law_rows_have_positive_ids(id: i32)
    ensures
        id > 0 ==> models::library_id(Some(id)) == Some(id),
        id <= 0 ==> models::library_id(Some(id)) is None,
        models::library_id(None) is None,
{
}

/// An album counts as monitored only where Lidarr says so.
pub proof fn law_monitoring_is_said(album: AlbumView)
    ensures
        album.monitored == Some(true) ==> models::is_monitored(album),
        album.monitored == Some(false) ==> !models::is_monitored(album),
        album.monitored is None ==> !models::is_monitored(album),
{
}

/// Each scope has the name that Lidarr's API gives it.
pub proof fn law_scopes_have_their_names()
    ensures
        models::scope_name(MonitorTypes::All) == "all"@,
        models::scope_name(MonitorTypes::Future) == "future"@,
        models::scope_name(MonitorTypes::Missing) == "missing"@,
        models::scope_name(MonitorTypes::Existing) == "existing"@,
        models::scope_name(MonitorTypes::Latest) == "latest"@,
        models::scope_name(MonitorTypes::First) == "first"@,
        models::scope_name(MonitorTypes::Nothing) == "none"@,
        models::scope_name(MonitorTypes::Unknown) == "unknown"@,
{
}

/// A name is that of a scope exactly when it is the scope's own name, and any other name
/// is that of none.
pub proof fn law_scopes_are_found_by_name(name: Seq<char>, scope: MonitorTypes)
    ensures
        models::scope_named(name) == Some(scope) <==> name == models::scope_name(scope),
        models::scope_named(name) is None <==> (forall|other: MonitorTypes|
            name != #[trigger] models::scope_name(other)),
{
    models::lemma_scope_named(scope);
    if models::scope_named(name) is Some {
        let found = models::scope_named(name)->0;
        assert(models::scope_name(found) == name);
    }
}

/// A blank resource says nothing at all.
pub proof fn law_blanks_say_nothing()
    ensures
        MediaCoverView::blank() == (MediaCoverView {
            cover_type: None,
            remote_url: None,
            other_fields: Seq::empty(),
        }),
        ArtistView::blank() == (ArtistView {
            id: None,
            artist_name: None,
            foreign_artist_id: None,
            overview: None,
            artist_type: None,
            disambiguation: None,
            images: None,
            remote_poster: None,
            quality_profile_id: None,
            metadata_profile_id: None,
            monitored: None,
            monitor_new_items: None,
            root_folder_path: None,
            genres: None,
            add_options: None,
            other_fields: Seq::empty(),
        }),
        AlbumView::blank() == (AlbumView {
            id: None,
            title: None,
            overview: None,
            foreign_album_id: None,
            monitored: None,
            duration: None,
            album_type: None,
            genres: None,
            artist: None,
            release_date: None,
            images: None,
            remote_cover: None,
            add_options: None,
            other_fields: Seq::empty(),
        }),
{
}

/// The keys of the two questions and the limits of a dropdown are what the bot and
/// Discord go by; the id that stands for all albums is that of no row.
pub proof fn law_fixed_values()
    ensures
        field_keys::MONITOR@ == "lidarr:monitor"@,
        field_keys::ALBUM@ == "lidarr:album"@,
        MAX_DROPDOWN_OPTIONS == 25,
        ALL_ITEMS_ID == -1,
{
}

/// Choosing one more position adds the option there, if there is one, behind those
/// chosen before.
pub proof fn law_choices_add_up(detail: RequestDetailsView, index: usize)
    ensures
        ({
            let more = RequestDetailsView {
                selected_indices: detail.selected_indices.push(index),
                ..detail
            };
            &&& index < detail.options.len() ==> more.selected_options()
                == detail.selected_options().push(detail.options[index as int])
            &&& index >= detail.options.len() ==> more.selected_options()
                == detail.selected_options()
        }),
        detail.selected_indices.len() == 0 ==> detail.selected_options() == Seq::<
            DropdownOptionView,
        >::empty(),
{
    reveal(Seq::filter_map);
    let more = RequestDetailsView {
        selected_indices: detail.selected_indices.push(index),
        ..detail
    };
    let at = |i: usize| detail.option_at(i);
    let at_more = |i: usize| more.option_at(i);
    assert(at =~= at_more);
    assert(more.selected_indices.drop_last() =~= detail.selected_indices);
}

/// The chosen option is the one at the first chosen position; without a choice it is the
/// only option, if there is only one.
pub proof fn law_first_choice_counts(detail: RequestDetailsView)
    ensures
        detail.selected_indices.len() > 0 && detail.selected_indices[0] < detail.options.len()
            ==> detail.selected_option() == Some(detail.options[detail.selected_indices[0] as int]),
        detail.selected_indices.len() > 0 && detail.selected_indices[0] >= detail.options.len()
            ==> detail.selected_option() is None,
        detail.selected_indices.len() == 0 && detail.options.len() == 1
            ==> detail.selected_option() == Some(detail.options[0]),
        detail.selected_indices.len() == 0 && detail.options.len() != 1
            ==> detail.selected_option() is None,
{
}

} // verus!
