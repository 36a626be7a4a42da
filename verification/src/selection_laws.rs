//! What holds of reading a requester's answers.
use crate::error::ErrorView;
use crate::models::MonitorTypes;
use crate::provider::{DropdownOptionView, RequestDetailsView, SelectableIdView, ALL_ITEMS_ID};
use crate::selection;
use crate::selection::SelectedView;
use crate::seqs;
use crate::text;
use crate::text_laws;
use vstd::prelude::*;

verus! {

/// An id stands for a scope exactly when it reads as the name of that scope. The error
/// for any other id names the id, with the reason where it cannot be read.
pub proof fn law_ids_stand_for_scopes(id: Seq<char>, name: Seq<char>, reason: Seq<char>)
    ensures
        selection::scope_from(id, Ok("all"@)) == Ok::<MonitorTypes, ErrorView>(MonitorTypes::All),
        selection::scope_from(id, Ok("future"@)) == Ok::<MonitorTypes, ErrorView>(
            MonitorTypes::Future,
        ),
        selection::scope_from(id, Ok("missing"@)) == Ok::<MonitorTypes, ErrorView>(
            MonitorTypes::Missing,
        ),
        selection::scope_from(id, Ok("existing"@)) == Ok::<MonitorTypes, ErrorView>(
            MonitorTypes::Existing,
        ),
        selection::scope_from(id, Ok("latest"@)) == Ok::<MonitorTypes, ErrorView>(
            MonitorTypes::Latest,
        ),
        selection::scope_from(id, Ok("first"@)) == Ok::<MonitorTypes, ErrorView>(
            MonitorTypes::First,
        ),
        selection::scope_from(id, Ok("none"@)) == Ok::<MonitorTypes, ErrorView>(
            MonitorTypes::Nothing,
        ),
        selection::scope_from(id, Ok("unknown"@)) == Ok::<MonitorTypes, ErrorView>(
            MonitorTypes::Unknown,
        ),
        name != "all"@ && name != "future"@ && name != "missing"@ && name != "existing"@ && name
            != "latest"@ && name != "first"@ && name != "none"@ && name != "unknown"@
            ==> selection::scope_from(id, Ok(name)) == Err::<MonitorTypes, ErrorView>(
            ErrorView::UnknownScope { name: id, cause: None },
        ),
        selection::scope_from(id, Err(reason)) == Err::<MonitorTypes, ErrorView>(
            ErrorView::UnknownScope { name: id, cause: Some(reason) },
        ),
{
    text_laws::law_scopes_have_their_names();
    text_laws::law_scopes_are_found_by_name("all"@, MonitorTypes::All);
    text_laws::law_scopes_are_found_by_name("future"@, MonitorTypes::Future);
    text_laws::law_scopes_are_found_by_name("missing"@, MonitorTypes::Missing);
    text_laws::law_scopes_are_found_by_name("existing"@, MonitorTypes::Existing);
    text_laws::law_scopes_are_found_by_name("latest"@, MonitorTypes::Latest);
    text_laws::law_scopes_are_found_by_name("first"@, MonitorTypes::First);
    text_laws::law_scopes_are_found_by_name("none"@, MonitorTypes::Nothing);
    text_laws::law_scopes_are_found_by_name("unknown"@, MonitorTypes::Unknown);
    text_laws::law_scopes_are_found_by_name(name, MonitorTypes::All);
}

/// A text without quotes, backslashes and control characters stands for itself; any
/// other stands for what JSON makes of it between quotes.
pub proof fn law_plain_texts_stand_for_themselves(words: Seq<char>)
    ensures
        (forall|i: int|
            0 <= i < words.len() ==> #[trigger] words[i] != '"' && words[i] != '\\' && words[i]
                as u32 >= 32) ==> selection::unescaped(words) == Ok::<Seq<char>, Seq<char>>(words),
        (exists|i: int|
            0 <= i < words.len() && (#[trigger] words[i] == '"' || words[i] == '\\' || (words[i]
                as u32) < 32)) ==> selection::unescaped(words) == selection::json_string(
            seq!['"'] + words + seq!['"'],
        ),
        selection::quoted(words) == seq!['"'] + words + seq!['"'],
{
}

/// Nothing is selected before anything is answered.
pub proof fn law_nothing_is_selected_at_first()
    ensures
        selection::selection(Seq::empty()) == Ok::<SelectedView, ErrorView>(
            SelectedView { monitor: None, album_ids: Seq::empty(), all_albums: false },
        ),
{
}

/// One more answer leaves a failed reading failed. To a selection it adds what it says
/// and changes nothing else: an album picker its albums, the monitor question its scope;
/// a question that was not answered or is not known is an error.
pub proof fn law_answers_add_up(details: Seq<RequestDetailsView>, detail: RequestDetailsView)
    ensures
        ({
            let read = selection::selection(details.push(detail));
            match selection::selection(details) {
                Err(error) => read == Err::<SelectedView, ErrorView>(error),
                Ok(before) => {
                    &&& detail.metadata == Some("lidarr:album"@) ==> read
                        == selection::with_albums(before, detail.selected_options())
                    &&& detail.metadata != Some("lidarr:album"@) && detail.selected_option() is None
                        ==> read == Err::<SelectedView, ErrorView>(
                        ErrorView::NoOptionSelected { title: detail.title },
                    )
                    &&& detail.metadata != Some("lidarr:album"@) && detail.metadata != Some(
                        "lidarr:monitor"@,
                    ) && detail.selected_option() is Some ==> read == Err::<
                        SelectedView,
                        ErrorView,
                    >(ErrorView::UnknownMetadata { key: detail.metadata })
                    &&& detail.metadata == Some("lidarr:monitor"@) ==> (
                    detail.selected_option() matches Some(option) ==> match option.id {
                        Some(SelectableIdView::Text(id)) => match selection::scope_from(
                            id,
                            selection::unescaped(id),
                        ) {
                            Ok(scope) => read == Ok::<SelectedView, ErrorView>(
                                SelectedView {
                                    monitor: Some(scope),
                                    album_ids: before.album_ids,
                                    all_albums: before.all_albums,
                                },
                            ),
                            Err(error) => read == Err::<SelectedView, ErrorView>(error),
                        },
                        other => read == Err::<SelectedView, ErrorView>(
                            ErrorView::MonitorIdNotString { id: other },
                        ),
                    })
                },
            }
        }),
{
    assert(details.push(detail).drop_last() =~= details);
    assert("lidarr:album"@ != "lidarr:monitor"@) by {
        reveal_strlit("lidarr:album");
        reveal_strlit("lidarr:monitor");
        assert("lidarr:album"@.len() != "lidarr:monitor"@.len());
    }
}

/// One more pick adds its id behind those picked before, except that the entry for all
/// albums is remembered apart; a pick without the id of an album is an error, and so is
/// all that follows it.
pub proof fn law_picks_add_up(
    before: SelectedView,
    options: Seq<DropdownOptionView>,
    option: DropdownOptionView,
)
    ensures
        selection::with_albums(before, Seq::empty()) == Ok::<SelectedView, ErrorView>(before),
        ({
            let read = selection::with_albums(before, options.push(option));
            match selection::with_albums(before, options) {
                Err(error) => read == Err::<SelectedView, ErrorView>(error),
                Ok(picked) => match option.id {
                    Some(SelectableIdView::Integer(id)) => if id == ALL_ITEMS_ID {
                        read == Ok::<SelectedView, ErrorView>(
                            SelectedView {
                                monitor: picked.monitor,
                                album_ids: picked.album_ids,
                                all_albums: true,
                            },
                        )
                    } else {
                        read == Ok::<SelectedView, ErrorView>(
                            SelectedView {
                                monitor: picked.monitor,
                                album_ids: picked.album_ids.push(id),
                                all_albums: picked.all_albums,
                            },
                        )
                    },
                    other => read == Err::<SelectedView, ErrorView>(
                        ErrorView::AlbumIdNotInteger { id: other },
                    ),
                },
            }
        }),
{
    assert(options.push(option).drop_last() =~= options);
}

/// What was picked of an artist are the choices of the first album picker among the
/// details, and nothing where there is none.
pub proof fn law_first_picker_is_summed_up(details: Seq<RequestDetailsView>, place: int)
    requires
        0 <= place <= details.len(),
        forall|i: int|
            0 <= i < place ==> (#[trigger] details[i]).metadata != Some("lidarr:album"@),
    ensures
        place == details.len() ==> selection::picked_options(details) == Seq::<
            DropdownOptionView,
        >::empty(),
        place < details.len() && details[place].metadata == Some("lidarr:album"@)
            ==> selection::picked_options(details) == details[place].selected_options(),
{
    let wanted = |detail: RequestDetailsView|
        detail.metadata == Some(crate::field_keys::ALBUM@);
    seqs::lemma_first_where(details, wanted);
    if place < details.len() && details[place].metadata == Some("lidarr:album"@) {
        assert(wanted(details[place]));
        let found = seqs::first_where(details, wanted)->0;
        let k = choose|k: int|
            0 <= k < details.len() && #[trigger] details[k] == found && (forall|j: int|
                0 <= j < k ==> !wanted(#[trigger] details[j]));
        if k < place {
            assert(details[k].metadata != Some("lidarr:album"@));
        }
        if place < k {
            assert(!wanted(details[place]));
        }
    }
}

/// Each picked album adds its title to the summary; the entry for all albums adds none,
/// and is what makes the summary one of all albums.
pub proof fn law_titles_add_up(options: Seq<DropdownOptionView>, option: DropdownOptionView)
    ensures
        selection::picked_titles(Seq::empty()) == Seq::<Seq<char>>::empty(),
        option.id == Some(SelectableIdView::Integer(ALL_ITEMS_ID)) ==> selection::picked_titles(
            options.push(option),
        ) == selection::picked_titles(options),
        option.id != Some(SelectableIdView::Integer(ALL_ITEMS_ID)) ==> selection::picked_titles(
            options.push(option),
        ) == selection::picked_titles(options).push(option.title),
        selection::picked_all(options) <==> exists|i: int|
            0 <= i < options.len() && (#[trigger] options[i]).id == Some(
                SelectableIdView::Integer(ALL_ITEMS_ID),
            ),
{
    reveal(Seq::filter_map);
    assert(options.push(option).drop_last() =~= options);
    if selection::picked_all(options) {
        let i = choose|i: int|
            0 <= i < options.len() && selection::is_all_albums(#[trigger] options[i]);
        assert(options[i].id == Some(SelectableIdView::Integer(ALL_ITEMS_ID)));
    }
    if exists|i: int|
        0 <= i < options.len() && (#[trigger] options[i]).id == Some(
            SelectableIdView::Integer(ALL_ITEMS_ID),
        ) {
        let i = choose|i: int|
            0 <= i < options.len() && (#[trigger] options[i]).id == Some(
                SelectableIdView::Integer(ALL_ITEMS_ID),
            );
        assert(selection::is_all_albums(options[i]));
    }
}

/// One picked album is named, more are counted, and none leave nothing to say.
pub proof fn law_several_albums_are_counted(titles: Seq<Seq<char>>)
    ensures
        titles.len() == 0 ==> selection::albums_line(titles) == Seq::<char>::empty(),
        titles.len() == 1 ==> selection::albums_line(titles) == titles[0],
        titles.len() > 1 ==> selection::albums_line(titles) == text::digits(titles.len())
            + " albums"@,
{
}

} // verus!
