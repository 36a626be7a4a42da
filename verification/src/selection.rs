//! What a requester chose.
use crate::error;
use crate::error::{LidarrError, ErrorView};
use crate::field_keys;
use crate::models;
use crate::models::MonitorTypes;
use crate::provider::{
    DropdownOption, DropdownOptionView, RequestDetails, RequestDetailsView, SelectableId,
    SelectableIdView, ALL_ITEMS_ID,
};
use crate::seqs;
use crate::text;
use crate::text::{natural_text, push_item, same_text};
use vstd::prelude::*;

verus! {

/// The final details needed to complete a request.
#[derive(Debug)]
pub struct SelectedDetails {
    /// How much of a new artist's discography to monitor
    pub monitor: Option<MonitorTypes>,
    /// Album ids picked from an existing artist's album picker
    pub album_ids: Vec<i32>,
    /// The requester chose "All Albums"
    pub all_albums: bool,
}

/// The contents of a `SelectedDetails`.
#[verifier::ext_equal]
pub struct SelectedView {
    pub monitor: Option<MonitorTypes>,
    pub album_ids: Seq<i32>,
    pub all_albums: bool,
}

impl DeepView for SelectedDetails {
    type V = SelectedView;

    open spec fn deep_view(&self) -> SelectedView {
        SelectedView {
            monitor: self.monitor,
            album_ids: self.album_ids@,
            all_albums: self.all_albums,
        }
    }
}

/// A text between double quotes.
pub open spec fn quoted(text: Seq<char>) -> Seq<char> {
    seq!['"'] + text + seq!['"']
}

/// Whether a text stands between quotes as it is in JSON.
pub open spec fn needs_no_escape(text: Seq<char>) -> bool {
    forall|i: int|
        0 <= i < text.len() ==> #[trigger] text[i] != '"' && text[i] != '\\' && text[i] as u32
            >= 0x20
}

/// The string that a JSON text holds, when it holds a string and nothing else; else
/// what the failure to read it says.
pub uninterp spec fn json_string(text: Seq<char>) -> Result<Seq<char>, Seq<char>>;

/// Reads a JSON text that holds a string, with `serde_json::from_str`; a failure is
/// kept by what it prints. The contract claims that the outcome is determined by the
/// text, and that a quoted text in which nothing needs an escape is read as it stands.
#[verifier::external_body]
fn parse_json_string(json: &str) -> (read: Result<String, String>)
    ensures
        read is Ok ==> json_string(json@) == Ok::<Seq<char>, Seq<char>>(read->Ok_0@),
        read is Err ==> json_string(json@) == Err::<Seq<char>, Seq<char>>(read->Err_0@),
        forall|plain: Seq<char>|
            needs_no_escape(plain) && json@ == #[trigger] quoted(plain) ==> read is Ok
                && read->Ok_0@ == plain,
{
    serde_json::from_str::<String>(json).map_err(|error| error.to_string())
}

/// What a text stands for between JSON quotes, or why it stands for nothing.
pub open spec fn unescaped(text: Seq<char>) -> Result<Seq<char>, Seq<char>> {
    if needs_no_escape(text) {
        Ok(text)
    } else {
        json_string(quoted(text))
    }
}

/// The scope that the id of an option stands for, given what the id stands for
/// between JSON quotes or why it stands for nothing.
pub open spec fn scope_from(id: Seq<char>, read: Result<Seq<char>, Seq<char>>) -> Result<
    MonitorTypes,
    ErrorView,
> {
    match read {
        Ok(name) => match models::scope_named(name) {
            Some(scope) => Ok(scope),
            None => Err(ErrorView::UnknownScope { name: id, cause: None }),
        },
        Err(cause) => Err(ErrorView::UnknownScope { name: id, cause: Some(cause) }),
    }
}

/// The scope that the id of an option stands for, given what the id stands for
/// between JSON quotes or why it stands for nothing.
pub fn scope_of_name(id: &str, read: Result<String, String>) -> (scope: Result<
    MonitorTypes,
    LidarrError,
>)
    ensures
        (match scope {
            Ok(scope) => Ok(scope),
            Err(error) => Err(error.deep_view()),
        }) == scope_from(id@, error::outcome(read)),
{
    match read {
        Ok(name) => match MonitorTypes::from_name(name.as_str()) {
            Some(scope) => Ok(scope),
            None => Err(LidarrError::UnknownScope { name: id.to_owned(), cause: None }),
        },
        Err(cause) => Err(LidarrError::UnknownScope { name: id.to_owned(), cause: Some(cause) }),
    }
}

/// The scope that the id of an option stands for.
pub fn deserialize_from_string(id: &str) -> (scope: Result<MonitorTypes, LidarrError>)
    ensures
        (match scope {
            Ok(scope) => Ok(scope),
            Err(error) => Err(error.deep_view()),
        }) == scope_from(id@, unescaped(id@)),
{
    let json = "\"".to_owned().concat(id).concat("\"");
    proof {
        reveal_strlit("\"");
        assert("\""@ =~= seq!['"']);
        assert(json@ == quoted(id@));
    }
    scope_of_name(id, parse_json_string(json.as_str()))
}

/// The selection before any detail is read.
pub open spec fn nothing_selected() -> SelectedView {
    SelectedView { monitor: None, album_ids: Seq::empty(), all_albums: false }
}

/// The selection with one more option of an album picker read.
pub open spec fn with_album(selected: SelectedView, option: DropdownOptionView) -> Result<
    SelectedView,
    ErrorView,
> {
    match option.id {
        Some(SelectableIdView::Integer(id)) => if id == ALL_ITEMS_ID {
            Ok(SelectedView { all_albums: true, ..selected })
        } else {
            Ok(SelectedView { album_ids: selected.album_ids.push(id), ..selected })
        },
        other => Err(ErrorView::AlbumIdNotInteger { id: other }),
    }
}

/// The selection with the chosen options of an album picker read, up to the first
/// that is no album.
pub open spec fn with_albums(
    selected: SelectedView,
    options: Seq<DropdownOptionView>,
) -> Result<SelectedView, ErrorView>
    decreases options.len(),
{
    if options.len() == 0 {
        Ok(selected)
    } else {
        match with_albums(selected, options.drop_last()) {
            Ok(selected) => with_album(selected, options.last()),
            Err(error) => Err(error),
        }
    }
}

/// The selection with one more detail read.
pub open spec fn with_detail(selected: SelectedView, detail: RequestDetailsView) -> Result<
    SelectedView,
    ErrorView,
> {
    if detail.metadata == Some(field_keys::ALBUM@) {
        with_albums(selected, detail.selected_options())
    } else {
        match detail.selected_option() {
            None => Err(ErrorView::NoOptionSelected { title: detail.title }),
            Some(option) => if detail.metadata == Some(field_keys::MONITOR@) {
                match option.id {
                    Some(SelectableIdView::Text(id)) => match scope_from(id, unescaped(id)) {
                        Ok(scope) => Ok(SelectedView { monitor: Some(scope), ..selected }),
                        Err(error) => Err(error),
                    },
                    other => Err(ErrorView::MonitorIdNotString { id: other }),
                }
            } else {
                Err(ErrorView::UnknownMetadata { key: detail.metadata })
            },
        }
    }
}

/// The selection that a list of details makes, read in order up to the first that
/// cannot be read.
pub open spec fn selection(details: Seq<RequestDetailsView>) -> Result<SelectedView, ErrorView>
    decreases details.len(),
{
    if details.len() == 0 {
        Ok(nothing_selected())
    } else {
        match selection(details.drop_last()) {
            Ok(selected) => with_detail(selected, details.last()),
            Err(error) => Err(error),
        }
    }
}

proof fn lemma_selection_fails_early(details: Seq<RequestDetailsView>, count: int)
    requires
        0 <= count <= details.len(),
        selection(details.take(count)) is Err,
    ensures
        selection(details) == selection(details.take(count)),
    decreases details.len() - count,
{
    if count == details.len() {
        assert(details.take(count) =~= details);
    } else {
        let more = details.take(count + 1);
        assert(more.drop_last() =~= details.take(count));
        lemma_selection_fails_early(details, count + 1);
    }
}

proof fn lemma_albums_fail_early(
    selected: SelectedView,
    options: Seq<DropdownOptionView>,
    count: int,
)
    requires
        0 <= count <= options.len(),
        with_albums(selected, options.take(count)) is Err,
    ensures
        with_albums(selected, options) == with_albums(selected, options.take(count)),
    decreases options.len() - count,
{
    if count == options.len() {
        assert(options.take(count) =~= options);
    } else {
        let more = options.take(count + 1);
        assert(more.drop_last() =~= options.take(count));
        lemma_albums_fail_early(selected, options, count + 1);
    }
}

fn copy_id(id: &Option<SelectableId>) -> (copy: Option<SelectableId>)
    ensures
        copy.deep_view() == id.deep_view(),
{
    match id {
        Some(SelectableId::Integer(number)) => Some(SelectableId::Integer(*number)),
        Some(SelectableId::String(text)) => Some(SelectableId::String(text.clone())),
        None => None,
    }
}

fn copy_key(key: &Option<String>) -> (copy: Option<String>)
    ensures
        copy.deep_view() == key.deep_view(),
{
    match key {
        Some(key) => Some(key.clone()),
        None => None,
    }
}

/// Whether a detail carries a key.
pub fn has_key(detail: &RequestDetails, key: &str) -> (has: bool)
    ensures
        has == (detail.deep_view().metadata == Some(key@)),
{
    match &detail.metadata {
        Some(metadata) => same_text(metadata.as_str(), key),
        None => false,
    }
}

fn read_albums(given: SelectedDetails, options: &Vec<&DropdownOption>) -> (read: Result<
    SelectedDetails,
    LidarrError,
>)
    ensures
        error::outcome(read) == with_albums(given.deep_view(), options.deep_view()),
{
    let mut selected = given;
    let mut i: usize = 0;
    let ghost start = given.deep_view();
    let ghost chosen = options.deep_view();
    while i < options.len()
        invariant
            i <= options@.len(),
            start == given.deep_view(),
            chosen == options.deep_view(),
            with_albums(start, chosen.take(i as int)) == Ok::<SelectedView, ErrorView>(
                selected.deep_view(),
            ),
        decreases options@.len() - i,
    {
        let option = options[i];
        proof {
            assert(chosen.take(i + 1).drop_last() =~= chosen.take(i as int));
            assert(chosen.take(i + 1).last() == option.deep_view());
        }
        match &option.id {
            Some(SelectableId::Integer(id)) => {
                if *id == ALL_ITEMS_ID {
                    selected.all_albums = true;
                } else {
                    selected.album_ids.push(*id);
                }
            },
            other => {
                proof {
                    lemma_albums_fail_early(start, chosen, i + 1);
                }
                return Err(LidarrError::AlbumIdNotInteger { id: copy_id(other) });
            },
        }
        i = i + 1;
    }
    assert(chosen.take(i as int) =~= chosen);
    Ok(selected)
}

fn read_detail(selected: SelectedDetails, detail: &RequestDetails) -> (read: Result<
    SelectedDetails,
    LidarrError,
>)
    ensures
        error::outcome(read) == with_detail(selected.deep_view(), detail.deep_view()),
{
    if has_key(detail, field_keys::ALBUM) {
        return read_albums(selected, &detail.selected_options());
    }
    let option = match detail.selected_option() {
        Some(option) => option,
        None => {
            return Err(LidarrError::NoOptionSelected { title: detail.title.clone() });
        },
    };
    if has_key(detail, field_keys::MONITOR) {
        match &option.id {
            Some(SelectableId::String(id)) => match deserialize_from_string(id.as_str()) {
                Ok(scope) => {
                    let mut selected = selected;
                    selected.monitor = Some(scope);
                    Ok(selected)
                },
                Err(error) => Err(error),
            },
            other => Err(LidarrError::MonitorIdNotString { id: copy_id(other) }),
        }
    } else {
        Err(LidarrError::UnknownMetadata { key: copy_key(&detail.metadata) })
    }
}

impl SelectedDetails {
    /// Reads what the requester chose out of the answered details.
    pub fn try_from(details: Vec<RequestDetails>) -> (read: Result<SelectedDetails, LidarrError>)
        ensures
            error::outcome(read) == selection(details.deep_view()),
    {
        let mut selected = SelectedDetails {
            monitor: None,
            album_ids: Vec::new(),
            all_albums: false,
        };
        let mut i: usize = 0;
        let ghost given = details.deep_view();
        while i < details.len()
            invariant
                i <= details@.len(),
                given == details.deep_view(),
                selection(given.take(i as int)) == Ok::<SelectedView, ErrorView>(
                    selected.deep_view(),
                ),
            decreases details@.len() - i,
        {
            proof {
                assert(given.take(i + 1).drop_last() =~= given.take(i as int));
                assert(given.take(i + 1).last() == details[i as int].deep_view());
            }
            match read_detail(selected, &details[i]) {
                Ok(read) => {
                    selected = read;
                },
                Err(error) => {
                    proof {
                        lemma_selection_fails_early(given, i + 1);
                    }
                    return Err(error);
                },
            }
            i = i + 1;
        }
        assert(given.take(i as int) =~= given);
        Ok(selected)
    }
}

/// Whether an option is the one that stands for all albums.
pub open spec fn is_all_albums(option: DropdownOptionView) -> bool {
    option.id == Some(SelectableIdView::Integer(ALL_ITEMS_ID))
}

/// The title of an option that stands for an album of its own.
pub open spec fn album_title(option: DropdownOptionView) -> Option<Seq<char>> {
    if is_all_albums(option) {
        None
    } else {
        Some(option.title)
    }
}

/// The options that were chosen in the first album picker among the details.
pub open spec fn picked_options(details: Seq<RequestDetailsView>) -> Seq<DropdownOptionView> {
    match seqs::first_where(
        details,
        |detail: RequestDetailsView| detail.metadata == Some(field_keys::ALBUM@),
    ) {
        Some(detail) => detail.selected_options(),
        None => Seq::empty(),
    }
}

/// The titles of the albums that were picked.
pub open spec fn picked_titles(options: Seq<DropdownOptionView>) -> Seq<Seq<char>> {
    options.filter_map(|option: DropdownOptionView| album_title(option))
}

/// Whether "All Albums" was picked.
pub open spec fn picked_all(options: Seq<DropdownOptionView>) -> bool {
    exists|i: int| 0 <= i < options.len() && is_all_albums(#[trigger] options[i])
}

/// The album titles the requester picked, and whether they chose "All Albums".
pub fn selected_albums(details: &[RequestDetails]) -> (picked: (Vec<String>, bool))
    ensures
        picked.0.deep_view() == picked_titles(picked_options(details.deep_view())),
        picked.1 == picked_all(picked_options(details.deep_view())),
{
    let ghost given = details.deep_view();
    let ghost wanted = |detail: RequestDetailsView| detail.metadata == Some(field_keys::ALBUM@);
    let mut i: usize = 0;
    assert(given.skip(0) =~= given);
    while i < details.len()
        invariant
            i <= details@.len(),
            given == details.deep_view(),
            wanted == (|detail: RequestDetailsView| detail.metadata == Some(field_keys::ALBUM@)),
            seqs::first_where(given, wanted) == seqs::first_where(given.skip(i as int), wanted),
        decreases details@.len() - i,
    {
        proof {
            seqs::lemma_first_where_step(given, wanted, i as int);
            assert(given[i as int] == details[i as int].deep_view());
        }
        if has_key(&details[i], field_keys::ALBUM) {
            return split_all_albums(&details[i].selected_options());
        }
        i = i + 1;
    }
    let titles: Vec<String> = Vec::new();
    proof {
        reveal(Seq::filter_map);
        assert(titles.deep_view() =~= picked_titles(Seq::empty()));
    }
    (titles, false)
}

fn split_all_albums(options: &Vec<&DropdownOption>) -> (picked: (Vec<String>, bool))
    ensures
        picked.0.deep_view() == picked_titles(options.deep_view()),
        picked.1 == picked_all(options.deep_view()),
{
    let ghost chosen = options.deep_view();
    let ghost keep = |option: DropdownOptionView| album_title(option);
    let mut titles: Vec<String> = Vec::new();
    let mut all_albums = false;
    let mut i: usize = 0;
    proof {
        seqs::lemma_sift_none(chosen, keep);
        assert(titles.deep_view() =~= chosen.take(0).filter_map(keep));
    }
    while i < options.len()
        invariant
            i <= options@.len(),
            chosen == options.deep_view(),
            keep == (|option: DropdownOptionView| album_title(option)),
            titles.deep_view() == chosen.take(i as int).filter_map(keep),
            all_albums == exists|j: int| 0 <= j < i && is_all_albums(#[trigger] chosen[j]),
        decreases options@.len() - i,
    {
        let option = options[i];
        proof {
            seqs::lemma_filter_map_step(chosen, keep, i as int);
            assert(chosen[i as int] == option.deep_view());
        }
        let is_all = match &option.id {
            Some(SelectableId::Integer(id)) => *id == ALL_ITEMS_ID,
            _ => false,
        };
        assert(is_all == is_all_albums(chosen[i as int]));
        if is_all {
            all_albums = true;
        } else {
            push_item(&mut titles, option.title.clone());
        }
        i = i + 1;
    }
    assert(chosen.take(i as int) =~= chosen);
    (titles, all_albums)
}

/// The picked albums in one line: none, the title of one, or the number of several.
pub open spec fn albums_line(titles: Seq<Seq<char>>) -> Seq<char> {
    if titles.len() == 0 {
        Seq::empty()
    } else if titles.len() == 1 {
        titles[0]
    } else {
        text::digits(titles.len()) + " albums"@
    }
}

/// Renders the picked albums for the one-line success summary. Album titles run
/// long, so more than one collapses to a count rather than a list.
pub fn format_albums(titles: &[String]) -> (line: String)
    ensures
        line@ == albums_line(titles.deep_view()),
{
    if titles.len() == 0 {
        String::new()
    } else if titles.len() == 1 {
        titles[0].clone()
    } else {
        natural_text(titles.len() as u64).concat(" albums")
    }
}

/// The requested albums that aren't already monitored on the artist. An empty
/// result means every requested album was already monitored.
pub fn albums_to_monitor(requested: &[i32], already_monitored: &[i32]) -> (missing: Vec<i32>)
    ensures
        missing@ == requested@.filter(|id: i32| !already_monitored@.contains(id)),
{
    let ghost kept = |id: i32| !already_monitored@.contains(id);
    let mut missing: Vec<i32> = Vec::new();
    let mut i: usize = 0;
    proof {
        reveal(Seq::filter);
        assert(requested@.take(0).filter(kept) =~= missing@);
    }
    while i < requested.len()
        invariant
            i <= requested@.len(),
            kept == (|id: i32| !already_monitored@.contains(id)),
            missing@ == requested@.take(i as int).filter(kept),
        decreases requested@.len() - i,
    {
        proof {
            seqs::lemma_filter_step(requested@, kept, i as int);
        }
        if !contains_id(already_monitored, requested[i]) {
            missing.push(requested[i]);
        }
        i = i + 1;
    }
    assert(requested@.take(i as int) =~= requested@);
    missing
}

fn contains_id(ids: &[i32], wanted: i32) -> (found: bool)
    ensures
        found == ids@.contains(wanted),
{
    let mut i: usize = 0;
    while i < ids.len()
        invariant
            i <= ids@.len(),
            forall|j: int| 0 <= j < i ==> ids@[j] != wanted,
        decreases ids@.len() - i,
    {
        if ids[i] == wanted {
            return true;
        }
        i = i + 1;
    }
    false
}

} // verus!
