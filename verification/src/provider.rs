//! What a backend hands the bot to show, and what the bot hands back.
use vstd::prelude::*;

verus! {

/// How many options a Discord dropdown can hold.
pub const MAX_DROPDOWN_OPTIONS: usize = 25;

/// The id of the option that stands for everything in a picker.
pub const ALL_ITEMS_ID: i32 = -1;

/// What identifies an option.
#[derive(Clone, Debug)]
pub enum SelectableId {
    Integer(i32),
    String(String),
}

/// One entry of a dropdown.
#[derive(Debug)]
pub struct DropdownOption {
    pub title: String,
    pub description: Option<String>,
    pub id: Option<SelectableId>,
}

/// How a field is presented.
#[derive(Clone, Copy, Debug, PartialEq, Eq, Structural)]
pub enum FieldType {
    Dropdown,
    MultiSelect,
}

/// A question to the requester, with the answer once it was given.
#[derive(Debug)]
pub struct RequestDetails {
    pub title: String,
    pub options: Vec<DropdownOption>,
    /// Tells the backend which of its questions this is
    pub metadata: Option<String>,
    /// The chosen options, by position
    pub selected_indices: Vec<usize>,
    pub field_type: FieldType,
    /// Ask even when there is only one option
    pub always_show: bool,
}

/// What is shown of a search result before it is requested.
#[derive(Debug)]
pub struct MediaDisplayInfo {
    pub title: String,
    pub subtitle: Option<String>,
    pub description: Option<String>,
    pub thumbnail_url: Option<String>,
}

/// The card that announces a request.
#[derive(Debug)]
pub struct EmbedData {
    pub title: String,
    pub media_type: &'static str,
    pub overview: String,
    pub poster_url: String,
    pub genres: Vec<String>,
    pub runtime_minutes: Option<u32>,
    pub studio_or_network: Option<String>,
    pub director: Option<String>,
    pub external_url: String,
}

/// What is shown once a request went through.
#[derive(Debug)]
pub struct SuccessMessage {
    pub summary: String,
    pub description: String,
    pub thumbnail_url: Option<String>,
    pub embed_data: Option<EmbedData>,
}

/// The contents of a `SelectableId`.
#[verifier::ext_equal]
pub enum SelectableIdView {
    Integer(i32),
    Text(Seq<char>),
}

/// The contents of a `DropdownOption`.
#[verifier::ext_equal]
pub struct DropdownOptionView {
    pub title: Seq<char>,
    pub description: Option<Seq<char>>,
    pub id: Option<SelectableIdView>,
}

/// The contents of a `RequestDetails`.
#[verifier::ext_equal]
pub struct RequestDetailsView {
    pub title: Seq<char>,
    pub options: Seq<DropdownOptionView>,
    pub metadata: Option<Seq<char>>,
    pub selected_indices: Seq<usize>,
    pub field_type: FieldType,
    pub always_show: bool,
}

/// The contents of a `MediaDisplayInfo`.
#[verifier::ext_equal]
pub struct MediaDisplayInfoView {
    pub title: Seq<char>,
    pub subtitle: Option<Seq<char>>,
    pub description: Option<Seq<char>>,
    pub thumbnail_url: Option<Seq<char>>,
}

/// The contents of an `EmbedData`.
#[verifier::ext_equal]
pub struct EmbedDataView {
    pub title: Seq<char>,
    pub media_type: Seq<char>,
    pub overview: Seq<char>,
    pub poster_url: Seq<char>,
    pub genres: Seq<Seq<char>>,
    pub runtime_minutes: Option<u32>,
    pub studio_or_network: Option<Seq<char>>,
    pub director: Option<Seq<char>>,
    pub external_url: Seq<char>,
}

/// The contents of a `SuccessMessage`.
#[verifier::ext_equal]
pub struct SuccessMessageView {
    pub summary: Seq<char>,
    pub description: Seq<char>,
    pub thumbnail_url: Option<Seq<char>>,
    pub embed_data: Option<EmbedDataView>,
}

impl DeepView for SelectableId {
    type V = SelectableIdView;

    open spec fn deep_view(&self) -> SelectableIdView {
        match self {
            SelectableId::Integer(number) => SelectableIdView::Integer(*number),
            SelectableId::String(text) => SelectableIdView::Text(text@),
        }
    }
}

impl DeepView for DropdownOption {
    type V = DropdownOptionView;

    open spec fn deep_view(&self) -> DropdownOptionView {
        DropdownOptionView {
            title: self.title@,
            description: self.description.deep_view(),
            id: self.id.deep_view(),
        }
    }
}

impl DeepView for RequestDetails {
    type V = RequestDetailsView;

    open spec fn deep_view(&self) -> RequestDetailsView {
        RequestDetailsView {
            title: self.title@,
            options: self.options.deep_view(),
            metadata: self.metadata.deep_view(),
            selected_indices: self.selected_indices@,
            field_type: self.field_type,
            always_show: self.always_show,
        }
    }
}

impl DeepView for MediaDisplayInfo {
    type V = MediaDisplayInfoView;

    open spec fn deep_view(&self) -> MediaDisplayInfoView {
        MediaDisplayInfoView {
            title: self.title@,
            subtitle: self.subtitle.deep_view(),
            description: self.description.deep_view(),
            thumbnail_url: self.thumbnail_url.deep_view(),
        }
    }
}

impl DeepView for EmbedData {
    type V = EmbedDataView;

    open spec fn deep_view(&self) -> EmbedDataView {
        EmbedDataView {
            title: self.title@,
            media_type: self.media_type@,
            overview: self.overview@,
            poster_url: self.poster_url@,
            genres: self.genres.deep_view(),
            runtime_minutes: self.runtime_minutes,
            studio_or_network: self.studio_or_network.deep_view(),
            director: self.director.deep_view(),
            external_url: self.external_url@,
        }
    }
}

impl DeepView for SuccessMessage {
    type V = SuccessMessageView;

    open spec fn deep_view(&self) -> SuccessMessageView {
        SuccessMessageView {
            summary: self.summary@,
            description: self.description@,
            thumbnail_url: self.thumbnail_url.deep_view(),
            embed_data: self.embed_data.deep_view(),
        }
    }
}

impl RequestDetailsView {
    /// The options at the chosen positions, in the order they were chosen.
    /// Positions outside the list are passed over.
    pub open spec fn selected_options(self) -> Seq<DropdownOptionView> {
        self.selected_indices.filter_map(|index: usize| self.option_at(index))
    }

    /// The option at a position, when the list has that position.
    pub open spec fn option_at(self, index: usize) -> Option<DropdownOptionView> {
        if index < self.options.len() {
            Some(self.options[index as int])
        } else {
            None
        }
    }

    /// The chosen option. A field with a single option needs no choice.
    pub open spec fn selected_option(self) -> Option<DropdownOptionView> {
        if self.selected_indices.len() > 0 {
            self.option_at(self.selected_indices[0])
        } else if self.options.len() == 1 {
            Some(self.options[0])
        } else {
            None
        }
    }
}

impl Clone for DropdownOption {
    fn clone(&self) -> (copy: DropdownOption)
        ensures
            copy.deep_view() == self.deep_view(),
    {
        let description = match &self.description {
            Some(description) => Some(description.clone()),
            None => None,
        };
        let id = match &self.id {
            Some(SelectableId::Integer(number)) => Some(SelectableId::Integer(*number)),
            Some(SelectableId::String(text)) => Some(SelectableId::String(text.clone())),
            None => None,
        };
        DropdownOption { title: self.title.clone(), description, id }
    }
}

impl RequestDetails {
    /// The options at the chosen positions, in the order they were chosen.
    pub fn selected_options(&self) -> (chosen: Vec<&DropdownOption>)
        ensures
            chosen.deep_view() == self.deep_view().selected_options(),
    {
        let mut chosen: Vec<&DropdownOption> = Vec::new();
        let mut i: usize = 0;
        let ghost view = self.deep_view();
        let ghost pick = |index: usize| view.option_at(index);
        reveal(Seq::filter_map);
        assert(view.selected_indices.take(0).filter_map(pick) =~= chosen.deep_view());
        while i < self.selected_indices.len()
            invariant
                i <= self.selected_indices@.len(),
                view == self.deep_view(),
                pick == (|index: usize| view.option_at(index)),
                chosen.deep_view() == view.selected_indices.take(i as int).filter_map(pick),
            decreases self.selected_indices@.len() - i,
        {
            let index = self.selected_indices[i];
            proof {
                reveal(Seq::filter_map);
                let seen = view.selected_indices.take(i + 1);
                assert(seen.drop_last() =~= view.selected_indices.take(i as int));
                assert(seen.last() == index);
            }
            if index < self.options.len() {
                let ghost before = chosen.deep_view();
                chosen.push(&self.options[index]);
                assert(chosen.deep_view() =~= before.push(view.options[index as int]));
            }
            i = i + 1;
        }
        assert(view.selected_indices.take(i as int) =~= view.selected_indices);
        chosen
    }

    /// The chosen option. A field with a single option needs no choice.
    pub fn selected_option(&self) -> (chosen: Option<&DropdownOption>)
        ensures
            chosen.deep_view() == self.deep_view().selected_option(),
    {
        if self.selected_indices.len() > 0 {
            let index = self.selected_indices[0];
            if index < self.options.len() {
                Some(&self.options[index])
            } else {
                None
            }
        } else if self.options.len() == 1 {
            Some(&self.options[0])
        } else {
            None
        }
    }
}

} // verus!
