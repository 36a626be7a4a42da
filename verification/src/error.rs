//! What can go wrong.
use crate::provider::{SelectableId, SelectableIdView};
use crate::text;
use crate::text::{debug_str, integer_text, join};
use vstd::prelude::*;

verus! {

/// A call to Lidarr that failed. Each variant holds what the failure says.
#[derive(Debug)]
pub enum ApiError {
    /// Lidarr answered with an error status
    Response(String),
    /// No answer came
    Reqwest(String),
    /// Lidarr applied the call, but its answer did not parse
    Serde(String),
    /// Reading or writing failed
    Io(String),
}

/// The contents of an `ApiError`.
#[verifier::ext_equal]
pub enum ApiErrorView {
    Response(Seq<char>),
    Reqwest(Seq<char>),
    Serde(Seq<char>),
    Io(Seq<char>),
}

impl DeepView for ApiError {
    type V = ApiErrorView;

    open spec fn deep_view(&self) -> ApiErrorView {
        match self {
            ApiError::Response(text) => ApiErrorView::Response(text@),
            ApiError::Reqwest(text) => ApiErrorView::Reqwest(text@),
            ApiError::Serde(text) => ApiErrorView::Serde(text@),
            ApiError::Io(text) => ApiErrorView::Io(text@),
        }
    }
}

impl ApiErrorView {
    /// What the failure says.
    pub open spec fn text(self) -> Seq<char> {
        match self {
            ApiErrorView::Response(text) => text,
            ApiErrorView::Reqwest(text) => text,
            ApiErrorView::Serde(text) => text,
            ApiErrorView::Io(text) => text,
        }
    }
}

/// Why the backend turned something down.
#[derive(Debug)]
pub enum LidarrError {
    RootFolderNotFound { path: String, available: Vec<String> },
    NoRootFolders,
    RootFolderWithoutPath,
    ProfileNotFound { label: String, name: String, available: Vec<String> },
    NoProfiles { label: String },
    InvalidMonitorType,
    WrongBackend,
    NoOptionSelected { title: String },
    AlbumIdNotInteger { id: Option<SelectableId> },
    MonitorIdNotString { id: Option<SelectableId> },
    /// The id of an option is no scope. `cause` is what reading the id said, where that
    /// failed; of an id that was read and names no scope there is none.
    UnknownScope { name: String, cause: Option<String> },
    UnknownMetadata { key: Option<String> },
    InvalidMediaType,
    NoMonitorSelected,
    AlbumWithoutArtist,
    AlbumWithoutMusicBrainzId,
    NoAlbumsListed,
    NoAlbumsSelected,
    AlreadyMonitored { name: String },
    Api(ApiError),
}

/// The contents of an `LidarrError`.
#[verifier::ext_equal]
pub enum ErrorView {
    RootFolderNotFound { path: Seq<char>, available: Seq<Seq<char>> },
    NoRootFolders,
    RootFolderWithoutPath,
    ProfileNotFound { label: Seq<char>, name: Seq<char>, available: Seq<Seq<char>> },
    NoProfiles { label: Seq<char> },
    InvalidMonitorType,
    WrongBackend,
    NoOptionSelected { title: Seq<char> },
    AlbumIdNotInteger { id: Option<SelectableIdView> },
    MonitorIdNotString { id: Option<SelectableIdView> },
    UnknownScope { name: Seq<char>, cause: Option<Seq<char>> },
    UnknownMetadata { key: Option<Seq<char>> },
    InvalidMediaType,
    NoMonitorSelected,
    AlbumWithoutArtist,
    AlbumWithoutMusicBrainzId,
    NoAlbumsListed,
    NoAlbumsSelected,
    AlreadyMonitored { name: Seq<char> },
    Api(ApiErrorView),
}

impl DeepView for LidarrError {
    type V = ErrorView;

    open spec fn deep_view(&self) -> ErrorView {
        match self {
            LidarrError::RootFolderNotFound { path, available } => ErrorView::RootFolderNotFound {
                path: path@,
                available: available.deep_view(),
            },
            LidarrError::NoRootFolders => ErrorView::NoRootFolders,
            LidarrError::RootFolderWithoutPath => ErrorView::RootFolderWithoutPath,
            LidarrError::ProfileNotFound { label, name, available } => ErrorView::ProfileNotFound {
                label: label@,
                name: name@,
                available: available.deep_view(),
            },
            LidarrError::NoProfiles { label } => ErrorView::NoProfiles { label: label@ },
            LidarrError::InvalidMonitorType => ErrorView::InvalidMonitorType,
            LidarrError::WrongBackend => ErrorView::WrongBackend,
            LidarrError::NoOptionSelected { title } => ErrorView::NoOptionSelected { title: title@ },
            LidarrError::AlbumIdNotInteger { id } => ErrorView::AlbumIdNotInteger { id: id.deep_view() },
            LidarrError::MonitorIdNotString { id } => ErrorView::MonitorIdNotString {
                id: id.deep_view(),
            },
            LidarrError::UnknownScope { name, cause } => ErrorView::UnknownScope {
                name: name@,
                cause: cause.deep_view(),
            },
            LidarrError::UnknownMetadata { key } => ErrorView::UnknownMetadata { key: key.deep_view() },
            LidarrError::InvalidMediaType => ErrorView::InvalidMediaType,
            LidarrError::NoMonitorSelected => ErrorView::NoMonitorSelected,
            LidarrError::AlbumWithoutArtist => ErrorView::AlbumWithoutArtist,
            LidarrError::AlbumWithoutMusicBrainzId => ErrorView::AlbumWithoutMusicBrainzId,
            LidarrError::NoAlbumsListed => ErrorView::NoAlbumsListed,
            LidarrError::NoAlbumsSelected => ErrorView::NoAlbumsSelected,
            LidarrError::AlreadyMonitored { name } => ErrorView::AlreadyMonitored { name: name@ },
            LidarrError::Api(error) => ErrorView::Api(error.deep_view()),
        }
    }
}

/// The outcome of a fallible call, with contents in place of values.
pub open spec fn outcome<T: DeepView, E: DeepView>(result: Result<T, E>) -> Result<T::V, E::V> {
    match result {
        Ok(value) => Ok(value.deep_view()),
        Err(error) => Err(error.deep_view()),
    }
}

/// How an id that is a text reads in a message, given how the text itself does.
pub open spec fn id_around(printed: Seq<char>) -> Seq<char> {
    "Some(String("@ + printed + "))"@
}

/// How a metadata key reads in a message, given how its text does.
pub open spec fn key_around(printed: Seq<char>) -> Seq<char> {
    "Some("@ + printed + ")"@
}

/// How an option's id reads in a message.
pub open spec fn printed_id(id: Option<SelectableIdView>) -> Seq<char> {
    match id {
        Some(SelectableIdView::Integer(number)) => "Some(Integer("@ + text::decimal(number as int)
            + "))"@,
        Some(SelectableIdView::Text(text)) => id_around(text::debug_text(text)),
        None => "None"@,
    }
}

/// How a metadata key reads in a message.
pub open spec fn printed_key(key: Option<Seq<char>>) -> Seq<char> {
    match key {
        Some(text) => key_around(text::debug_text(text)),
        None => "None"@,
    }
}

impl ErrorView {
    /// What the error says.
    pub open spec fn message(self) -> Seq<char> {
        match self {
            ErrorView::RootFolderNotFound { path, available } => "Root folder '"@ + path
                + "' not found. Available options: ["@ + text::joined(available, ", "@) + "]"@,
            ErrorView::NoRootFolders => "Lidarr has no root folders configured"@,
            ErrorView::RootFolderWithoutPath => "The selected Lidarr root folder has no path"@,
            ErrorView::ProfileNotFound { label, name, available } => label + " '"@ + name
                + "' not found. Available options: ["@ + text::joined(available, ", "@) + "]"@,
            ErrorView::NoProfiles { label } => label + "s are not configured in Lidarr"@,
            ErrorView::InvalidMonitorType =>
                "Monitor type 'unknown' is not a valid scope. Available options: [all, future, missing, existing, latest, first, none]"@,
            ErrorView::WrongBackend => "Configured backend not for Lidarr"@,
            ErrorView::NoOptionSelected { title } => "No option was selected for '"@ + title
                + "'"@,
            ErrorView::AlbumIdNotInteger { id } => "Album must have an integer ID, got "@
                + printed_id(id),
            ErrorView::MonitorIdNotString { id } => "Monitor must have a string ID, got "@
                + printed_id(id),
            ErrorView::UnknownScope { name, cause: _ } => "Failed to deserialize enum variant: "@ + name,
            ErrorView::UnknownMetadata { key } => "Unknown metadata key: "@ + printed_key(key),
            ErrorView::InvalidMediaType => "Invalid media type for Lidarr"@,
            ErrorView::NoMonitorSelected => "No monitor type was selected for a new artist"@,
            ErrorView::AlbumWithoutArtist => "Lidarr returned an album with no artist"@,
            ErrorView::AlbumWithoutMusicBrainzId =>
                "Lidarr returned an album with no MusicBrainz id"@,
            ErrorView::NoAlbumsListed => "Lidarr doesn't list any albums for this artist."@,
            ErrorView::NoAlbumsSelected => "No albums were selected."@,
            ErrorView::AlreadyMonitored { name } => "Already monitored for "@ + name
                + ", nothing more to add."@,
            ErrorView::Api(error) => error.text(),
        }
    }

    /// What the error goes back to, where the message does not say it.
    pub open spec fn cause(self) -> Option<Seq<char>> {
        match self {
            ErrorView::UnknownScope { name: _, cause } => cause,
            _ => None,
        }
    }

    /// Whether the requester is meant to read the message.
    pub open spec fn is_user_facing(self) -> bool {
        self is NoAlbumsListed || self is NoAlbumsSelected || self is AlreadyMonitored
    }
}

/// How an id that is a text reads in a message, given how the text itself does.
pub fn print_text_id(printed: &str) -> (text: String)
    ensures
        text@ == id_around(printed@),
{
    "Some(String(".to_owned().concat(printed).concat("))")
}

/// How a metadata key reads in a message, given how its text does.
pub fn print_text_key(printed: &str) -> (text: String)
    ensures
        text@ == key_around(printed@),
{
    "Some(".to_owned().concat(printed).concat(")")
}

fn print_id(id: &Option<SelectableId>) -> (text: String)
    ensures
        text@ == printed_id(id.deep_view()),
{
    match id {
        Some(SelectableId::Integer(number)) => "Some(Integer(".to_owned().concat(
            integer_text(*number).as_str(),
        ).concat("))"),
        Some(SelectableId::String(text)) => print_text_id(debug_str(text.as_str()).as_str()),
        None => "None".to_owned(),
    }
}

fn print_key(key: &Option<String>) -> (text: String)
    ensures
        text@ == printed_key(key.deep_view()),
{
    match key {
        Some(text) => print_text_key(debug_str(text.as_str()).as_str()),
        None => "None".to_owned(),
    }
}

impl ApiError {
    /// What the failure says.
    pub fn text(&self) -> (text: String)
        ensures
            text@ == self.deep_view().text(),
    {
        match self {
            ApiError::Response(text) => text.clone(),
            ApiError::Reqwest(text) => text.clone(),
            ApiError::Serde(text) => text.clone(),
            ApiError::Io(text) => text.clone(),
        }
    }
}

impl LidarrError {
    /// What the error says.
    pub fn message(&self) -> (text: String)
        ensures
            text@ == self.deep_view().message(),
    {
        match self {
            LidarrError::RootFolderNotFound { path, available } => "Root folder '".to_owned().concat(
                path.as_str(),
            ).concat("' not found. Available options: [").concat(
                join(available, ", ").as_str(),
            ).concat("]"),
            LidarrError::NoRootFolders => "Lidarr has no root folders configured".to_owned(),
            LidarrError::RootFolderWithoutPath =>
                "The selected Lidarr root folder has no path".to_owned(),
            LidarrError::ProfileNotFound { label, name, available } => label.clone().concat(
                " '",
            ).concat(name.as_str()).concat("' not found. Available options: [").concat(
                join(available, ", ").as_str(),
            ).concat("]"),
            LidarrError::NoProfiles { label } => label.clone().concat("s are not configured in Lidarr"),
            LidarrError::InvalidMonitorType =>
                "Monitor type 'unknown' is not a valid scope. Available options: [all, future, missing, existing, latest, first, none]".to_owned(),
            LidarrError::WrongBackend => "Configured backend not for Lidarr".to_owned(),
            LidarrError::NoOptionSelected { title } => "No option was selected for '".to_owned().concat(
                title.as_str(),
            ).concat("'"),
            LidarrError::AlbumIdNotInteger { id } => "Album must have an integer ID, got ".to_owned().concat(
                print_id(id).as_str(),
            ),
            LidarrError::MonitorIdNotString { id } => "Monitor must have a string ID, got ".to_owned().concat(
                print_id(id).as_str(),
            ),
            LidarrError::UnknownScope { name, cause: _ } => "Failed to deserialize enum variant: ".to_owned().concat(
                name.as_str(),
            ),
            LidarrError::UnknownMetadata { key } => "Unknown metadata key: ".to_owned().concat(
                print_key(key).as_str(),
            ),
            LidarrError::InvalidMediaType => "Invalid media type for Lidarr".to_owned(),
            LidarrError::NoMonitorSelected =>
                "No monitor type was selected for a new artist".to_owned(),
            LidarrError::AlbumWithoutArtist => "Lidarr returned an album with no artist".to_owned(),
            LidarrError::AlbumWithoutMusicBrainzId =>
                "Lidarr returned an album with no MusicBrainz id".to_owned(),
            LidarrError::NoAlbumsListed => "Lidarr doesn't list any albums for this artist.".to_owned(),
            LidarrError::NoAlbumsSelected => "No albums were selected.".to_owned(),
            LidarrError::AlreadyMonitored { name } => "Already monitored for ".to_owned().concat(
                name.as_str(),
            ).concat(", nothing more to add."),
            LidarrError::Api(error) => error.text(),
        }
    }

    /// What the error goes back to, where the message does not say it.
    pub fn cause(&self) -> (text: Option<String>)
        ensures
            text.deep_view() == self.deep_view().cause(),
    {
        match self {
            LidarrError::UnknownScope { name: _, cause: Some(cause) } => Some(cause.clone()),
            _ => None,
        }
    }

    /// Whether the requester is meant to read the message.
    pub fn is_user_facing(&self) -> (user_facing: bool)
        ensures
            user_facing == self.deep_view().is_user_facing(),
    {
        match self {
            LidarrError::NoAlbumsListed => true,
            LidarrError::NoAlbumsSelected => true,
            LidarrError::AlreadyMonitored { name: _ } => true,
            _ => false,
        }
    }
}

/// What is left of a call's outcome when an answer that did not parse counts as
/// success.
pub open spec fn tolerated<T>(result: Result<T, ApiErrorView>) -> Result<Option<T>, ApiErrorView> {
    match result {
        Ok(answer) => Ok(Some(answer)),
        Err(ApiErrorView::Serde(_)) => Ok(None),
        Err(error) => Err(error),
    }
}

/// Treats an answer that did not parse as success: by the time it is read, Lidarr
/// has already applied the change.
pub fn tolerate_response_parse_error<T: DeepView>(result: Result<T, ApiError>) -> (kept: Result<
    Option<T>,
    ApiError,
>)
    ensures
        outcome(kept) == tolerated(outcome(result)),
        result matches Ok(answer) ==> kept == Ok::<Option<T>, ApiError>(Some(answer)),
{
    match result {
        Ok(answer) => Ok(Some(answer)),
        Err(ApiError::Serde(_)) => Ok(None),
        Err(error) => Err(error),
    }
}

} // verus!
