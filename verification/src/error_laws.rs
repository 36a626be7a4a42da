//! What holds of errors and of what they say.
use crate::error;
use crate::error::{ApiErrorView, ErrorView};
use crate::provider::SelectableIdView;
use crate::text;
use vstd::prelude::*;

verus! {

/// An error about settings names what was asked for and what there is.
pub proof fn law_setting_errors_say_what_there_is(
    asked: Seq<char>,
    label: Seq<char>,
    available: Seq<Seq<char>>,
)
    ensures
        (ErrorView::RootFolderNotFound { path: asked, available }).message() == "Root folder '"@
            + asked + "' not found. Available options: ["@ + text::joined(available, ", "@) + "]"@,
        (ErrorView::ProfileNotFound { label, name: asked, available }).message() == label + " '"@
            + asked + "' not found. Available options: ["@ + text::joined(available, ", "@) + "]"@,
        (ErrorView::NoProfiles { label }).message() == label + "s are not configured in Lidarr"@,
        ErrorView::NoRootFolders.message() == "Lidarr has no root folders configured"@,
        ErrorView::RootFolderWithoutPath.message()
            == "The selected Lidarr root folder has no path"@,
        ErrorView::InvalidMonitorType.message()
            == "Monitor type 'unknown' is not a valid scope. Available options: [all, future, missing, existing, latest, first, none]"@,
        ErrorView::WrongBackend.message() == "Configured backend not for Lidarr"@,
{
}

/// An error about an answer names the question, the id or the key that is wrong with it.
pub proof fn law_answer_errors_say_what_is_wrong(
    title: Seq<char>,
    number: i32,
    words: Seq<char>,
    cause: Option<Seq<char>>,
)
    ensures
        (ErrorView::NoOptionSelected { title }).message() == "No option was selected for '"@ + title
            + "'"@,
        (ErrorView::AlbumIdNotInteger { id: None }).message()
            == "Album must have an integer ID, got "@ + "None"@,
        (ErrorView::AlbumIdNotInteger { id: Some(SelectableIdView::Text(words)) }).message()
            == "Album must have an integer ID, got "@ + ("Some(String("@ + text::debug_text(words)
            + "))"@),
        (ErrorView::AlbumIdNotInteger { id: Some(SelectableIdView::Integer(number)) }).message()
            == "Album must have an integer ID, got "@ + ("Some(Integer("@ + text::decimal(
            number as int,
        ) + "))"@),
        (ErrorView::MonitorIdNotString { id: None }).message()
            == "Monitor must have a string ID, got "@ + "None"@,
        (ErrorView::MonitorIdNotString { id: Some(SelectableIdView::Text(words)) }).message()
            == "Monitor must have a string ID, got "@ + ("Some(String("@ + text::debug_text(words)
            + "))"@),
        (ErrorView::MonitorIdNotString { id: Some(SelectableIdView::Integer(number)) }).message()
            == "Monitor must have a string ID, got "@ + ("Some(Integer("@ + text::decimal(
            number as int,
        ) + "))"@),
        (ErrorView::UnknownScope { name: words, cause }).message()
            == "Failed to deserialize enum variant: "@ + words,
        (ErrorView::UnknownMetadata { key: None }).message() == "Unknown metadata key: "@ + "None"@,
        (ErrorView::UnknownMetadata { key: Some(words) }).message() == "Unknown metadata key: "@ + (
        "Some("@ + text::debug_text(words) + ")"@),
        error::id_around(words) == "Some(String("@ + words + "))"@,
        error::key_around(words) == "Some("@ + words + ")"@,
{
}

/// An error about a request says why it goes no further; a failed call speaks for itself.
pub proof fn law_request_errors_say_why(name: Seq<char>, words: Seq<char>)
    ensures
        ErrorView::InvalidMediaType.message() == "Invalid media type for Lidarr"@,
        ErrorView::NoMonitorSelected.message() == "No monitor type was selected for a new artist"@,
        ErrorView::AlbumWithoutArtist.message() == "Lidarr returned an album with no artist"@,
        ErrorView::AlbumWithoutMusicBrainzId.message()
            == "Lidarr returned an album with no MusicBrainz id"@,
        ErrorView::NoAlbumsListed.message() == "Lidarr doesn't list any albums for this artist."@,
        ErrorView::NoAlbumsSelected.message() == "No albums were selected."@,
        (ErrorView::AlreadyMonitored { name }).message() == "Already monitored for "@ + name
            + ", nothing more to add."@,
        ErrorView::Api(ApiErrorView::Response(words)).message() == words,
        ErrorView::Api(ApiErrorView::Reqwest(words)).message() == words,
        ErrorView::Api(ApiErrorView::Serde(words)).message() == words,
        ErrorView::Api(ApiErrorView::Io(words)).message() == words,
        ApiErrorView::Response(words).text() == words,
        ApiErrorView::Reqwest(words).text() == words,
        ApiErrorView::Serde(words).text() == words,
        ApiErrorView::Io(words).text() == words,
{
}

/// The requester is shown an error exactly when it is about what they asked for: an
/// artist without albums, no pick, or nothing left to add.
pub proof fn law_requesters_see_their_own_errors(error: ErrorView)
    ensures
        error.is_user_facing() <==> (error is NoAlbumsListed || error is NoAlbumsSelected
            || error is AlreadyMonitored),
        error.cause() == (match error {
            ErrorView::UnknownScope { name, cause } => cause,
            _ => None::<Seq<char>>,
        }),
{
}

/// Of a change, only an answer that did not parse is forgiven: any other failure stays,
/// and a success keeps its answer.
pub proof fn law_only_unparsed_answers_are_forgiven(
    answer: Seq<char>,
    failure: ApiErrorView,
)
    ensures
        error::tolerated(Ok::<Seq<char>, ApiErrorView>(answer)) == Ok::<
            Option<Seq<char>>,
            ApiErrorView,
        >(Some(answer)),
        failure is Serde ==> error::tolerated(Err::<Seq<char>, ApiErrorView>(failure)) == Ok::<
            Option<Seq<char>>,
            ApiErrorView,
        >(None),
        !(failure is Serde) ==> error::tolerated(Err::<Seq<char>, ApiErrorView>(failure)) == Err::<
            Option<Seq<char>>,
            ApiErrorView,
        >(failure),
{
}

/// The outcome of a call holds the contents of what it came to, and nothing else.
pub proof fn law_outcomes_are_faithful<T: DeepView, E: DeepView>(value: T, failure: E)
    ensures
        error::outcome(Ok::<T, E>(value)) == Ok::<T::V, E::V>(value.deep_view()),
        error::outcome(Err::<T, E>(failure)) == Err::<T::V, E::V>(failure.deep_view()),
{
}

} // verus!
