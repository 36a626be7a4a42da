//! What holds of the contents of a value: they leave nothing out.
use crate::commands::{AlbumSearchCommand, AlbumSearchView, ArtistSearchCommand, ArtistSearchView};
use crate::config::{BackendConfig, BackendConfigView, Configuration, ConfigurationView};
use crate::error::{ApiError, ApiErrorView, ErrorView, LidarrError};
use crate::lidarr::{AddSettings, AddSettingsView, Lidarr, LidarrView};
use crate::media::{LidarrMedia, LidarrMediaView, MediaItem, MediaItemView};
use crate::models::{
    AddAlbumOptions, AddArtistOptions, AddArtistOptionsView, AlbumResource, AlbumView,
    AlbumsMonitoredResource, AlbumsMonitoredView, ArtistResource, ArtistView, MediaCover,
    MediaCoverView, ProfileResource, ProfileView, RootFolderResource, RootFolderView,
};
use crate::picker::{DetailsStep, DetailsStepView};
use crate::provider::{
    DropdownOption, DropdownOptionView, EmbedData, EmbedDataView, MediaDisplayInfo,
    MediaDisplayInfoView, RequestDetails, RequestDetailsView, SelectableId, SelectableIdView,
    SuccessMessage, SuccessMessageView,
};
use crate::request::{
    AlbumsListed, AlbumsListedView, ArtistFetched, ArtistFetchedView, RequestStep, StepView,
};
use crate::selection::{SelectedDetails, SelectedView};
use vstd::prelude::*;

verus! {

/// A `MediaCover` is seen with all that it holds, each part as it stands.
pub proof fn law_view_of_media_cover(value: MediaCover)
    ensures
        value.deep_view() == (MediaCoverView {
            cover_type: value.cover_type,
            remote_url: value.remote_url.deep_view(),
            other_fields: value.other_fields@,
        }),
{
}

/// An `AddArtistOptions` is seen with all that it holds, each part as it stands.
pub proof fn law_view_of_add_artist_options(value: AddArtistOptions)
    ensures
        value.deep_view() == (AddArtistOptionsView {
            monitor: value.monitor,
            albums_to_monitor: value.albums_to_monitor.deep_view(),
            monitored: value.monitored,
            search_for_missing_albums: value.search_for_missing_albums,
        }),
{
}

/// An `AddAlbumOptions` is seen with all that it holds, each part as it stands.
pub proof fn law_view_of_add_album_options(value: AddAlbumOptions)
    ensures
        value.deep_view() == value,
{
}

/// An `ArtistResource` is seen with all that it holds, each part as it stands.
pub proof fn law_view_of_artist_resource(value: ArtistResource)
    ensures
        value.deep_view() == (ArtistView {
            id: value.id,
            artist_name: value.artist_name.deep_view(),
            foreign_artist_id: value.foreign_artist_id.deep_view(),
            overview: value.overview.deep_view(),
            artist_type: value.artist_type.deep_view(),
            disambiguation: value.disambiguation.deep_view(),
            images: value.images.deep_view(),
            remote_poster: value.remote_poster.deep_view(),
            quality_profile_id: value.quality_profile_id,
            metadata_profile_id: value.metadata_profile_id,
            monitored: value.monitored,
            monitor_new_items: value.monitor_new_items,
            root_folder_path: value.root_folder_path.deep_view(),
            genres: value.genres.deep_view(),
            add_options: value.add_options.deep_view(),
            other_fields: value.other_fields@,
        }),
{
}

/// An `AlbumResource` is seen with all that it holds, each part as it stands.
pub proof fn law_view_of_album_resource(value: AlbumResource)
    ensures
        value.deep_view() == (AlbumView {
            id: value.id,
            title: value.title.deep_view(),
            overview: value.overview.deep_view(),
            foreign_album_id: value.foreign_album_id.deep_view(),
            monitored: value.monitored,
            duration: value.duration,
            album_type: value.album_type.deep_view(),
            genres: value.genres.deep_view(),
            artist: value.artist.deep_view(),
            release_date: value.release_date.deep_view(),
            images: value.images.deep_view(),
            remote_cover: value.remote_cover.deep_view(),
            add_options: value.add_options.deep_view(),
            other_fields: value.other_fields@,
        }),
{
}

/// An `AlbumsMonitoredResource` is seen with all that it holds, each part as it stands.
pub proof fn law_view_of_albums_monitored_resource(value: AlbumsMonitoredResource)
    ensures
        value.deep_view() == (AlbumsMonitoredView {
            album_ids: value.album_ids.deep_view(),
            monitored: value.monitored,
        }),
{
}

/// A `RootFolderResource` is seen with all that it holds, each part as it stands.
pub proof fn law_view_of_root_folder_resource(value: RootFolderResource)
    ensures
        value.deep_view() == (RootFolderView {
            path: value.path.deep_view(),
            default_metadata_profile_id: value.default_metadata_profile_id,
            default_quality_profile_id: value.default_quality_profile_id,
        }),
{
}

/// A `ProfileResource` is seen with all that it holds, each part as it stands.
pub proof fn law_view_of_profile_resource(value: ProfileResource)
    ensures
        value.deep_view() == (ProfileView { id: value.id, name: value.name.deep_view() }),
{
}

/// A `SelectableId` is seen with all that it holds, each part as it stands.
pub proof fn law_view_of_selectable_id(value: SelectableId)
    ensures
        value.deep_view() == (match value {
            SelectableId::Integer(number) => SelectableIdView::Integer(number),
            SelectableId::String(text) => SelectableIdView::Text(text@),
        }),
{
}

/// A `DropdownOption` is seen with all that it holds, each part as it stands.
pub proof fn law_view_of_dropdown_option(value: DropdownOption)
    ensures
        value.deep_view() == (DropdownOptionView {
            title: value.title@,
            description: value.description.deep_view(),
            id: value.id.deep_view(),
        }),
{
}

/// A `RequestDetails` is seen with all that it holds, each part as it stands.
pub proof fn law_view_of_request_details(value: RequestDetails)
    ensures
        value.deep_view() == (RequestDetailsView {
            title: value.title@,
            options: value.options.deep_view(),
            metadata: value.metadata.deep_view(),
            selected_indices: value.selected_indices@,
            field_type: value.field_type,
            always_show: value.always_show,
        }),
{
}

/// A `MediaDisplayInfo` is seen with all that it holds, each part as it stands.
pub proof fn law_view_of_media_display_info(value: MediaDisplayInfo)
    ensures
        value.deep_view() == (MediaDisplayInfoView {
            title: value.title@,
            subtitle: value.subtitle.deep_view(),
            description: value.description.deep_view(),
            thumbnail_url: value.thumbnail_url.deep_view(),
        }),
{
}

/// An `EmbedData` is seen with all that it holds, each part as it stands.
pub proof fn law_view_of_embed_data(value: EmbedData)
    ensures
        value.deep_view() == (EmbedDataView {
            title: value.title@,
            media_type: value.media_type@,
            overview: value.overview@,
            poster_url: value.poster_url@,
            genres: value.genres.deep_view(),
            runtime_minutes: value.runtime_minutes,
            studio_or_network: value.studio_or_network.deep_view(),
            director: value.director.deep_view(),
            external_url: value.external_url@,
        }),
{
}

/// A `SuccessMessage` is seen with all that it holds, each part as it stands.
pub proof fn law_view_of_success_message(value: SuccessMessage)
    ensures
        value.deep_view() == (SuccessMessageView {
            summary: value.summary@,
            description: value.description@,
            thumbnail_url: value.thumbnail_url.deep_view(),
            embed_data: value.embed_data.deep_view(),
        }),
{
}

/// An `ApiError` is seen with all that it holds, each part as it stands.
pub proof fn law_view_of_api_error(value: ApiError)
    ensures
        value.deep_view() == (match value {
            ApiError::Response(text) => ApiErrorView::Response(text@),
            ApiError::Reqwest(text) => ApiErrorView::Reqwest(text@),
            ApiError::Serde(text) => ApiErrorView::Serde(text@),
            ApiError::Io(text) => ApiErrorView::Io(text@),
        }),
{
}

/// A `LidarrError` is seen with all that it holds, each part as it stands.
pub proof fn law_view_of_lidarr_error(value: LidarrError)
    ensures
        value.deep_view() == (match value {
            LidarrError::RootFolderNotFound { path, available } => ErrorView::RootFolderNotFound {
                path: path@,
                available: available.deep_view(),
            },
            LidarrError::NoRootFolders => ErrorView::NoRootFolders,
            LidarrError::RootFolderWithoutPath => ErrorView::RootFolderWithoutPath,
            LidarrError::ProfileNotFound { label, name, available } => ErrorView::ProfileNotFound {
                label: label@,
                name: name@,
                available: available.deep_view(),
            },
            LidarrError::NoProfiles { label } => ErrorView::NoProfiles { label: label@ },
            LidarrError::InvalidMonitorType => ErrorView::InvalidMonitorType,
            LidarrError::WrongBackend => ErrorView::WrongBackend,
            LidarrError::NoOptionSelected { title } => ErrorView::NoOptionSelected { title: title@ },
            LidarrError::AlbumIdNotInteger { id } => ErrorView::AlbumIdNotInteger { id: id.deep_view() },
            LidarrError::MonitorIdNotString { id } => ErrorView::MonitorIdNotString {
                id: id.deep_view(),
            },
            LidarrError::UnknownScope { name, cause } => ErrorView::UnknownScope {
                name: name@,
                cause: cause.deep_view(),
            },
            LidarrError::UnknownMetadata { key } => ErrorView::UnknownMetadata { key: key.deep_view() },
            LidarrError::InvalidMediaType => ErrorView::InvalidMediaType,
            LidarrError::NoMonitorSelected => ErrorView::NoMonitorSelected,
            LidarrError::AlbumWithoutArtist => ErrorView::AlbumWithoutArtist,
            LidarrError::AlbumWithoutMusicBrainzId => ErrorView::AlbumWithoutMusicBrainzId,
            LidarrError::NoAlbumsListed => ErrorView::NoAlbumsListed,
            LidarrError::NoAlbumsSelected => ErrorView::NoAlbumsSelected,
            LidarrError::AlreadyMonitored { name } => ErrorView::AlreadyMonitored { name: name@ },
            LidarrError::Api(error) => ErrorView::Api(error.deep_view()),
        }),
{
}

/// A `SelectedDetails` is seen with all that it holds, each part as it stands.
pub proof fn law_view_of_selected_details(value: SelectedDetails)
    ensures
        value.deep_view() == (SelectedView {
            monitor: value.monitor,
            album_ids: value.album_ids@,
            all_albums: value.all_albums,
        }),
{
}

/// A `BackendConfig` is seen with all that it holds, each part as it stands.
pub proof fn law_view_of_backend_config(value: BackendConfig)
    ensures
        value.deep_view() == (match value {
            BackendConfig::Lidarr {
                url,
                api_key,
                quality_profile,
                metadata_profile,
                rootfolder,
                monitor_type,
                search_mode,
            } => BackendConfigView::Lidarr {
                url: url@,
                api_key: api_key@,
                quality_profile: quality_profile.deep_view(),
                metadata_profile: metadata_profile.deep_view(),
                rootfolder: rootfolder.deep_view(),
                monitor_type,
                search_mode,
            },
            BackendConfig::Other => BackendConfigView::Other,
        }),
{
}

/// A `Configuration` is seen with all that it holds, each part as it stands.
pub proof fn law_view_of_configuration(value: Configuration)
    ensures
        value.deep_view() == (ConfigurationView { base_path: value.base_path@, api_key: value.api_key.deep_view() }),
{
}

/// An `AddSettings` is seen with all that it holds, each part as it stands.
pub proof fn law_view_of_add_settings(value: AddSettings)
    ensures
        value.deep_view() == (AddSettingsView {
            rootfolder_path: value.rootfolder_path@,
            quality_profile_id: value.quality_profile_id,
            metadata_profile_id: value.metadata_profile_id,
        }),
{
}

/// A `Lidarr` is seen with all that it holds, each part as it stands.
pub proof fn law_view_of_lidarr(value: Lidarr)
    ensures
        value.deep_view() == (LidarrView {
            config: value.config.deep_view(),
            monitor: value.monitor@,
            search_mode: value.search_mode,
            add_settings: value.add_settings.deep_view(),
        }),
{
}

/// An `ArtistSearchCommand` is seen with all that it holds, each part as it stands.
pub proof fn law_view_of_artist_search_command(value: ArtistSearchCommand)
    ensures
        value.deep_view() == (ArtistSearchView { name: value.name@, artist_id: value.artist_id }),
{
}

/// An `AlbumSearchCommand` is seen with all that it holds, each part as it stands.
pub proof fn law_view_of_album_search_command(value: AlbumSearchCommand)
    ensures
        value.deep_view() == (AlbumSearchView { name: value.name@, album_ids: value.album_ids@ }),
{
}

/// A `LidarrMedia` is seen with all that it holds, each part as it stands.
pub proof fn law_view_of_lidarr_media(value: LidarrMedia)
    ensures
        value.deep_view() == (match value {
            LidarrMedia::Artist(artist) => LidarrMediaView::Artist(artist.deep_view()),
            LidarrMedia::Album(album) => LidarrMediaView::Album(album.deep_view()),
        }),
{
}

/// A `MediaItem` is seen with all that it holds, each part as it stands.
pub proof fn law_view_of_media_item(value: MediaItem)
    ensures
        value.deep_view() == (match value {
            MediaItem::Lidarr(media) => MediaItemView::Lidarr(media.deep_view()),
            MediaItem::Other(option) => MediaItemView::Other(option.deep_view()),
        }),
{
}

/// A `DetailsStep` is seen with all that it holds, each part as it stands.
pub proof fn law_view_of_details_step(value: DetailsStep)
    ensures
        value.deep_view() == (match value {
            DetailsStep::Ask(details) => DetailsStepView::Ask(details.deep_view()),
            DetailsStep::ListAlbums { artist_id } => DetailsStepView::ListAlbums {
                artist_id,
            },
            DetailsStep::Failed(error) => DetailsStepView::Failed(error.deep_view()),
        }),
{
}

/// An `AlbumsListed` is seen with all that it holds, each part as it stands.
pub proof fn law_view_of_albums_listed(value: AlbumsListed)
    ensures
        value.deep_view() == (AlbumsListedView {
            artist_id: value.artist_id,
            name: value.name@,
            selected: value.selected.deep_view(),
        }),
{
}

/// An `ArtistFetched` is seen with all that it holds, each part as it stands.
pub proof fn law_view_of_artist_fetched(value: ArtistFetched)
    ensures
        value.deep_view() == (ArtistFetchedView {
            artist_id: value.artist_id,
            name: value.name@,
            to_monitor: value.to_monitor@,
        }),
{
}

/// A `RequestStep` is seen with all that it holds, each part as it stands.
pub proof fn law_view_of_request_step(value: RequestStep)
    ensures
        value.deep_view() == (match value {
            RequestStep::ListAlbums { artist_id, next } => StepView::ListAlbums {
                artist_id,
                next: next.deep_view(),
            },
            RequestStep::GetArtist { artist_id, next } => StepView::GetArtist {
                artist_id,
                next: next.deep_view(),
            },
            RequestStep::UpdateArtist { id, move_files, artist, next } => StepView::UpdateArtist {
                id: id@,
                move_files,
                artist: artist.deep_view(),
                to_monitor: next.to_monitor@,
            },
            RequestStep::MonitorAlbums { resource, next } => StepView::MonitorAlbums {
                resource: resource.deep_view(),
                album_ids: next.album_ids@,
            },
            RequestStep::SearchAlbums { command, next } => StepView::SearchAlbums {
                command: command.deep_view(),
            },
            RequestStep::AddArtist { artist, next } => StepView::AddArtist {
                artist: artist.deep_view(),
            },
            RequestStep::AddAlbum { album, next } => StepView::AddAlbum {
                album: album.deep_view(),
            },
            RequestStep::Done => StepView::Done,
            RequestStep::Failed(error) => StepView::Failed(error.deep_view()),
        }),
{
}

} // verus!
