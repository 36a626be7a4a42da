//! The decisions of a Lidarr backend for a media request bot: which artists and
//! albums a search offers, what a requester is asked, and which calls a request
//! makes to Lidarr.
pub mod text;
pub mod date;
pub mod models;
pub mod provider;
pub mod error;
pub mod seqs;
pub mod field_keys;
pub mod selection;
pub mod config;
pub mod lidarr;
pub mod commands;
pub mod media;
pub mod search;
pub mod display;
pub mod picker;
pub mod request;
pub mod laws;
pub mod picker_laws;
pub mod request_laws;
pub mod text_laws;
pub mod error_laws;
pub mod selection_laws;
pub mod settings_laws;
pub mod media_laws;
pub mod search_laws;
pub mod view_laws;
