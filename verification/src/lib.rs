//! Core logic of the Claudio desktop music player: the playlist and playback commands,
//! the settings file, the chat assistant's tools and conversation, and the requests to
//! the speech service.
pub mod ai;
pub mod commands;
pub mod config;
pub mod json;
pub mod speech;
pub mod state;
pub mod text;
