//! Velo Player's core: the data model shared by the UI and the Spotify
//! controller, the Web API response readers, the login and token logic, the
//! playback queue state machine and the self-update decisions.
//!
//! Everything that talks to the network, the disk, GTK or the audio backend
//! lives in the application around this library; it hands plain values in
//! and performs the effects that come back out.

pub mod text;
pub mod types;
pub mod ui;
pub mod auth;
pub mod update;
pub mod json;
pub mod api;
pub mod controller;
pub mod startup;
