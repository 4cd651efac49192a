//! The playback-progression core of a console playlist player: which track
//! plays next, the per-track statistics that bias that choice, and the
//! transitions that console commands and keyboard shortcuts cause.

pub mod catalog;
pub mod command;
pub mod crash_reporter;
pub mod handle_input;
pub mod player;
pub mod playlist_settings;
pub mod report;
pub mod selection;
pub mod table;
pub mod text;
pub mod utils;
pub mod volume;
