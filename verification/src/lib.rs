//! Core of a terminal music player: a playlist engine with loop-mode
//! semantics, a bounded-depth library tree with route-based refocus, a
//! media-control event reduction, and the session coordinator's per-tick
//! decisions. Filesystem, network and rendering side effects live outside
//! this crate; every function here is specified and verified.
pub mod bridge;
pub mod config;
pub mod cover;
pub mod input;
pub mod library;
pub mod lyrics;
pub mod messages;
pub mod model;
pub mod playlist;
pub mod playlist_file;
pub mod search;
pub mod strings;
pub mod tables;
pub mod track;
pub mod wrappers;
