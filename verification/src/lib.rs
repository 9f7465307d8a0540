//! A local audio playback controller: it scans a directory tree for audio
//! files, builds an addressable catalog of tracks, and drives a single
//! active playback session (play / pause / resume / seek / volume) while a
//! periodic monitor reports progress to the front end.
//!
//! This crate holds the playback coordination logic itself: the catalog
//! builder, the coordinator state machine, the progress-monitor decision
//! rule, and the validation of stream URLs and volume settings. Device
//! handling, filesystem traversal and tag reading are left to the binary
//! around it, which feeds plain values in and carries actions out.

pub mod catalog;
pub mod cli;
pub mod coordinator;
pub mod meta;
pub mod state;
pub mod urlcheck;
