//! An interactive, keyboard-driven directory browser core.
//!
//! The library owns the navigation state machine: the current path, the
//! ordered entry listing, the selection cursor, the error overlay and the
//! detail overlay, together with the rules that govern every transition.
//! Terminal input decoding, screen rendering and the filesystem reads
//! themselves live outside the library; the state machine consumes decoded
//! commands and directory-snapshot results as plain values.

pub mod app;
pub mod file_types;
pub mod laws;
