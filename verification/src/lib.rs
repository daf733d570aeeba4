//! Progress tracking for a media tool front-end.
//!
//! The library decodes the diagnostic stream of an external media process
//! into log lines and completion fractions, and holds the state and the
//! decisions of the interactive front-end that shows them. Process control,
//! terminal input and drawing are left to the caller, who hands the library
//! plain values and acts on what it returns.

pub mod commands;
pub mod fraction;
pub mod lines;
pub mod pattern;
pub mod progress;
pub mod runner;
pub mod text;
pub mod timestamp;
pub mod tui;
pub mod words;
