//! Configuration for an interactive JSON browser: a verified codec between
//! terminal styles and their document form, key chords, and a strict,
//! fully defaulted configuration parser.
pub mod chord;
pub mod config;
pub mod document;
pub mod error;
pub mod fields;
pub mod names;
pub mod style;
