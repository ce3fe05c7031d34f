//! The configuration backbone of a scheduled data-integration tool: the
//! schema of its one configuration document, the rules that a document
//! must keep, the overlay of one environment's settings, and the holder of
//! the document in force, which is loaded at start and reloaded whenever its
//! file changes. Reading files and parsing YAML is left to the caller, who
//! hands in documents as values.

pub mod cli;
pub mod commands;
pub mod config;
pub mod text;
