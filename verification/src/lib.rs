//! A small verified client library for merging one imaging series into an
//! imaging study on a remote PACS-style server.
//!
//! The library covers the three pieces of logic the tool needs: loading a
//! configuration (server address and credentials) from TOML text, building
//! the merge request (URL, body, credentials) by plain string concatenation,
//! and classifying the HTTP status of the reply. All I/O — reading the
//! configuration file, prompting the operator, sending the request — is left
//! to the surrounding binary.

pub mod config;
pub mod merge;
pub mod prompt;
