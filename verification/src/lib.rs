//! Client-side protocol core of a document-database driver.
//!
//! The crate turns operation requests into wire commands, decodes server
//! replies into typed results or structured errors, and keeps the state of a
//! resumable change stream. Every function is verified with Verus; the only
//! unproved statements are the contracts of the thin wrappers around the
//! `bson` crate, gathered in [`document`], and around a few `std`
//! functions, in [`text`], [`time`] and [`shared`].
//!
//! Nothing here touches a socket. Whoever owns the connection builds a
//! command with an [`operation::Operation`], sends its bytes, and hands the
//! reply back; whoever owns a change stream's cursor reports each poll to
//! [`change_stream::ChangeStream::advance`] and does what it answers.

pub mod change_stream;
pub mod client;
pub mod command;
pub mod concern;
pub mod cursor;
pub mod db;
pub mod document;
pub mod error;
pub mod field;
pub mod namespace;
pub mod number;
pub mod operation;
pub mod selection_criteria;
pub mod session;
pub mod shared;
pub mod stream_description;
pub mod text;
pub mod time;
