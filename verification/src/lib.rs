//! A backend toolkit built around a length-prefixed message protocol for
//! ordered byte streams.
//!
//! The protocol: `net` frames a payload behind a four byte length and reads
//! frames back without ever asking a stream for a byte beyond the frame;
//! `status` is the vocabulary of status codes; `msg` sends and receives
//! messages as JSON text in frames.
//!
//! Around it: `error` holds the errors and their texts, `lock` the guards
//! and providers around the locks of std, `log` the logger free of I/O,
//! `version` versions and their text, `auth` and `usr` sessions and users,
//! `book`, `book_org` and `io` the rows of the database as plain values,
//! `context` what is loaded from them and bound together.
//! `outside` declares what is taken on trust from std and from other crates.

pub mod auth;
pub mod book;
pub mod book_org;
pub mod context;
pub mod error;
pub mod io;
pub mod lock;
pub mod log;
pub mod msg;
pub mod net;
pub mod outside;
pub mod status;
pub mod text;
pub mod usr;
pub mod version;
