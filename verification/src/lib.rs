//! The control plane of a small file-hosting daemon.
//!
//! The daemon is handed the listening socket of its control channel by the
//! service manager, loads a configuration and a user directory, builds a
//! TLS context that trusts the certificates of its users, and then serves
//! the control channel: a health check, and the reload of its
//! configuration while it runs.
//!
//! This library holds what the daemon decides and computes; it never
//! touches a file or a socket itself. The one who runs it reads and writes,
//! and hands over what was read:
//!
//! - [`config`] is the configuration record and its JSON form;
//! - [`users`] is the user directory, with the rules on its file and on the
//!   reserved users;
//! - [`ssl`] builds the TLS context;
//! - [`ctl_messages`] are the messages of the control channel, and
//!   [`control`] is the course of one connection on it;
//! - [`multiplexer`] decides what the event loop does when it wakes;
//! - [`errors`] are the failures of all of these, and [`messages`] their
//!   words;
//! - [`json`], [`login`] and [`text`] are what the others share.
//!
//! JSON is read and written by `serde_json`, PEM is read by
//! `rustls_pemfile`, and the TLS context is built by `rustls`: the
//! contracts here name what those libraries return, and say what is done
//! with it.

pub mod config;
pub mod control;
pub mod ctl_messages;
pub mod errors;
pub mod json;
pub mod login;
pub mod messages;
pub mod multiplexer;
pub mod ssl;
pub mod text;
pub mod users;
