//! mastotui — the session and navigation controller of a terminal client
//! for a Mastodon-style social service.
//!
//! This library holds the verified core: the screen state machine, the
//! feed pagination rules, the authentication lifecycle decisions, and the
//! text utilities they rest on. All network, terminal and secret-store
//! work is done outside the library by a runner that executes the
//! [`app::Command`] values the controller hands back and feeds the
//! outcomes into the controller's apply functions.

pub mod app;
pub mod config;
pub mod credential;
pub mod error;
pub mod paths;
pub mod render;
pub mod strutil;
pub mod types;
