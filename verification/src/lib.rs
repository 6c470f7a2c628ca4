//! Core of an interactive terminal client for a music streaming service.
//!
//! The crate covers the two stateful pieces of the application: the
//! credential lifecycle (reading a cached token, refreshing an expired one,
//! or running the interactive authorization-code exchange) and the terminal
//! event/update loop that drives the single-pane user interface.

pub mod app;
pub mod auth;
pub mod tui;
