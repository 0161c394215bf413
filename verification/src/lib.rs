//! The verified core of a bridge between a single-threaded host and a wallet
//! client that works in the background.
//!
//! The library holds the one client handle of a process in a [`registry`],
//! decides how each of the four initialisations and the teardown proceed
//! ([`lifecycle`]), routes commands to the installed client in detached or in
//! awaited mode ([`dispatch`]), and answers the read-only queries
//! ([`diagnostics`]). Every outcome is flattened to text ([`text`]).
//!
//! The library does no I/O and starts no thread. Where an operation needs
//! work of that kind, it returns a step that names the work; the embedding
//! does it and reports back, and the library decides what follows. What each
//! function returns is stated over a model of its own, and the laws that
//! relate several operations are proved over those models.

pub mod chain;
pub mod config;
pub mod diagnostics;
pub mod dispatch;
pub mod lifecycle;
pub mod locator;
pub mod registry;
pub mod text;
pub mod views;
