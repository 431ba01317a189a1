//! Core logic of a live-reload development server.
//!
//! The server watches a root directory for filesystem changes and pushes a
//! reload notification to every connected browser. This crate holds the
//! verified heart of that pipeline: classification of raw filesystem events,
//! a single-producer broadcast bus with bounded per-subscriber queues,
//! the per-connection notification session, request routing, file-path
//! resolution with HTML script injection, and option parsing. The
//! surrounding process (sockets, timers, the watcher thread) drives these
//! functions and performs the I/O they decide about.

pub mod bus;
pub mod detector;
pub mod options;
pub mod pages;
pub mod router;
pub mod session;
