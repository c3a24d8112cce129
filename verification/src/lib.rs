//! Core of a Pomodoro countdown-timer application: the shared timer state,
//! the authoritative transition engine, session recording, settings
//! normalization, analytics helpers, and the routing logic of the embedded
//! remote-control HTTP surface.
//!
//! Everything here is verified; the surrounding process (storage, sockets,
//! threads, desktop shell) lives outside the library and calls into it.

pub mod analytics;
pub mod engine;
pub mod http;
pub mod models;
pub mod remote;
pub mod settings;
pub mod text;
