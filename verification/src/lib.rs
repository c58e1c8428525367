//! Version tracking for game-server containers.
//!
//! The library holds the rules of a daemon that watches a fixed list of
//! containers, notices when the published build of a game changes and
//! restarts the container that serves it. It performs no I/O itself: every
//! step that needs the outside world is handed to the caller as a
//! [`container::Request`] and answered with a [`container::Event`].

pub mod config;
pub mod container;
pub mod engine;
pub mod model;
pub mod runtime;
pub mod steam;
pub mod text;
