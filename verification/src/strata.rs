//! The Strata adapter's decisions: where the `strata` binary is, how the
//! daemon is started, which commands are sent, and how each reply is read.
//!
//! Spawning the daemon, the socket and the `await`s belong to the program
//! that drives the adapter.

pub mod locate;
pub mod adapter;
