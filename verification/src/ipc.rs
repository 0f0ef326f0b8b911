//! Client side of the strata daemon's IPC protocol.
//!
//! The protocol is a stream of frames (a 4-byte big-endian length, then that
//! many bytes of MessagePack). Each request carries an id that the matching
//! response echoes. This module holds the frame format, the wire types, the
//! client's error type and the checks the client applies to each reply; the
//! socket, the MessagePack codec and the `await`s stand around it.

pub mod error;
pub mod types;
pub mod wire;
pub mod client;
