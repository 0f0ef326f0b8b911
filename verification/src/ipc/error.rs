//! Errors of the IPC client.

use vstd::prelude::*;
use crate::ipc::types::IpcError;

verus! {

/// `std::io::Error`, carried through unchanged.
#[verifier::external_type_specification]
#[verifier::external_body]
pub struct ExIoError(std::io::Error);

/// `rmp_serde::encode::Error`, carried through unchanged.
#[verifier::external_type_specification]
#[verifier::external_body]
pub struct ExMsgpackEncodeError(rmp_serde::encode::Error);

/// `rmp_serde::decode::Error`, carried through unchanged.
#[verifier::external_type_specification]
#[verifier::external_body]
pub struct ExMsgpackDecodeError(rmp_serde::decode::Error);

/// Errors from the IPC client.
#[derive(Debug)]
pub enum IpcClientError {
    /// I/O error reading or writing the unix socket.
    Io(std::io::Error),
    /// MessagePack encode failure (request).
    Encode(rmp_serde::encode::Error),
    /// MessagePack decode failure (response), e.g. an `Output` variant that
    /// this client does not mirror.
    Decode(rmp_serde::decode::Error),
    /// A frame exceeded the 64 MB cap on either the encode or decode path.
    FrameTooLarge {
        /// Frame size that triggered the error.
        bytes: usize,
        /// The configured max.
        max: usize,
    },
    /// Server returned a structured error (`Result::Err` in `Response`).
    ServerError(IpcError),
    /// Response id did not match the request id.
    ResponseIdMismatch {
        /// The id we sent.
        expected: u64,
        /// The id the server returned.
        got: u64,
    },
    /// The server answered with an `Output` variant the caller did not expect.
    UnexpectedOutput(String),
}

} // verus!
