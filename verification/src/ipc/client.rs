//! Request bookkeeping and reply checks of the IPC client.
//!
//! The client keeps one connection with one request in flight. Requests are
//! numbered from 1 upward (wrapping); each response must echo the number of
//! the request it answers.

use vstd::prelude::*;
use crate::ipc::error::IpcClientError;
use crate::ipc::types::{Output, Response};

verus! {

/// The numbering of a connection's requests.
pub struct RequestIds {
    next: u64,
    issued: Ghost<nat>,
}

/// The id of the request made after `n` earlier ones on a connection:
/// `n + 1`, wrapping at 2^64.
pub open spec fn nth_request_id(n: nat) -> u64 {
    ((n + 1) % 0x1_0000_0000_0000_0000) as u64
}

impl RequestIds {
    #[verifier::type_invariant]
    spec fn numbering(self) -> bool {
        self.next == nth_request_id(self.issued@)
    }

    /// The id that the next request will carry.
    pub closed spec fn next_id(&self) -> u64 {
        self.next
    }

    /// How many ids have been issued on this connection.
    pub closed spec fn issued(&self) -> nat {
        self.issued@
    }

    /// A fresh connection: no request made yet; the first carries id 1.
    pub fn new() -> (ids: Self)
        ensures
            ids.next_id() == 1,
            ids.issued() == 0,
    {
        RequestIds { next: 1, issued: Ghost(0) }
    }

    /// Takes the id for a new request: after `n` earlier requests it is
    /// `n + 1` (wrapping), and the following request gets the next number,
    /// wrapping from `u64::MAX` to 0.
    pub fn issue(&mut self) -> (id: u64)
        ensures
            id == old(self).next_id(),
            id == nth_request_id(old(self).issued()),
            final(self).issued() == old(self).issued() + 1,
            final(self).next_id() == nth_request_id(final(self).issued()),
            final(self).next_id() == (if id == u64::MAX { 0 } else { (id + 1) as u64 }),
    {
        proof {
            use_type_invariant(&*self);
        }
        let id: u64 = self.next;
        let ghost n: nat = self.issued@;
        let next: u64 = if id == u64::MAX { 0 } else { id + 1 };
        proof {
            lemma_next_request_id(n);
        }
        *self = RequestIds { next, issued: Ghost(n + 1) };
        id
    }
}

proof fn lemma_next_request_id(n: nat)
    ensures
        nth_request_id(n + 1) == (if nth_request_id(n) == u64::MAX { 0 } else { (nth_request_id(n) + 1) as u64 }),
{
    let m: int = 0x1_0000_0000_0000_0000;
    let a: int = (n + 1) as int;
    vstd::arithmetic::div_mod::lemma_fundamental_div_mod(a, m);
    vstd::arithmetic::div_mod::lemma_fundamental_div_mod(a + 1, m);
    if a % m == m - 1 {
        assert((a + 1) % m == 0) by {
            vstd::arithmetic::div_mod::lemma_add_mod_noop(a, 1, m);
        }
    } else {
        assert((a + 1) % m == a % m + 1) by {
            vstd::arithmetic::div_mod::lemma_add_mod_noop(a, 1, m);
            vstd::arithmetic::div_mod::lemma_small_mod((a % m + 1) as nat, m as nat);
        }
    }
}

/// Checks a decoded response against the request it should answer.
///
/// A response that carries another id is refused with `ResponseIdMismatch`;
/// otherwise the server's `Ok` output is returned, and its error is wrapped
/// as `ServerError`.
pub fn finish_exchange<S>(request_id: u64, response: Response<S>) -> (r: Result<Output<S>, IpcClientError>)
    ensures
        response.id != request_id ==> (r matches Err(IpcClientError::ResponseIdMismatch { expected, got })
            && expected == request_id && got == response.id),
        response.id == request_id ==> match response.result {
            Ok(out) => r == Ok::<Output<S>, IpcClientError>(out),
            Err(e) => r == Err::<Output<S>, IpcClientError>(IpcClientError::ServerError(e)),
        },
{
    if response.id != request_id {
        return Err(IpcClientError::ResponseIdMismatch { expected: request_id, got: response.id });
    }
    match response.result {
        Ok(output) => Ok(output),
        Err(server_err) => Err(IpcClientError::ServerError(server_err)),
    }
}

/// The version string of a `Ping` reply.
///
/// Any other output is handed back unchanged, for the caller to report as
/// unexpected.
pub fn ping_version<S>(out: Output<S>) -> (r: Result<String, Output<S>>)
    ensures
        out matches Output::Pong { version } ==> r == Ok::<String, Output<S>>(version),
        !(out is Pong) ==> r == Err::<String, Output<S>>(out),
{
    match out {
        Output::Pong { version } => Ok(version),
        other => Err(other),
    }
}

} // verus!
