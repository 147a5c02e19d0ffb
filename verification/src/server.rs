//! The socket server: the per-connection request/response exchange and the
//! startup decision after binding the listening endpoint.
//!
//! Binding, accepting, reading and writing are blocking system calls that
//! the unverified driver performs; it hands the bytes read from each
//! connection to `handle_request` and writes the response it returns. The
//! response is a fixed placeholder text, deliberately unrelated to the
//! request content.

use vstd::prelude::*;

use crate::errors::{IoKind, SocketError};
use crate::utf8::is_valid_utf8;
use crate::utf8::validate_utf8;

verus! {

/// Permission bits the listening socket's path is given.
pub const SOCKET_MODE: u32 = 0o700;

/// The fixed response, the text `work_mem = 64MB`, as a byte sequence.
/// A placeholder: no real tuning protocol stands behind it.
pub open spec fn response_spec() -> Seq<u8> {
    seq![
        0x77u8, 0x6f, 0x72, 0x6b, 0x5f, 0x6d, 0x65, 0x6d, 0x20, 0x3d, 0x20, 0x36, 0x34, 0x4d,
        0x42,
    ]
}

/// Builds the fixed response payload.
pub fn response_payload() -> (r: Vec<u8>)
    ensures
        r@ == response_spec(),
{
    let mut r: Vec<u8> = Vec::new();
    r.push(0x77);
    r.push(0x6f);
    r.push(0x72);
    r.push(0x6b);
    r.push(0x5f);
    r.push(0x6d);
    r.push(0x65);
    r.push(0x6d);
    r.push(0x20);
    r.push(0x3d);
    r.push(0x20);
    r.push(0x36);
    r.push(0x34);
    r.push(0x4d);
    r.push(0x42);
    proof {
        assert(r@ =~= response_spec());
    }
    r
}

/// What one connection's exchange yields: the fixed response for any
/// request that is valid UTF-8 text — the empty request included — and
/// `InvalidEncoding` for any request that is not. No other error arises
/// from the content of a request.
pub open spec fn handle_spec(request: Seq<u8>) -> Result<Seq<u8>, SocketError> {
    if is_valid_utf8(request) {
        Ok(response_spec())
    } else {
        Err(SocketError::InvalidEncoding)
    }
}

/// Handles one connection's request, fully read: checks that the bytes are
/// valid UTF-8 text and returns the fixed response, whatever the text says.
pub fn handle_request(request: &[u8]) -> (r: Result<Vec<u8>, SocketError>)
    ensures
        r is Ok <==> is_valid_utf8(request@),
        r matches Ok(resp) ==> resp@ == response_spec(),
        r matches Err(e) ==> handle_spec(request@) == Err::<Seq<u8>, SocketError>(e),
{
    if validate_utf8(request) {
        Ok(response_payload())
    } else {
        Err(SocketError::InvalidEncoding)
    }
}

/// Concludes the read phase of one connection: a failed read is fatal as
/// `ReadFailed` carrying its cause, and a completed read hands the
/// accumulated request bytes on to `handle_request`.
pub fn exchange_after_read(read: Result<Vec<u8>, IoKind>) -> (r: Result<Vec<u8>, SocketError>)
    ensures
        read matches Err(cause) ==> r == Err::<Vec<u8>, SocketError>(
            SocketError::ReadFailed { cause },
        ),
        read matches Ok(req) ==> {
            &&& r is Ok <==> is_valid_utf8(req@)
            &&& (r matches Ok(resp) ==> resp@ == response_spec())
            &&& (r matches Err(e) ==> e == SocketError::InvalidEncoding)
        },
{
    match read {
        Ok(req) => handle_request(req.as_slice()),
        Err(cause) => Err(SocketError::ReadFailed { cause }),
    }
}

/// Concludes the write phase of one connection: a failed write of the
/// response is fatal as `WriteFailed` carrying its cause; an accepted
/// write ends the exchange, whereupon the connection is released.
pub fn exchange_after_write(write: Result<usize, IoKind>) -> (r: Result<(), SocketError>)
    ensures
        write is Ok ==> r == Ok::<(), SocketError>(()),
        write matches Err(cause) ==> r == Err::<(), SocketError>(
            SocketError::WriteFailed { cause },
        ),
{
    match write {
        Ok(_) => Ok(()),
        Err(cause) => Err(SocketError::WriteFailed { cause }),
    }
}

/// What the driver observed when binding the listening endpoint.
#[derive(Clone, Copy, Debug, PartialEq, Eq, Structural)]
pub enum BindOutcome {
    /// The endpoint is bound and listening.
    Bound,
    /// Binding failed — among other causes, because the path is already
    /// occupied by an object the listener cannot replace.
    Failed { cause: IoKind },
}

/// What the server does right after its bind attempt.
#[derive(Clone, Copy, Debug, PartialEq, Eq, Structural)]
pub enum StartAction {
    /// Enter the accept loop.
    Accept,
    /// Abort startup with the cause; no connection is ever accepted.
    Abort { cause: IoKind },
}

/// The server enters its accept loop exactly when the bind succeeded.
pub open spec fn start_spec(outcome: BindOutcome) -> StartAction {
    match outcome {
        BindOutcome::Bound => StartAction::Accept,
        BindOutcome::Failed { cause } => StartAction::Abort { cause },
    }
}

/// Decides, from the bind outcome, whether the server may start accepting
/// connections.
pub fn plan_start(outcome: BindOutcome) -> (a: StartAction)
    ensures
        a == start_spec(outcome),
        a is Accept <==> outcome is Bound,
{
    match outcome {
        BindOutcome::Bound => StartAction::Accept,
        BindOutcome::Failed { cause } => StartAction::Abort { cause },
    }
}

/// A failed bind — as when the endpoint's path is already occupied by an
/// incompatible object — stops the server before any accept: the start
/// decision for every failed outcome is an abort carrying the cause, never
/// entry into the accept loop.
pub proof fn lemma_failed_bind_blocks_accept(outcome: BindOutcome)
    requires
        outcome !is Bound,
    ensures
        start_spec(outcome) !is Accept,
        start_spec(outcome) == (StartAction::Abort { cause: outcome->cause }),
{
}

/// Sequential service is uniform: across any run of connections handled one
/// after the other without restart, every well-encoded request — whatever
/// its text and wherever it stands in the run — draws exactly the fixed
/// response.
pub proof fn lemma_uniform_response(requests: Seq<Seq<u8>>)
    requires
        forall|i: int| 0 <= i < requests.len() ==> is_valid_utf8(#[trigger] requests[i]),
    ensures
        forall|i: int|
            0 <= i < requests.len() ==> handle_spec(#[trigger] requests[i])
                == Ok::<Seq<u8>, SocketError>(response_spec()),
{
}

} // verus!
