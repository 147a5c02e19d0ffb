//! Error taxonomy shared by the pipe producer and the socket server.

use vstd::prelude::*;

verus! {

/// The kind of filesystem object found at a path, as reported by the
/// metadata of a freshly opened handle.
#[derive(Clone, Copy, Debug, PartialEq, Eq, Structural)]
pub enum FileKind {
    /// A FIFO special file (named pipe).
    Fifo,
    /// An ordinary regular file.
    Regular,
    /// A directory.
    Directory,
    /// Any other object (socket, device, symlink, ...).
    Other,
}

/// The category of an operating-system error, as far as the verified logic
/// needs to tell them apart. The unverified driver maps the platform error
/// it observed into one of these.
#[derive(Clone, Copy, Debug, PartialEq, Eq, Structural)]
pub enum IoKind {
    /// No object exists at the path.
    NotFound,
    /// The caller lacks permission.
    PermissionDenied,
    /// An object already exists at the path.
    AlreadyExists,
    /// The address is already bound.
    AddrInUse,
    /// Anything else.
    Other,
}

/// Conditions fatal to the pipe producer.
#[derive(Clone, Copy, Debug, PartialEq, Eq, Structural)]
pub enum PipeError {
    /// The pipe could still not be opened after the allowed number of
    /// create-and-retry rounds.
    CreateExhausted,
    /// An open attempt failed for a reason other than the object missing;
    /// such a failure is surfaced at once, never retried.
    OpenFailed { cause: IoKind },
    /// The object at the path exists but is not a FIFO.
    NotAFifo { actual: FileKind },
    /// A write accepted fewer bytes than the whole payload.
    ShortWrite,
}

/// Conditions fatal to the socket server.
#[derive(Clone, Copy, Debug, PartialEq, Eq, Structural)]
pub enum SocketError {
    /// The request bytes are not valid UTF-8 text.
    InvalidEncoding,
    /// Reading the request from the connection failed.
    ReadFailed { cause: IoKind },
    /// Writing the response onto the connection failed.
    WriteFailed { cause: IoKind },
}

} // verus!
