//! Two verified inter-process communication endpoints: a producer that emits
//! tagged values into a named pipe, and a request/response server on a Unix
//! domain socket that answers every request with one fixed payload.
//!
//! All decision logic is verified here: resolving a path to an open FIFO
//! handle (create on demand, bounded retry, type validation), building and
//! checking the producer's two-byte payloads, validating request encodings,
//! and choosing the response. The blocking system calls themselves (open,
//! create, write, bind, accept, read) are performed by a thin unverified
//! driver that feeds their outcomes to the functions of this crate.

pub mod errors;
pub mod pipe;
pub mod server;
pub mod utf8;
