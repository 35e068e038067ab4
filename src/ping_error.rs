//! Errors of a single probe execution.
use vstd::prelude::*;

verus! {

/// Why a received reply was judged invalid.
#[derive(Debug, Clone, PartialEq, Eq)]
pub enum ReplyFault {
    /// An ICMP echo reply of the wrong length or with another identifier/sequence
    /// field; carries the request sent and the bytes received.
    Echo { sent: Vec<u8>, received: Vec<u8> },
    /// An HTTP response whose status is not in the 2xx range.
    Status(u16),
}

/// Failure of one probe execution.
#[derive(Debug, Clone, PartialEq, Eq)]
pub enum PingError {
    /// A socket or connection failure, including a timeout reported by the system.
    Io(String),
    /// No answer within the configured time.
    Timeout,
    /// A reply was received but failed protocol validation.
    InvalidReply(ReplyFault),
    /// An HTTP transport failure (name resolution, connect, TLS, timeout).
    RequestError(String),
}

/// Why a task's probe could not be built from its target string.
#[derive(Debug, Clone, PartialEq, Eq)]
pub enum ResolveError {
    /// The HTTP target is not a URN the parser accepts.
    InvalidUrn,
    /// The HTTP target names no method.
    MissingMethod,
    /// The host could not be turned into an address; carries the reason.
    Unresolved(String),
}

} // verus!
