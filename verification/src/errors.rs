//! Error taxonomy of the session layer.

use vstd::prelude::*;

verus! {

/// The kind of an I/O error reported by the transport, reduced to the
/// classes the session layer distinguishes.  The caller owns the socket and
/// maps its error kinds onto this enum before handing them in.
#[derive(Debug, Clone, Copy, PartialEq, Eq, Structural)]
pub enum IoErrorKind {
    BrokenPipe,
    ConnectionAborted,
    ConnectionReset,
    UnexpectedEof,
    /// Any error kind outside the four reconnectable ones.
    Other,
}

impl IoErrorKind {
    /// A runtime error is reconnectable when it indicates the peer or the
    /// connection is gone but retrying is safe and expected.
    pub open spec fn spec_is_reconnectable(self) -> bool {
        match self {
            IoErrorKind::BrokenPipe => true,
            IoErrorKind::ConnectionAborted => true,
            IoErrorKind::ConnectionReset => true,
            IoErrorKind::UnexpectedEof => true,
            IoErrorKind::Other => false,
        }
    }

    pub fn is_reconnectable(&self) -> (r: bool)
        ensures
            r == self.spec_is_reconnectable(),
    {
        match self {
            IoErrorKind::BrokenPipe => true,
            IoErrorKind::ConnectionAborted => true,
            IoErrorKind::ConnectionReset => true,
            IoErrorKind::UnexpectedEof => true,
            IoErrorKind::Other => false,
        }
    }
}

/// Failure of the codec when reading a reply frame.
#[derive(Debug, Clone, Copy, PartialEq, Eq, Structural)]
pub enum CodecError {
    /// Fewer bytes than the framing or the declared length require.
    Truncated,
    /// The declared payload length does not match the bytes present.
    LengthMismatch,
    /// The payload is present but not a well-formed reply.
    MalformedPayload,
}

} // verus!
