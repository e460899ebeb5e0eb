//! The failures an image load can end in.

use vstd::prelude::*;

verus! {

/// What kind of step of an HTTP exchange the transport gave up on.
#[derive(Debug, Clone, Copy, PartialEq, Eq, Structural)]
pub enum TransportKind {
    /// The request could not be built.
    Builder,
    /// Sending the request failed.
    Request,
    /// Following a redirect failed.
    Redirect,
    /// A response status was turned into an error by the transport.
    Status,
    /// The request or response body failed.
    Body,
    /// The response body could not be decoded.
    Decode,
    /// A protocol upgrade failed.
    Upgrade,
}

/// A failure of the transport itself: the exchange broke before a status
/// could be judged, or while the body was read.
#[derive(Debug, Clone, Copy, PartialEq, Eq, Structural)]
pub struct TransportFailure {
    /// The step that failed.
    pub kind: TransportKind,
    /// Whether a timeout caused the failure.
    pub timeout: bool,
    /// Whether the failure arose while connecting.
    pub connect: bool,
}

/// Every failure an operation of this library can report.
#[derive(Debug, Clone, Copy, PartialEq, Eq, Structural)]
pub enum GalileoError {
    /// A response arrived, and its status was outside the success range.
    IO,
    /// The transport failed; the failure is handed on as it was reported.
    Transport(TransportFailure),
    /// The bytes could not be decoded into an image.
    ImageDecode,
}

impl GalileoError {
    /// The error for a transport failure. It is never [`GalileoError::IO`].
    pub fn from_transport(failure: TransportFailure) -> (error: GalileoError)
        ensures
            error == GalileoError::Transport(failure),
            error != GalileoError::IO,
    {
        GalileoError::Transport(failure)
    }
}

} // verus!
