//! The ways in which an operation of the accessor fails.

use vstd::prelude::*;

verus! {

/// Why a location could not be derived from another.
#[derive(Clone, Copy, Debug, PartialEq, Eq, Structural)]
pub enum PathError {
    /// The location is a root: it has no enclosing directory.
    NoParent,
    /// The relative path cannot be appended to the location.
    InvalidSegment,
}

/// Why the host gave no value in reply to a call.
#[derive(Clone, Copy, Debug, PartialEq, Eq, Structural)]
pub enum TransportError {
    /// The host's entry point did not accept the call; nothing was awaited.
    InvocationFailed,
    /// The host accepted the call and then rejected it. What it said in
    /// doing so is not kept.
    HostRejected,
}

/// Why a value that the host gave could not be read.
#[derive(Clone, Copy, Debug, PartialEq, Eq, Structural)]
pub enum DecodeError {
    /// A text was expected and the value is none.
    NotText,
}

/// Why an operation of the accessor failed. Each failure is handed to the
/// caller as it is: nothing is tried again, and no value stands in for one.
#[derive(Clone, Copy, Debug, PartialEq, Eq, Structural)]
pub enum Error {
    /// The location to read could not be derived. The host was not called.
    Path(PathError),
    /// The host gave no value.
    Transport(TransportError),
    /// The host gave a value of another shape than the operation expects.
    Decode(DecodeError),
}

} // verus!
