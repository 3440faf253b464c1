//! The error taxonomy of report creation.

use vstd::prelude::*;

verus! {

/// An error that occurred when grabbing system or hardware information.
#[derive(Clone, Debug, PartialEq)]
pub enum GhrError {
    /// The operating system's identity could not be read.
    OsInfoInaccessible(String),
    /// No non-loopback hardware network identifier exists.
    NoMacAddresses,
    /// A category's whole enumeration mechanism was unreachable.
    ComponentInfoInaccessible(String),
    /// A value was reachable but did not parse as expected.
    ComponentInfoWeirdInfo(String),
    /// A specialised code path declined a device it was handed.
    ComponentUnsupported(String),
    /// A device-directory pattern failed to compile.
    RegexCreationFailure(String),
    /// The salt for the machine identifier could not be built.
    SaltFailed(String),
    /// The machine identifier could not be hashed.
    HashFailed(String),
}

/// Result type used across report creation.
pub type GhrResult<T> = Result<T, GhrError>;

impl GhrError {
    /// Whether this error is fatal to a whole report (a mandatory fact is
    /// missing) rather than degrading a single category or field.
    pub fn is_fatal(&self) -> (r: bool)
        ensures
            r == (self is OsInfoInaccessible || self is NoMacAddresses || self is SaltFailed
                || self is HashFailed),
    {
        match self {
            GhrError::OsInfoInaccessible(_) => true,
            GhrError::NoMacAddresses => true,
            GhrError::SaltFailed(_) => true,
            GhrError::HashFailed(_) => true,
            _ => false,
        }
    }
}

} // verus!
