//! The failures that a caller can recover from.

use vstd::prelude::*;
use vstd::string::*;

verus! {

/// What went wrong while a network was being loaded.
///
/// Nothing else is reported as a value: on a malformed configuration or on
/// unreadable or corrupt weights the runtime ends the whole process.
#[derive(Debug, PartialEq, Eq)]
pub enum Error {
    /// A path holds a NUL byte and cannot be handed to the runtime.
    PathEncodingError,
    /// The runtime failed; `reason` says at what.
    InternalError { reason: String },
}

/// The reason reported when the runtime hands back no network.
pub open spec fn load_failure_reason() -> Seq<char> {
    "failed to load model"@
}

/// The text reported for a path that holds a NUL byte.
pub open spec fn path_encoding_message() -> Seq<char> {
    "path contains a NUL byte"@
}

impl Error {
    /// Whether this is the error for a runtime that handed back no network.
    pub open spec fn is_load_failure(self) -> bool {
        self matches Error::InternalError { reason } && reason@ == load_failure_reason()
    }

    /// The error for a runtime that handed back no network.
    pub fn load_failure() -> (e: Error)
        ensures
            e.is_load_failure(),
    {
        Error::InternalError { reason: String::from_str("failed to load model") }
    }

    /// The text of the error, as a reader would see it.
    pub open spec fn spec_message(self) -> Seq<char> {
        match self {
            Error::PathEncodingError => path_encoding_message(),
            Error::InternalError { reason } => reason@,
        }
    }

    /// The text of the error: the reason of an internal error, a fixed
    /// sentence for a path that cannot be encoded.
    pub fn message(&self) -> (text: String)
        ensures
            text@ == self.spec_message(),
    {
        match self {
            Error::PathEncodingError => String::from_str("path contains a NUL byte"),
            Error::InternalError { reason } => reason.clone(),
        }
    }
}

} // verus!
