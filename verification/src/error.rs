//! The errors a fetch can return.

use vstd::prelude::*;

verus! {

/// Why a fetch failed.
///
/// A `TransportError` means the request never produced a body: the
/// connection, the name lookup or the transfer failed. A
/// `DeserializationError` means a body arrived but did not hold a JSON
/// document of the expected shape. A parsed envelope is returned as-is,
/// whatever its status members say: the two layers are not unified.
#[derive(Debug, Clone, PartialEq)]
pub enum ClientError {
    TransportError(String),
    DeserializationError(String),
}

impl ClientError {
    /// The carried description of the failure.
    pub open spec fn spec_message(&self) -> Seq<char> {
        match self {
            ClientError::TransportError(m) => m@,
            ClientError::DeserializationError(m) => m@,
        }
    }

    /// A human-readable description of the failure.
    pub fn message(&self) -> (r: &str)
        ensures
            r@ == self.spec_message(),
    {
        match self {
            ClientError::TransportError(m) => m.as_str(),
            ClientError::DeserializationError(m) => m.as_str(),
        }
    }
}

} // verus!
