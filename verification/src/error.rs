//! The ways in which a call to the provider can fail.

use vstd::prelude::*;

verus! {

/// Why a call to the provider gave no result.
#[derive(Clone, Copy, Debug, PartialEq, Eq, Structural)]
pub enum ApiError {
    /// The request could not be sent or no response arrived.
    Network,
    /// The response is not a JSON document, or not a JSON array.
    Decode,
    /// The response is a JSON array, but a transaction that was asked for is
    /// absent from it or lacks a field that a transaction has.
    MissingField,
}

} // verus!
