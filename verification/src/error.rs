//! The errors that a drawing call can return.

use vstd::prelude::*;

verus! {

/// Why a call failed.
#[derive(Clone, Debug, PartialEq, Eq)]
pub enum Error {
    /// The backend cannot represent what was asked for.
    NotSupported,
    /// An optional capability is absent.
    MissingFeature,
    /// The native engine failed; the message says how.
    BackendError(String),
    /// The input is malformed.
    InvalidInput,
}

} // verus!
