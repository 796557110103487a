//! The ways an operation can fail.

use vstd::prelude::*;

verus! {

/// Why an operation of the repository did not succeed.
#[derive(Clone, Debug, PartialEq, Eq)]
pub enum ServiceError {
    /// The table's name is not configured.
    Config,
    /// The table could not be reached, refused the request, or answered with
    /// something that is not a result.
    Storage { detail: String },
    /// No entry has the requested id.
    NotFound { id: String },
    /// An entry could not be turned into the table's representation or back.
    Serialization { detail: String },
}

} // verus!
