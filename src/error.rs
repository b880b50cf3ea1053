//! The errors that the adapter reports.

use vstd::prelude::*;

verus! {

/// What went wrong in a listing or a read. Provider errors keep their
/// diagnostic detail as text.
#[derive(Debug, PartialEq, Eq)]
pub enum S3Error {
    /// The provider's listing call failed.
    RemoteListError(String),
    /// The provider's get-object call failed, or its answer was not the
    /// requested span.
    RemoteReadError(String),
    /// No answer came within the read's time limit.
    TimeoutError,
    /// The operation is not offered by this store.
    NotImplemented,
}

} // verus!
