//! What the connection pool hands back when a statement did not succeed.

use vstd::prelude::*;

verus! {

/// Why a statement gave no result.
#[derive(Clone, Copy, Debug, PartialEq, Eq, Structural)]
pub enum StoreError {
    /// The statement ran, and a row was asked for, but none came back.
    RowNotFound,
    /// The statement could not run or was rejected: connectivity, constraint, exhaustion.
    Failed,
}

} // verus!
