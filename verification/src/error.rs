//! The errors of the library's own logic.

use vstd::prelude::*;

verus! {

/// An error of the migration tool's logic.
#[derive(Debug, Clone, Copy, PartialEq, Eq)]
pub enum GtoglError {
    /// The GitLab token cannot be sent as the value of an HTTP header.
    InvalidToken,
}

} // verus!
