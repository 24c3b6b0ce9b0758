//! The ways in which an operation of this library can fail.

use vstd::prelude::*;

verus! {

/// A failure reported to the caller as a value.
#[derive(Debug, Clone, Copy, PartialEq, Eq, Structural)]
pub enum BookError {
    /// A lookup named a key that the store does not hold.
    NotFound,
    /// The operation is declared but has no behaviour yet.
    NotImplemented,
}

} // verus!
