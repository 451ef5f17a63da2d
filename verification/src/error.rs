use vstd::prelude::*;

verus! {

/// Why a mutating operation was refused.
#[derive(Debug, Clone, Copy, PartialEq, Eq, Structural)]
pub enum ErrorKind {
    /// The index was not below the container's length.
    IndexOutOfBounds,
}

} // verus!
