//! Why a move can be refused.

use vstd::prelude::*;

verus! {

/// The two ways in which a request to move a chunk can be wrong. Both are
/// faults of the request, found before any element is touched.
#[derive(Debug, Clone, Copy, PartialEq, Eq)]
pub enum Error {
    /// The chunk itself lies within the slice, but at the destination it
    /// would reach past the end of it.
    ///
    /// For example: `OutOfBoundsMove { len: 10, dest: (8, 11) }`
    OutOfBoundsMove {
        /// The length of the slice that was to be changed.
        len: usize,
        /// The range the chunk would have come to lie on.
        dest: (usize, usize),
    },
    /// The chunk does not lie within the slice to begin with.
    InvalidBounds {
        /// The length of the slice that was to be changed.
        len: usize,
        /// The chunk that was asked for, as a half-open range.
        bounds: (usize, usize),
    },
}

} // verus!
