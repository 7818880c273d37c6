//! What the standard library's two rotations of a slice are taken to do.
//!
//! Neither contract below is proved here. Each restates the documentation of
//! the method it belongs to, and the proofs of this crate rest on them.

use vstd::prelude::*;

verus! {

/// `<[T]>::rotate_left`: the first `mid` elements go to the back of the slice
/// and the others come to the front, each group keeping its order, so that
/// the element that stood at `mid` stands first. The method panics when `mid`
/// exceeds the length, which the precondition rules out.
pub assume_specification<U>[ <[U]>::rotate_left ](slice: &mut [U], mid: usize)
    requires
        mid <= old(slice)@.len(),
    ensures
        final(slice)@ == old(slice)@.subrange(mid as int, old(slice)@.len() as int) + old(
            slice,
        )@.subrange(0, mid as int),
;

/// `<[T]>::rotate_right`: the last `k` elements come to the front of the
/// slice and the others go to the back, each group keeping its order, so that
/// the element that stood `k` before the end stands first. The method panics
/// when `k` exceeds the length, which the precondition rules out.
pub assume_specification<U>[ <[U]>::rotate_right ](slice: &mut [U], k: usize)
    requires
        k <= old(slice)@.len(),
    ensures
        final(slice)@ == old(slice)@.subrange(
            old(slice)@.len() - k,
            old(slice)@.len() as int,
        ) + old(slice)@.subrange(0, old(slice)@.len() - k),
;

} // verus!
