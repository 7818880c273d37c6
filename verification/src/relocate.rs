//! The move itself: what it is, when it is refused, and the code that does it.

use crate::error::Error;
use vstd::prelude::*;

verus! {

/// The sequence `s` with the chunk `[start, end)` taken out and put back so
/// that it begins at position `dest`.
///
/// Taking the chunk out leaves the other elements in their order; putting it
/// back at `dest` leaves `dest` of them before it and the rest behind it.
pub open spec fn relocated<T>(s: Seq<T>, start: int, end: int, dest: int) -> Seq<T>
    recommends
        0 <= start <= end <= s.len(),
        0 <= dest <= s.len() - (end - start),
{
    let others = s.subrange(0, start) + s.subrange(end, s.len() as int);
    others.subrange(0, dest) + s.subrange(start, end) + others.subrange(dest, others.len() as int)
}

/// Whether a request is one that has an answer.
///
/// A chunk that lies within the slice and is to go elsewhere must be a range,
/// and the range it is to land on must have an end that is a `usize`. Nothing
/// is asked of a chunk that does not lie within the slice, nor of one that
/// stays where it is.
pub open spec fn admissible(len: usize, chunk: (usize, usize), destination: usize) -> bool {
    chunk.0 <= len && chunk.1 <= len && destination != chunk.0 ==> chunk.0 <= chunk.1
        && destination + (chunk.1 - chunk.0) <= usize::MAX
}

/// Tells whether a request is one that has an answer, so that [`relocate`]
/// can be asked for it.
pub fn admits(len: usize, chunk: (usize, usize), destination: usize) -> (b: bool)
    ensures
        b == admissible(len, chunk, destination),
{
    if chunk.0 <= len && chunk.1 <= len && destination != chunk.0 {
        chunk.0 <= chunk.1 && destination <= usize::MAX - (chunk.1 - chunk.0)
    } else {
        true
    }
}

/// The answer to a request to move `chunk` to `destination` in a slice of
/// `len` elements.
///
/// A chunk that does not lie within the slice has invalid bounds. One that
/// does, and would reach past the end of the slice at its destination, is an
/// out-of-bounds move, reported with the range it would have come to lie on.
/// Every other request is granted.
pub open spec fn verdict(len: usize, chunk: (usize, usize), destination: usize) -> Result<
    (),
    Error,
> {
    if chunk.0 > len || chunk.1 > len {
        Err(Error::InvalidBounds { len, bounds: chunk })
    } else if destination + (chunk.1 - chunk.0) > len {
        Err(
            Error::OutOfBoundsMove {
                len,
                dest: (destination, (destination + (chunk.1 - chunk.0)) as usize),
            },
        )
    } else {
        Ok(())
    }
}

/// What a slice that held `s` holds once the request has been answered: the
/// elements relocated where the request is granted and the chunk is a range,
/// and `s` itself otherwise.
pub open spec fn outcome<T>(s: Seq<T>, chunk: (usize, usize), destination: usize) -> Seq<T> {
    if verdict(s.len() as usize, chunk, destination) is Ok && chunk.0 <= chunk.1 {
        relocated(s, chunk.0 as int, chunk.1 as int, destination as int)
    } else {
        s
    }
}

/// Moves the elements at `chunk.0 .. chunk.1` so that they begin at
/// `destination`, in place. The elements between the old and the new place
/// of the chunk slide over to close the gap; every element keeps its order
/// among those it travels with, and those outside the span stay put.
///
/// The request is judged before anything is moved: a refused one leaves the
/// slice as it was. A granted one is carried out by splitting off the span
/// between the two places and rotating it once, by the length of the chunk.
pub fn relocate<T>(slice: &mut [T], chunk: (usize, usize), destination: usize) -> (res: Result<
    (),
    Error,
>)
    requires
        admissible(old(slice)@.len() as usize, chunk, destination),
    ensures
        res == verdict(old(slice)@.len() as usize, chunk, destination),
        final(slice)@ == outcome(old(slice)@, chunk, destination),
{
    let len: usize = slice.len();
    if chunk.0 > len || chunk.1 > len {
        return Err(Error::InvalidBounds { len, bounds: chunk });
    }
    if destination > chunk.0 {
        let size: usize = chunk.1 - chunk.0;
        let span: usize = destination + size - chunk.0;
        let (_, tail) = slice.split_at_mut(chunk.0);
        if span <= tail.len() {
            let (mid, _) = tail.split_at_mut(span);
            mid.rotate_left(size);
        } else {
            return Err(Error::OutOfBoundsMove { len, dest: (destination, destination + size) });
        }
    } else if destination < chunk.0 {
        let size: usize = chunk.1 - chunk.0;
        let span: usize = chunk.1 - destination;
        let (_, tail) = slice.split_at_mut(destination);
        let (mid, _) = tail.split_at_mut(span);
        mid.rotate_right(size);
    }
    Ok(())
}

} // verus!
