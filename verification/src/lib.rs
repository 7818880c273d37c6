//! Moving a chunk of a slice to another place in the same slice.
//!
//! A chunk is a run of neighbouring elements. Moving it shifts the elements
//! it passes over into the room it leaves, so nothing is lost or doubled,
//! and nothing outside the span between the old and the new place is touched.
//! The work is done in place, by splitting the slice and rotating one part.
//!
//! ```
//! use moveslice::{Error, Moveslice};
//!
//! let mut arr = [1, 2, 3, 4, 5, 6, 7, 8, 9];
//!
//! // Move the chunk 3..6 to position 1.
//! arr.moveslice(3..6, 1);
//! assert_eq!(arr, [1, 4, 5, 6, 2, 3, 7, 8, 9]);
//!
//! // At position 7 the chunk would not fit: 7 + 3 > 9.
//! let res = arr.try_moveslice(3..6, 7);
//! assert_eq!(res, Err(Error::OutOfBoundsMove { len: 9, dest: (7, 10) }));
//! ```

pub mod bounds;
pub mod error;
pub mod laws;
pub mod relocate;
pub mod rotation;

pub use bounds::{ChunkBounds, Endpoint};
pub use error::Error;

use bounds::{chunk_of, representable, resolve, startable};
use relocate::{admissible, outcome, verdict};
use vstd::prelude::*;

verus! {

/// Moving a chunk within anything that holds its elements as a slice.
///
/// The chunk is given by a range expression, read against the length of the
/// slice, and the destination is the position its first element is to take.
pub trait Moveslice<T, R>: View<V = Seq<T>> {
    /// Moves the chunk `bounds` so that it begins at `destination`.
    ///
    /// This is for requests known to be in order: the caller shows that the
    /// chunk lies within the slice and fits at its destination.
    fn moveslice(&mut self, bounds: R, destination: usize) where R: ChunkBounds
        requires
            startable(bounds.endpoints().0),
            representable(bounds.endpoints().1),
            admissible(
                old(self)@.len() as usize,
                chunk_of(bounds, old(self)@.len() as usize),
                destination,
            ),
            verdict(
                old(self)@.len() as usize,
                chunk_of(bounds, old(self)@.len() as usize),
                destination,
            ) is Ok,
        ensures
            final(self)@ == outcome(
                old(self)@,
                chunk_of(bounds, old(self)@.len() as usize),
                destination,
            ),
    ;

    /// Moves the chunk `bounds` so that it begins at `destination`, or says
    /// why not and leaves everything as it was.
    fn try_moveslice(&mut self, bounds: R, destination: usize) -> (res: Result<
        (),
        Error,
    >) where R: ChunkBounds
        requires
            startable(bounds.endpoints().0),
            representable(bounds.endpoints().1),
            admissible(
                old(self)@.len() as usize,
                chunk_of(bounds, old(self)@.len() as usize),
                destination,
            ),
        ensures
            res == verdict(
                old(self)@.len() as usize,
                chunk_of(bounds, old(self)@.len() as usize),
                destination,
            ),
            final(self)@ == outcome(
                old(self)@,
                chunk_of(bounds, old(self)@.len() as usize),
                destination,
            ),
    ;
}

impl<T, R> Moveslice<T, R> for [T] {
    fn moveslice(&mut self, bounds: R, destination: usize) where R: ChunkBounds {
        let _ = self.try_moveslice(bounds, destination);
    }

    fn try_moveslice(&mut self, bounds: R, destination: usize) -> (res: Result<
        (),
        Error,
    >) where R: ChunkBounds {
        let chunk = resolve(bounds.start_bound(), bounds.end_bound(), self.len());
        relocate::relocate(self, chunk, destination)
    }
}

impl<T, R> Moveslice<T, R> for Vec<T> {
    fn moveslice(&mut self, bounds: R, destination: usize) where R: ChunkBounds {
        self.as_mut_slice().moveslice(bounds, destination)
    }

    fn try_moveslice(&mut self, bounds: R, destination: usize) -> (res: Result<
        (),
        Error,
    >) where R: ChunkBounds {
        self.as_mut_slice().try_moveslice(bounds, destination)
    }
}

impl<T, R, const N: usize> Moveslice<T, R> for [T; N] {
    fn moveslice(&mut self, bounds: R, destination: usize) where R: ChunkBounds {
        let slice: &mut [T] = self;
        slice.moveslice(bounds, destination)
    }

    fn try_moveslice(&mut self, bounds: R, destination: usize) -> (res: Result<
        (),
        Error,
    >) where R: ChunkBounds {
        let slice: &mut [T] = self;
        slice.try_moveslice(bounds, destination)
    }
}

} // verus!
