//! Turning a range expression into the chunk it denotes.
//!
//! A chunk is a half-open range `[start, end)` of positions. Callers may
//! describe it by two endpoints, each of which is absent, inclusive or
//! exclusive; the functions here say which chunk such a pair means for a
//! slice of a given length. Nothing in this module moves anything.

use vstd::prelude::*;

verus! {

/// One end of a range of positions.
#[derive(Debug, Clone, Copy, PartialEq, Eq, Structural)]
pub enum Endpoint {
    /// No bound on this side: the range runs to the end of the slice on it.
    Unbounded,
    /// The range reaches this position and holds it.
    Inclusive(usize),
    /// The range reaches this position and stops short of it.
    Exclusive(usize),
}

/// The chunk that the two endpoints denote in a slice of `len` elements, as
/// the half-open range from its first position to one past its last.
///
/// The chunk begins at an inclusive starting endpoint, one past an exclusive
/// one, and at the front of the slice where there is none. It ends at an
/// exclusive final endpoint, one past an inclusive one, and at the end of the
/// slice where there is none.
pub open spec fn resolved(start: Endpoint, end: Endpoint, len: usize) -> (usize, usize) {
    (
        match start {
            Endpoint::Unbounded => 0,
            Endpoint::Inclusive(i) => i,
            Endpoint::Exclusive(i) => (i + 1) as usize,
        },
        match end {
            Endpoint::Exclusive(i) => i,
            Endpoint::Inclusive(i) => (i + 1) as usize,
            Endpoint::Unbounded => len,
        },
    )
}

/// Whether a chunk with this starting endpoint has a start that is a `usize`.
/// It has, unless the endpoint holds the largest `usize` exclusively.
pub open spec fn startable(start: Endpoint) -> bool {
    start matches Endpoint::Exclusive(i) ==> i < usize::MAX
}

/// Whether a chunk with this final endpoint has an end that is a `usize`.
/// It has, unless the endpoint holds the largest `usize` inclusively.
pub open spec fn representable(end: Endpoint) -> bool {
    end matches Endpoint::Inclusive(i) ==> i < usize::MAX
}

/// Anything that describes a range of positions by its two endpoints.
pub trait ChunkBounds {
    /// The starting and the final endpoint.
    spec fn endpoints(&self) -> (Endpoint, Endpoint);

    /// The endpoint the range starts with.
    fn start_bound(&self) -> (e: Endpoint)
        ensures
            e == self.endpoints().0,
    ;

    /// The endpoint the range finishes with.
    fn end_bound(&self) -> (e: Endpoint)
        ensures
            e == self.endpoints().1,
    ;
}

/// The chunk that `bounds` denotes in a slice of `len` elements.
pub open spec fn chunk_of<R: ChunkBounds>(bounds: R, len: usize) -> (usize, usize) {
    resolved(bounds.endpoints().0, bounds.endpoints().1, len)
}

/// `a..b` holds `a` and stops short of `b`.
impl ChunkBounds for core::ops::Range<usize> {
    open spec fn endpoints(&self) -> (Endpoint, Endpoint) {
        (Endpoint::Inclusive(self.start), Endpoint::Exclusive(self.end))
    }

    fn start_bound(&self) -> (e: Endpoint) {
        Endpoint::Inclusive(self.start)
    }

    fn end_bound(&self) -> (e: Endpoint) {
        Endpoint::Exclusive(self.end)
    }
}

/// A pair of endpoints describes the range between them.
impl ChunkBounds for (Endpoint, Endpoint) {
    open spec fn endpoints(&self) -> (Endpoint, Endpoint) {
        *self
    }

    fn start_bound(&self) -> (e: Endpoint) {
        self.0
    }

    fn end_bound(&self) -> (e: Endpoint) {
        self.1
    }
}

/// Whether the two endpoints denote a chunk whose start and end are both a
/// `usize`, so that [`resolve`] can be asked for it.
pub fn resolves(start: Endpoint, end: Endpoint) -> (b: bool)
    ensures
        b == (startable(start) && representable(end)),
{
    let start_fits: bool = match start {
        Endpoint::Exclusive(i) => i < usize::MAX,
        _ => true,
    };
    let end_fits: bool = match end {
        Endpoint::Inclusive(i) => i < usize::MAX,
        _ => true,
    };
    start_fits && end_fits
}

/// The chunk that the two endpoints denote in a slice of `len` elements.
///
/// The endpoints are taken as they are: one past the end of the slice gives
/// a chunk past the end of the slice.
pub fn resolve(start: Endpoint, end: Endpoint, len: usize) -> (chunk: (usize, usize))
    requires
        startable(start),
        representable(end),
    ensures
        chunk == resolved(start, end, len),
{
    let first: usize = match start {
        Endpoint::Unbounded => 0,
        Endpoint::Inclusive(i) => i,
        Endpoint::Exclusive(i) => i + 1,
    };
    let past: usize = match end {
        Endpoint::Exclusive(i) => i,
        Endpoint::Inclusive(i) => i + 1,
        Endpoint::Unbounded => len,
    };
    (first, past)
}

} // verus!
