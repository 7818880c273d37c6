//! What holds of every move, proved from the definitions in
//! [`crate::relocate`].
//!
//! Each law is stated over the functions that the contract of
//! [`crate::relocate::relocate`] is stated over, so that it speaks of what
//! that function does to any slice.

use crate::error::Error;
use crate::relocate::{admissible, outcome, relocated, verdict};
use vstd::prelude::*;
use vstd::seq_lib::lemma_multiset_commutative;

verus! {

/// A chunk without elements can be sent anywhere, to no effect: whatever the
/// position `at` and the destination, the slice is left as it was.
pub proof fn empty_chunk_changes_nothing<T>(s: Seq<T>, at: usize, destination: usize)
    requires
        s.len() <= usize::MAX,
    ensures
        outcome(s, (at, at), destination) == s,
{
    if verdict(s.len() as usize, (at, at), destination) is Ok {
        assert(relocated(s, at as int, at as int, destination as int) =~= s);
    }
}

/// A chunk sent to the place where it already begins stays there: whatever
/// the chunk, the request is granted if the chunk lies within the slice, and
/// the slice is left as it was.
pub proof fn move_to_own_place_changes_nothing<T>(s: Seq<T>, chunk: (usize, usize))
    requires
        s.len() <= usize::MAX,
    ensures
        chunk.0 <= s.len() && chunk.1 <= s.len() ==> verdict(s.len() as usize, chunk, chunk.0)
            is Ok,
        outcome(s, chunk, chunk.0) == s,
{
    if verdict(s.len() as usize, chunk, chunk.0) is Ok && chunk.0 <= chunk.1 {
        assert(relocated(s, chunk.0 as int, chunk.1 as int, chunk.0 as int) =~= s);
    }
}

/// A move loses no element and doubles none: after any request, granted or
/// not, the slice holds each value as many times as before.
pub proof fn elements_are_kept<T>(s: Seq<T>, chunk: (usize, usize), destination: usize)
    requires
        s.len() <= usize::MAX,
    ensures
        outcome(s, chunk, destination).len() == s.len(),
        outcome(s, chunk, destination).to_multiset() == s.to_multiset(),
{
    if verdict(s.len() as usize, chunk, destination) is Ok && chunk.0 <= chunk.1 {
        let front = s.subrange(0, chunk.0 as int);
        let moved = s.subrange(chunk.0 as int, chunk.1 as int);
        let back = s.subrange(chunk.1 as int, s.len() as int);
        let others = front + back;
        assert(destination <= others.len());
        let before = others.subrange(0, destination as int);
        let after = others.subrange(destination as int, others.len() as int);
        let out = outcome(s, chunk, destination);
        assert(s =~= front + moved + back);
        assert(others =~= before + after);
        assert(out =~= before + moved + after);
        lemma_multiset_commutative(front + moved, back);
        lemma_multiset_commutative(front, moved);
        lemma_multiset_commutative(front, back);
        lemma_multiset_commutative(before, after);
        lemma_multiset_commutative(before + moved, after);
        lemma_multiset_commutative(before, moved);
        assert(front.to_multiset().add(back.to_multiset()) == before.to_multiset().add(
            after.to_multiset(),
        ));
        assert(out.to_multiset() =~= before.to_multiset().add(after.to_multiset()).add(
            moved.to_multiset(),
        ));
        assert(s.to_multiset() =~= front.to_multiset().add(back.to_multiset()).add(
            moved.to_multiset(),
        ));
        assert(outcome(s, chunk, destination).to_multiset() =~= s.to_multiset());
    }
}

/// After a granted move the chunk lies at its destination, element for
/// element as it lay before.
pub proof fn chunk_keeps_its_order<T>(s: Seq<T>, chunk: (usize, usize), destination: usize)
    requires
        s.len() <= usize::MAX,
        chunk.0 <= chunk.1,
        verdict(s.len() as usize, chunk, destination) is Ok,
    ensures
        outcome(s, chunk, destination).subrange(
            destination as int,
            destination + (chunk.1 - chunk.0),
        ) == s.subrange(chunk.0 as int, chunk.1 as int),
{
    assert(outcome(s, chunk, destination).subrange(
        destination as int,
        destination + (chunk.1 - chunk.0),
    ) =~= s.subrange(chunk.0 as int, chunk.1 as int));
}

/// After a granted move the elements that were not in the chunk stand in the
/// order they stood in before: with the chunk taken out, the slice reads the
/// same before the move and after it.
pub proof fn others_keep_their_order<T>(s: Seq<T>, chunk: (usize, usize), destination: usize)
    requires
        s.len() <= usize::MAX,
        chunk.0 <= chunk.1,
        verdict(s.len() as usize, chunk, destination) is Ok,
    ensures
        outcome(s, chunk, destination).subrange(0, destination as int) + outcome(
            s,
            chunk,
            destination,
        ).subrange(destination + (chunk.1 - chunk.0), s.len() as int) == s.subrange(
            0,
            chunk.0 as int,
        ) + s.subrange(chunk.1 as int, s.len() as int),
{
    let out = outcome(s, chunk, destination);
    assert(out.subrange(0, destination as int) + out.subrange(
        destination + (chunk.1 - chunk.0),
        s.len() as int,
    ) =~= s.subrange(0, chunk.0 as int) + s.subrange(chunk.1 as int, s.len() as int));
}

/// A granted move touches only the span between the old and the new place of
/// the chunk. In front of both places and behind both, every element stays
/// at its position; between them, every element that is passed over shifts
/// by the length of the chunk, towards the place the chunk has left.
pub proof fn only_the_span_is_touched<T>(
    s: Seq<T>,
    chunk: (usize, usize),
    destination: usize,
    i: int,
)
    requires
        s.len() <= usize::MAX,
        chunk.0 <= chunk.1,
        verdict(s.len() as usize, chunk, destination) is Ok,
        0 <= i < s.len(),
    ensures
        i < chunk.0 && i < destination ==> outcome(s, chunk, destination)[i] == s[i],
        i >= chunk.1 && i >= destination + (chunk.1 - chunk.0) ==> outcome(
            s,
            chunk,
            destination,
        )[i] == s[i],
        chunk.0 <= i < destination ==> outcome(s, chunk, destination)[i] == s[i + (chunk.1
            - chunk.0)],
        destination + (chunk.1 - chunk.0) <= i < chunk.1 ==> outcome(s, chunk, destination)[i]
            == s[i - (chunk.1 - chunk.0)],
{
}

/// Moving a chunk and then moving it back restores the slice: after a
/// granted move, the request to return the chunk from where it lies now to
/// where it began has an answer, is granted, and undoes the move.
pub proof fn round_trip<T>(s: Seq<T>, chunk: (usize, usize), destination: usize)
    requires
        s.len() <= usize::MAX,
        chunk.0 <= chunk.1,
        verdict(s.len() as usize, chunk, destination) is Ok,
    ensures
        admissible(
            s.len() as usize,
            (destination, (destination + (chunk.1 - chunk.0)) as usize),
            chunk.0,
        ),
        verdict(
            s.len() as usize,
            (destination, (destination + (chunk.1 - chunk.0)) as usize),
            chunk.0,
        ) is Ok,
        outcome(
            outcome(s, chunk, destination),
            (destination, (destination + (chunk.1 - chunk.0)) as usize),
            chunk.0,
        ) == s,
{
    let there = outcome(s, chunk, destination);
    let lands = (destination, (destination + (chunk.1 - chunk.0)) as usize);
    assert(there.len() == s.len());
    assert(outcome(there, lands, chunk.0) =~= s);
}

/// A chunk that does not lie within the slice is refused as such, whatever
/// the destination, and the slice is left as it was.
pub proof fn invalid_bounds_are_refused<T>(s: Seq<T>, chunk: (usize, usize), destination: usize)
    requires
        s.len() <= usize::MAX,
        chunk.0 > s.len() || chunk.1 > s.len(),
    ensures
        admissible(s.len() as usize, chunk, destination),
        verdict(s.len() as usize, chunk, destination) == Err::<(), Error>(
            Error::InvalidBounds { len: s.len() as usize, bounds: chunk },
        ),
        outcome(s, chunk, destination) == s,
{
}

/// A chunk that lies within the slice but would reach past its end at the
/// destination is refused as an out-of-bounds move, reported with the range
/// it would have come to lie on, and the slice is left as it was.
pub proof fn out_of_bounds_moves_are_refused<T>(
    s: Seq<T>,
    chunk: (usize, usize),
    destination: usize,
)
    requires
        s.len() <= usize::MAX,
        chunk.0 <= chunk.1 <= s.len(),
        s.len() < destination + (chunk.1 - chunk.0) <= usize::MAX,
    ensures
        admissible(s.len() as usize, chunk, destination),
        verdict(s.len() as usize, chunk, destination) == Err::<(), Error>(
            Error::OutOfBoundsMove {
                len: s.len() as usize,
                dest: (destination, (destination + (chunk.1 - chunk.0)) as usize),
            },
        ),
        outcome(s, chunk, destination) == s,
{
}

} // verus!
