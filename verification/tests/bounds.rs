use moveslice::bounds::{resolve, resolves};
use moveslice::{ChunkBounds, Endpoint, Error, Moveslice};

#[test]
fn exclusive_end_is_the_end() {
    assert_eq!(resolve(Endpoint::Inclusive(3), Endpoint::Exclusive(6), 9), (3, 6));
}

#[test]
fn inclusive_end_is_one_short_of_the_end() {
    assert_eq!(resolve(Endpoint::Inclusive(3), Endpoint::Inclusive(5), 9), (3, 6));
}

#[test]
fn unbounded_start_is_the_front() {
    assert_eq!(resolve(Endpoint::Unbounded, Endpoint::Exclusive(4), 9), (0, 4));
}

#[test]
fn unbounded_end_is_the_length() {
    assert_eq!(resolve(Endpoint::Inclusive(7), Endpoint::Unbounded, 9), (7, 9));
    assert_eq!(resolve(Endpoint::Unbounded, Endpoint::Unbounded, 9), (0, 9));
}

#[test]
fn exclusive_start_is_one_past_the_start() {
    assert_eq!(resolve(Endpoint::Exclusive(3), Endpoint::Exclusive(6), 9), (4, 6));
    assert_eq!(resolve(Endpoint::Exclusive(0), Endpoint::Unbounded, 9), (1, 9));
}

#[test]
fn largest_representable_exclusive_start() {
    assert_eq!(
        resolve(Endpoint::Exclusive(usize::MAX - 1), Endpoint::Unbounded, 9),
        (usize::MAX, 9)
    );
}

#[test]
fn endpoints_past_the_largest_position_do_not_resolve() {
    assert!(resolves(Endpoint::Exclusive(usize::MAX - 1), Endpoint::Inclusive(usize::MAX - 1)));
    assert!(resolves(Endpoint::Inclusive(usize::MAX), Endpoint::Exclusive(usize::MAX)));
    assert!(resolves(Endpoint::Unbounded, Endpoint::Unbounded));
    assert!(!resolves(Endpoint::Exclusive(usize::MAX), Endpoint::Unbounded));
    assert!(!resolves(Endpoint::Unbounded, Endpoint::Inclusive(usize::MAX)));
    assert!(!resolves(Endpoint::Exclusive(usize::MAX), Endpoint::Inclusive(usize::MAX)));
}

#[test]
fn open_range_moves_what_lies_between_its_endpoints() {
    let mut arr: [i32; 9] = [1, 2, 3, 4, 5, 6, 7, 8, 9];
    arr.moveslice((Endpoint::Exclusive(2), Endpoint::Exclusive(6)), 1);
    assert_eq!(arr, [1, 4, 5, 6, 2, 3, 7, 8, 9]);

    let mut same: [i32; 9] = [1, 2, 3, 4, 5, 6, 7, 8, 9];
    same.moveslice(3..6, 1);
    assert_eq!(arr, same);
}

#[test]
fn exclusive_start_past_the_end_is_refused() {
    let mut arr: [i32; 9] = [1, 2, 3, 4, 5, 6, 7, 8, 9];
    assert_eq!(
        arr.try_moveslice((Endpoint::Exclusive(9), Endpoint::Exclusive(10)), 0),
        Err(Error::InvalidBounds { len: 9, bounds: (10, 10) })
    );
    assert_eq!(arr, [1, 2, 3, 4, 5, 6, 7, 8, 9]);
}

#[test]
fn resolution_does_not_look_at_the_length() {
    assert_eq!(resolve(Endpoint::Inclusive(12), Endpoint::Inclusive(20), 9), (12, 21));
}

#[test]
fn largest_representable_inclusive_end() {
    assert_eq!(
        resolve(Endpoint::Unbounded, Endpoint::Inclusive(usize::MAX - 1), 9),
        (0, usize::MAX)
    );
}

#[test]
fn a_range_gives_its_endpoints() {
    let range: std::ops::Range<usize> = 3..6;
    assert_eq!(range.start_bound(), Endpoint::Inclusive(3));
    assert_eq!(range.end_bound(), Endpoint::Exclusive(6));
}

#[test]
fn a_pair_gives_its_endpoints() {
    let pair: (Endpoint, Endpoint) = (Endpoint::Unbounded, Endpoint::Inclusive(6));
    assert_eq!(ChunkBounds::start_bound(&pair), Endpoint::Unbounded);
    assert_eq!(ChunkBounds::end_bound(&pair), Endpoint::Inclusive(6));
}

#[test]
fn closed_range_moves_with_its_last_element() {
    let mut arr: [i32; 9] = [1, 2, 3, 4, 5, 6, 7, 8, 9];
    arr.moveslice((Endpoint::Inclusive(3), Endpoint::Inclusive(5)), 1);
    assert_eq!(arr, [1, 4, 5, 6, 2, 3, 7, 8, 9]);
}

#[test]
fn open_start_moves_the_front() {
    let mut arr: [i32; 9] = [1, 2, 3, 4, 5, 6, 7, 8, 9];
    assert_eq!(arr.try_moveslice((Endpoint::Unbounded, Endpoint::Exclusive(2)), 7), Ok(()));
    assert_eq!(arr, [3, 4, 5, 6, 7, 8, 9, 1, 2]);
}

#[test]
fn open_end_moves_the_back() {
    let mut arr: [i32; 9] = [1, 2, 3, 4, 5, 6, 7, 8, 9];
    assert_eq!(arr.try_moveslice((Endpoint::Inclusive(7), Endpoint::Unbounded), 0), Ok(()));
    assert_eq!(arr, [8, 9, 1, 2, 3, 4, 5, 6, 7]);
}

#[test]
fn fully_open_range_only_fits_at_the_front() {
    let mut arr: [i32; 3] = [1, 2, 3];
    assert_eq!(arr.try_moveslice((Endpoint::Unbounded, Endpoint::Unbounded), 0), Ok(()));
    assert_eq!(
        arr.try_moveslice((Endpoint::Unbounded, Endpoint::Unbounded), 1),
        Err(Error::OutOfBoundsMove { len: 3, dest: (1, 4) })
    );
    assert_eq!(arr, [1, 2, 3]);
}

#[test]
fn closed_range_past_the_end_reports_the_resolved_chunk() {
    let mut arr: [i32; 9] = [1, 2, 3, 4, 5, 6, 7, 8, 9];
    assert_eq!(
        arr.try_moveslice((Endpoint::Inclusive(8), Endpoint::Inclusive(9)), 0),
        Err(Error::InvalidBounds { len: 9, bounds: (8, 10) })
    );
    assert_eq!(arr, [1, 2, 3, 4, 5, 6, 7, 8, 9]);
}
