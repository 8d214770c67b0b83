//! Positions on the game map and nearest-candidate selection.

use vstd::prelude::*;

verus! {

/// A point on the integer grid of the game map.
#[derive(Debug, Clone, Copy, PartialEq, Eq, Structural)]
pub struct Position {
    pub x: i32,
    pub y: i32,
}

/// Square of the Euclidean distance between two positions.
///
/// The engine only ever compares distances, and comparing squares gives
/// the same order and the same exact ties as comparing the distances
/// themselves.
pub open spec fn dist_sq(a: Position, b: Position) -> int {
    (b.x - a.x) * (b.x - a.x) + (b.y - a.y) * (b.y - a.y)
}

/// Index of the first position in `s` at minimum squared distance from
/// `from`. Meaningful only for non-empty `s`.
pub open spec fn first_nearest_idx(from: Position, s: Seq<Position>) -> int
    decreases s.len(),
{
    if s.len() <= 1 {
        0
    } else {
        let r = first_nearest_idx(from, s.drop_last());
        if dist_sq(from, s.last()) < dist_sq(from, s[r]) {
            s.len() - 1
        } else {
            r
        }
    }
}

/// `first_nearest_idx` picks a valid index whose position is at least as
/// close as every candidate, and strictly closer than every earlier one:
/// on exact distance ties the earliest candidate in input order wins.
pub proof fn lemma_first_nearest_idx(from: Position, s: Seq<Position>)
    requires
        s.len() > 0,
    ensures
        0 <= first_nearest_idx(from, s) < s.len(),
        forall|j: int|
            0 <= j < s.len() ==> dist_sq(from, s[first_nearest_idx(from, s)]) <= dist_sq(
                from,
                #[trigger] s[j],
            ),
        forall|j: int|
            0 <= j < first_nearest_idx(from, s) ==> dist_sq(from, #[trigger] s[j]) > dist_sq(
                from,
                s[first_nearest_idx(from, s)],
            ),
    decreases s.len(),
{
    if s.len() > 1 {
        lemma_first_nearest_idx(from, s.drop_last());
        assert(forall|j: int| 0 <= j < s.len() - 1 ==> s.drop_last()[j] == #[trigger] s[j]);
    }
}

/// Squared distance, computed exactly in wide integers.
pub fn distance_sq(a: Position, b: Position) -> (r: i128)
    ensures
        r == dist_sq(a, b),
{
    let dx: i128 = (b.x as i128) - (a.x as i128);
    let dy: i128 = (b.y as i128) - (a.y as i128);
    proof {
        assert(dx * dx <= 0x1_0000_0000 * 0x1_0000_0000) by (nonlinear_arith)
            requires
                -0x1_0000_0000 <= dx <= 0x1_0000_0000,
        ;
        assert(dy * dy <= 0x1_0000_0000 * 0x1_0000_0000) by (nonlinear_arith)
            requires
                -0x1_0000_0000 <= dy <= 0x1_0000_0000,
        ;
        assert(dx * dx >= 0) by (nonlinear_arith);
        assert(dy * dy >= 0) by (nonlinear_arith);
    }
    dx * dx + dy * dy
}

/// Among the candidate positions, return the one nearest to `from`; on
/// exact distance ties the earliest candidate in input order is kept.
/// An empty candidate list yields no candidate, never a made-up one.
pub fn find_nearest(from: Position, others: Vec<Position>) -> (r: Option<Position>)
    ensures
        r is None <==> others@.len() == 0,
        others@.len() > 0 ==> r == Some(others@[first_nearest_idx(from, others@)]),
        r matches Some(p) ==> exists|i: int| 0 <= i < others@.len() && #[trigger] others@[i] == p,
        r matches Some(p) ==> forall|j: int|
            0 <= j < others@.len() ==> dist_sq(from, p) <= dist_sq(from, #[trigger] others@[j]),
        r matches Some(p) ==> forall|j: int|
            0 <= j < first_nearest_idx(from, others@) ==> dist_sq(from, #[trigger] others@[j])
                > dist_sq(from, p),
{
    if others.len() == 0 {
        return None;
    }
    let mut best: usize = 0;
    let mut best_d: i128 = distance_sq(from, others[0]);
    let mut i: usize = 1;
    while i < others.len()
        invariant
            1 <= i <= others@.len(),
            best < i,
            best_d == dist_sq(from, others@[best as int]),
            best as int == first_nearest_idx(from, others@.take(i as int)),
        decreases others@.len() - i,
    {
        let d = distance_sq(from, others[i]);
        proof {
            assert(others@.take(i as int + 1).drop_last() =~= others@.take(i as int));
            assert(others@.take(i as int + 1).last() == others@[i as int]);
        }
        if d < best_d {
            best = i;
            best_d = d;
        }
        i += 1;
    }
    proof {
        assert(others@.take(others@.len() as int) =~= others@);
        lemma_first_nearest_idx(from, others@);
    }
    Some(others[best])
}

} // verus!
