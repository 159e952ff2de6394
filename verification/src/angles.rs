//! The elementary rotation angles and how far they reach.

use vstd::prelude::*;

verus! {

/// Number of elementary rotations that one run performs.
pub const ITERATIONS: usize = 10;

/// Number of fraction bits of an angle: one unit is 2^-60 radian.
pub const ANGLE_FRACTION_BITS: u32 = 60;

/// The largest angle, in absolute value, that the elementary rotations can
/// reach to within the smallest of them: their sum plus the last one.
pub const CONVERGENCE_RANGE: u64 = 2009872630981694891;

/// The elementary angles: entry `i` is the angle whose tangent is 2^-i, in
/// units of 2^-60 radian, rounded to the nearest unit.
pub open spec fn angle_table() -> Seq<u64> {
    seq![
        905502432259640320u64,
        534549298976576448u64,
        282441168888798112u64,
        143371547418228448u64,
        71963988336308048u64,
        36017075762092180u64,
        18012932708689206u64,
        9007016009513623u64,
        4503576721087964u64,
        2251796950380271u64,
    ]
}

/// Entry `i` of the table, and zero past its end.
pub open spec fn angle_spec(i: nat) -> nat {
    if i < angle_table().len() {
        angle_table()[i as int] as nat
    } else {
        0
    }
}

/// What the rotations from number `i` on can still correct: the sum of
/// their angles, plus the last angle of the table.
pub open spec fn remaining_reach(i: nat) -> nat
    decreases ITERATIONS - i,
{
    if i >= ITERATIONS {
        angle_spec((ITERATIONS - 1) as nat)
    } else {
        angle_spec(i) + remaining_reach(i + 1)
    }
}

/// The elementary angle of rotation number `i`.
pub fn angle(i: usize) -> (theta: u64)
    requires
        i < ITERATIONS,
    ensures
        theta == angle_spec(i as nat),
        theta > 0,
{
    let table: [u64; 10] = [
        905502432259640320,
        534549298976576448,
        282441168888798112,
        143371547418228448,
        71963988336308048,
        36017075762092180,
        18012932708689206,
        9007016009513623,
        4503576721087964,
        2251796950380271,
    ];
    table[i]
}

/// The reach before the first rotation is the convergence range, the reach
/// after the last one is the last angle, no rotation turns further than the
/// rotations after it can turn back, and the reach shrinks with every
/// rotation.
pub proof fn lemma_reach_values()
    ensures
        remaining_reach(0) == CONVERGENCE_RANGE,
        remaining_reach(ITERATIONS as nat) == angle_spec((ITERATIONS - 1) as nat),
        forall|i: nat| i < ITERATIONS ==> 0 < angle_spec(i) <= #[trigger] remaining_reach(i + 1),
        forall|i: nat| i < ITERATIONS ==> #[trigger] remaining_reach(i + 1) < remaining_reach(i),
{
    reveal_with_fuel(remaining_reach, 12);
    assert forall|i: nat| i < ITERATIONS implies 0 < angle_spec(i) <= #[trigger] remaining_reach(
        i + 1,
    ) by {
        if i == 0 {
        } else if i == 1 {
        } else if i == 2 {
        } else if i == 3 {
        } else if i == 4 {
        } else if i == 5 {
        } else if i == 6 {
        } else if i == 7 {
        } else if i == 8 {
        } else {
        }
    }
}

} // verus!
