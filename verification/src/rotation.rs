//! The rotation engine: a unit vector is turned towards the target angle by
//! ten elementary rotations of decreasing size.

use vstd::prelude::*;
use vstd::arithmetic::div_mod::lemma_div_is_ordered;
use vstd::arithmetic::power2::pow2;
use vstd::arithmetic::power2::lemma2_to64;
use vstd::arithmetic::power2::lemma_pow2_pos;
use vstd::bits::lemma_u64_shr_is_div;
use crate::angles::ITERATIONS;
use crate::angles::CONVERGENCE_RANGE;
use crate::angles::angle;
use crate::angles::angle_spec;
use crate::angles::lemma_reach_values;
use crate::angles::remaining_reach;
use crate::power::ONE;
use crate::sign_magnitude::SignMagnitude;
use crate::sign_magnitude::Signed;
use crate::sign_magnitude::add_values;

verus! {

/// The vector under rotation and the angle that is still to be turned.
///
/// `x` and `y` are in units of 2^-62, `z` in units of 2^-60 radian.
#[derive(Clone, Copy, Debug, PartialEq, Eq, Structural)]
pub struct RotationState {
    pub x: SignMagnitude,
    pub y: SignMagnitude,
    pub z: SignMagnitude,
}

/// The mathematical model of a [`RotationState`].
pub struct Rotation {
    pub x: Signed,
    pub y: Signed,
    pub z: Signed,
}

impl View for RotationState {
    type V = Rotation;

    open spec fn view(&self) -> Rotation {
        Rotation { x: self.x@, y: self.y@, z: self.z@ }
    }
}

/// The state before the first rotation: the vector (1, 0) and the whole
/// target angle still to be turned.
pub open spec fn initial(theta: Signed) -> Rotation {
    Rotation {
        x: Signed { magnitude: ONE as nat, sign: true },
        y: Signed { magnitude: 0, sign: true },
        z: theta,
    }
}

/// Elementary rotation number `i`. The vector is turned by the angle whose
/// tangent is 2^-i, towards the remaining angle `z`: clockwise while `z` is
/// positive, counter-clockwise otherwise. The length of the vector is not
/// corrected.
pub open spec fn step(s: Rotation, i: nat) -> Rotation {
    let delta_x = s.y.scaled_down(i);
    let delta_y = s.x.scaled_down(i);
    let turn = Signed { magnitude: angle_spec(i), sign: true };
    if s.z.value() > 0 {
        Rotation {
            x: s.x.plus(delta_x.negated()),
            y: s.y.plus(delta_y),
            z: s.z.plus(turn.negated()),
        }
    } else {
        Rotation { x: s.x.plus(delta_x), y: s.y.plus(delta_y.negated()), z: s.z.plus(turn) }
    }
}

/// The state after the first `n` elementary rotations.
pub open spec fn rotated(start: Rotation, n: nat) -> Rotation
    decreases n,
{
    if n == 0 {
        start
    } else {
        step(rotated(start, (n - 1) as nat), (n - 1) as nat)
    }
}

/// Performs elementary rotation number `i` on `state`.
///
/// The two coordinates that come out must fit in 64 bits; the remaining
/// angle always does.
pub fn rotation_step(state: RotationState, i: usize) -> (next: RotationState)
    requires
        i < ITERATIONS,
        step(state@, i as nat).x.magnitude <= u64::MAX,
        step(state@, i as nat).y.magnitude <= u64::MAX,
    ensures
        next@ == step(state@, i as nat),
{
    let shift: u64 = i as u64;
    let clockwise: bool = state.z.sign && state.z.magnitude > 0;
    proof {
        lemma_u64_shr_is_div(state.x.magnitude, shift);
        lemma_u64_shr_is_div(state.y.magnitude, shift);
    }
    let delta_x = SignMagnitude { magnitude: state.y.magnitude >> shift, sign: state.y.sign };
    let delta_y = SignMagnitude { magnitude: state.x.magnitude >> shift, sign: state.x.sign };
    let x = add_values(
        state.x.magnitude,
        delta_x.magnitude,
        state.x.sign,
        if clockwise { !delta_x.sign } else { delta_x.sign },
    );
    let y = add_values(
        state.y.magnitude,
        delta_y.magnitude,
        state.y.sign,
        if clockwise { delta_y.sign } else { !delta_y.sign },
    );
    let z = add_values(state.z.magnitude, angle(i), state.z.sign, !clockwise);
    RotationState {
        x: SignMagnitude { magnitude: x.0, sign: x.1 },
        y: SignMagnitude { magnitude: y.0, sign: y.1 },
        z: SignMagnitude { magnitude: z.0, sign: z.1 },
    }
}

/// A bound on both coordinates' magnitudes after `n` elementary rotations,
/// for `n` from 1 on: rotation `n` adds to a coordinate at most the other
/// one divided by 2^n.
pub open spec fn magnitude_bound(n: nat) -> nat
    decreases n,
{
    if n <= 1 {
        ONE as nat
    } else {
        magnitude_bound((n - 1) as nat) + magnitude_bound((n - 1) as nat) / pow2((n - 1) as nat)
    }
}

/// Unfolds [`magnitude_bound`] once, with the power of two as a number.
proof fn lemma_magnitude_bound_unfold(n: nat, divisor: nat)
    requires
        n >= 2,
        divisor == pow2((n - 1) as nat),
    ensures
        magnitude_bound(n) == magnitude_bound((n - 1) as nat) + magnitude_bound((n - 1) as nat)
            / divisor,
{
}

/// The bound of [`magnitude_bound`] stays below 2^64 for the ten rotations
/// of a run.
pub proof fn lemma_magnitude_bound_fits(n: nat)
    requires
        n <= ITERATIONS,
    ensures
        magnitude_bound(n) <= 10973877588718387200,
{
    lemma2_to64();
    assert(magnitude_bound(0) == 4611686018427387904);
    assert(magnitude_bound(1) == 4611686018427387904);
    lemma_magnitude_bound_unfold(2, 2);
    assert(magnitude_bound(2) == 6917529027641081856);
    lemma_magnitude_bound_unfold(3, 4);
    assert(magnitude_bound(3) == 8646911284551352320);
    lemma_magnitude_bound_unfold(4, 8);
    assert(magnitude_bound(4) == 9727775195120271360);
    lemma_magnitude_bound_unfold(5, 16);
    assert(magnitude_bound(5) == 10335761144815288320);
    lemma_magnitude_bound_unfold(6, 32);
    assert(magnitude_bound(6) == 10658753680590766080);
    lemma_magnitude_bound_unfold(7, 64);
    assert(magnitude_bound(7) == 10825296706849996800);
    lemma_magnitude_bound_unfold(8, 128);
    assert(magnitude_bound(8) == 10909869337372262400);
    lemma_magnitude_bound_unfold(9, 256);
    assert(magnitude_bound(9) == 10952486014471372800);
    lemma_magnitude_bound_unfold(10, 512);
    assert(magnitude_bound(10) == 10973877588718387200);
}

/// Whatever the target angle, both coordinates stay within
/// [`magnitude_bound`] during a run, and so within 64 bits.
pub proof fn lemma_magnitudes_bounded(theta: Signed, n: nat)
    requires
        1 <= n <= ITERATIONS,
    ensures
        rotated(initial(theta), n).x.magnitude <= magnitude_bound(n),
        rotated(initial(theta), n).y.magnitude <= magnitude_bound(n),
        magnitude_bound(n) <= u64::MAX,
    decreases n,
{
    lemma_magnitude_bound_fits(n);
    let i = (n - 1) as nat;
    let before = rotated(initial(theta), i);
    if n == 1 {
        lemma2_to64();
    } else {
        lemma_magnitudes_bounded(theta, i);
        let bound = magnitude_bound(i);
        lemma_pow2_pos(i);
        lemma_div_is_ordered(before.x.magnitude as int, bound as int, pow2(i) as int);
        lemma_div_is_ordered(before.y.magnitude as int, bound as int, pow2(i) as int);
    }
}

/// While the target angle is within the convergence range, the angle that
/// is still to be turned after `n` rotations is within the reach of the
/// rotations that are left.
pub proof fn lemma_residual_within_reach(theta: Signed, n: nat)
    requires
        theta.magnitude <= CONVERGENCE_RANGE,
        n <= ITERATIONS,
    ensures
        rotated(initial(theta), n).z.magnitude <= remaining_reach(n),
    decreases n,
{
    lemma_reach_values();
    if n > 0 {
        let i = (n - 1) as nat;
        lemma_residual_within_reach(theta, i);
    }
}

/// Turns the unit vector (1, 0) by the ten elementary rotations towards the
/// angle `theta`, given in units of 2^-60 radian.
///
/// The vector that comes out is longer than the unit vector by the gain of
/// the rotations; `z` is the part of `theta` that was not turned. While
/// `theta` is within the convergence range, that part is no larger than the
/// last elementary angle.
pub fn rotate(theta: SignMagnitude) -> (state: RotationState)
    ensures
        state@ == rotated(initial(theta@), ITERATIONS as nat),
        theta.magnitude <= CONVERGENCE_RANGE ==> state.z.magnitude <= angle_spec(
            (ITERATIONS - 1) as nat,
        ),
{
    let mut state = RotationState {
        x: SignMagnitude { magnitude: ONE, sign: true },
        y: SignMagnitude { magnitude: 0, sign: true },
        z: theta,
    };
    for i in 0..ITERATIONS
        invariant
            state@ == rotated(initial(theta@), i as nat),
    {
        proof {
            lemma_magnitudes_bounded(theta@, (i + 1) as nat);
        }
        state = rotation_step(state, i);
    }
    proof {
        lemma_reach_values();
        if theta.magnitude <= CONVERGENCE_RANGE {
            lemma_residual_within_reach(theta@, ITERATIONS as nat);
        }
    }
    state
}

} // verus!
