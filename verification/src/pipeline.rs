//! The whole computation: rotate, then correct the length of the vector.

use vstd::prelude::*;
use crate::angles::ITERATIONS;
use crate::angles::CONVERGENCE_RANGE;
use crate::angles::angle_spec;
use crate::power::ONE;
use crate::rotation::Rotation;
use crate::rotation::RotationState;
use crate::rotation::initial;
use crate::rotation::rotate;
use crate::rotation::rotated;
use crate::sign_magnitude::SignMagnitude;
use crate::sign_magnitude::Signed;

verus! {

/// The product of the cosines of the ten elementary angles, in units of
/// 2^-62: 0.607253321089875. The rotations stretch the vector by the inverse
/// of this factor.
pub const SCALING: u64 = 2800461650513773568;

/// Sine and cosine of the target angle in units of 2^-62, and the part of
/// the angle that the rotations left over, in units of 2^-60 radian.
#[derive(Clone, Copy, Debug, PartialEq, Eq, Structural)]
pub struct CordicResult {
    pub sine: SignMagnitude,
    pub cosine: SignMagnitude,
    pub residual_error: SignMagnitude,
}

/// The mathematical model of a [`CordicResult`].
pub struct Outcome {
    pub sine: Signed,
    pub cosine: Signed,
    pub residual_error: Signed,
}

impl View for CordicResult {
    type V = Outcome;

    open spec fn view(&self) -> Outcome {
        Outcome {
            sine: self.sine@,
            cosine: self.cosine@,
            residual_error: self.residual_error@,
        }
    }
}

/// A coordinate times the scaling constant: the product of the two
/// magnitudes in units of 2^-62, rounded towards zero, under the flag of the
/// coordinate.
pub open spec fn corrected(v: Signed) -> Signed {
    Signed { magnitude: (v.magnitude * (SCALING as nat)) / (ONE as nat), sign: v.sign }
}

/// What a rotated state gives: `y` corrected is the sine, `x` corrected the
/// cosine, and `z` the residual error.
pub open spec fn extracted(s: Rotation) -> Outcome {
    Outcome { sine: corrected(s.y), cosine: corrected(s.x), residual_error: s.z }
}

/// The result of the whole computation on the angle `theta`.
pub open spec fn cordic(theta: Signed) -> Outcome {
    extracted(rotated(initial(theta), ITERATIONS as nat))
}

/// Multiplies a coordinate by the scaling constant.
pub fn correct_length(v: SignMagnitude) -> (r: SignMagnitude)
    ensures
        r@ == corrected(v@),
{
    let product: u128 = (v.magnitude as u128) * (SCALING as u128);
    let magnitude: u64 = (product / (ONE as u128)) as u64;
    SignMagnitude { magnitude, sign: v.sign }
}

/// Turns a rotated state into sine, cosine and residual error.
pub fn extract_result(state: RotationState) -> (r: CordicResult)
    ensures
        r@ == extracted(state@),
{
    CordicResult {
        sine: correct_length(state.y),
        cosine: correct_length(state.x),
        residual_error: state.z,
    }
}

/// Sine and cosine of the angle `theta`, given in units of 2^-60 radian.
///
/// The result is meaningful while `theta` is within
/// [`CONVERGENCE_RANGE`]; then the residual error is no larger than the
/// last elementary angle.
pub fn cordic_int(theta: SignMagnitude) -> (r: CordicResult)
    ensures
        r@ == cordic(theta@),
        theta.magnitude <= CONVERGENCE_RANGE ==> r.residual_error.magnitude <= angle_spec(
            (ITERATIONS - 1) as nat,
        ),
{
    extract_result(rotate(theta))
}

/// Two runs on the same angle give the same result, bit for bit: the
/// result is a function of the angle alone.
pub proof fn lemma_same_angle_same_result(
    theta: SignMagnitude,
    first: CordicResult,
    second: CordicResult,
)
    requires
        first@ == cordic(theta@),
        second@ == cordic(theta@),
    ensures
        first == second,
{
}

} // verus!
