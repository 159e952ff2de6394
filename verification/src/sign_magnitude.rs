//! Signed numbers stored as a non-negative magnitude and a sign flag, and
//! their addition.

use vstd::prelude::*;

verus! {

/// A signed quantity as it is stored: `sign` is `true` for a value that is
/// not negative. Zero has two encodings, one for each flag.
#[derive(Clone, Copy, Debug, PartialEq, Eq, Structural)]
pub struct SignMagnitude {
    pub magnitude: u64,
    pub sign: bool,
}

/// The mathematical model of a [`SignMagnitude`]: the same pair with an
/// unbounded magnitude.
pub struct Signed {
    pub magnitude: nat,
    pub sign: bool,
}

/// The integer that a magnitude and a sign flag stand for.
pub open spec fn signed_value(magnitude: nat, sign: bool) -> int {
    if sign {
        magnitude as int
    } else {
        -(magnitude as int)
    }
}

impl Signed {
    /// The integer that this pair stands for.
    pub open spec fn value(self) -> int {
        signed_value(self.magnitude, self.sign)
    }

    /// The same magnitude under the opposite flag.
    pub open spec fn negated(self) -> Signed {
        Signed { magnitude: self.magnitude, sign: !self.sign }
    }

    /// The magnitude divided by 2^i, rounded towards zero; the flag is kept.
    pub open spec fn scaled_down(self, i: nat) -> Signed {
        Signed { magnitude: self.magnitude / vstd::arithmetic::power2::pow2(i), sign: self.sign }
    }

    /// The sum of two signed quantities. Its value is the sum of the two
    /// values; a sum of zero keeps the flag of `self`.
    pub open spec fn plus(self, other: Signed) -> Signed {
        let total = self.value() + other.value();
        Signed {
            magnitude: (if total >= 0 { total } else { -total }) as nat,
            sign: if total == 0 { self.sign } else { total > 0 },
        }
    }
}

impl View for SignMagnitude {
    type V = Signed;

    open spec fn view(&self) -> Signed {
        Signed { magnitude: self.magnitude as nat, sign: self.sign }
    }
}

/// Adds two signed quantities given as magnitudes and sign flags, using
/// only additions and subtractions of magnitudes that cannot go below zero.
///
/// Equal flags add the magnitudes and keep the flag. Different flags
/// subtract the smaller magnitude from the larger one, and the result takes
/// the flag of the operand with the larger magnitude; on a tie the result is
/// zero under the flag of the first operand.
pub fn add_values(a: u64, delta_a: u64, sign_a: bool, sign_delta_a: bool) -> (result: (u64, bool))
    requires
        sign_a == sign_delta_a ==> a + delta_a <= u64::MAX,
    ensures
        signed_value(result.0 as nat, result.1) == signed_value(a as nat, sign_a) + signed_value(
            delta_a as nat,
            sign_delta_a,
        ),
        result.0 == 0 ==> result.1 == sign_a,
{
    if sign_a != sign_delta_a {
        let first_value: u64 = if delta_a > a { delta_a } else { a };
        let second_value: u64 = if delta_a > a { a } else { delta_a };
        let result_sign: bool = if delta_a > a { !sign_a } else { sign_a };
        (first_value - second_value, result_sign)
    } else {
        (a + delta_a, sign_a)
    }
}

} // verus!
