//! The sign of a vector component.
//!
//! Each component of a generated vector is a magnitude times a sign, and the
//! sign is decided by one fair coin toss taken from the run's random number
//! generator.

use rand::rngs::StdRng;
use rand::Rng;
use vstd::prelude::*;

verus! {

/// `rand::rngs::StdRng`, the generator that a run draws from. Nothing of its
/// state is visible here; values of it are only passed on.
#[verifier::external_type_specification]
#[verifier::external_body]
pub struct ExStdRng(rand::rngs::StdRng);

/// One of the two factors, `+1` or `-1`, that a component's magnitude is
/// multiplied by.
#[derive(Clone, Copy, Debug, PartialEq, Eq, Structural)]
pub enum Sign {
    Positive,
    Negative,
}

impl Sign {
    /// The factor as an integer: `1` or `-1`.
    pub open spec fn spec_factor(self) -> int {
        match self {
            Sign::Positive => 1,
            Sign::Negative => -1,
        }
    }

    /// The sign that a coin toss selects: `true` is positive, `false`
    /// negative.
    pub fn from_draw(draw: bool) -> (s: Sign)
        ensures
            s == (if draw {
                Sign::Positive
            } else {
                Sign::Negative
            }),
    {
        if draw {
            Sign::Positive
        } else {
            Sign::Negative
        }
    }

    /// The factor as a machine integer.
    pub fn factor(self) -> (f: i8)
        ensures
            f == self.spec_factor(),
    {
        match self {
            Sign::Positive => 1,
            Sign::Negative => -1,
        }
    }
}

/// Calls `rand::Rng::gen::<bool>` on a `rand::rngs::StdRng`, which tests the
/// top bit of the generator's next 32-bit word. The outcome depends on the
/// generator's hidden state, so nothing is claimed of it; the generator is
/// advanced by the call.
#[verifier::external_body]
fn draw_bool(rng: &mut StdRng) -> (draw: bool) {
    rng.gen::<bool>()
}

/// Tosses the generator's coin once and returns the sign it selects.
/// Whatever the toss, the factor is `1` or `-1`.
pub fn random_sign(rng: &mut StdRng) -> (s: Sign)
    ensures
        s.spec_factor() == 1 || s.spec_factor() == -1,
{
    let draw = draw_bool(rng);
    Sign::from_draw(draw)
}

} // verus!
