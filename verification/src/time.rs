//! Frequencies in hertz.

use vstd::prelude::*;

verus! {

/// A frequency, in whole hertz.
#[derive(Clone, Copy, Debug, PartialEq, Eq, Structural)]
pub struct Hertz {
    raw: u32,
}

impl View for Hertz {
    type V = nat;

    /// The number of hertz.
    closed spec fn view(&self) -> nat {
        self.raw as nat
    }
}

impl Hertz {
    /// The frequency of `val` hertz.
    #[allow(non_snake_case)]
    pub fn Hz(val: u32) -> (rate: Self)
        ensures
            rate@ == val,
    {
        Hertz { raw: val }
    }

    /// The frequency of `val` megahertz.
    #[allow(non_snake_case)]
    pub fn MHz(val: u32) -> (rate: Self)
        requires
            val * 1_000_000 <= u32::MAX,
        ensures
            rate@ == val * 1_000_000,
    {
        Hertz { raw: megahertz_to_hertz(val) }
    }

    /// The number of hertz.
    #[allow(non_snake_case)]
    pub fn to_Hz(&self) -> (val: u32)
        ensures
            val == self@,
    {
        self.raw
    }

    /// This frequency divided by `divisor`, rounded down.
    pub fn divided_by(self, divisor: u32) -> (rate: Self)
        requires
            divisor != 0,
        ensures
            rate@ == self@ / (divisor as nat),
    {
        Hertz { raw: hertz_divided(self.raw, divisor) }
    }

    /// A frequency is held in 32 bits.
    pub proof fn lemma_fits_u32(self)
        ensures
            self@ <= u32::MAX,
    {
    }

    /// Frequencies with the same number of hertz are the same frequency.
    pub proof fn lemma_equal_by_view(self, other: Self)
        requires
            self@ == other@,
        ensures
            self == other,
    {
    }
}

/// `fugit::Rate::<u32, 1, 1>::MHz`, read back in hertz. For the base of
/// one hertz per unit, fugit multiplies the argument by 1 000 000 in `u32`
/// and keeps the product as the raw value, which `to_Hz` hands out as it
/// is. The product must fit in `u32`.
#[verifier::external_body]
fn megahertz_to_hertz(mhz: u32) -> (hz: u32)
    requires
        mhz * 1_000_000 <= u32::MAX,
    ensures
        hz == mhz * 1_000_000,
{
    fugit::HertzU32::MHz(mhz).to_Hz()
}

/// `fugit::Rate::<u32, 1, 1>` divided by an integer, through its `Div<u32>`
/// impl: fugit divides the raw value by the divisor with `u32` division,
/// which rounds down and does not accept a divisor of 0.
#[verifier::external_body]
fn hertz_divided(hz: u32, divisor: u32) -> (quotient: u32)
    requires
        divisor != 0,
    ensures
        quotient == hz / divisor,
{
    (fugit::HertzU32::Hz(hz) / divisor).to_Hz()
}

} // verus!
