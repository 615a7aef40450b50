//! A small non-negative decimal representation for informational fee
//! fractions: a 96-bit mantissa scaled down by a power of ten.

use vstd::prelude::*;

verus! {

/// Exclusive upper bound of the mantissa: two to the 96th power.
pub const MAX_MANTISSA: u128 = 79228162514264337593543950336;

/// Largest number of fractional digits the representation admits.
pub const MAX_SCALE: u32 = 28;

/// Ten raised to `e`.
pub open spec fn pow10(e: nat) -> nat
    decreases e,
{
    if e == 0 {
        1
    } else {
        10 * pow10((e - 1) as nat)
    }
}

/// `pow10` never decreases as the exponent grows.
proof fn lemma_pow10_increases(e1: nat, e2: nat)
    requires
        e1 <= e2,
    ensures
        pow10(e1) <= pow10(e2),
    decreases e2,
{
    if e1 < e2 {
        lemma_pow10_increases(e1, (e2 - 1) as nat);
    }
}

/// The largest admitted power of ten still fits comfortably under the
/// mantissa bound.
proof fn lemma_pow10_max_scale()
    ensures
        pow10(MAX_SCALE as nat) == 10000000000000000000000000000,
{
    reveal_with_fuel(pow10, 30);
}

/// A non-negative decimal number `mantissa / 10^scale`.
#[derive(Clone, Copy, Debug, PartialEq, Eq, Structural)]
pub struct Decimal {
    pub mantissa: u128,
    pub scale: u32,
}

impl Decimal {
    /// The representation respects the mantissa and scale limits.
    pub open spec fn well_formed(self) -> bool {
        self.mantissa < MAX_MANTISSA && self.scale <= MAX_SCALE
    }

    /// The represented number lies in `[0, 1)`.
    pub open spec fn is_proper_fraction(self) -> bool {
        (self.mantissa as nat) < pow10(self.scale as nat)
    }

    /// Builds a decimal, rejecting representations outside the limits.
    pub fn new(mantissa: u128, scale: u32) -> (r: Option<Decimal>)
        ensures
            match r {
                Some(d) => {
                    &&& d.mantissa == mantissa
                    &&& d.scale == scale
                    &&& d.well_formed()
                },
                None => !(Decimal { mantissa, scale }).well_formed(),
            },
    {
        if mantissa < MAX_MANTISSA && scale <= MAX_SCALE {
            Some(Decimal { mantissa, scale })
        } else {
            None
        }
    }

    /// The decimal representing zero.
    pub fn zero() -> (r: Decimal)
        ensures
            r.mantissa == 0,
            r.scale == 0,
            r.well_formed(),
            r.is_proper_fraction(),
    {
        Decimal { mantissa: 0, scale: 0 }
    }

    /// Ten to the `scale`, computed executably.
    fn pow10_exec(scale: u32) -> (r: u128)
        requires
            scale <= MAX_SCALE,
        ensures
            r == pow10(scale as nat),
    {
        let mut r: u128 = 1;
        let mut i: u32 = 0;
        while i < scale
            invariant
                i <= scale <= MAX_SCALE,
                r == pow10(i as nat),
            decreases scale - i,
        {
            proof {
                lemma_pow10_increases((i + 1) as nat, MAX_SCALE as nat);
                lemma_pow10_max_scale();
            }
            r = r * 10;
            i = i + 1;
        }
        r
    }

    /// Decides whether the represented number lies in `[0, 1)`.
    pub fn proper_fraction(&self) -> (r: bool)
        requires
            self.well_formed(),
        ensures
            r == self.is_proper_fraction(),
    {
        self.mantissa < Decimal::pow10_exec(self.scale)
    }
}

impl Default for Decimal {
    /// Zero.
    fn default() -> (r: Decimal)
        ensures
            r.mantissa == 0,
            r.scale == 0,
            r.well_formed(),
            r.is_proper_fraction(),
    {
        Decimal { mantissa: 0, scale: 0 }
    }
}

} // verus!
