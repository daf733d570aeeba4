//! Completion fractions: exact ratios between zero and one.

use vstd::prelude::*;

verus! {

/// The mathematical value of a [`Fraction`]: `num / den`.
pub struct Ratio {
    pub num: nat,
    pub den: nat,
}

impl Ratio {
    /// A ratio that denotes a number in `[0, 1]`.
    pub open spec fn is_unit(self) -> bool {
        0 < self.den && self.num <= self.den
    }

    /// `part / whole`, cut off at one.
    pub open spec fn clamped(part: nat, whole: nat) -> Ratio {
        Ratio { num: if part <= whole { part } else { whole }, den: whole }
    }

    /// The ratio one.
    pub open spec fn one() -> Ratio {
        Ratio { num: 1, den: 1 }
    }

    /// The ratio zero.
    pub open spec fn zero() -> Ratio {
        Ratio { num: 0, den: 1 }
    }

    /// Both ratios denote the same number.
    pub open spec fn same_value(self, other: Ratio) -> bool {
        self.num * other.den == other.num * self.den
    }

    /// The ratio denotes exactly one.
    pub open spec fn is_complete(self) -> bool {
        self.num == self.den
    }

    /// The whole percents reached: `floor(100 * num / den)`.
    pub open spec fn percent(self) -> nat {
        (100 * self.num) / self.den
    }
}

/// The product of two 64-bit counts fits in 128 bits.
proof fn lemma_product_fits(a: u64, b: u64)
    by (nonlinear_arith)
    ensures
        0 <= a * b <= u128::MAX,
{
}

/// A completion estimate in `[0, 1]`, held as an exact ratio of two counts.
///
/// The denominator is never zero and the numerator never exceeds it, so the
/// value cannot leave the unit interval.
#[derive(Clone, Copy, Debug)]
pub struct Fraction {
    num: u64,
    den: u64,
}

impl View for Fraction {
    type V = Ratio;

    closed spec fn view(&self) -> Ratio {
        Ratio { num: self.num as nat, den: self.den as nat }
    }
}

impl Fraction {
    #[verifier::type_invariant]
    spec fn within_unit(self) -> bool {
        0 < self.den && self.num <= self.den
    }

    /// Nothing done yet.
    pub fn zero() -> (r: Fraction)
        ensures
            r@ == Ratio::zero(),
    {
        Fraction { num: 0, den: 1 }
    }

    /// All done.
    pub fn one() -> (r: Fraction)
        ensures
            r@ == Ratio::one(),
    {
        Fraction { num: 1, den: 1 }
    }

    /// `part / whole`, cut off at one.
    pub fn clamped(part: u64, whole: u64) -> (r: Fraction)
        requires
            whole > 0,
        ensures
            r@ == Ratio::clamped(part as nat, whole as nat),
    {
        if part <= whole {
            Fraction { num: part, den: whole }
        } else {
            Fraction { num: whole, den: whole }
        }
    }

    /// `part / whole` cut off at one, or `None` where `whole` is zero.
    pub fn checked(part: u64, whole: u64) -> (r: Option<Fraction>)
        ensures
            whole == 0 <==> r is None,
            r matches Some(f) ==> f@ == Ratio::clamped(part as nat, whole as nat),
    {
        if whole == 0 {
            None
        } else {
            Some(Fraction::clamped(part, whole))
        }
    }

    /// The count reached.
    pub fn numerator(&self) -> (n: u64)
        ensures
            n == self@.num,
            self@.is_unit(),
    {
        proof {
            use_type_invariant(self);
        }
        self.num
    }

    /// The count that makes the whole; never zero.
    pub fn denominator(&self) -> (d: u64)
        ensures
            d == self@.den,
            self@.is_unit(),
    {
        proof {
            use_type_invariant(self);
        }
        self.den
    }

    /// Whether the fraction is exactly one.
    pub fn is_complete(&self) -> (b: bool)
        ensures
            b == self@.is_complete(),
    {
        self.num == self.den
    }

    /// Whether two fractions denote the same number.
    pub fn same_value(&self, other: &Fraction) -> (b: bool)
        ensures
            b == self@.same_value(other@),
    {
        proof {
            lemma_product_fits(self.num, other.den);
            lemma_product_fits(other.num, self.den);
        }
        let left: u128 = (self.num as u128) * (other.den as u128);
        let right: u128 = (other.num as u128) * (self.den as u128);
        left == right
    }

    /// The whole percents reached, from 0 to 100.
    pub fn percent(&self) -> (p: u16)
        ensures
            p == self@.percent(),
            p <= 100,
    {
        proof {
            use_type_invariant(self);
        }
        let scaled: u128 = 100u128 * (self.num as u128);
        let whole: u128 = scaled / (self.den as u128);
        assert(whole <= 100) by (nonlinear_arith)
            requires
                whole == (100 * self.num) / (self.den as int),
                0 < self.den,
                self.num <= self.den,
        ;
        whole as u16
    }
}

} // verus!
