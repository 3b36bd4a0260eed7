//! Fixed-point fractions: parts per million and parts per quintillion.
//!
//! The two types here hold a fraction as an integer count of parts. The
//! arithmetic on them is done by `sp_arithmetic`; each call into it stands in
//! one private function whose contract is taken on trust and says, over the
//! spec functions of this module, what the call returns.

use vstd::prelude::*;

verus! {

/// The number of parts that make one whole `Permill`.
pub const PERMILL_ACCURACY: u32 = 1_000_000;

/// The number of parts that make one whole `Perquintill`.
pub const PERQUINTILL_ACCURACY: u64 = 1_000_000_000_000_000_000;

/// `parts / accuracy` of `x`, rounded down.
pub open spec fn mul_floor(parts: nat, accuracy: nat, x: nat) -> nat {
    (parts * x) / accuracy
}

/// The fraction `p / q` as a count of parts out of `accuracy`, rounded down.
///
/// A zero `q` counts as one and `p` is capped at `q`. Where `q` is larger
/// than `accuracy`, both are first divided by the least factor that brings
/// `q` down to `accuracy` or below, so the result is then an approximation.
pub open spec fn rational_approximation(p: nat, q: nat, accuracy: nat) -> nat {
    let q = if q == 0 { 1 } else { q };
    let p = if p <= q { p } else { q };
    let ceil = q / accuracy + if q % accuracy > 0 { 1nat } else { 0nat };
    let factor = if ceil >= 1 { ceil } else { 1 };
    ((p / factor) * accuracy) / (q / factor)
}

/// `Permill::mul_floor` of `sp_arithmetic`, on a fraction built by
/// `Permill::from_parts`: the fraction of `x`, rounded down. Taken on trust.
#[verifier::external_body]
fn permill_mul_floor(parts: u32, x: u128) -> (r: u128)
    requires
        parts <= PERMILL_ACCURACY,
    ensures
        r == mul_floor(parts as nat, PERMILL_ACCURACY as nat, x as nat),
{
    sp_arithmetic::Permill::from_parts(parts).mul_floor(x)
}

/// `Permill::from_rational_approximation` of `sp_arithmetic`, computed in
/// `u128`: the parts per million that approximate `p / q`. Taken on trust.
#[verifier::external_body]
fn permill_from_rational_approximation(p: u128, q: u128) -> (r: u32)
    ensures
        r == rational_approximation(p as nat, q as nat, PERMILL_ACCURACY as nat),
{
    sp_arithmetic::Permill::from_rational_approximation(p, q).deconstruct()
}

/// `Perquintill::mul_floor` of `sp_arithmetic`, on a fraction built by
/// `Perquintill::from_parts`: the fraction of `x`, rounded down. Taken on
/// trust.
#[verifier::external_body]
fn perquintill_mul_floor(parts: u64, x: u128) -> (r: u128)
    requires
        parts <= PERQUINTILL_ACCURACY,
    ensures
        r == mul_floor(parts as nat, PERQUINTILL_ACCURACY as nat, x as nat),
{
    sp_arithmetic::Perquintill::from_parts(parts).mul_floor(x)
}

/// `Perquintill::from_rational_approximation` of `sp_arithmetic`, computed in
/// `u64`: the parts per quintillion that approximate `p / q`. Taken on trust.
#[verifier::external_body]
fn perquintill_from_rational_approximation(p: u64, q: u64) -> (r: u64)
    ensures
        r == rational_approximation(p as nat, q as nat, PERQUINTILL_ACCURACY as nat),
{
    sp_arithmetic::Perquintill::from_rational_approximation(p, q).deconstruct()
}

/// A fraction of a part never exceeds the whole.
pub proof fn lemma_mul_floor_bounded(parts: nat, accuracy: nat, x: nat)
    requires
        0 < accuracy,
        parts <= accuracy,
    ensures
        mul_floor(parts, accuracy, x) <= x,
{
    assert(parts * x <= accuracy * x) by (nonlinear_arith)
        requires
            parts <= accuracy,
    ;
    assert((parts * x) / accuracy <= x) by (nonlinear_arith)
        requires
            parts * x <= accuracy * x,
            0 < accuracy,
    ;
}

/// A larger fraction of a larger amount is not less.
pub proof fn lemma_mul_floor_monotone(less: nat, more: nat, accuracy: nat, small: nat, large: nat)
    requires
        0 < accuracy,
        less <= more,
        small <= large,
    ensures
        mul_floor(less, accuracy, small) <= mul_floor(more, accuracy, large),
{
    assert(less * small <= more * large) by (nonlinear_arith)
        requires
            less <= more,
            small <= large,
    ;
    assert((less * small) / accuracy <= (more * large) / accuracy) by (nonlinear_arith)
        requires
            less * small <= more * large,
            0 < accuracy,
    ;
}

/// An approximated fraction is at most one whole.
pub proof fn lemma_rational_approximation_bounded(p: nat, q: nat, accuracy: nat)
    requires
        0 < accuracy,
    ensures
        rational_approximation(p, q, accuracy) <= accuracy,
{
    let den = if q == 0 { 1 } else { q };
    let num = if p <= den { p } else { den };
    let ceil = den / accuracy + if den % accuracy > 0 { 1nat } else { 0nat };
    let factor = if ceil >= 1 { ceil } else { 1 };
    let num_reduced = num / factor;
    let den_reduced = den / factor;
    assert(num_reduced <= den_reduced) by (nonlinear_arith)
        requires
            num <= den,
            factor >= 1,
            num_reduced == num / factor,
            den_reduced == den / factor,
    ;
    assert(ceil * accuracy >= den) by (nonlinear_arith)
        requires
            0 < accuracy,
            ceil == den / accuracy + if den % accuracy > 0 { 1nat } else { 0nat },
    ;
    assert(ceil >= 1) by (nonlinear_arith)
        requires
            ceil * accuracy >= den,
            den >= 1,
            0 < accuracy,
    ;
    assert(factor <= den) by (nonlinear_arith)
        requires
            factor == den / accuracy + if den % accuracy > 0 { 1nat } else { 0nat },
            den >= 1,
            0 < accuracy,
    ;
    assert(den_reduced >= 1) by (nonlinear_arith)
        requires
            den_reduced == den / factor,
            1 <= factor <= den,
    ;
    assert((num_reduced * accuracy) / den_reduced <= accuracy) by (nonlinear_arith)
        requires
            num_reduced <= den_reduced,
            den_reduced >= 1,
    ;
}

/// Where the denominator is positive and no larger than the accuracy, the
/// approximation is the exact quotient rounded down.
pub proof fn lemma_rational_approximation_exact(p: nat, q: nat, accuracy: nat)
    requires
        0 < q <= accuracy,
        p <= q,
    ensures
        rational_approximation(p, q, accuracy) == (p * accuracy) / q,
{
    let ceil = q / accuracy + if q % accuracy > 0 { 1nat } else { 0nat };
    assert(ceil == 1) by (nonlinear_arith)
        requires
            0 < q <= accuracy,
            ceil == q / accuracy + if q % accuracy > 0 { 1nat } else { 0nat },
    ;
    assert(p / 1 == p && q / 1 == q);
}

/// Parts per million.
///
/// The number held is read through [`Permill::parts`], which caps it at one
/// million; every constructor here gives a number within that bound.
#[derive(Clone, Copy, Debug, PartialEq, Eq, Structural)]
pub struct Permill(pub u32);

impl Permill {
    /// The parts per million that this value stands for.
    pub open spec fn parts(self) -> nat {
        if self.0 <= PERMILL_ACCURACY {
            self.0 as nat
        } else {
            PERMILL_ACCURACY as nat
        }
    }

    /// The fraction with the given number of parts, capped at one whole.
    pub fn from_parts(parts: u32) -> (r: Self)
        ensures
            r.0 <= PERMILL_ACCURACY,
            r.parts() == Permill(parts).parts(),
    {
        if parts <= PERMILL_ACCURACY {
            Permill(parts)
        } else {
            Permill(PERMILL_ACCURACY)
        }
    }

    /// `x` percent, capped at one whole.
    pub fn from_percent(x: u32) -> (r: Self)
        ensures
            r.0 == (if x <= 100 { x } else { 100 }) * 10_000,
    {
        let capped: u32 = if x <= 100 { x } else { 100 };
        Permill(capped * 10_000)
    }

    /// No part at all.
    pub fn zero() -> (r: Self)
        ensures
            r.0 == 0,
    {
        Permill(0)
    }

    /// One whole.
    pub fn one() -> (r: Self)
        ensures
            r.0 == PERMILL_ACCURACY,
    {
        Permill(PERMILL_ACCURACY)
    }

    /// The number of parts per million.
    pub fn deconstruct(self) -> (r: u32)
        ensures
            r == self.parts(),
    {
        if self.0 <= PERMILL_ACCURACY {
            self.0
        } else {
            PERMILL_ACCURACY
        }
    }

    /// This fraction of `x`, rounded down; never more than `x`.
    pub fn mul_floor(self, x: u128) -> (r: u128)
        ensures
            r == mul_floor(self.parts(), PERMILL_ACCURACY as nat, x as nat),
            r <= x,
    {
        proof {
            lemma_mul_floor_bounded(self.parts(), PERMILL_ACCURACY as nat, x as nat);
        }
        permill_mul_floor(self.deconstruct(), x)
    }

    /// The fraction that approximates `p / q`, rounded down.
    pub fn from_rational_approximation(p: u128, q: u128) -> (r: Self)
        ensures
            r.0 == rational_approximation(p as nat, q as nat, PERMILL_ACCURACY as nat),
            r.0 <= PERMILL_ACCURACY,
    {
        proof {
            lemma_rational_approximation_bounded(p as nat, q as nat, PERMILL_ACCURACY as nat);
        }
        Permill(permill_from_rational_approximation(p, q))
    }
}

/// Parts per quintillion.
///
/// The number held is read through [`Perquintill::parts`], which caps it at
/// one quintillion; every constructor here gives a number within that bound.
#[derive(Clone, Copy, Debug, PartialEq, Eq, Structural)]
pub struct Perquintill(pub u64);

impl Perquintill {
    /// The parts per quintillion that this value stands for.
    pub open spec fn parts(self) -> nat {
        if self.0 <= PERQUINTILL_ACCURACY {
            self.0 as nat
        } else {
            PERQUINTILL_ACCURACY as nat
        }
    }

    /// The fraction with the given number of parts, capped at one whole.
    pub fn from_parts(parts: u64) -> (r: Self)
        ensures
            r.0 <= PERQUINTILL_ACCURACY,
            r.parts() == Perquintill(parts).parts(),
    {
        if parts <= PERQUINTILL_ACCURACY {
            Perquintill(parts)
        } else {
            Perquintill(PERQUINTILL_ACCURACY)
        }
    }

    /// No part at all.
    pub fn zero() -> (r: Self)
        ensures
            r.0 == 0,
    {
        Perquintill(0)
    }

    /// One whole.
    pub fn one() -> (r: Self)
        ensures
            r.0 == PERQUINTILL_ACCURACY,
    {
        Perquintill(PERQUINTILL_ACCURACY)
    }

    /// The number of parts per quintillion.
    pub fn deconstruct(self) -> (r: u64)
        ensures
            r == self.parts(),
    {
        if self.0 <= PERQUINTILL_ACCURACY {
            self.0
        } else {
            PERQUINTILL_ACCURACY
        }
    }

    /// This fraction of `x`, rounded down; never more than `x`.
    pub fn mul_floor(self, x: u128) -> (r: u128)
        ensures
            r == mul_floor(self.parts(), PERQUINTILL_ACCURACY as nat, x as nat),
            r <= x,
    {
        proof {
            lemma_mul_floor_bounded(self.parts(), PERQUINTILL_ACCURACY as nat, x as nat);
        }
        perquintill_mul_floor(self.deconstruct(), x)
    }

    /// The fraction that approximates `p / q`, rounded down.
    pub fn from_rational_approximation(p: u64, q: u64) -> (r: Self)
        ensures
            r.0 == rational_approximation(p as nat, q as nat, PERQUINTILL_ACCURACY as nat),
            r.0 <= PERQUINTILL_ACCURACY,
    {
        proof {
            lemma_rational_approximation_bounded(
                p as nat,
                q as nat,
                PERQUINTILL_ACCURACY as nat,
            );
        }
        Perquintill(perquintill_from_rational_approximation(p, q))
    }

    /// The difference of two fractions, zero where `other` is the larger.
    pub fn saturating_sub(self, other: Self) -> (r: Self)
        ensures
            r.0 == (if self.parts() >= other.parts() { self.parts() - other.parts() } else { 0 }),
    {
        Perquintill(self.deconstruct().saturating_sub(other.deconstruct()))
    }
}

} // verus!
