//! Token amounts as 256-bit unsigned integers.
//!
//! `Amount` holds the four little-endian 64-bit words of a value, the same
//! layout as web3's `U256`; its view is the number it denotes. Arithmetic
//! goes through `U256`, so rounding and overflow behave as on the chain
//! client's own type.
use vstd::prelude::*;
use vstd::arithmetic::div_mod::{lemma_fundamental_div_mod, lemma_hoist_over_denominator};
use web3::types::U256;

verus! {

/// 2^64, the weight of the second word.
pub open spec fn word1() -> nat {
    18446744073709551616
}

/// 2^128, the weight of the third word.
pub open spec fn word2() -> nat {
    word1() * word1()
}

/// 2^192, the weight of the fourth word.
pub open spec fn word3() -> nat {
    word2() * word1()
}

/// The largest value an `Amount` can hold, 2^256 - 1.
pub open spec fn amount_max() -> nat {
    (word3() * word1() - 1) as nat
}

/// An unsigned 256-bit quantity in an asset's smallest unit.
#[derive(Clone, Copy, Debug, PartialEq, Eq, Structural, Hash)]
pub struct Amount {
    pub w0: u64,
    pub w1: u64,
    pub w2: u64,
    pub w3: u64,
}

impl View for Amount {
    type V = nat;

    open spec fn view(&self) -> nat {
        self.w0 as nat + self.w1 as nat * word1() + self.w2 as nat * word2() + self.w3 as nat
            * word3()
    }
}

pub open spec fn sat_sub(a: nat, b: nat) -> nat {
    if a > b {
        (a - b) as nat
    } else {
        0
    }
}

pub open spec fn sat_add(a: nat, b: nat) -> nat {
    if a + b > amount_max() {
        amount_max()
    } else {
        a + b
    }
}

/// Every amount lies within the 256-bit range.
pub proof fn lemma_amount_bounded(a: Amount)
    ensures
        a@ <= amount_max(),
{
    let b: nat = word1();
    let (x0, x1, x2, x3) = (a.w0 as nat, a.w1 as nat, a.w2 as nat, a.w3 as nat);
    assert(x0 < b && x1 < b && x2 < b && x3 < b);
    assert(x0 + x1 * b + x2 * (b * b) + x3 * (b * b * b) < b * b * b * b) by (nonlinear_arith)
        requires
            x0 < b,
            x1 < b,
            x2 < b,
            x3 < b,
    {
        assert(x1 * b <= (b - 1) * b);
        assert(x2 * (b * b) <= (b - 1) * (b * b));
        assert(x3 * (b * b * b) <= (b - 1) * (b * b * b));
    }
}

/// `v` scaled by `bps` basis points, rounded down.
pub open spec fn bps_of(v: nat, bps: nat) -> nat {
    v * bps / 10000
}

/// Scaling by basis points splits into the whole ten-thousands of `v` and
/// its remainder, so the full product is never needed.
proof fn lemma_bps_split(v: nat, b: nat)
    ensures
        v % 10000 < 10000,
        (v / 10000) * 10000 + v % 10000 == v,
        bps_of(v, b) == (v / 10000) * b + ((v % 10000) * b) / 10000,
{
    let q = v / 10000;
    let r = v % 10000;
    lemma_fundamental_div_mod(v as int, 10000);
    assert(v * b == (r * b) + (q * b) * 10000) by (nonlinear_arith)
        requires
            v == 10000 * q + r,
    ;
    lemma_hoist_over_denominator((r * b) as int, (q * b) as int, 10000);
}

impl Amount {
    pub fn zero() -> (r: Amount)
        ensures
            r@ == 0,
            r == (Amount { w0: 0, w1: 0, w2: 0, w3: 0 }),
    {
        Amount { w0: 0, w1: 0, w2: 0, w3: 0 }
    }

    pub fn from_u64(v: u64) -> (r: Amount)
        ensures
            r@ == v as nat,
    {
        Amount { w0: v, w1: 0, w2: 0, w3: 0 }
    }

    /// Relies on `U256::cmp` (uint crate), which orders values by their
    /// words from the most significant down, that is numerically.
    #[verifier::external_body]
    pub(crate) fn gt(&self, other: &Amount) -> (r: bool)
        ensures
            r == (self@ > other@),
    {
        U256([self.w0, self.w1, self.w2, self.w3]) > U256([other.w0, other.w1, other.w2, other.w3])
    }

    /// Relies on `U256::saturating_sub` (uint crate): the difference, or
    /// zero where it would be negative.
    #[verifier::external_body]
    pub(crate) fn saturating_sub(&self, other: &Amount) -> (r: Amount)
        ensures
            r@ == sat_sub(self@, other@),
    {
        let U256(w) = U256([self.w0, self.w1, self.w2, self.w3]).saturating_sub(
            U256([other.w0, other.w1, other.w2, other.w3]),
        );
        Amount { w0: w[0], w1: w[1], w2: w[2], w3: w[3] }
    }
    /// Relies on `U256::saturating_add` (uint crate): the sum, or the
    /// largest value where the sum does not fit.
    #[verifier::external_body]
    pub(crate) fn saturating_add(&self, other: &Amount) -> (r: Amount)
        ensures
            r@ == sat_add(self@, other@),
    {
        let U256(w) = U256([self.w0, self.w1, self.w2, self.w3]).saturating_add(
            U256([other.w0, other.w1, other.w2, other.w3]),
        );
        Amount { w0: w[0], w1: w[1], w2: w[2], w3: w[3] }
    }

    /// Relies on `U256::checked_add` (uint crate): `None` exactly where the
    /// sum exceeds 2^256 - 1.
    #[verifier::external_body]
    pub(crate) fn checked_add(&self, other: &Amount) -> (r: Option<Amount>)
        ensures
            r.is_some() <==> self@ + other@ <= amount_max(),
            r.is_some() ==> r.unwrap()@ == self@ + other@,
    {
        match U256([self.w0, self.w1, self.w2, self.w3]).checked_add(
            U256([other.w0, other.w1, other.w2, other.w3]),
        ) {
            Some(U256(w)) => Some(Amount { w0: w[0], w1: w[1], w2: w[2], w3: w[3] }),
            None => None,
        }
    }

    /// Relies on `U256::checked_mul` (uint crate): `None` exactly where the
    /// product exceeds 2^256 - 1.
    #[verifier::external_body]
    pub(crate) fn checked_mul(&self, other: &Amount) -> (r: Option<Amount>)
        ensures
            r.is_some() <==> self@ * other@ <= amount_max(),
            r.is_some() ==> r.unwrap()@ == self@ * other@,
    {
        match U256([self.w0, self.w1, self.w2, self.w3]).checked_mul(
            U256([other.w0, other.w1, other.w2, other.w3]),
        ) {
            Some(U256(w)) => Some(Amount { w0: w[0], w1: w[1], w2: w[2], w3: w[3] }),
            None => None,
        }
    }

    /// Relies on `U256::checked_div` (uint crate): the quotient rounded
    /// down, `None` exactly for a zero divisor.
    #[verifier::external_body]
    pub(crate) fn checked_div(&self, other: &Amount) -> (r: Option<Amount>)
        ensures
            r.is_some() <==> other@ != 0,
            r.is_some() ==> r.unwrap()@ == self@ / other@,
    {
        match U256([self.w0, self.w1, self.w2, self.w3]).checked_div(
            U256([other.w0, other.w1, other.w2, other.w3]),
        ) {
            Some(U256(w)) => Some(Amount { w0: w[0], w1: w[1], w2: w[2], w3: w[3] }),
            None => None,
        }
    }

    pub fn is_zero(&self) -> (r: bool)
        ensures
            r == (self@ == 0),
    {
        proof {
            let (x1, x2, x3) = (self.w1 as nat, self.w2 as nat, self.w3 as nat);
            let (b1, b2, b3) = (word1(), word2(), word3());
            assert(x1 > 0 ==> x1 * b1 > 0) by (nonlinear_arith)
                requires
                    b1 > 0,
            ;
            assert(x2 > 0 ==> x2 * b2 > 0) by (nonlinear_arith)
                requires
                    b2 > 0,
            ;
            assert(x3 > 0 ==> x3 * b3 > 0) by (nonlinear_arith)
                requires
                    b3 > 0,
            ;
        }
        self.w0 == 0 && self.w1 == 0 && self.w2 == 0 && self.w3 == 0
    }
    /// This amount scaled by `bps` basis points, rounded down; `None`
    /// exactly where the result exceeds 2^256 - 1. No intermediate product
    /// larger than the result is formed.
    pub fn mul_bps(&self, bps: u64) -> (r: Option<Amount>)
        ensures
            r.is_some() <==> bps_of(self@, bps as nat) <= amount_max(),
            r.is_some() ==> r.unwrap()@ == bps_of(self@, bps as nat),
    {
        proof {
            lemma_bps_split(self@, bps as nat);
            lemma_amount_bounded(*self);
        }
        let ten_k = Amount::from_u64(10000);
        let q = self.checked_div(&ten_k).unwrap();
        let whole = q.checked_mul(&ten_k).unwrap();
        let rem = self.saturating_sub(&whole);
        let b = Amount::from_u64(bps);
        proof {
            let (rv, bv) = (rem@, bps as nat);
            assert(rv * bv <= 10000 * 18446744073709551615) by (nonlinear_arith)
                requires
                    rv < 10000,
                    bv <= 18446744073709551615,
            ;
            assert(10000 * 18446744073709551615 <= amount_max());
        }
        let part = rem.checked_mul(&b).unwrap();
        let frac = part.checked_div(&ten_k).unwrap();
        match q.checked_mul(&b) {
            Some(m) => m.checked_add(&frac),
            None => None,
        }
    }
}

} // verus!
