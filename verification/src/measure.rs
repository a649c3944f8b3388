//! The two real-valued quantities of a run, held as plain values.
//!
//! A run's duration and cost, and a contract's cost bounds, are floating
//! point numbers where they are measured and configured.  The evaluation
//! only ever compares them and prints them at a fixed precision, so the
//! library holds exactly that: an integer by which the quantity is ordered,
//! and its rendering at the precision it is printed with.

use vstd::prelude::*;
use crate::text::{decimal, push_decimal};

verus! {

/// A duration in milliseconds.
///
/// `ceil` is the smallest integer not below the duration (0 for a duration
/// that is not a number or not positive, `u128::MAX` for one beyond it): a
/// duration exceeds a whole number `w` exactly when `ceil > w`.  `shown` is
/// the duration rounded to whole milliseconds, as it is printed in a
/// violation's details.
#[derive(Clone, Debug)]
pub struct Millis {
    pub ceil: u128,
    pub shown: String,
}

impl Millis {
    /// A duration of exactly `ms` milliseconds.
    pub fn from_whole_ms(ms: u64) -> (r: Millis)
        ensures
            r.ceil == ms,
            r.shown@ == decimal(ms as nat),
    {
        let mut shown = String::new();
        push_decimal(&mut shown, ms);
        Millis { ceil: ms as u128, shown }
    }
}

/// The spacing of the `f64` values around the whole number `m`: 1 below
/// 2^53, and doubling with each bit `m` has beyond 53.
pub open spec fn f64_spacing(m: nat) -> nat
    decreases m,
{
    if m < 0x20_0000_0000_0000 {
        1
    } else {
        2 * f64_spacing(m / 2)
    }
}

/// The value of `m as f64` for a whole number `m`: the multiple of
/// `f64_spacing(m)` nearest to `m`, a tie going to the even multiple.
pub open spec fn f64_of(m: nat) -> nat {
    let p = f64_spacing(m);
    let q = m / p;
    let r = m % p;
    if r * 2 > p || (r * 2 == p && q % 2 == 1) {
        (q + 1) * p
    } else {
        q * p
    }
}

/// The value that `m as f64` takes, as a whole number.
pub fn f64_value(m: u64) -> (r: u128)
    ensures
        r == f64_of(m as nat),
{
    let mut q: u64 = m;
    let mut p: u128 = 1;
    while q >= 0x20_0000_0000_0000
        invariant
            1 <= p <= 0x1000,
            p * f64_spacing(q as nat) == f64_spacing(m as nat),
            q == (m as nat) / (p as nat),
        decreases q,
    {
        proof {
            vstd::arithmetic::div_mod::lemma_fundamental_div_mod(m as int, p as int);
            assert(p * 0x20_0000_0000_0000 <= p * q) by (nonlinear_arith)
                requires
                    q >= 0x20_0000_0000_0000,
                    p >= 1,
            ;
            assert(p < 0x800) by (nonlinear_arith)
                requires
                    p * 0x20_0000_0000_0000 <= p * q,
                    p * q <= m,
                    m < 0x1_0000_0000_0000_0000,
            ;
            vstd::arithmetic::div_mod::lemma_div_denominator(m as int, p as int, 2);
            let s = f64_spacing((q / 2) as nat);
            assert(f64_spacing(q as nat) == 2 * s);
            assert(p * (2 * s) == (p * 2) * s) by (nonlinear_arith);
        }
        q = q / 2;
        p = p * 2;
    }
    proof {
        vstd::arithmetic::div_mod::lemma_fundamental_div_mod(m as int, p as int);
        let sp = f64_spacing(q as nat);
        assert(sp == 1);
        assert(p == f64_spacing(m as nat)) by (nonlinear_arith)
            requires
                p * sp == f64_spacing(m as nat),
                sp == 1,
        ;
        vstd::arithmetic::div_mod::lemma_mod_pos_bound(m as int, p as int);
        let rr = (m as int) % (p as int);
        assert((q as u128) * p <= m) by (nonlinear_arith)
            requires
                m == p * q + rr,
                rr >= 0,
        ;
        assert((q as int) * (p as int) == (p as int) * (q as int)) by (nonlinear_arith);
        assert(m == p * q + rr);
        assert((q as u128 + 1) * p <= 0x1_0000_0000_0000_0000 + 0x1000) by (nonlinear_arith)
            requires
                q * p <= m,
                m < 0x1_0000_0000_0000_0000,
                p <= 0x1000,
        ;
    }
    let r: u128 = (m as u128) - (q as u128) * p;
    assert(r == (m as nat) % (p as nat));
    assert(q == (m as nat) / f64_spacing(m as nat));
    if r * 2 > p || (r * 2 == p && q % 2 == 1) {
        (q as u128 + 1) * p
    } else {
        (q as u128) * p
    }
}

/// The rank of zero: ranks at or above it belong to non-negative amounts.
pub open spec fn zero_rank() -> u64 {
    0x8000_0000_0000_0000u64
}

/// An amount of money in US dollars.
///
/// `rank` orders amounts as the numbers they stand for: one amount is
/// larger than another exactly when both ranks are present and its rank is
/// the larger.  It is absent for a value that is not a number, which is
/// larger than nothing and than which nothing is larger.  `fixed4` and
/// `fixed6` render the amount with four and six digits after the point.
#[derive(Clone, Debug)]
pub struct Amount {
    pub rank: Option<u64>,
    pub fixed4: String,
    pub fixed6: String,
}

/// Whether amount `a` is strictly larger than amount `b`.
pub open spec fn spec_exceeds(a: Amount, b: Amount) -> bool {
    &&& a.rank is Some
    &&& b.rank is Some
    &&& a.rank->0 > b.rank->0
}

impl Amount {
    /// Zero dollars.
    pub fn zero() -> (r: Amount)
        ensures
            r.rank == Some(zero_rank()),
            r.fixed4@ == "0.0000"@,
            r.fixed6@ == "0.000000"@,
    {
        Amount {
            rank: Some(0x8000_0000_0000_0000u64),
            fixed4: String::from_str("0.0000"),
            fixed6: String::from_str("0.000000"),
        }
    }

    /// Whether this amount is strictly larger than `other`.
    pub fn exceeds(&self, other: &Amount) -> (r: bool)
        ensures
            r == spec_exceeds(*self, *other),
    {
        match (self.rank, other.rank) {
            (Some(a), Some(b)) => a > b,
            _ => false,
        }
    }
}

} // verus!
