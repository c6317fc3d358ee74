//! Decimal scalar values.
//!
//! Geometry and style scalars are exact decimal numbers: a sign, a decimal
//! mantissa and a count of fraction digits, so `Num { neg, mag, frac }`
//! stands for `(-1)^neg * mag / 10^frac`. The constructors normalize the
//! representation (no trailing zero fraction digit, no negative zero), so
//! equal values compare equal and render to the same text.

use vstd::prelude::*;
use vstd::string::StringExecFns;

use crate::text::dec_digits;
use crate::text::lemma_pow10_pos;
use crate::text::padded_digits;
use crate::text::pow10;
use crate::text::pow10_u64;
use crate::text::push_padded;
use crate::text::push_u64;

verus! {

/// A decimal scalar: `(-1)^neg * mag / 10^frac`.
#[derive(Clone, Copy, Debug, PartialEq, Eq, Structural)]
pub struct Num {
    /// Whether the value is negative.
    pub neg: bool,
    /// The decimal mantissa: the value's digits with the decimal point removed.
    pub mag: u64,
    /// How many of the mantissa's digits lie behind the decimal point.
    pub frac: u32,
}

impl Num {
    /// A representation the renderer accepts: the fraction width keeps
    /// `10^frac` within machine range.
    pub open spec fn wf(self) -> bool {
        self.frac <= 19
    }

    /// A normalized representation: no trailing zero among the fraction
    /// digits, and zero is positive with no fraction.
    pub open spec fn normal(self) -> bool {
        &&& self.wf()
        &&& (self.frac > 0 ==> self.mag % 10 != 0)
        &&& (self.mag == 0 ==> !self.neg && self.frac == 0)
    }

    /// The whole number `v`.
    pub fn whole(v: i64) -> (r: Num)
        ensures
            r.normal(),
            r.frac == 0,
            r.neg == (v < 0),
            r.mag == (if v < 0 { -(v as int) } else { v as int }),
    {
        let mag: u64 = if v >= 0 {
            v as u64
        } else {
            (-(v as i128)) as u64
        };
        Num { neg: v < 0, mag, frac: 0 }
    }

    /// The decimal value `m / 10^places`, normalized: trailing zeros behind
    /// the decimal point are dropped, and `0` never carries a sign or a
    /// fraction.
    pub fn dec(m: i64, places: u32) -> (r: Num)
        requires
            places <= 19,
        ensures
            r.normal(),
            ({
                let a = (if m < 0 { -(m as int) } else { m as int }) as nat;
                canon_mag(a, places as nat) == (r.mag as nat, r.frac as nat)
            }),
            r.neg == (m < 0 && r.mag != 0),
    {
        let ghost a = (if m < 0 { -(m as int) } else { m as int }) as nat;
        let mut mag: u64 = if m >= 0 {
            m as u64
        } else {
            (-(m as i128)) as u64
        };
        let mut frac: u32 = places;
        while frac > 0 && mag % 10 == 0
            invariant
                frac <= 19,
                canon_mag(a, places as nat) == canon_mag(mag as nat, frac as nat),
            decreases frac,
        {
            mag = mag / 10;
            frac = frac - 1;
        }
        Num { neg: m < 0 && mag != 0, mag, frac }
    }
}

/// The normalized (mantissa, fraction width) pair: trailing zeros behind the
/// decimal point dropped one by one.
pub open spec fn canon_mag(mag: nat, frac: nat) -> (nat, nat)
    decreases frac,
{
    if frac > 0 && mag % 10 == 0 {
        canon_mag(mag / 10, (frac - 1) as nat)
    } else {
        (mag, frac)
    }
}

/// Normalization keeps the value: the normalized mantissa, scaled back up
/// by the dropped fraction width, is the original mantissa.
pub proof fn lemma_canon_preserves_value(mag: nat, frac: nat)
    ensures
        canon_mag(mag, frac).1 <= frac,
        canon_mag(mag, frac).0 * pow10((frac - canon_mag(mag, frac).1) as nat) == mag,
    decreases frac,
{
    if frac > 0 && mag % 10 == 0 {
        let sub = canon_mag(mag / 10, (frac - 1) as nat);
        lemma_canon_preserves_value(mag / 10, (frac - 1) as nat);
        assert(canon_mag(mag, frac) == sub);
        let m2 = sub.0;
        let f2 = sub.1;
        let e = ((frac - 1) as nat - f2) as nat;
        assert(m2 * pow10(e) == mag / 10);
        assert((frac - f2) as nat == e + 1);
        assert(pow10((e + 1) as nat) == 10 * pow10(e));
        assert(m2 * (10 * pow10(e)) == (m2 * pow10(e)) * 10) by (nonlinear_arith);
        assert(m2 * pow10((frac - f2) as nat) == (mag / 10) * 10);
        assert(mag == (mag / 10) * 10);
    } else {
        assert(canon_mag(mag, frac) == ((mag, frac)));
        assert(pow10(0) == 1);
        assert(mag * 1 == mag);
    }
}

/// The text of a scalar: an optional minus sign, the integer part's digits,
/// and, when there is a fraction, a point and exactly `frac` fraction digits.
pub open spec fn num_chars(v: Num) -> Seq<char>
    recommends
        v.wf(),
{
    let sign = if v.neg {
        "-"@
    } else {
        Seq::<char>::empty()
    };
    if v.frac == 0 {
        sign + dec_digits(v.mag as nat)
    } else {
        sign + dec_digits((v.mag as nat) / pow10(v.frac as nat)) + "."@ + padded_digits(
            (v.mag as nat) % pow10(v.frac as nat),
            v.frac as nat,
        )
    }
}

/// Append the text of the scalar `v`.
pub fn push_num(out: &mut String, v: Num)
    requires
        v.wf(),
    ensures
        final(out)@ == old(out)@ + num_chars(v),
{
    if v.neg {
        out.append("-");
    }
    if v.frac == 0 {
        push_u64(out, v.mag);
    } else {
        let p: u64 = pow10_u64(v.frac);
        proof {
            lemma_pow10_pos(v.frac as nat);
        }
        push_u64(out, v.mag / p);
        out.append(".");
        push_padded(out, v.mag % p, v.frac);
    }
    assert(out@ =~= old(out)@ + num_chars(v));
}

} // verus!
