//! Equality and ordering across heterogeneously typed scalars.
//!
//! Integer pairs are widened and compared exactly; integer/decimal mixes are
//! compared as exact rationals; strings lexicographically; a pair involving
//! `Null` is neither equal nor ordered. A pair involving a binary64 value is
//! decided by the embedder's floating-point engine and is the one part these
//! contracts leave open.

use vstd::prelude::*;
use crate::arith::{dec_of_value, in_dec_range, dec_of, float_bits, int_parts, lemma_int_val_fits};
use crate::decimal::dec_cmp;
use crate::float::FloatOps;
use crate::text::{lex_cmp, str_cmp};
use crate::value::{Dec, Value, ValueV, dec_eq_math, dec_lt_math, pow10};

verus! {

/// Whether the engine itself decides equality and ordering on this pair:
/// every pair except one that routes to the floating-point engine.
pub open spec fn cmp_determined(a: ValueV, b: ValueV) -> bool {
    !((a is F64 && b.is_numeric()) || (b is F64 && a.is_numeric()))
}

/// The ordering of two mathematical integers.
pub open spec fn ord_of(a: int, b: int) -> core::cmp::Ordering {
    if a < b {
        core::cmp::Ordering::Less
    } else if a == b {
        core::cmp::Ordering::Equal
    } else {
        core::cmp::Ordering::Greater
    }
}

/// The ordering of the rationals two decimals stand for.
pub open spec fn dec_ord(x: Dec, y: Dec) -> core::cmp::Ordering {
    if dec_lt_math(x, y) {
        core::cmp::Ordering::Less
    } else if dec_eq_math(x, y) {
        core::cmp::Ordering::Equal
    } else {
        core::cmp::Ordering::Greater
    }
}

/// Whether the two scalars are equal, for every pair the engine decides
/// itself. A `Null` operand compares equal to nothing; numeric pairs compare
/// by exact mathematical value; `Bool`, `Str` and `Interval` compare within
/// their own variant; any other pairing is unequal.
pub open spec fn val_eq_spec(a: ValueV, b: ValueV) -> bool
    recommends
        cmp_determined(a, b),
{
    if a is Null || b is Null {
        false
    } else if a.is_int() && b.is_int() {
        a.int_val() == b.int_val()
    } else if (a.is_int() || a is Decimal) && (b.is_int() || b is Decimal) {
        dec_eq_math(dec_of_value(a), dec_of_value(b))
    } else {
        match (a, b) {
            (ValueV::Bool(x), ValueV::Bool(y)) => x == y,
            (ValueV::Str(x), ValueV::Str(y)) => x == y,
            (ValueV::Interval(x), ValueV::Interval(y)) => x == y,
            _ => false,
        }
    }
}

/// How the two scalars are ordered, for every pair the engine decides
/// itself: `None` exactly when the pair is not comparable (a `Null`, or
/// variants with no common order).
pub open spec fn val_cmp_spec(a: ValueV, b: ValueV) -> Option<core::cmp::Ordering>
    recommends
        cmp_determined(a, b),
{
    if a is Null || b is Null {
        None
    } else if a.is_int() && b.is_int() {
        Some(ord_of(a.int_val(), b.int_val()))
    } else if (a.is_int() || a is Decimal) && (b.is_int() || b is Decimal) {
        Some(dec_ord(dec_of_value(a), dec_of_value(b)))
    } else {
        match (a, b) {
            (ValueV::Bool(x), ValueV::Bool(y)) => Some(
                ord_of(if x { 1int } else { 0int }, if y { 1int } else { 0int }),
            ),
            (ValueV::Str(x), ValueV::Str(y)) => Some(lex_cmp(x, y)),
            (ValueV::Interval(x), ValueV::Interval(y)) => Some(ord_of(x as int, y as int)),
            _ => None,
        }
    }
}

/// `10^n` is positive.
pub proof fn lemma_pow10_pos(n: nat)
    ensures
        pow10(n) >= 1,
    decreases n,
{
    if n > 0 {
        lemma_pow10_pos((n - 1) as nat);
    }
}

/// Scaling by a positive factor does not shrink a value's magnitude.
proof fn lemma_scale_magnitude(x: int, p: int)
    by (nonlinear_arith)
    requires
        p >= 1,
    ensures
        x >= 0 ==> x * p >= x,
        x < 0 ==> x * p <= x,
{
}

/// An integer beyond the 96-bit mantissa range compares to any well-formed
/// decimal by its sign alone.
proof fn lemma_big_int_vs_dec(x: int, d: Dec)
    requires
        !in_dec_range(x),
        d.wf(),
        -0x80000000000000000000000000000000 <= x < 0x80000000000000000000000000000000,
    ensures
        !dec_eq_math(Dec::spec_from_int(x), d),
        x > 0 ==> !dec_lt_math(Dec::spec_from_int(x), d),
        x < 0 ==> dec_lt_math(Dec::spec_from_int(x), d),
{
    lemma_pow10_pos(d.scale as nat);
    lemma_scale_magnitude(x, pow10(d.scale as nat));
    assert(Dec::spec_from_int(x).mantissa == x);
    assert(pow10(0) == 1);
}

impl Value {
    /// Whether `self` and `other` are equal under the engine's
    /// heterogeneous comparison matrix.
    ///
    /// On every pair the engine decides itself the result is exactly
    /// `val_eq_spec`; a pair involving a binary64 value is whatever the
    /// floating-point engine's epsilon test returned.
    pub fn eq<F: FloatOps>(&self, other: &Value, fp: &F) -> (r: bool)
        requires
            self@.wf(),
            other@.wf(),
        ensures
            cmp_determined(self@, other@) ==> r == val_eq_spec(self@, other@),
    {
        if matches!(self, Value::Null) || matches!(other, Value::Null) {
            return false;
        }
        let l_float = matches!(self, Value::F64(_));
        let r_float = matches!(other, Value::F64(_));
        if (l_float && other.is_numeric_value()) || (r_float && self.is_numeric_value()) {
            let ab = float_bits(self, fp);
            let bb = float_bits(other, fp);
            return fp.eq_eps(ab, bb);
        }
        proof {
            lemma_val_cmp_eq_agree(self@, other@);
        }
        match self.partial_cmp(other, fp) {
            Some(o) => matches!(o, core::cmp::Ordering::Equal),
            None => false,
        }
    }

    /// How `self` and `other` are ordered under the engine's heterogeneous
    /// comparison matrix.
    ///
    /// On every pair the engine decides itself the result is exactly
    /// `val_cmp_spec`; a pair involving a binary64 value is whatever the
    /// floating-point engine's comparison returned.
    pub fn partial_cmp<F: FloatOps>(&self, other: &Value, fp: &F) -> (r: Option<
        core::cmp::Ordering,
    >)
        requires
            self@.wf(),
            other@.wf(),
        ensures
            cmp_determined(self@, other@) ==> r == val_cmp_spec(self@, other@),
            cmp_determined(self@, other@) ==> ((r == Some(core::cmp::Ordering::Equal))
                == val_eq_spec(self@, other@)),
    {
        proof {
            lemma_val_cmp_eq_agree(self@, other@);
        }
        if matches!(self, Value::Null) || matches!(other, Value::Null) {
            return None;
        }
        let l_float = matches!(self, Value::F64(_));
        let r_float = matches!(other, Value::F64(_));
        if (l_float && other.is_numeric_value()) || (r_float && self.is_numeric_value()) {
            let ab = float_bits(self, fp);
            let bb = float_bits(other, fp);
            return fp.cmp_bits(ab, bb);
        }
        if self.is_int_value() && other.is_int_value() {
            let (a, _aw) = int_parts(self);
            let (b, _bw) = int_parts(other);
            return Some(
                if a < b {
                    core::cmp::Ordering::Less
                } else if a == b {
                    core::cmp::Ordering::Equal
                } else {
                    core::cmp::Ordering::Greater
                },
            );
        }
        if (self.is_int_value() || matches!(self, Value::Decimal(_))) && (other.is_int_value()
            || matches!(other, Value::Decimal(_))) {
            return Some(self.cmp_as_decimals(other));
        }
        match (self, other) {
            (Value::Bool(x), Value::Bool(y)) => {
                let xi: i128 = if *x {
                    1
                } else {
                    0
                };
                let yi: i128 = if *y {
                    1
                } else {
                    0
                };
                Some(
                    if xi < yi {
                        core::cmp::Ordering::Less
                    } else if xi == yi {
                        core::cmp::Ordering::Equal
                    } else {
                        core::cmp::Ordering::Greater
                    },
                )
            },
            (Value::Str(x), Value::Str(y)) => Some(str_cmp(x.as_str(), y.as_str())),
            (Value::Interval(x), Value::Interval(y)) => Some(
                if *x < *y {
                    core::cmp::Ordering::Less
                } else if *x == *y {
                    core::cmp::Ordering::Equal
                } else {
                    core::cmp::Ordering::Greater
                },
            ),
            _ => None,
        }
    }

    /// The rational comparison of an integer/decimal pair.
    fn cmp_as_decimals(&self, other: &Value) -> (r: core::cmp::Ordering)
        requires
            self@.wf(),
            other@.wf(),
            self@.is_int() || self@ is Decimal,
            other@.is_int() || other@ is Decimal,
            !(self@.is_int() && other@.is_int()),
        ensures
            r == dec_ord(dec_of_value(self@), dec_of_value(other@)),
    {
        let da = dec_of(self);
        let db = dec_of(other);
        match (da, db) {
            (Some(x), Some(y)) => dec_cmp(&x, &y),
            (None, _) => {
                // `self` is an integer beyond any decimal's magnitude
                let (a, _w) = int_parts(self);
                proof {
                    lemma_int_val_fits(self@);
                    lemma_big_int_vs_dec(self@.int_val(), dec_of_value(other@));
                }
                if a > 0 {
                    core::cmp::Ordering::Greater
                } else {
                    core::cmp::Ordering::Less
                }
            },
            (_, None) => {
                // `other` is an integer beyond any decimal's magnitude
                let (b, _w) = int_parts(other);
                proof {
                    lemma_int_val_fits(other@);
                    lemma_big_int_vs_dec(other@.int_val(), dec_of_value(self@));
                }
                if b > 0 {
                    core::cmp::Ordering::Less
                } else {
                    core::cmp::Ordering::Greater
                }
            },
        }
    }
}

/// `val_cmp_spec` finds `Equal` exactly where `val_eq_spec` holds.
pub proof fn lemma_val_cmp_eq_agree(a: ValueV, b: ValueV)
    ensures
        (val_cmp_spec(a, b) == Some(core::cmp::Ordering::Equal)) == val_eq_spec(a, b),
{
    if (a is Str && b is Str) {
        crate::text::lemma_lex_cmp_eq(a->Str_0, b->Str_0);
    }
}

} // verus!
