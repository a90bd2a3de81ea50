//! Checked decimal arithmetic, carried out by the `rust_decimal` crate.
//!
//! A library decimal [`Dec`] is a plain mantissa/scale pair; each operation
//! here converts the pair into a `rust_decimal::Decimal`, applies the
//! crate's checked operation, and converts the result back. What a rounded
//! result is exactly takes pages to state, so each operation's result is
//! given a name (`spec_dec_add` and friends); the facts stated beside the
//! names are the ones the crate's source shows plainly.

use vstd::prelude::*;
use crate::value::{Dec, dec_eq_math, dec_lt_math};

verus! {

/// The checked sum of `am / 10^ascale` and `bm / 10^bscale`, `None` on
/// overflow of the 96-bit representation.
pub uninterp spec fn spec_dec_add(am: i128, ascale: u32, bm: i128, bscale: u32) -> Option<Dec>;

/// The checked difference of the two decimals, `None` on overflow.
pub uninterp spec fn spec_dec_sub(am: i128, ascale: u32, bm: i128, bscale: u32) -> Option<Dec>;

/// The checked product of the two decimals, `None` on overflow.
pub uninterp spec fn spec_dec_mul(am: i128, ascale: u32, bm: i128, bscale: u32) -> Option<Dec>;

/// The checked quotient of the two decimals, `None` on a zero divisor or
/// overflow.
pub uninterp spec fn spec_dec_div(am: i128, ascale: u32, bm: i128, bscale: u32) -> Option<Dec>;

/// The checked remainder of the two decimals, `None` on a zero divisor or
/// overflow.
pub uninterp spec fn spec_dec_rem(am: i128, ascale: u32, bm: i128, bscale: u32) -> Option<Dec>;

/// The decimal the text denotes, if any.
pub uninterp spec fn spec_dec_parse(s: Seq<char>) -> Option<Dec>;

/// Relies on rust_decimal's `Decimal::checked_add`: the checked sum, which
/// on two scale-0 operands is the exact integer sum when it fits 96 bits and
/// `None` otherwise.
#[verifier::external_body]
pub(crate) fn dec_add(a: &Dec, b: &Dec) -> (r: Option<Dec>)
    requires
        a.wf(),
        b.wf(),
    ensures
        r == spec_dec_add(a.mantissa, a.scale, b.mantissa, b.scale),
        r matches Some(d) ==> d.wf(),
        a.scale == 0 && b.scale == 0 ==> r == (if -0x1000000000000000000000000
            < a.mantissa + b.mantissa < 0x1000000000000000000000000 {
            Some(Dec { mantissa: (a.mantissa + b.mantissa) as i128, scale: 0u32 })
        } else {
            None::<Dec>
        }),
{
    let x = rust_decimal::Decimal::from_i128_with_scale(a.mantissa, a.scale);
    let y = rust_decimal::Decimal::from_i128_with_scale(b.mantissa, b.scale);
    match x.checked_add(y) {
        Some(d) => Some(Dec { mantissa: d.mantissa(), scale: d.scale() }),
        None => None,
    }
}

/// Relies on rust_decimal's `Decimal::checked_sub`: the checked difference,
/// which on two scale-0 operands is the exact integer difference when it
/// fits 96 bits and `None` otherwise.
#[verifier::external_body]
pub(crate) fn dec_sub(a: &Dec, b: &Dec) -> (r: Option<Dec>)
    requires
        a.wf(),
        b.wf(),
    ensures
        r == spec_dec_sub(a.mantissa, a.scale, b.mantissa, b.scale),
        r matches Some(d) ==> d.wf(),
        a.scale == 0 && b.scale == 0 ==> r == (if -0x1000000000000000000000000
            < a.mantissa - b.mantissa < 0x1000000000000000000000000 {
            Some(Dec { mantissa: (a.mantissa - b.mantissa) as i128, scale: 0u32 })
        } else {
            None::<Dec>
        }),
{
    let x = rust_decimal::Decimal::from_i128_with_scale(a.mantissa, a.scale);
    let y = rust_decimal::Decimal::from_i128_with_scale(b.mantissa, b.scale);
    match x.checked_sub(y) {
        Some(d) => Some(Dec { mantissa: d.mantissa(), scale: d.scale() }),
        None => None,
    }
}

/// Relies on rust_decimal's `Decimal::checked_mul`: the checked product,
/// which on two scale-0 operands is the exact integer product when it fits
/// 96 bits and `None` otherwise.
#[verifier::external_body]
pub(crate) fn dec_mul(a: &Dec, b: &Dec) -> (r: Option<Dec>)
    requires
        a.wf(),
        b.wf(),
    ensures
        r == spec_dec_mul(a.mantissa, a.scale, b.mantissa, b.scale),
        r matches Some(d) ==> d.wf(),
        a.scale == 0 && b.scale == 0 ==> r == (if -0x1000000000000000000000000
            < a.mantissa * b.mantissa < 0x1000000000000000000000000 {
            Some(Dec { mantissa: (a.mantissa * b.mantissa) as i128, scale: 0u32 })
        } else {
            None::<Dec>
        }),
{
    let x = rust_decimal::Decimal::from_i128_with_scale(a.mantissa, a.scale);
    let y = rust_decimal::Decimal::from_i128_with_scale(b.mantissa, b.scale);
    match x.checked_mul(y) {
        Some(d) => Some(Dec { mantissa: d.mantissa(), scale: d.scale() }),
        None => None,
    }
}

/// Relies on rust_decimal's `Decimal::checked_div`: the checked quotient,
/// `None` exactly when the divisor is zero or the quotient overflows.
#[verifier::external_body]
pub(crate) fn dec_div(a: &Dec, b: &Dec) -> (r: Option<Dec>)
    requires
        a.wf(),
        b.wf(),
    ensures
        r == spec_dec_div(a.mantissa, a.scale, b.mantissa, b.scale),
        r matches Some(d) ==> d.wf(),
        b.mantissa == 0 ==> r is None,
{
    let x = rust_decimal::Decimal::from_i128_with_scale(a.mantissa, a.scale);
    let y = rust_decimal::Decimal::from_i128_with_scale(b.mantissa, b.scale);
    match x.checked_div(y) {
        Some(d) => Some(Dec { mantissa: d.mantissa(), scale: d.scale() }),
        None => None,
    }
}

/// Relies on rust_decimal's `Decimal::checked_rem`: the checked remainder,
/// `None` exactly when the divisor is zero or the remainder overflows.
#[verifier::external_body]
pub(crate) fn dec_rem(a: &Dec, b: &Dec) -> (r: Option<Dec>)
    requires
        a.wf(),
        b.wf(),
    ensures
        r == spec_dec_rem(a.mantissa, a.scale, b.mantissa, b.scale),
        r matches Some(d) ==> d.wf(),
        b.mantissa == 0 ==> r is None,
{
    let x = rust_decimal::Decimal::from_i128_with_scale(a.mantissa, a.scale);
    let y = rust_decimal::Decimal::from_i128_with_scale(b.mantissa, b.scale);
    match x.checked_rem(y) {
        Some(d) => Some(Dec { mantissa: d.mantissa(), scale: d.scale() }),
        None => None,
    }
}

/// Relies on rust_decimal's `Ord for Decimal`: the comparison orders the two
/// decimals by the rational numbers they stand for.
#[verifier::external_body]
pub(crate) fn dec_cmp(a: &Dec, b: &Dec) -> (r: core::cmp::Ordering)
    requires
        a.wf(),
        b.wf(),
    ensures
        (r == core::cmp::Ordering::Equal) == dec_eq_math(*a, *b),
        (r == core::cmp::Ordering::Less) == dec_lt_math(*a, *b),
        (r == core::cmp::Ordering::Greater) == dec_lt_math(*b, *a),
{
    let x = rust_decimal::Decimal::from_i128_with_scale(a.mantissa, a.scale);
    let y = rust_decimal::Decimal::from_i128_with_scale(b.mantissa, b.scale);
    x.cmp(&y)
}

/// Relies on rust_decimal's `FromStr for Decimal`: parses the usual decimal
/// notation, rejecting text that denotes no decimal.
#[verifier::external_body]
pub(crate) fn dec_parse(s: &str) -> (r: Option<Dec>)
    ensures
        r == spec_dec_parse(s@),
        r matches Some(d) ==> d.wf(),
{
    match s.parse::<rust_decimal::Decimal>() {
        Ok(d) => Some(Dec { mantissa: d.mantissa(), scale: d.scale() }),
        Err(_) => None,
    }
}

} // verus!
