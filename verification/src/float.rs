use vstd::prelude::*;
use crate::value::NumericBinaryOperator;

verus! {

/// The IEEE-754 binary64 engine the embedding application supplies.
///
/// This library computes nothing with floating-point values itself: it
/// carries them as raw bit patterns (the `F64` variant) and routes every
/// floating-point step through an implementation of this trait. The methods
/// carry no contracts, so nothing in the library's proofs depends on what an
/// implementation returns; the contracts of the callers state results only
/// up to the bits such a call hands back.
///
/// An implementation is expected to provide the ordinary semantics: `bin_op`
/// the IEEE-754 operation on the two operands (`Modulo` as the remainder),
/// `eq_eps` the test that the operands differ by less than the machine
/// epsilon, `cmp_bits` the IEEE-754 partial order (`None` exactly on NaN),
/// `of_int`/`of_dec` the nearest-value conversions, `to_int` the truncation
/// when it is representable, `parse_text`/`to_text` the usual decimal
/// notation.
pub trait FloatOps {
    /// The binary64 result, as bits, of `op` on operands `a` and `b`, as bits.
    fn bin_op(&self, op: NumericBinaryOperator, a: u64, b: u64) -> u64;

    /// The bits of the negation of `a`.
    fn neg(&self, a: u64) -> u64;

    /// The bits of the binary64 nearest to the integer `v`.
    fn of_int(&self, v: i128) -> u64;

    /// The bits of the binary64 nearest to `mantissa / 10^scale`.
    fn of_dec(&self, mantissa: i128, scale: u32) -> u64;

    /// The integer part of the binary64 `a`, when it is representable.
    fn to_int(&self, a: u64) -> Option<i128>;

    /// Whether the operands differ by less than the machine epsilon.
    fn eq_eps(&self, a: u64, b: u64) -> bool;

    /// The IEEE-754 comparison of the operands; `None` when either is NaN.
    fn cmp_bits(&self, a: u64, b: u64) -> Option<core::cmp::Ordering>;

    /// The bits of the binary64 the text denotes, if any.
    fn parse_text(&self, s: &str) -> Option<u64>;

    /// The usual decimal notation of the binary64 `a`.
    fn to_text(&self, a: u64) -> String;
}

} // verus!
