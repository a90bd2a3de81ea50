//! The numeric coercion and arithmetic engine.
//!
//! One generic checked step over the widened integer pair, plus small
//! dispatch arms for the decimal, binary64, null and interval cases. Every
//! arm that does not depend on the embedder's floating-point engine is
//! pinned exactly by `arith_spec`.

use vstd::prelude::*;
use crate::decimal::{
    dec_add, dec_sub, dec_mul, dec_div, dec_rem, spec_dec_add, spec_dec_sub, spec_dec_mul,
    spec_dec_div, spec_dec_rem,
};
use crate::float::FloatOps;
use crate::value::{
    Dec, NumericBinaryOperator, Value, ValueError, ValueErrorV, ValueV, fits_width, int_int_result,
    min_of_width, mk_int, op_defined, op_val, rem_edge, res_v,
};

verus! {

/// The named checked decimal result of the operator.
pub open spec fn spec_dec_op(op: NumericBinaryOperator, a: Dec, b: Dec) -> Option<Dec> {
    match op {
        NumericBinaryOperator::Add => spec_dec_add(a.mantissa, a.scale, b.mantissa, b.scale),
        NumericBinaryOperator::Subtract => spec_dec_sub(a.mantissa, a.scale, b.mantissa, b.scale),
        NumericBinaryOperator::Multiply => spec_dec_mul(a.mantissa, a.scale, b.mantissa, b.scale),
        NumericBinaryOperator::Divide => spec_dec_div(a.mantissa, a.scale, b.mantissa, b.scale),
        NumericBinaryOperator::Modulo => spec_dec_rem(a.mantissa, a.scale, b.mantissa, b.scale),
    }
}

/// The decimal standing for an integer or decimal operand.
pub open spec fn dec_of_value(v: ValueV) -> Dec
    recommends
        v.is_int() || v is Decimal,
{
    match v {
        ValueV::Decimal(d) => d,
        _ => Dec::spec_from_int(v.int_val()),
    }
}

/// Whether an integer fits the 96-bit decimal mantissa.
pub open spec fn in_dec_range(x: int) -> bool {
    -0x1000000000000000000000000 < x < 0x1000000000000000000000000
}

/// Whether the engine itself decides the operator on this pair: every pair
/// except one that routes to the embedder's floating-point engine.
pub open spec fn arith_determined(op: NumericBinaryOperator, a: ValueV, b: ValueV) -> bool {
    !((a is F64 && b.is_numeric()) || (b is F64 && a.is_numeric()))
}

/// The result of a mixed integer/decimal arm.
pub open spec fn dec_op_result(op: NumericBinaryOperator, a: ValueV, b: ValueV) -> Result<
    ValueV,
    ValueErrorV,
> {
    if (a.is_int() && !in_dec_range(a.int_val())) || (b.is_int() && !in_dec_range(b.int_val())) {
        Err(ValueErrorV::BinaryOperationOverflow { lhs: a, rhs: b, operator: op })
    } else {
        match spec_dec_op(op, dec_of_value(a), dec_of_value(b)) {
            Some(d) => Ok(ValueV::Decimal(d)),
            None => Err(ValueErrorV::BinaryOperationOverflow { lhs: a, rhs: b, operator: op }),
        }
    }
}

/// The result of scaling an interval of `iv` by the integer `k`.
pub open spec fn interval_scale(
    k: int,
    iv: int,
    op: NumericBinaryOperator,
    lhs: ValueV,
    rhs: ValueV,
) -> Result<ValueV, ValueErrorV> {
    if i64::MIN <= k * iv <= i64::MAX {
        Ok(ValueV::Interval((k * iv) as i64))
    } else {
        Err(ValueErrorV::BinaryOperationOverflow { lhs, rhs, operator: op })
    }
}

/// What the operator returns on a pair of scalars, for every pair the
/// engine decides itself.
///
/// `Null` absorbs every operator. An integer pair is widened and checked
/// (`int_int_result`). A pair mixing integers and decimals is computed as a
/// checked decimal operation. An interval is scaled by an integer under
/// multiplication. Every other pairing is a `NonNumericMathOperation` error
/// carrying the untouched operands.
pub open spec fn arith_spec(op: NumericBinaryOperator, a: ValueV, b: ValueV) -> Result<
    ValueV,
    ValueErrorV,
>
    recommends
        arith_determined(op, a, b),
{
    if a is Null || b is Null {
        Ok(ValueV::Null)
    } else if a.is_int() && b.is_int() {
        int_int_result(op, a, b)
    } else if (a.is_int() || a is Decimal) && (b.is_int() || b is Decimal) {
        dec_op_result(op, a, b)
    } else if a.is_int() && b is Interval && op is Multiply {
        interval_scale(a.int_val(), b->Interval_0 as int, op, a, b)
    } else if a is Interval && b.is_int() && op is Multiply {
        interval_scale(b.int_val(), a->Interval_0 as int, op, a, b)
    } else {
        Err(ValueErrorV::NonNumericMathOperation { lhs: a, operator: op, rhs: b })
    }
}

/// An integer variant's value always fits its own width.
pub proof fn lemma_int_val_fits(v: ValueV)
    requires
        v.is_int(),
    ensures
        fits_width(v.int_val(), v.width()),
{
}

/// The value and width of an integer variant.
pub(crate) fn int_parts(v: &Value) -> (r: (i128, u32))
    requires
        v@.is_int(),
    ensures
        r.0 as int == v@.int_val(),
        r.1 as nat == v@.width(),
{
    match v {
        Value::I8(x) => (*x as i128, 8),
        Value::I16(x) => (*x as i128, 16),
        Value::I32(x) => (*x as i128, 32),
        Value::I64(x) => (*x as i128, 64),
        Value::I128(x) => (*x, 128),
        _ => (0, 8),
    }
}

/// Whether `x` fits the signed width of `bits` bits.
pub(crate) fn fits_exec(x: i128, bits: u32) -> (r: bool)
    requires
        bits == 8 || bits == 16 || bits == 32 || bits == 64 || bits == 128,
    ensures
        r == fits_width(x as int, bits as nat),
{
    if bits == 8 {
        i8::MIN as i128 <= x && x <= i8::MAX as i128
    } else if bits == 16 {
        i16::MIN as i128 <= x && x <= i16::MAX as i128
    } else if bits == 32 {
        i32::MIN as i128 <= x && x <= i32::MAX as i128
    } else if bits == 64 {
        i64::MIN as i128 <= x && x <= i64::MAX as i128
    } else {
        true
    }
}

/// The least value of the signed width of `bits` bits.
fn min_exec(bits: u32) -> (r: i128)
    requires
        bits == 8 || bits == 16 || bits == 32 || bits == 64 || bits == 128,
    ensures
        r as int == min_of_width(bits as nat),
{
    if bits == 8 {
        i8::MIN as i128
    } else if bits == 16 {
        i16::MIN as i128
    } else if bits == 32 {
        i32::MIN as i128
    } else if bits == 64 {
        i64::MIN as i128
    } else {
        i128::MIN
    }
}

/// The integer variant of width `bits` holding `x`.
pub(crate) fn make_int(x: i128, bits: u32) -> (r: Value)
    requires
        bits == 8 || bits == 16 || bits == 32 || bits == 64 || bits == 128,
        fits_width(x as int, bits as nat),
    ensures
        r@ == mk_int(bits as nat, x as int),
{
    if bits == 8 {
        Value::I8(x as i8)
    } else if bits == 16 {
        Value::I16(x as i16)
    } else if bits == 32 {
        Value::I32(x as i32)
    } else if bits == 64 {
        Value::I64(x as i64)
    } else {
        Value::I128(x)
    }
}

/// The widened, checked integer step: the exact result in the wider of the
/// two widths, or the overflow error carrying the untouched operands.
fn int_int_binary(op: NumericBinaryOperator, lhs: &Value, rhs: &Value) -> (r: Result<
    Value,
    ValueError,
>)
    requires
        lhs@.is_int(),
        rhs@.is_int(),
    ensures
        res_v(r) == int_int_result(op, lhs@, rhs@),
{
    proof {
        lemma_int_val_fits(lhs@);
        lemma_int_val_fits(rhs@);
    }
    let (a, aw) = int_parts(lhs);
    let (b, bw) = int_parts(rhs);
    let w = if aw >= bw {
        aw
    } else {
        bw
    };
    let checked = match op {
        NumericBinaryOperator::Add => a.checked_add(b),
        NumericBinaryOperator::Subtract => a.checked_sub(b),
        NumericBinaryOperator::Multiply => a.checked_mul(b),
        NumericBinaryOperator::Divide => a.checked_div(b),
        NumericBinaryOperator::Modulo => a.checked_rem(b),
    };
    match checked {
        Some(x) => {
            let edge = op == NumericBinaryOperator::Modulo && b == -1 && a == min_exec(w);
            if !edge && fits_exec(x, w) {
                Ok(make_int(x, w))
            } else {
                Err(
                    ValueError::BinaryOperationOverflow {
                        lhs: lhs.dup(),
                        rhs: rhs.dup(),
                        operator: op,
                    },
                )
            }
        },
        None => Err(
            ValueError::BinaryOperationOverflow { lhs: lhs.dup(), rhs: rhs.dup(), operator: op },
        ),
    }
}

/// The checked decimal step named by `spec_dec_op`.
fn dec_op_exec(op: NumericBinaryOperator, a: &Dec, b: &Dec) -> (r: Option<Dec>)
    requires
        a.wf(),
        b.wf(),
    ensures
        r == spec_dec_op(op, *a, *b),
        r matches Some(d) ==> d.wf(),
{
    match op {
        NumericBinaryOperator::Add => dec_add(a, b),
        NumericBinaryOperator::Subtract => dec_sub(a, b),
        NumericBinaryOperator::Multiply => dec_mul(a, b),
        NumericBinaryOperator::Divide => dec_div(a, b),
        NumericBinaryOperator::Modulo => dec_rem(a, b),
    }
}

impl Value {
    /// Whether the value is one of the five integer variants.
    pub fn is_int_value(&self) -> (r: bool)
        ensures
            r == self@.is_int(),
    {
        match self {
            Value::I8(_) | Value::I16(_) | Value::I32(_) | Value::I64(_) | Value::I128(_) => true,
            _ => false,
        }
    }

    /// Whether the value takes part in arithmetic.
    pub fn is_numeric_value(&self) -> (r: bool)
        ensures
            r == self@.is_numeric(),
    {
        match self {
            Value::I8(_) | Value::I16(_) | Value::I32(_) | Value::I64(_) | Value::I128(_) => true,
            Value::F64(_) | Value::Decimal(_) => true,
            _ => false,
        }
    }
}

/// The operand as a decimal, when it is an integer in the 96-bit range or a
/// decimal already.
pub(crate) fn dec_of(v: &Value) -> (r: Option<Dec>)
    requires
        v@.is_int() || v@ is Decimal,
        v@.wf(),
    ensures
        match r {
            Some(d) => d == dec_of_value(v@) && d.wf() && (v@.is_int() ==> in_dec_range(
                v@.int_val(),
            )),
            None => v@.is_int() && !in_dec_range(v@.int_val()),
        },
{
    match v {
        Value::Decimal(d) => Some(*d),
        _ => {
            let (x, _w) = int_parts(v);
            if -79228162514264337593543950335i128 <= x && x <= 79228162514264337593543950335i128 {
                Some(Dec::from_int(x))
            } else {
                None
            }
        },
    }
}

/// The operand as binary64 bits, converting through the floating-point
/// engine where it is not binary64 already.
pub(crate) fn float_bits<F: FloatOps>(v: &Value, fp: &F) -> u64
    requires
        v@.is_numeric(),
{
    match v {
        Value::F64(bits) => *bits,
        Value::Decimal(d) => fp.of_dec(d.mantissa, d.scale),
        _ => {
            let (x, _w) = int_parts(v);
            fp.of_int(x)
        },
    }
}

impl Value {
    /// Applies the operator to `self` and `rhs`.
    ///
    /// On every pair the engine decides itself the result is exactly
    /// `arith_spec`; a pair that routes to the floating-point engine comes
    /// back as whatever binary64 bits that engine returned.
    pub fn try_binary_op<F: FloatOps>(
        &self,
        op: NumericBinaryOperator,
        rhs: &Value,
        fp: &F,
    ) -> (r: Result<Value, ValueError>)
        requires
            self@.wf(),
            rhs@.wf(),
        ensures
            arith_determined(op, self@, rhs@) ==> res_v(r) == arith_spec(op, self@, rhs@),
            !arith_determined(op, self@, rhs@) ==> (r matches Ok(v) && v@ is F64),
            r matches Ok(v) ==> v@.wf(),
    {
        if matches!(self, Value::Null) || matches!(rhs, Value::Null) {
            return Ok(Value::Null);
        }
        let l_float = matches!(self, Value::F64(_));
        let r_float = matches!(rhs, Value::F64(_));
        if (l_float && rhs.is_numeric_value()) || (r_float && self.is_numeric_value()) {
            let ab = float_bits(self, fp);
            let bb = float_bits(rhs, fp);
            return Ok(Value::F64(fp.bin_op(op, ab, bb)));
        }
        if self.is_int_value() && rhs.is_int_value() {
            return int_int_binary(op, self, rhs);
        }
        if (self.is_int_value() || matches!(self, Value::Decimal(_))) && (rhs.is_int_value()
            || matches!(rhs, Value::Decimal(_))) {
            let da = dec_of(self);
            let db = dec_of(rhs);
            return match (da, db) {
                (Some(x), Some(y)) => match dec_op_exec(op, &x, &y) {
                    Some(d) => Ok(Value::Decimal(d)),
                    None => Err(
                        ValueError::BinaryOperationOverflow {
                            lhs: self.dup(),
                            rhs: rhs.dup(),
                            operator: op,
                        },
                    ),
                },
                _ => Err(
                    ValueError::BinaryOperationOverflow {
                        lhs: self.dup(),
                        rhs: rhs.dup(),
                        operator: op,
                    },
                ),
            };
        }
        if op == NumericBinaryOperator::Multiply {
            if let Value::Interval(iv) = rhs {
                if self.is_int_value() {
                    let (k, _w) = int_parts(self);
                    return match k.checked_mul(*iv as i128) {
                        Some(x) => {
                            if i64::MIN as i128 <= x && x <= i64::MAX as i128 {
                                Ok(Value::Interval(x as i64))
                            } else {
                                Err(
                                    ValueError::BinaryOperationOverflow {
                                        lhs: self.dup(),
                                        rhs: rhs.dup(),
                                        operator: op,
                                    },
                                )
                            }
                        },
                        None => Err(
                            ValueError::BinaryOperationOverflow {
                                lhs: self.dup(),
                                rhs: rhs.dup(),
                                operator: op,
                            },
                        ),
                    };
                }
            }
            if let Value::Interval(iv) = self {
                if rhs.is_int_value() {
                    let (k, _w) = int_parts(rhs);
                    return match k.checked_mul(*iv as i128) {
                        Some(x) => {
                            if i64::MIN as i128 <= x && x <= i64::MAX as i128 {
                                Ok(Value::Interval(x as i64))
                            } else {
                                Err(
                                    ValueError::BinaryOperationOverflow {
                                        lhs: self.dup(),
                                        rhs: rhs.dup(),
                                        operator: op,
                                    },
                                )
                            }
                        },
                        None => Err(
                            ValueError::BinaryOperationOverflow {
                                lhs: self.dup(),
                                rhs: rhs.dup(),
                                operator: op,
                            },
                        ),
                    };
                }
            }
        }
        Err(ValueError::NonNumericMathOperation { lhs: self.dup(), operator: op, rhs: rhs.dup() })
    }

    /// Addition: `self + rhs` under the engine's coercion rules.
    pub fn try_add<F: FloatOps>(&self, rhs: &Value, fp: &F) -> (r: Result<Value, ValueError>)
        requires
            self@.wf(),
            rhs@.wf(),
        ensures
            arith_determined(NumericBinaryOperator::Add, self@, rhs@) ==> res_v(r) == arith_spec(
                NumericBinaryOperator::Add,
                self@,
                rhs@,
            ),
            !arith_determined(NumericBinaryOperator::Add, self@, rhs@) ==> (r matches Ok(v) && v@
                is F64),
            r matches Ok(v) ==> v@.wf(),
    {
        self.try_binary_op(NumericBinaryOperator::Add, rhs, fp)
    }

    /// Subtraction: `self - rhs` under the engine's coercion rules.
    pub fn try_subtract<F: FloatOps>(&self, rhs: &Value, fp: &F) -> (r: Result<Value, ValueError>)
        requires
            self@.wf(),
            rhs@.wf(),
        ensures
            arith_determined(NumericBinaryOperator::Subtract, self@, rhs@) ==> res_v(r)
                == arith_spec(NumericBinaryOperator::Subtract, self@, rhs@),
            !arith_determined(NumericBinaryOperator::Subtract, self@, rhs@) ==> (r matches Ok(v)
                && v@ is F64),
            r matches Ok(v) ==> v@.wf(),
    {
        self.try_binary_op(NumericBinaryOperator::Subtract, rhs, fp)
    }

    /// Multiplication: `self * rhs` under the engine's coercion rules.
    pub fn try_multiply<F: FloatOps>(&self, rhs: &Value, fp: &F) -> (r: Result<Value, ValueError>)
        requires
            self@.wf(),
            rhs@.wf(),
        ensures
            arith_determined(NumericBinaryOperator::Multiply, self@, rhs@) ==> res_v(r)
                == arith_spec(NumericBinaryOperator::Multiply, self@, rhs@),
            !arith_determined(NumericBinaryOperator::Multiply, self@, rhs@) ==> (r matches Ok(v)
                && v@ is F64),
            r matches Ok(v) ==> v@.wf(),
    {
        self.try_binary_op(NumericBinaryOperator::Multiply, rhs, fp)
    }

    /// Division: `self / rhs` under the engine's coercion rules. A zero
    /// integer or decimal divisor reports `BinaryOperationOverflow`; a zero
    /// binary64 divisor follows IEEE-754 and reports nothing.
    pub fn try_divide<F: FloatOps>(&self, rhs: &Value, fp: &F) -> (r: Result<Value, ValueError>)
        requires
            self@.wf(),
            rhs@.wf(),
        ensures
            arith_determined(NumericBinaryOperator::Divide, self@, rhs@) ==> res_v(r)
                == arith_spec(NumericBinaryOperator::Divide, self@, rhs@),
            !arith_determined(NumericBinaryOperator::Divide, self@, rhs@) ==> (r matches Ok(v)
                && v@ is F64),
            r matches Ok(v) ==> v@.wf(),
    {
        self.try_binary_op(NumericBinaryOperator::Divide, rhs, fp)
    }

    /// Modulo: the remainder of `self / rhs` under the engine's coercion
    /// rules, with the same zero-divisor reporting as division.
    pub fn try_modulo<F: FloatOps>(&self, rhs: &Value, fp: &F) -> (r: Result<Value, ValueError>)
        requires
            self@.wf(),
            rhs@.wf(),
        ensures
            arith_determined(NumericBinaryOperator::Modulo, self@, rhs@) ==> res_v(r) == arith_spec(
                NumericBinaryOperator::Modulo,
                self@,
                rhs@,
            ),
            !arith_determined(NumericBinaryOperator::Modulo, self@, rhs@) ==> (r matches Ok(v)
                && v@ is F64),
            r matches Ok(v) ==> v@.wf(),
    {
        self.try_binary_op(NumericBinaryOperator::Modulo, rhs, fp)
    }
}

/// What a unary plus returns: the operand itself on numerics and null, the
/// `UnaryOperationOnNonNumeric` error otherwise.
pub open spec fn unary_plus_spec(v: ValueV) -> Result<ValueV, ValueErrorV> {
    if v is Null || v.is_numeric() {
        Ok(v)
    } else {
        Err(ValueErrorV::UnaryOperationOnNonNumeric { value: v })
    }
}

/// Whether negation is decided without the floating-point engine.
pub open spec fn unary_minus_determined(v: ValueV) -> bool {
    !(v is F64)
}

/// What negation returns where the engine decides it: the negated integer in
/// the operand's own width, overflowing only on the width's least value; the
/// negated decimal; null unchanged; an error on non-numerics.
pub open spec fn unary_minus_spec(v: ValueV) -> Result<ValueV, ValueErrorV>
    recommends
        unary_minus_determined(v),
{
    if v is Null {
        Ok(v)
    } else if v.is_int() {
        if v.int_val() == min_of_width(v.width()) {
            Err(ValueErrorV::UnaryOperationOverflow { value: v })
        } else {
            Ok(mk_int(v.width(), -v.int_val()))
        }
    } else if v is Decimal {
        Ok(
            ValueV::Decimal(
                Dec { mantissa: (-v->Decimal_0.mantissa) as i128, scale: v->Decimal_0.scale },
            ),
        )
    } else if v is F64 {
        Ok(v)
    } else {
        Err(ValueErrorV::UnaryOperationOnNonNumeric { value: v })
    }
}

impl Value {
    /// Unary plus: identity on numerics and null, an error otherwise.
    pub fn unary_plus(&self) -> (r: Result<Value, ValueError>)
        requires
            self@.wf(),
        ensures
            res_v(r) == unary_plus_spec(self@),
            r matches Ok(v) ==> v@.wf(),
    {
        if self.is_numeric_value() || matches!(self, Value::Null) {
            Ok(self.dup())
        } else {
            Err(ValueError::UnaryOperationOnNonNumeric { value: self.dup() })
        }
    }

    /// Unary minus: checked negation in the operand's own width; binary64
    /// operands are negated by the floating-point engine.
    pub fn unary_minus<F: FloatOps>(&self, fp: &F) -> (r: Result<Value, ValueError>)
        requires
            self@.wf(),
        ensures
            unary_minus_determined(self@) ==> res_v(r) == unary_minus_spec(self@),
            !unary_minus_determined(self@) ==> (r matches Ok(v) && v@ is F64),
            r matches Ok(v) ==> v@.wf(),
    {
        match self {
            Value::Null => Ok(Value::Null),
            Value::F64(bits) => Ok(Value::F64(fp.neg(*bits))),
            Value::Decimal(d) => Ok(Value::Decimal(Dec { mantissa: -d.mantissa, scale: d.scale })),
            Value::Bool(_) | Value::Str(_) | Value::Interval(_) => Err(
                ValueError::UnaryOperationOnNonNumeric { value: self.dup() },
            ),
            _ => {
                proof {
                    lemma_int_val_fits(self@);
                }
                let (x, w) = int_parts(self);
                if x == min_exec(w) {
                    Err(ValueError::UnaryOperationOverflow { value: self.dup() })
                } else {
                    Ok(make_int(-x, w))
                }
            },
        }
    }
}

} // verus!
