use vstd::prelude::*;

verus! {

/// The five binary arithmetic operators. Carried inside errors so a caller
/// can report which operation failed; dispatch itself is static.
#[derive(Debug, Clone, Copy, PartialEq, Eq, Structural)]
pub enum NumericBinaryOperator {
    Add,
    Subtract,
    Multiply,
    Divide,
    Modulo,
}

/// A fixed-point decimal standing for the value `mantissa / 10^scale`.
///
/// The representation mirrors a 96-bit-mantissa decimal: the mantissa is kept
/// strictly below `2^96` in magnitude and the scale at most 28. All decimal
/// arithmetic goes through the checked operations in the `decimal` module.
#[derive(Debug, Clone, Copy, PartialEq, Eq, Structural)]
pub struct Dec {
    pub mantissa: i128,
    pub scale: u32,
}

impl Dec {
    /// The representation invariant: a 96-bit mantissa and a scale of at most 28.
    pub open spec fn wf(self) -> bool {
        &&& -0x1000000000000000000000000 < self.mantissa < 0x1000000000000000000000000
        &&& self.scale <= 28
    }

    /// The decimal standing for the integer `i`.
    pub open spec fn spec_from_int(i: int) -> Dec {
        Dec { mantissa: i as i128, scale: 0 }
    }

    /// Builds the decimal standing exactly for the integer `v`.
    pub fn from_int(v: i128) -> (r: Dec)
        requires
            -0x1000000000000000000000000 < v < 0x1000000000000000000000000,
        ensures
            r == Dec::spec_from_int(v as int),
            r.wf(),
    {
        Dec { mantissa: v, scale: 0 }
    }
}

/// `10^n`.
pub open spec fn pow10(n: nat) -> int
    decreases n,
{
    if n == 0 {
        1
    } else {
        10 * pow10((n - 1) as nat)
    }
}

/// Two decimals stand for the same rational number.
pub open spec fn dec_eq_math(a: Dec, b: Dec) -> bool {
    a.mantissa * pow10(b.scale as nat) == b.mantissa * pow10(a.scale as nat)
}

/// The rational number `a` stands for is below the one `b` stands for.
pub open spec fn dec_lt_math(a: Dec, b: Dec) -> bool {
    a.mantissa * pow10(b.scale as nat) < b.mantissa * pow10(a.scale as nat)
}

/// A typed scalar produced and consumed during query evaluation.
///
/// `Null` stands for SQL NULL and absorbs every arithmetic operator. The five
/// integer variants are fixed-width two's-complement. `F64` carries an
/// IEEE-754 binary64 value as its raw bit pattern: this library computes
/// nothing with such values itself, it routes them to the floating-point
/// engine the embedder supplies (see the `float` module). `Str`, `Interval`
/// and `Bool` take part in equality and ordering but, `Interval` under
/// multiplication aside, not in arithmetic.
///
/// The derived `PartialEq` compares representations structurally and is
/// meant for test harnesses; the engine's heterogeneous, widening equality
/// is the `eq` method the `compare` module adds.
#[derive(Debug, Clone, PartialEq)]
pub enum Value {
    Null,
    Bool(bool),
    I8(i8),
    I16(i16),
    I32(i32),
    I64(i64),
    I128(i128),
    F64(u64),
    Decimal(Dec),
    Str(String),
    Interval(i64),
}

/// The mathematical model of a [`Value`]: the same shape with the string
/// payload abstracted to its character sequence. All contracts speak of this
/// model.
pub enum ValueV {
    Null,
    Bool(bool),
    I8(i8),
    I16(i16),
    I32(i32),
    I64(i64),
    I128(i128),
    F64(u64),
    Decimal(Dec),
    Str(Seq<char>),
    Interval(i64),
}

impl View for Value {
    type V = ValueV;

    open spec fn view(&self) -> ValueV {
        match self {
            Value::Null => ValueV::Null,
            Value::Bool(b) => ValueV::Bool(*b),
            Value::I8(x) => ValueV::I8(*x),
            Value::I16(x) => ValueV::I16(*x),
            Value::I32(x) => ValueV::I32(*x),
            Value::I64(x) => ValueV::I64(*x),
            Value::I128(x) => ValueV::I128(*x),
            Value::F64(bits) => ValueV::F64(*bits),
            Value::Decimal(d) => ValueV::Decimal(*d),
            Value::Str(s) => ValueV::Str(s@),
            Value::Interval(v) => ValueV::Interval(*v),
        }
    }
}

impl ValueV {
    /// Whether the value is one of the five fixed-width integer variants.
    pub open spec fn is_int(self) -> bool {
        self is I8 || self is I16 || self is I32 || self is I64 || self is I128
    }

    /// Whether the value takes part in arithmetic: an integer, a binary64 or
    /// a decimal.
    pub open spec fn is_numeric(self) -> bool {
        self.is_int() || self is F64 || self is Decimal
    }

    /// The mathematical value of an integer variant.
    pub open spec fn int_val(self) -> int
        recommends
            self.is_int(),
    {
        match self {
            ValueV::I8(x) => x as int,
            ValueV::I16(x) => x as int,
            ValueV::I32(x) => x as int,
            ValueV::I64(x) => x as int,
            ValueV::I128(x) => x as int,
            _ => 0,
        }
    }

    /// The width in bits of an integer variant, 0 otherwise.
    pub open spec fn width(self) -> nat {
        match self {
            ValueV::I8(_) => 8,
            ValueV::I16(_) => 16,
            ValueV::I32(_) => 32,
            ValueV::I64(_) => 64,
            ValueV::I128(_) => 128,
            _ => 0,
        }
    }

    /// The representation invariant: a decimal payload is well-formed.
    pub open spec fn wf(self) -> bool {
        match self {
            ValueV::Decimal(d) => d.wf(),
            _ => true,
        }
    }
}

impl Value {
    /// Copies the value; the copy has the same model.
    pub fn dup(&self) -> (r: Value)
        ensures
            r@ == self@,
    {
        match self {
            Value::Null => Value::Null,
            Value::Bool(b) => Value::Bool(*b),
            Value::I8(x) => Value::I8(*x),
            Value::I16(x) => Value::I16(*x),
            Value::I32(x) => Value::I32(*x),
            Value::I64(x) => Value::I64(*x),
            Value::I128(x) => Value::I128(*x),
            Value::F64(bits) => Value::F64(*bits),
            Value::Decimal(d) => Value::Decimal(*d),
            Value::Str(s) => Value::Str(s.clone()),
            Value::Interval(v) => Value::Interval(*v),
        }
    }

    /// Whether the value is present in the SQL sense: everything but `Null`,
    /// including numeric zero and `false`, counts as present.
    pub fn is_some(&self) -> (r: bool)
        ensures
            r == !(self@ is Null),
    {
        match self {
            Value::Null => false,
            _ => true,
        }
    }
}

/// The target of a cast.
#[derive(Debug, Clone, Copy, PartialEq, Eq, Structural)]
pub enum DataType {
    Boolean,
    Int8,
    Int16,
    Int32,
    Int64,
    Int128,
    Float64,
    Decimal,
    Text,
}

/// Why a scalar operation failed. Every failure carries the original,
/// untouched operands, never a widened intermediate.
#[derive(Debug, Clone, PartialEq)]
pub enum ValueError {
    /// A checked arithmetic operation overflowed its result width, or an
    /// integer or decimal division or modulo had a zero divisor.
    BinaryOperationOverflow { lhs: Value, rhs: Value, operator: NumericBinaryOperator },
    /// An arithmetic operator was applied to an operand that is not numeric.
    NonNumericMathOperation { lhs: Value, operator: NumericBinaryOperator, rhs: Value },
    /// A unary sign operator was applied to a non-numeric, non-null scalar.
    UnaryOperationOnNonNumeric { value: Value },
    /// Negation overflowed the operand's width.
    UnaryOperationOverflow { value: Value },
    /// A literal's text did not parse as any supported numeric type.
    FailedToParseNumber,
    /// A literal could not be made into a value of the requested type.
    UnsupportedLiteralCast { target: DataType },
    /// A scalar could not be cast to the requested type.
    ImpossibleCast,
}

/// The mathematical model of a [`ValueError`].
pub enum ValueErrorV {
    BinaryOperationOverflow { lhs: ValueV, rhs: ValueV, operator: NumericBinaryOperator },
    NonNumericMathOperation { lhs: ValueV, operator: NumericBinaryOperator, rhs: ValueV },
    UnaryOperationOnNonNumeric { value: ValueV },
    UnaryOperationOverflow { value: ValueV },
    FailedToParseNumber,
    UnsupportedLiteralCast { target: DataType },
    ImpossibleCast,
}

impl View for ValueError {
    type V = ValueErrorV;

    open spec fn view(&self) -> ValueErrorV {
        match self {
            ValueError::BinaryOperationOverflow { lhs, rhs, operator } => {
                ValueErrorV::BinaryOperationOverflow {
                    lhs: lhs@,
                    rhs: rhs@,
                    operator: *operator,
                }
            },
            ValueError::NonNumericMathOperation { lhs, operator, rhs } => {
                ValueErrorV::NonNumericMathOperation {
                    lhs: lhs@,
                    operator: *operator,
                    rhs: rhs@,
                }
            },
            ValueError::UnaryOperationOnNonNumeric { value } => {
                ValueErrorV::UnaryOperationOnNonNumeric { value: value@ }
            },
            ValueError::UnaryOperationOverflow { value } => {
                ValueErrorV::UnaryOperationOverflow { value: value@ }
            },
            ValueError::FailedToParseNumber => ValueErrorV::FailedToParseNumber,
            ValueError::UnsupportedLiteralCast { target } => {
                ValueErrorV::UnsupportedLiteralCast { target: *target }
            },
            ValueError::ImpossibleCast => ValueErrorV::ImpossibleCast,
        }
    }
}

/// The model of a `Result` carrying a scalar or a scalar error.
pub open spec fn res_v(r: Result<Value, ValueError>) -> Result<ValueV, ValueErrorV> {
    match r {
        Ok(v) => Ok(v@),
        Err(e) => Err(e@),
    }
}

/// Whether `x` fits the signed two's-complement width of `bits` bits.
pub open spec fn fits_width(x: int, bits: nat) -> bool {
    if bits == 8 {
        i8::MIN <= x <= i8::MAX
    } else if bits == 16 {
        i16::MIN <= x <= i16::MAX
    } else if bits == 32 {
        i32::MIN <= x <= i32::MAX
    } else if bits == 64 {
        i64::MIN <= x <= i64::MAX
    } else if bits == 128 {
        i128::MIN <= x <= i128::MAX
    } else {
        false
    }
}

/// The least value of the signed width of `bits` bits.
pub open spec fn min_of_width(bits: nat) -> int {
    if bits == 8 {
        i8::MIN as int
    } else if bits == 16 {
        i16::MIN as int
    } else if bits == 32 {
        i32::MIN as int
    } else if bits == 64 {
        i64::MIN as int
    } else {
        i128::MIN as int
    }
}

/// The integer variant of width `bits` holding `x`.
pub open spec fn mk_int(bits: nat, x: int) -> ValueV
    recommends
        fits_width(x, bits),
{
    if bits == 8 {
        ValueV::I8(x as i8)
    } else if bits == 16 {
        ValueV::I16(x as i16)
    } else if bits == 32 {
        ValueV::I32(x as i32)
    } else if bits == 64 {
        ValueV::I64(x as i64)
    } else {
        ValueV::I128(x as i128)
    }
}

/// Truncated (round-toward-zero) integer division, the semantics of the
/// machine division the checked operations use.
pub open spec fn tdiv(a: int, b: int) -> int
    recommends
        b != 0,
{
    if a == 0 {
        0
    } else if a > 0 && b > 0 {
        a / b
    } else if a < 0 && b < 0 {
        (a * -1) / (b * -1)
    } else if a < 0 {
        ((a * -1) / b) * -1
    } else {
        (a / (b * -1)) * -1
    }
}

/// The remainder matching truncated division: it takes the sign of `a`.
pub open spec fn tmod(a: int, b: int) -> int
    recommends
        b != 0,
{
    if a == 0 {
        0
    } else if a > 0 && b > 0 {
        a % b
    } else if a < 0 && b < 0 {
        ((a * -1) % (b * -1)) * -1
    } else if a < 0 {
        ((a * -1) % b) * -1
    } else {
        a % (b * -1)
    }
}

/// Whether the operator is defined on divisor `b` (division and modulo
/// require a non-zero divisor).
pub open spec fn op_defined(op: NumericBinaryOperator, b: int) -> bool {
    match op {
        NumericBinaryOperator::Divide => b != 0,
        NumericBinaryOperator::Modulo => b != 0,
        _ => true,
    }
}

/// The exact mathematical result of the operator on integers.
pub open spec fn op_val(op: NumericBinaryOperator, a: int, b: int) -> int
    recommends
        op_defined(op, b),
{
    match op {
        NumericBinaryOperator::Add => a + b,
        NumericBinaryOperator::Subtract => a - b,
        NumericBinaryOperator::Multiply => a * b,
        NumericBinaryOperator::Divide => tdiv(a, b),
        NumericBinaryOperator::Modulo => tmod(a, b),
    }
}

/// The one machine edge the mathematical rule misses: the machine remainder
/// of the width's least value by -1 faults even though the mathematical
/// remainder is 0.
pub open spec fn rem_edge(op: NumericBinaryOperator, a: int, b: int, bits: nat) -> bool {
    op is Modulo && a == min_of_width(bits) && b == -1
}

/// The result of an integer-by-integer arithmetic step: both operands are
/// widened to the wider of the two widths, the exact result is computed
/// there, and overflow of that wider width — or a zero divisor — reports
/// `BinaryOperationOverflow` carrying the untouched operands.
pub open spec fn int_int_result(op: NumericBinaryOperator, lhs: ValueV, rhs: ValueV) -> Result<
    ValueV,
    ValueErrorV,
>
    recommends
        lhs.is_int(),
        rhs.is_int(),
{
    let a = lhs.int_val();
    let b = rhs.int_val();
    let w = if lhs.width() >= rhs.width() {
        lhs.width()
    } else {
        rhs.width()
    };
    if op_defined(op, b) && !rem_edge(op, a, b, w) && fits_width(op_val(op, a, b), w) {
        Ok(mk_int(w, op_val(op, a, b)))
    } else {
        Err(ValueErrorV::BinaryOperationOverflow { lhs, rhs, operator: op })
    }
}

} // verus!
