//! Unresolved SQL literals and the textual fallback arithmetic on them.
//!
//! A numeric literal is decimal text not yet bound to a column type.
//! Comparison and arithmetic on two such literals first try both sides as
//! 64-bit integers; if either side fails, both are redone by the embedder's
//! floating-point engine. The integer path is pinned exactly; the
//! floating-point path only in shape.

use vstd::prelude::*;
use vstd::string::StringExecFns;
use crate::cast::{text_cast, text_cast_spec};
use crate::float::FloatOps;
use crate::text::{format_i128, int_text, lex_cmp, parse_i64, parsed_i64, str_cmp};
use crate::value::{
    DataType, NumericBinaryOperator, Value, ValueError, ValueErrorV, ValueV, op_defined, op_val,
    res_v,
};

verus! {

/// A literal parsed from SQL text whose concrete type is not yet fixed.
///
/// A `Number` carries its decimal text and the flag marking a long literal;
/// only plain (`false`-flagged) numbers take part in literal arithmetic.
#[derive(Debug, Clone, PartialEq)]
pub enum Literal {
    Number(String, bool),
    SingleQuotedString(String),
    Boolean(bool),
    Null,
}

/// The mathematical model of a [`Literal`].
pub enum LiteralV {
    Number(Seq<char>, bool),
    SingleQuotedString(Seq<char>),
    Boolean(bool),
    Null,
}

impl View for Literal {
    type V = LiteralV;

    open spec fn view(&self) -> LiteralV {
        match self {
            Literal::Number(s, long) => LiteralV::Number(s@, *long),
            Literal::SingleQuotedString(s) => LiteralV::SingleQuotedString(s@),
            Literal::Boolean(b) => LiteralV::Boolean(*b),
            Literal::Null => LiteralV::Null,
        }
    }
}

/// Why literal-level evaluation failed.
#[derive(Debug, Clone, PartialEq)]
pub enum EvaluateError {
    /// Neither operand parsed as an integer nor as a binary64 after the
    /// fallback; upstream validation should make this unreachable.
    UnreachableLiteralArithmetic,
    /// Literal arithmetic on a pairing that is not numeric, carrying the
    /// textual form of both operands.
    UnsupportedLiteralBinaryArithmetic(String, String),
    /// A unary sign operator on a non-numeric, non-null literal.
    LiteralUnaryOperationOnNonNumeric,
}

/// The mathematical model of an [`EvaluateError`].
pub enum EvaluateErrorV {
    UnreachableLiteralArithmetic,
    UnsupportedLiteralBinaryArithmetic(Seq<char>, Seq<char>),
    LiteralUnaryOperationOnNonNumeric,
}

impl View for EvaluateError {
    type V = EvaluateErrorV;

    open spec fn view(&self) -> EvaluateErrorV {
        match self {
            EvaluateError::UnreachableLiteralArithmetic => {
                EvaluateErrorV::UnreachableLiteralArithmetic
            },
            EvaluateError::UnsupportedLiteralBinaryArithmetic(l, r) => {
                EvaluateErrorV::UnsupportedLiteralBinaryArithmetic(l@, r@)
            },
            EvaluateError::LiteralUnaryOperationOnNonNumeric => {
                EvaluateErrorV::LiteralUnaryOperationOnNonNumeric
            },
        }
    }
}

/// The model of a `Result` carrying a literal or a literal error.
pub open spec fn lit_res_v(r: Result<Literal, EvaluateError>) -> Result<LiteralV, EvaluateErrorV> {
    match r {
        Ok(v) => Ok(v@),
        Err(e) => Err(e@),
    }
}

/// The textual form of a literal, as error payloads carry it: number text as
/// it stands, strings in single quotes, `true`/`false`, `NULL`.
pub open spec fn lit_text(l: LiteralV) -> Seq<char> {
    match l {
        LiteralV::Number(s, _) => s,
        LiteralV::SingleQuotedString(s) => seq!['\''] + s + seq!['\''],
        LiteralV::Boolean(b) => if b {
            "true"@
        } else {
            "false"@
        },
        LiteralV::Null => "NULL"@,
    }
}

impl Literal {
    /// The textual form `lit_text` states.
    pub fn to_text(&self) -> (r: String)
        ensures
            r@ == lit_text(self@),
    {
        match self {
            Literal::Number(s, _) => s.clone(),
            Literal::SingleQuotedString(s) => {
                let mut out = String::from_str("'");
                out.append(s.as_str());
                out.append("'");
                proof {
                    reveal_strlit("'");
                    assert(out@ =~= seq!['\''] + s@ + seq!['\'']);
                }
                out
            },
            Literal::Boolean(b) => {
                if *b {
                    String::from_str("true")
                } else {
                    String::from_str("false")
                }
            },
            Literal::Null => String::from_str("NULL"),
        }
    }

    /// Structural equality of two literals: same shape, same payload.
    pub fn lit_eq(&self, other: &Literal) -> (r: bool)
        ensures
            r == (self@ == other@),
    {
        match (self, other) {
            (Literal::Number(a, af), Literal::Number(b, bf)) => *af == *bf && *a == *b,
            (Literal::SingleQuotedString(a), Literal::SingleQuotedString(b)) => *a == *b,
            (Literal::Boolean(a), Literal::Boolean(b)) => *a == *b,
            (Literal::Null, Literal::Null) => true,
            _ => false,
        }
    }
}

/// Whether the comparison of two literals is decided without the
/// floating-point engine: every pairing except two plain numbers of which at
/// least one does not parse as a 64-bit integer.
pub open spec fn lit_cmp_determined(l: LiteralV, r: LiteralV) -> bool {
    match (l, r) {
        (LiteralV::Number(ls, false), LiteralV::Number(rs, false)) => parsed_i64(ls) is Some
            && parsed_i64(rs) is Some,
        _ => true,
    }
}

/// How two literals are ordered: two integer-parsed numbers by value, two
/// strings lexicographically, anything else not at all.
pub open spec fn lit_cmp_spec(l: LiteralV, r: LiteralV) -> Option<core::cmp::Ordering>
    recommends
        lit_cmp_determined(l, r),
{
    match (l, r) {
        (LiteralV::Number(ls, false), LiteralV::Number(rs, false)) => {
            if parsed_i64(ls) is Some && parsed_i64(rs) is Some {
                Some(
                    crate::compare::ord_of(
                        parsed_i64(ls)->Some_0 as int,
                        parsed_i64(rs)->Some_0 as int,
                    ),
                )
            } else {
                None
            }
        },
        (LiteralV::SingleQuotedString(ls), LiteralV::SingleQuotedString(rs)) => Some(
            lex_cmp(ls, rs),
        ),
        _ => None,
    }
}

/// Compares two literals: the integer path first, then the floating-point
/// fallback on two plain numbers, `None` on any other pairing.
pub fn literal_partial_cmp<F: FloatOps>(l: &Literal, r: &Literal, fp: &F) -> (res: Option<
    core::cmp::Ordering,
>)
    ensures
        lit_cmp_determined(l@, r@) ==> res == lit_cmp_spec(l@, r@),
{
    match (l, r) {
        (Literal::Number(ls, false), Literal::Number(rs, false)) => {
            match (parse_i64(ls.as_str()), parse_i64(rs.as_str())) {
                (Some(a), Some(b)) => Some(
                    if a < b {
                        core::cmp::Ordering::Less
                    } else if a == b {
                        core::cmp::Ordering::Equal
                    } else {
                        core::cmp::Ordering::Greater
                    },
                ),
                (Some(a), None) => {
                    match fp.parse_text(rs.as_str()) {
                        Some(rb) => fp.cmp_bits(fp.of_int(a as i128), rb),
                        None => None,
                    }
                },
                (None, Some(b)) => {
                    match fp.parse_text(ls.as_str()) {
                        Some(lb) => fp.cmp_bits(lb, fp.of_int(b as i128)),
                        None => None,
                    }
                },
                (None, None) => {
                    match (fp.parse_text(ls.as_str()), fp.parse_text(rs.as_str())) {
                        (Some(lb), Some(rb)) => fp.cmp_bits(lb, rb),
                        _ => None,
                    }
                },
            }
        },
        (Literal::SingleQuotedString(ls), Literal::SingleQuotedString(rs)) => Some(
            str_cmp(ls.as_str(), rs.as_str()),
        ),
        _ => None,
    }
}

/// Whether literal arithmetic is decided without the floating-point engine:
/// both sides parse as 64-bit integers and the checked operation in that
/// width goes through, or the pairing is one the textual rules reject or
/// absorb outright.
pub open spec fn lit_arith_determined(
    op: NumericBinaryOperator,
    l: LiteralV,
    r: LiteralV,
) -> bool {
    match (l, r) {
        (LiteralV::Number(ls, false), LiteralV::Number(rs, false)) => {
            if parsed_i64(ls) is Some && parsed_i64(rs) is Some {
                let a = parsed_i64(ls)->Some_0 as int;
                let b = parsed_i64(rs)->Some_0 as int;
                &&& op_defined(op, b)
                &&& !(op is Modulo && a == i64::MIN && b == -1)
                &&& i64::MIN <= op_val(op, a, b) <= i64::MAX
            } else {
                false
            }
        },
        _ => true,
    }
}

/// What literal arithmetic returns where it is decided: the checked 64-bit
/// result re-serialized to number text; a null literal when a plain number
/// or null pairs with null; the `UnsupportedLiteralBinaryArithmetic` error,
/// carrying both texts, on any other pairing.
pub open spec fn lit_arith_spec(op: NumericBinaryOperator, l: LiteralV, r: LiteralV) -> Result<
    LiteralV,
    EvaluateErrorV,
>
    recommends
        lit_arith_determined(op, l, r),
{
    match (l, r) {
        (LiteralV::Number(ls, false), LiteralV::Number(rs, false)) => {
            let a = parsed_i64(ls)->Some_0 as int;
            let b = parsed_i64(rs)->Some_0 as int;
            Ok(LiteralV::Number(int_text(op_val(op, a, b)), false))
        },
        (LiteralV::Null, LiteralV::Number(_, false)) => Ok(LiteralV::Null),
        (LiteralV::Number(_, false), LiteralV::Null) => Ok(LiteralV::Null),
        (LiteralV::Null, LiteralV::Null) => Ok(LiteralV::Null),
        _ => Err(EvaluateErrorV::UnsupportedLiteralBinaryArithmetic(lit_text(l), lit_text(r))),
    }
}

/// The floating-point fallback of literal arithmetic: both sides as
/// binary64, the operation redone there, the result re-serialized.
fn literal_float_op<F: FloatOps>(
    op: NumericBinaryOperator,
    lb: Option<u64>,
    rb: Option<u64>,
    fp: &F,
) -> (res: Result<Literal, EvaluateError>)
    ensures
        res matches Ok(lit) ==> lit@ matches LiteralV::Number(_, false),
        res matches Err(e) ==> e@ == EvaluateErrorV::UnreachableLiteralArithmetic,
{
    match (lb, rb) {
        (Some(a), Some(b)) => Ok(Literal::Number(fp.to_text(fp.bin_op(op, a, b)), false)),
        _ => Err(EvaluateError::UnreachableLiteralArithmetic),
    }
}

/// Applies the operator to two literals: the checked 64-bit integer path,
/// the floating-point fallback where that path does not decide, the null
/// absorption and rejection rules otherwise.
pub fn literal_binary_op<F: FloatOps>(
    op: NumericBinaryOperator,
    l: &Literal,
    r: &Literal,
    fp: &F,
) -> (res: Result<Literal, EvaluateError>)
    ensures
        lit_arith_determined(op, l@, r@) ==> lit_res_v(res) == lit_arith_spec(op, l@, r@),
        !lit_arith_determined(op, l@, r@) ==> ((res matches Ok(lit) ==> lit@ matches LiteralV::Number(
            _,
            false,
        )) && (res matches Err(e) ==> e@ == EvaluateErrorV::UnreachableLiteralArithmetic)),
{
    match (l, r) {
        (Literal::Number(ls, false), Literal::Number(rs, false)) => {
            match (parse_i64(ls.as_str()), parse_i64(rs.as_str())) {
                (Some(a), Some(b)) => {
                    let checked = match op {
                        NumericBinaryOperator::Add => a.checked_add(b),
                        NumericBinaryOperator::Subtract => a.checked_sub(b),
                        NumericBinaryOperator::Multiply => a.checked_mul(b),
                        NumericBinaryOperator::Divide => a.checked_div(b),
                        NumericBinaryOperator::Modulo => a.checked_rem(b),
                    };
                    match checked {
                        Some(x) => Ok(Literal::Number(format_i128(x as i128), false)),
                        None => literal_float_op(
                            op,
                            Some(fp.of_int(a as i128)),
                            Some(fp.of_int(b as i128)),
                            fp,
                        ),
                    }
                },
                (Some(a), None) => literal_float_op(
                    op,
                    Some(fp.of_int(a as i128)),
                    fp.parse_text(rs.as_str()),
                    fp,
                ),
                (None, Some(b)) => literal_float_op(
                    op,
                    fp.parse_text(ls.as_str()),
                    Some(fp.of_int(b as i128)),
                    fp,
                ),
                (None, None) => literal_float_op(
                    op,
                    fp.parse_text(ls.as_str()),
                    fp.parse_text(rs.as_str()),
                    fp,
                ),
            }
        },
        (Literal::Null, Literal::Number(_, false)) => Ok(Literal::Null),
        (Literal::Number(_, false), Literal::Null) => Ok(Literal::Null),
        (Literal::Null, Literal::Null) => Ok(Literal::Null),
        _ => Err(
            EvaluateError::UnsupportedLiteralBinaryArithmetic(l.to_text(), r.to_text()),
        ),
    }
}

/// Whether a unary sign on the literal is decided without the
/// floating-point engine.
pub open spec fn lit_unary_determined(minus: bool, l: LiteralV) -> bool {
    match l {
        LiteralV::Number(s, false) => parsed_i64(s) is Some && !(minus && parsed_i64(s)->Some_0
            == i64::MIN),
        _ => true,
    }
}

/// What a unary sign on a literal returns where it is decided: the parsed
/// number, negated for a minus, re-serialized; null unchanged; the
/// `LiteralUnaryOperationOnNonNumeric` error on any other literal.
pub open spec fn lit_unary_spec(minus: bool, l: LiteralV) -> Result<LiteralV, EvaluateErrorV>
    recommends
        lit_unary_determined(minus, l),
{
    match l {
        LiteralV::Number(s, false) => {
            let v = parsed_i64(s)->Some_0 as int;
            Ok(LiteralV::Number(int_text(if minus { -v } else { v }), false))
        },
        LiteralV::Null => Ok(LiteralV::Null),
        _ => Err(EvaluateErrorV::LiteralUnaryOperationOnNonNumeric),
    }
}

/// Applies a unary sign to a literal: the 64-bit integer path, then the
/// floating-point fallback, then rejection.
pub fn literal_unary_op<F: FloatOps>(minus: bool, l: &Literal, fp: &F) -> (res: Result<
    Literal,
    EvaluateError,
>)
    ensures
        lit_unary_determined(minus, l@) ==> lit_res_v(res) == lit_unary_spec(minus, l@),
        !lit_unary_determined(minus, l@) ==> ((res matches Ok(lit) ==> lit@ matches LiteralV::Number(
            _,
            false,
        )) && (res matches Err(e) ==> e@ == EvaluateErrorV::LiteralUnaryOperationOnNonNumeric)),
{
    match l {
        Literal::Number(s, false) => {
            match parse_i64(s.as_str()) {
                Some(v) => {
                    if !minus {
                        Ok(Literal::Number(format_i128(v as i128), false))
                    } else if v != i64::MIN {
                        Ok(Literal::Number(format_i128(-(v as i128)), false))
                    } else {
                        let b = fp.of_int(v as i128);
                        Ok(Literal::Number(fp.to_text(fp.neg(b)), false))
                    }
                },
                None => {
                    match fp.parse_text(s.as_str()) {
                        Some(b) => {
                            let out = if minus {
                                fp.neg(b)
                            } else {
                                b
                            };
                            Ok(Literal::Number(fp.to_text(out), false))
                        },
                        None => Err(EvaluateError::LiteralUnaryOperationOnNonNumeric),
                    }
                },
            }
        },
        Literal::Null => Ok(Literal::Null),
        _ => Err(EvaluateError::LiteralUnaryOperationOnNonNumeric),
    }
}

/// Whether type-inferred materialization of the literal is decided without
/// the floating-point engine: every literal except a plain number that does
/// not parse as a 64-bit integer.
pub open spec fn lit_value_determined(l: LiteralV) -> bool {
    match l {
        LiteralV::Number(s, false) => parsed_i64(s) is Some,
        _ => true,
    }
}

/// What type-inferred materialization returns where it is decided: a plain
/// number as a 64-bit integer, a string, a boolean or a null as themselves,
/// and `FailedToParseNumber` on a long number literal.
pub open spec fn lit_value_spec(l: LiteralV) -> Result<ValueV, ValueErrorV>
    recommends
        lit_value_determined(l),
{
    match l {
        LiteralV::Number(s, false) => Ok(ValueV::I64(parsed_i64(s)->Some_0)),
        LiteralV::Number(_, true) => Err(ValueErrorV::FailedToParseNumber),
        LiteralV::SingleQuotedString(s) => Ok(ValueV::Str(s)),
        LiteralV::Boolean(b) => Ok(ValueV::Bool(b)),
        LiteralV::Null => Ok(ValueV::Null),
    }
}

/// Materializes a literal into a scalar with its type inferred: a plain
/// number as a 64-bit integer, falling back to binary64 through the
/// floating-point engine when the integer parse fails.
pub fn literal_to_value<F: FloatOps>(l: &Literal, fp: &F) -> (r: Result<Value, ValueError>)
    ensures
        lit_value_determined(l@) ==> res_v(r) == lit_value_spec(l@),
        !lit_value_determined(l@) ==> ((r matches Ok(v) ==> v@ is F64) && (r matches Err(e) ==> e@
            == ValueErrorV::FailedToParseNumber)),
        r matches Ok(v) ==> v@.wf(),
{
    match l {
        Literal::Number(s, false) => {
            match parse_i64(s.as_str()) {
                Some(v) => Ok(Value::I64(v)),
                None => {
                    match fp.parse_text(s.as_str()) {
                        Some(b) => Ok(Value::F64(b)),
                        None => Err(ValueError::FailedToParseNumber),
                    }
                },
            }
        },
        Literal::Number(_, true) => Err(ValueError::FailedToParseNumber),
        Literal::SingleQuotedString(s) => Ok(Value::Str(s.clone())),
        Literal::Boolean(b) => Ok(Value::Bool(*b)),
        Literal::Null => Ok(Value::Null),
    }
}

/// Whether materializing the literal at the named type is decided without
/// the floating-point engine.
pub open spec fn lit_cast_determined(t: DataType, l: LiteralV) -> bool {
    match l {
        LiteralV::Number(_, _) => !(t is Float64),
        LiteralV::SingleQuotedString(_) => !(t is Float64),
        _ => true,
    }
}

/// What materializing a literal at the named type returns where it is
/// decided: number and string text parse at the target type directly — the
/// one place a literal skips the integer-then-float fallback — a boolean
/// materializes only as `Boolean`, and a null as null at every type.
pub open spec fn lit_cast_spec(t: DataType, l: LiteralV) -> Result<ValueV, ValueErrorV>
    recommends
        lit_cast_determined(t, l),
{
    match l {
        LiteralV::Null => Ok(ValueV::Null),
        LiteralV::Boolean(b) => if t is Boolean {
            Ok(ValueV::Bool(b))
        } else {
            Err(ValueErrorV::UnsupportedLiteralCast { target: t })
        },
        LiteralV::Number(s, _) => text_cast_spec(t, s),
        LiteralV::SingleQuotedString(s) => text_cast_spec(t, s),
    }
}

/// Materializes a literal into a scalar of the named type.
pub fn value_from_literal<F: FloatOps>(t: &DataType, l: &Literal, fp: &F) -> (r: Result<
    Value,
    ValueError,
>)
    ensures
        lit_cast_determined(*t, l@) ==> res_v(r) == lit_cast_spec(*t, l@),
        !lit_cast_determined(*t, l@) ==> (r matches Ok(v) ==> v@ is F64),
        r matches Ok(v) ==> v@.wf(),
{
    match l {
        Literal::Null => Ok(Value::Null),
        Literal::Boolean(b) => {
            if matches!(t, DataType::Boolean) {
                Ok(Value::Bool(*b))
            } else {
                Err(ValueError::UnsupportedLiteralCast { target: *t })
            }
        },
        Literal::Number(s, _) => text_cast(t, s, fp),
        Literal::SingleQuotedString(s) => text_cast(t, s, fp),
    }
}

} // verus!
