//! Deferred evaluation values.
//!
//! While an expression tree is walked, a node's value may still be an
//! unresolved textual literal (borrowed from the tree or owned by the
//! evaluator) or a resolved scalar (borrowed from a row buffer or owned).
//! Operations never mutate a referent: every result is a new owned value.
//! A literal paired with a literal uses the textual fallback rules; any
//! pairing that involves a resolved scalar materializes the literal side
//! first and delegates to the scalar engine.

use vstd::prelude::*;
use crate::arith::{
    arith_determined, arith_spec, unary_minus_determined, unary_minus_spec, unary_plus_spec,
};
use crate::cast::{cast_determined, cast_spec};
use crate::compare::{cmp_determined, val_cmp_spec, val_eq_spec};
use crate::float::FloatOps;
use crate::literal::{
    EvaluateError, EvaluateErrorV, Literal, LiteralV, lit_arith_determined, lit_arith_spec,
    lit_cast_determined, lit_cast_spec, lit_cmp_determined, lit_cmp_spec, lit_unary_determined,
    lit_unary_spec, lit_value_determined, lit_value_spec, literal_binary_op, literal_partial_cmp,
    literal_to_value, literal_unary_op, value_from_literal,
};
use crate::value::{DataType, NumericBinaryOperator, Value, ValueError, ValueErrorV, ValueV};

verus! {

/// A value at one node of an expression tree: an unresolved literal or a
/// resolved scalar, each either borrowed or owned.
#[derive(Debug)]
pub enum Evaluated<'a> {
    LiteralRef(&'a Literal),
    Literal(Literal),
    ValueRef(&'a Value),
    Value(Value),
}

/// The mathematical model of an [`Evaluated`]: borrowing is invisible, only
/// the literal or scalar itself remains.
pub enum EvaluatedV {
    Literal(LiteralV),
    Value(ValueV),
}

impl<'a> View for Evaluated<'a> {
    type V = EvaluatedV;

    open spec fn view(&self) -> EvaluatedV {
        match self {
            Evaluated::LiteralRef(l) => EvaluatedV::Literal((*l)@),
            Evaluated::Literal(l) => EvaluatedV::Literal(l@),
            Evaluated::ValueRef(v) => EvaluatedV::Value((*v)@),
            Evaluated::Value(v) => EvaluatedV::Value(v@),
        }
    }
}

impl EvaluatedV {
    /// The representation invariant of the modeled value.
    pub open spec fn wf(self) -> bool {
        match self {
            EvaluatedV::Value(v) => v.wf(),
            EvaluatedV::Literal(_) => true,
        }
    }
}

/// Why evaluation failed: a scalar-level error or a literal-level error.
#[derive(Debug, Clone, PartialEq)]
pub enum Error {
    Value(ValueError),
    Evaluate(EvaluateError),
}

/// The mathematical model of an [`Error`].
pub enum ErrorV {
    Value(ValueErrorV),
    Evaluate(EvaluateErrorV),
}

impl View for Error {
    type V = ErrorV;

    open spec fn view(&self) -> ErrorV {
        match self {
            Error::Value(e) => ErrorV::Value(e@),
            Error::Evaluate(e) => ErrorV::Evaluate(e@),
        }
    }
}

/// The model of a `Result` carrying a deferred value or an error.
pub open spec fn ev_res_v<'a>(r: Result<Evaluated<'a>, Error>) -> Result<EvaluatedV, ErrorV> {
    match r {
        Ok(v) => Ok(v@),
        Err(e) => Err(e@),
    }
}

/// The model of a `Result` carrying a scalar or an error.
pub open spec fn val_res_v(r: Result<Value, Error>) -> Result<ValueV, ErrorV> {
    match r {
        Ok(v) => Ok(v@),
        Err(e) => Err(e@),
    }
}

/// Lifts a scalar result into an evaluation result.
pub open spec fn lift_val(r: Result<ValueV, ValueErrorV>) -> Result<EvaluatedV, ErrorV> {
    match r {
        Ok(v) => Ok(EvaluatedV::Value(v)),
        Err(e) => Err(ErrorV::Value(e)),
    }
}

/// Lifts a literal result into an evaluation result.
pub open spec fn lift_lit(r: Result<LiteralV, EvaluateErrorV>) -> Result<EvaluatedV, ErrorV> {
    match r {
        Ok(l) => Ok(EvaluatedV::Literal(l)),
        Err(e) => Err(ErrorV::Evaluate(e)),
    }
}

/// Whether equality of two deferred values is decided without the
/// floating-point engine.
pub open spec fn ev_eq_determined(a: EvaluatedV, b: EvaluatedV) -> bool {
    match (a, b) {
        (EvaluatedV::Literal(_), EvaluatedV::Literal(_)) => true,
        (EvaluatedV::Literal(l), EvaluatedV::Value(v)) => lit_value_determined(l) && (
        lit_value_spec(l) matches Ok(lv) ==> cmp_determined(lv, v)),
        (EvaluatedV::Value(v), EvaluatedV::Literal(l)) => lit_value_determined(l) && (
        lit_value_spec(l) matches Ok(lv) ==> cmp_determined(v, lv)),
        (EvaluatedV::Value(x), EvaluatedV::Value(y)) => cmp_determined(x, y),
    }
}

/// Whether two deferred values are equal, where it is decided: two literals
/// structurally, a literal against a scalar by materializing the literal
/// first (a literal that fails to materialize is equal to nothing), two
/// scalars by the engine's comparison matrix.
pub open spec fn ev_eq_spec(a: EvaluatedV, b: EvaluatedV) -> bool
    recommends
        ev_eq_determined(a, b),
{
    match (a, b) {
        (EvaluatedV::Literal(l), EvaluatedV::Literal(r)) => l == r,
        (EvaluatedV::Literal(l), EvaluatedV::Value(v)) => match lit_value_spec(l) {
            Ok(lv) => val_eq_spec(lv, v),
            Err(_) => false,
        },
        (EvaluatedV::Value(v), EvaluatedV::Literal(l)) => match lit_value_spec(l) {
            Ok(lv) => val_eq_spec(v, lv),
            Err(_) => false,
        },
        (EvaluatedV::Value(x), EvaluatedV::Value(y)) => val_eq_spec(x, y),
    }
}

/// Whether the ordering of two deferred values is decided without the
/// floating-point engine.
pub open spec fn ev_cmp_determined(a: EvaluatedV, b: EvaluatedV) -> bool {
    match (a, b) {
        (EvaluatedV::Literal(l), EvaluatedV::Literal(r)) => lit_cmp_determined(l, r),
        (EvaluatedV::Literal(l), EvaluatedV::Value(v)) => lit_value_determined(l) && (
        lit_value_spec(l) matches Ok(lv) ==> cmp_determined(lv, v)),
        (EvaluatedV::Value(v), EvaluatedV::Literal(l)) => lit_value_determined(l) && (
        lit_value_spec(l) matches Ok(lv) ==> cmp_determined(v, lv)),
        (EvaluatedV::Value(x), EvaluatedV::Value(y)) => cmp_determined(x, y),
    }
}

/// How two deferred values are ordered, where it is decided: two literals by
/// the textual rules, a literal against a scalar by materializing the
/// literal first (`None` when it fails to materialize), two scalars by the
/// engine's comparison matrix.
pub open spec fn ev_cmp_spec(a: EvaluatedV, b: EvaluatedV) -> Option<core::cmp::Ordering>
    recommends
        ev_cmp_determined(a, b),
{
    match (a, b) {
        (EvaluatedV::Literal(l), EvaluatedV::Literal(r)) => lit_cmp_spec(l, r),
        (EvaluatedV::Literal(l), EvaluatedV::Value(v)) => match lit_value_spec(l) {
            Ok(lv) => val_cmp_spec(lv, v),
            Err(_) => None,
        },
        (EvaluatedV::Value(v), EvaluatedV::Literal(l)) => match lit_value_spec(l) {
            Ok(lv) => val_cmp_spec(v, lv),
            Err(_) => None,
        },
        (EvaluatedV::Value(x), EvaluatedV::Value(y)) => val_cmp_spec(x, y),
    }
}

/// Whether the operator on two deferred values is decided without the
/// floating-point engine.
pub open spec fn ev_arith_determined(
    op: NumericBinaryOperator,
    a: EvaluatedV,
    b: EvaluatedV,
) -> bool {
    match (a, b) {
        (EvaluatedV::Literal(l), EvaluatedV::Literal(r)) => lit_arith_determined(op, l, r),
        (EvaluatedV::Literal(l), EvaluatedV::Value(v)) => lit_value_determined(l) && (
        lit_value_spec(l) matches Ok(lv) ==> arith_determined(op, lv, v)),
        (EvaluatedV::Value(v), EvaluatedV::Literal(l)) => lit_value_determined(l) && (
        lit_value_spec(l) matches Ok(lv) ==> arith_determined(op, v, lv)),
        (EvaluatedV::Value(x), EvaluatedV::Value(y)) => arith_determined(op, x, y),
    }
}

/// What the operator returns on two deferred values, where it is decided:
/// two literals by the textual rules, producing an owned literal; any
/// pairing with a scalar by materializing the literal side and delegating
/// to the scalar engine, producing an owned scalar; a literal that fails to
/// materialize propagates its error.
pub open spec fn ev_arith_spec(op: NumericBinaryOperator, a: EvaluatedV, b: EvaluatedV) -> Result<
    EvaluatedV,
    ErrorV,
>
    recommends
        ev_arith_determined(op, a, b),
{
    match (a, b) {
        (EvaluatedV::Literal(l), EvaluatedV::Literal(r)) => lift_lit(lit_arith_spec(op, l, r)),
        (EvaluatedV::Literal(l), EvaluatedV::Value(v)) => match lit_value_spec(l) {
            Ok(lv) => lift_val(arith_spec(op, lv, v)),
            Err(e) => Err(ErrorV::Value(e)),
        },
        (EvaluatedV::Value(v), EvaluatedV::Literal(l)) => match lit_value_spec(l) {
            Ok(lv) => lift_val(arith_spec(op, v, lv)),
            Err(e) => Err(ErrorV::Value(e)),
        },
        (EvaluatedV::Value(x), EvaluatedV::Value(y)) => lift_val(arith_spec(op, x, y)),
    }
}

/// Whether the deferred value is present in the SQL sense: everything but a
/// null literal or scalar, numeric zero and `false` included.
pub open spec fn ev_is_some(e: EvaluatedV) -> bool {
    match e {
        EvaluatedV::Literal(l) => !(l is Null),
        EvaluatedV::Value(v) => !(v is Null),
    }
}

impl<'a> Evaluated<'a> {
    /// Whether `self` and `other` are equal: literal pairs structurally,
    /// pairs with a resolved scalar by materializing the literal side first.
    pub fn eq<F: FloatOps>(&self, other: &Evaluated<'a>, fp: &F) -> (r: bool)
        requires
            self@.wf(),
            other@.wf(),
        ensures
            ev_eq_determined(self@, other@) ==> r == ev_eq_spec(self@, other@),
    {
        match (self, other) {
            (Evaluated::LiteralRef(l), Evaluated::LiteralRef(r)) => l.lit_eq(r),
            (Evaluated::LiteralRef(l), Evaluated::Literal(r)) => l.lit_eq(r),
            (Evaluated::Literal(l), Evaluated::LiteralRef(r)) => l.lit_eq(r),
            (Evaluated::Literal(l), Evaluated::Literal(r)) => l.lit_eq(r),
            (Evaluated::LiteralRef(l), Evaluated::ValueRef(v)) => lit_eq_value(l, v, fp),
            (Evaluated::LiteralRef(l), Evaluated::Value(v)) => lit_eq_value(l, v, fp),
            (Evaluated::Literal(l), Evaluated::ValueRef(v)) => lit_eq_value(l, v, fp),
            (Evaluated::Literal(l), Evaluated::Value(v)) => lit_eq_value(l, v, fp),
            (Evaluated::ValueRef(v), Evaluated::LiteralRef(l)) => value_eq_lit(v, l, fp),
            (Evaluated::ValueRef(v), Evaluated::Literal(l)) => value_eq_lit(v, l, fp),
            (Evaluated::Value(v), Evaluated::LiteralRef(l)) => value_eq_lit(v, l, fp),
            (Evaluated::Value(v), Evaluated::Literal(l)) => value_eq_lit(v, l, fp),
            (Evaluated::ValueRef(x), Evaluated::ValueRef(y)) => Value::eq(*x, *y, fp),
            (Evaluated::ValueRef(x), Evaluated::Value(y)) => Value::eq(*x, y, fp),
            (Evaluated::Value(x), Evaluated::ValueRef(y)) => Value::eq(x, *y, fp),
            (Evaluated::Value(x), Evaluated::Value(y)) => Value::eq(x, y, fp),
        }
    }

    /// How `self` and `other` are ordered: literal pairs by the textual
    /// rules, pairs with a resolved scalar by materializing the literal side
    /// first.
    pub fn partial_cmp<F: FloatOps>(&self, other: &Evaluated<'a>, fp: &F) -> (r: Option<
        core::cmp::Ordering,
    >)
        requires
            self@.wf(),
            other@.wf(),
        ensures
            ev_cmp_determined(self@, other@) ==> r == ev_cmp_spec(self@, other@),
    {
        match (self, other) {
            (Evaluated::LiteralRef(l), Evaluated::LiteralRef(r)) => literal_partial_cmp(l, r, fp),
            (Evaluated::LiteralRef(l), Evaluated::Literal(r)) => literal_partial_cmp(l, r, fp),
            (Evaluated::Literal(l), Evaluated::LiteralRef(r)) => literal_partial_cmp(l, r, fp),
            (Evaluated::Literal(l), Evaluated::Literal(r)) => literal_partial_cmp(l, r, fp),
            (Evaluated::LiteralRef(l), Evaluated::ValueRef(v)) => lit_cmp_value(l, v, fp),
            (Evaluated::LiteralRef(l), Evaluated::Value(v)) => lit_cmp_value(l, v, fp),
            (Evaluated::Literal(l), Evaluated::ValueRef(v)) => lit_cmp_value(l, v, fp),
            (Evaluated::Literal(l), Evaluated::Value(v)) => lit_cmp_value(l, v, fp),
            (Evaluated::ValueRef(v), Evaluated::LiteralRef(l)) => value_cmp_lit(v, l, fp),
            (Evaluated::ValueRef(v), Evaluated::Literal(l)) => value_cmp_lit(v, l, fp),
            (Evaluated::Value(v), Evaluated::LiteralRef(l)) => value_cmp_lit(v, l, fp),
            (Evaluated::Value(v), Evaluated::Literal(l)) => value_cmp_lit(v, l, fp),
            (Evaluated::ValueRef(x), Evaluated::ValueRef(y)) => Value::partial_cmp(*x, *y, fp),
            (Evaluated::ValueRef(x), Evaluated::Value(y)) => Value::partial_cmp(*x, y, fp),
            (Evaluated::Value(x), Evaluated::ValueRef(y)) => Value::partial_cmp(x, *y, fp),
            (Evaluated::Value(x), Evaluated::Value(y)) => Value::partial_cmp(x, y, fp),
        }
    }

    /// Applies the operator to `self` and `other`, producing an owned
    /// deferred value: a literal result on a literal pair, a scalar result
    /// otherwise.
    pub fn binary_op<F: FloatOps>(
        &self,
        op: NumericBinaryOperator,
        other: &Evaluated<'a>,
        fp: &F,
    ) -> (r: Result<Evaluated<'a>, Error>)
        requires
            self@.wf(),
            other@.wf(),
        ensures
            ev_arith_determined(op, self@, other@) ==> ev_res_v(r) == ev_arith_spec(
                op,
                self@,
                other@,
            ),
            r matches Ok(e) ==> e@.wf(),
            r matches Ok(e) ==> !(e is LiteralRef) && !(e is ValueRef),
    {
        match (self, other) {
            (Evaluated::LiteralRef(l), Evaluated::LiteralRef(r)) => lit_op_lit(op, l, r, fp),
            (Evaluated::LiteralRef(l), Evaluated::Literal(r)) => lit_op_lit(op, l, r, fp),
            (Evaluated::Literal(l), Evaluated::LiteralRef(r)) => lit_op_lit(op, l, r, fp),
            (Evaluated::Literal(l), Evaluated::Literal(r)) => lit_op_lit(op, l, r, fp),
            (Evaluated::LiteralRef(l), Evaluated::ValueRef(v)) => lit_op_value(op, l, v, fp),
            (Evaluated::LiteralRef(l), Evaluated::Value(v)) => lit_op_value(op, l, v, fp),
            (Evaluated::Literal(l), Evaluated::ValueRef(v)) => lit_op_value(op, l, v, fp),
            (Evaluated::Literal(l), Evaluated::Value(v)) => lit_op_value(op, l, v, fp),
            (Evaluated::ValueRef(v), Evaluated::LiteralRef(l)) => value_op_lit(op, v, l, fp),
            (Evaluated::ValueRef(v), Evaluated::Literal(l)) => value_op_lit(op, v, l, fp),
            (Evaluated::Value(v), Evaluated::LiteralRef(l)) => value_op_lit(op, v, l, fp),
            (Evaluated::Value(v), Evaluated::Literal(l)) => value_op_lit(op, v, l, fp),
            (Evaluated::ValueRef(x), Evaluated::ValueRef(y)) => value_op_value(op, *x, *y, fp),
            (Evaluated::ValueRef(x), Evaluated::Value(y)) => value_op_value(op, *x, y, fp),
            (Evaluated::Value(x), Evaluated::ValueRef(y)) => value_op_value(op, x, *y, fp),
            (Evaluated::Value(x), Evaluated::Value(y)) => value_op_value(op, x, y, fp),
        }
    }

    /// Addition of two deferred values.
    pub fn add<F: FloatOps>(&self, other: &Evaluated<'a>, fp: &F) -> (r: Result<
        Evaluated<'a>,
        Error,
    >)
        requires
            self@.wf(),
            other@.wf(),
        ensures
            ev_arith_determined(NumericBinaryOperator::Add, self@, other@) ==> ev_res_v(r)
                == ev_arith_spec(NumericBinaryOperator::Add, self@, other@),
            r matches Ok(e) ==> e@.wf(),
    {
        self.binary_op(NumericBinaryOperator::Add, other, fp)
    }

    /// Subtraction of two deferred values.
    pub fn subtract<F: FloatOps>(&self, other: &Evaluated<'a>, fp: &F) -> (r: Result<
        Evaluated<'a>,
        Error,
    >)
        requires
            self@.wf(),
            other@.wf(),
        ensures
            ev_arith_determined(NumericBinaryOperator::Subtract, self@, other@) ==> ev_res_v(r)
                == ev_arith_spec(NumericBinaryOperator::Subtract, self@, other@),
            r matches Ok(e) ==> e@.wf(),
    {
        self.binary_op(NumericBinaryOperator::Subtract, other, fp)
    }

    /// Multiplication of two deferred values.
    pub fn multiply<F: FloatOps>(&self, other: &Evaluated<'a>, fp: &F) -> (r: Result<
        Evaluated<'a>,
        Error,
    >)
        requires
            self@.wf(),
            other@.wf(),
        ensures
            ev_arith_determined(NumericBinaryOperator::Multiply, self@, other@) ==> ev_res_v(r)
                == ev_arith_spec(NumericBinaryOperator::Multiply, self@, other@),
            r matches Ok(e) ==> e@.wf(),
    {
        self.binary_op(NumericBinaryOperator::Multiply, other, fp)
    }

    /// Division of two deferred values.
    pub fn divide<F: FloatOps>(&self, other: &Evaluated<'a>, fp: &F) -> (r: Result<
        Evaluated<'a>,
        Error,
    >)
        requires
            self@.wf(),
            other@.wf(),
        ensures
            ev_arith_determined(NumericBinaryOperator::Divide, self@, other@) ==> ev_res_v(r)
                == ev_arith_spec(NumericBinaryOperator::Divide, self@, other@),
            r matches Ok(e) ==> e@.wf(),
    {
        self.binary_op(NumericBinaryOperator::Divide, other, fp)
    }

    /// Unary plus: identity on numeric literals and scalars, re-serializing
    /// a literal's text.
    pub fn unary_plus<F: FloatOps>(&self, fp: &F) -> (r: Result<Evaluated<'a>, Error>)
        requires
            self@.wf(),
        ensures
            ev_unary_determined(false, self@) ==> ev_res_v(r) == ev_unary_spec(false, self@),
            r matches Ok(e) ==> e@.wf(),
    {
        match self {
            Evaluated::LiteralRef(l) => lift_lit_exec(literal_unary_op(false, l, fp)),
            Evaluated::Literal(l) => lift_lit_exec(literal_unary_op(false, l, fp)),
            Evaluated::ValueRef(v) => lift_val_exec(v.unary_plus()),
            Evaluated::Value(v) => lift_val_exec(v.unary_plus()),
        }
    }

    /// Unary minus: negation of numeric literals and scalars.
    pub fn unary_minus<F: FloatOps>(&self, fp: &F) -> (r: Result<Evaluated<'a>, Error>)
        requires
            self@.wf(),
        ensures
            ev_unary_determined(true, self@) ==> ev_res_v(r) == ev_unary_spec(true, self@),
            r matches Ok(e) ==> e@.wf(),
    {
        match self {
            Evaluated::LiteralRef(l) => lift_lit_exec(literal_unary_op(true, l, fp)),
            Evaluated::Literal(l) => lift_lit_exec(literal_unary_op(true, l, fp)),
            Evaluated::ValueRef(v) => lift_val_exec(v.unary_minus(fp)),
            Evaluated::Value(v) => lift_val_exec(v.unary_minus(fp)),
        }
    }

    /// Casts the deferred value to the named type, always producing an owned
    /// resolved scalar: a literal materializes at the target type directly,
    /// a scalar casts through the engine.
    pub fn cast<F: FloatOps>(self, data_type: &DataType, fp: &F) -> (r: Result<
        Evaluated<'a>,
        Error,
    >)
        requires
            self@.wf(),
        ensures
            ev_cast_determined(*data_type, self@) ==> ev_res_v(r) == ev_cast_spec(
                *data_type,
                self@,
            ),
            r matches Ok(e) ==> e@.wf() && e is Value,
    {
        let out = match self {
            Evaluated::LiteralRef(l) => value_from_literal(data_type, l, fp),
            Evaluated::Literal(l) => value_from_literal(data_type, &l, fp),
            Evaluated::ValueRef(v) => v.cast(data_type, fp),
            Evaluated::Value(v) => v.cast(data_type, fp),
        };
        match out {
            Ok(v) => Ok(Evaluated::Value(v)),
            Err(e) => Err(Error::Value(e)),
        }
    }

    /// Forces the deferred value into a scalar: a literal materializes with
    /// its type inferred, a borrowed scalar is copied, an owned scalar is
    /// returned as it is.
    pub fn try_into<F: FloatOps>(self, fp: &F) -> (r: Result<Value, Error>)
        requires
            self@.wf(),
        ensures
            ev_value_determined(self@) ==> val_res_v(r) == lift_err(ev_value_spec(self@)),
            r matches Ok(v) ==> v@.wf(),
    {
        let out = match self {
            Evaluated::LiteralRef(l) => literal_to_value(l, fp),
            Evaluated::Literal(l) => literal_to_value(&l, fp),
            Evaluated::ValueRef(v) => Ok(v.dup()),
            Evaluated::Value(v) => Ok(v),
        };
        match out {
            Ok(v) => Ok(v),
            Err(e) => Err(Error::Value(e)),
        }
    }

    /// Whether the deferred value is present in the SQL sense: everything
    /// but a null, numeric zero and `false` included.
    pub fn is_some(&self) -> (r: bool)
        ensures
            r == ev_is_some(self@),
    {
        match self {
            Evaluated::LiteralRef(l) => !matches!(l, Literal::Null),
            Evaluated::Literal(l) => !matches!(l, Literal::Null),
            Evaluated::ValueRef(v) => v.is_some(),
            Evaluated::Value(v) => v.is_some(),
        }
    }
}

/// Whether a unary sign on the deferred value is decided without the
/// floating-point engine.
pub open spec fn ev_unary_determined(minus: bool, e: EvaluatedV) -> bool {
    match e {
        EvaluatedV::Literal(l) => lit_unary_determined(minus, l),
        EvaluatedV::Value(v) => !minus || unary_minus_determined(v),
    }
}

/// What a unary sign returns on a deferred value, where it is decided.
pub open spec fn ev_unary_spec(minus: bool, e: EvaluatedV) -> Result<EvaluatedV, ErrorV>
    recommends
        ev_unary_determined(minus, e),
{
    match e {
        EvaluatedV::Literal(l) => lift_lit(lit_unary_spec(minus, l)),
        EvaluatedV::Value(v) => lift_val(
            if minus {
                unary_minus_spec(v)
            } else {
                unary_plus_spec(v)
            },
        ),
    }
}

/// Whether casting the deferred value is decided without the floating-point
/// engine.
pub open spec fn ev_cast_determined(t: DataType, e: EvaluatedV) -> bool {
    match e {
        EvaluatedV::Literal(l) => lit_cast_determined(t, l),
        EvaluatedV::Value(v) => cast_determined(t, v),
    }
}

/// What casting the deferred value returns, where it is decided.
pub open spec fn ev_cast_spec(t: DataType, e: EvaluatedV) -> Result<EvaluatedV, ErrorV>
    recommends
        ev_cast_determined(t, e),
{
    match e {
        EvaluatedV::Literal(l) => lift_val(lit_cast_spec(t, l)),
        EvaluatedV::Value(v) => lift_val(cast_spec(t, v)),
    }
}

/// Whether forcing the deferred value into a scalar is decided without the
/// floating-point engine.
pub open spec fn ev_value_determined(e: EvaluatedV) -> bool {
    match e {
        EvaluatedV::Literal(l) => lit_value_determined(l),
        EvaluatedV::Value(_) => true,
    }
}

/// What forcing the deferred value into a scalar returns, where it is
/// decided.
pub open spec fn ev_value_spec(e: EvaluatedV) -> Result<ValueV, ValueErrorV>
    recommends
        ev_value_determined(e),
{
    match e {
        EvaluatedV::Literal(l) => lit_value_spec(l),
        EvaluatedV::Value(v) => Ok(v),
    }
}

/// Lifts a scalar error into an evaluation error.
pub open spec fn lift_err(r: Result<ValueV, ValueErrorV>) -> Result<ValueV, ErrorV> {
    match r {
        Ok(v) => Ok(v),
        Err(e) => Err(ErrorV::Value(e)),
    }
}

/// Materializes the literal and compares it to the scalar; a literal that
/// fails to materialize is equal to nothing.
fn lit_eq_value<F: FloatOps>(l: &Literal, v: &Value, fp: &F) -> (r: bool)
    requires
        v@.wf(),
    ensures
        (lit_value_determined(l@) && (lit_value_spec(l@) matches Ok(lv) ==> cmp_determined(
            lv,
            v@,
        ))) ==> r == ev_eq_spec(EvaluatedV::Literal(l@), EvaluatedV::Value(v@)),
{
    match literal_to_value(l, fp) {
        Ok(lv) => lv.eq(v, fp),
        Err(_) => false,
    }
}

/// Compares the scalar to the materialized literal.
fn value_eq_lit<F: FloatOps>(v: &Value, l: &Literal, fp: &F) -> (r: bool)
    requires
        v@.wf(),
    ensures
        (lit_value_determined(l@) && (lit_value_spec(l@) matches Ok(lv) ==> cmp_determined(
            v@,
            lv,
        ))) ==> r == ev_eq_spec(EvaluatedV::Value(v@), EvaluatedV::Literal(l@)),
{
    match literal_to_value(l, fp) {
        Ok(lv) => v.eq(&lv, fp),
        Err(_) => false,
    }
}

/// Materializes the literal and orders it against the scalar.
fn lit_cmp_value<F: FloatOps>(l: &Literal, v: &Value, fp: &F) -> (r: Option<core::cmp::Ordering>)
    requires
        v@.wf(),
    ensures
        (lit_value_determined(l@) && (lit_value_spec(l@) matches Ok(lv) ==> cmp_determined(
            lv,
            v@,
        ))) ==> r == ev_cmp_spec(EvaluatedV::Literal(l@), EvaluatedV::Value(v@)),
{
    match literal_to_value(l, fp) {
        Ok(lv) => lv.partial_cmp(v, fp),
        Err(_) => None,
    }
}

/// Orders the scalar against the materialized literal.
fn value_cmp_lit<F: FloatOps>(v: &Value, l: &Literal, fp: &F) -> (r: Option<core::cmp::Ordering>)
    requires
        v@.wf(),
    ensures
        (lit_value_determined(l@) && (lit_value_spec(l@) matches Ok(lv) ==> cmp_determined(
            v@,
            lv,
        ))) ==> r == ev_cmp_spec(EvaluatedV::Value(v@), EvaluatedV::Literal(l@)),
{
    match literal_to_value(l, fp) {
        Ok(lv) => v.partial_cmp(&lv, fp),
        Err(_) => None,
    }
}

/// The literal-by-literal arithmetic arm.
fn lit_op_lit<'a, F: FloatOps>(
    op: NumericBinaryOperator,
    l: &Literal,
    r: &Literal,
    fp: &F,
) -> (res: Result<Evaluated<'a>, Error>)
    ensures
        lit_arith_determined(op, l@, r@) ==> ev_res_v(res) == ev_arith_spec(
            op,
            EvaluatedV::Literal(l@),
            EvaluatedV::Literal(r@),
        ),
        res matches Ok(e) ==> e@.wf() && e is Literal,
{
    match literal_binary_op(op, l, r, fp) {
        Ok(lit) => Ok(Evaluated::Literal(lit)),
        Err(e) => Err(Error::Evaluate(e)),
    }
}

/// The literal-by-scalar arithmetic arm: the literal materializes first.
fn lit_op_value<'a, F: FloatOps>(
    op: NumericBinaryOperator,
    l: &Literal,
    v: &Value,
    fp: &F,
) -> (res: Result<Evaluated<'a>, Error>)
    requires
        v@.wf(),
    ensures
        (lit_value_determined(l@) && (lit_value_spec(l@) matches Ok(lv) ==> arith_determined(
            op,
            lv,
            v@,
        ))) ==> ev_res_v(res) == ev_arith_spec(op, EvaluatedV::Literal(l@), EvaluatedV::Value(v@)),
        res matches Ok(e) ==> e@.wf() && e is Value,
{
    match literal_to_value(l, fp) {
        Ok(lv) => {
            match lv.try_binary_op(op, v, fp) {
                Ok(out) => Ok(Evaluated::Value(out)),
                Err(e) => Err(Error::Value(e)),
            }
        },
        Err(e) => Err(Error::Value(e)),
    }
}

/// The scalar-by-literal arithmetic arm: the literal materializes first.
fn value_op_lit<'a, F: FloatOps>(
    op: NumericBinaryOperator,
    v: &Value,
    l: &Literal,
    fp: &F,
) -> (res: Result<Evaluated<'a>, Error>)
    requires
        v@.wf(),
    ensures
        (lit_value_determined(l@) && (lit_value_spec(l@) matches Ok(lv) ==> arith_determined(
            op,
            v@,
            lv,
        ))) ==> ev_res_v(res) == ev_arith_spec(op, EvaluatedV::Value(v@), EvaluatedV::Literal(l@)),
        res matches Ok(e) ==> e@.wf() && e is Value,
{
    match literal_to_value(l, fp) {
        Ok(lv) => {
            match v.try_binary_op(op, &lv, fp) {
                Ok(out) => Ok(Evaluated::Value(out)),
                Err(e) => Err(Error::Value(e)),
            }
        },
        Err(e) => Err(Error::Value(e)),
    }
}

/// The scalar-by-scalar arithmetic arm.
fn value_op_value<'a, F: FloatOps>(
    op: NumericBinaryOperator,
    x: &Value,
    y: &Value,
    fp: &F,
) -> (res: Result<Evaluated<'a>, Error>)
    requires
        x@.wf(),
        y@.wf(),
    ensures
        arith_determined(op, x@, y@) ==> ev_res_v(res) == ev_arith_spec(
            op,
            EvaluatedV::Value(x@),
            EvaluatedV::Value(y@),
        ),
        res matches Ok(e) ==> e@.wf() && e is Value,
{
    match x.try_binary_op(op, y, fp) {
        Ok(out) => Ok(Evaluated::Value(out)),
        Err(e) => Err(Error::Value(e)),
    }
}

/// Wraps a literal result as an owned deferred literal.
fn lift_lit_exec<'a>(r: Result<Literal, EvaluateError>) -> (res: Result<Evaluated<'a>, Error>)
    ensures
        ev_res_v(res) == lift_lit(crate::literal::lit_res_v(r)),
        res matches Ok(e) ==> e is Literal,
{
    match r {
        Ok(l) => Ok(Evaluated::Literal(l)),
        Err(e) => Err(Error::Evaluate(e)),
    }
}

/// Wraps a scalar result as an owned deferred scalar.
fn lift_val_exec<'a>(r: Result<Value, ValueError>) -> (res: Result<Evaluated<'a>, Error>)
    ensures
        ev_res_v(res) == lift_val(crate::value::res_v(r)),
        res matches Ok(e) ==> e is Value,
{
    match r {
        Ok(v) => Ok(Evaluated::Value(v)),
        Err(e) => Err(Error::Value(e)),
    }
}

} // verus!
