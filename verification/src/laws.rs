//! The engine's stated general properties, each proved over the spec
//! functions its contracts use.

use vstd::prelude::*;
use crate::arith::{arith_determined, arith_spec};
use crate::cast::{cast_determined, cast_spec, type_of};
use crate::compare::{cmp_determined, lemma_val_cmp_eq_agree, val_cmp_spec, val_eq_spec};
use crate::text::{flip_ord, lemma_lex_cmp_antisymmetric};
use crate::value::{
    DataType, NumericBinaryOperator, ValueErrorV, ValueV, fits_width, int_int_result, mk_int,
    op_defined, op_val, rem_edge,
};

verus! {

/// Equality is commutative: swapping the operands asks the same question of
/// the engine, and where the engine decides it, the answers agree — across
/// every pair of integer and decimal representations, and across the
/// non-numeric variants.
pub proof fn lemma_eq_commutative(a: ValueV, b: ValueV)
    ensures
        cmp_determined(a, b) == cmp_determined(b, a),
        cmp_determined(a, b) ==> val_eq_spec(a, b) == val_eq_spec(b, a),
{
}

/// Ordering is consistent with equality: the comparison finds `Equal`
/// exactly where equality holds.
pub proof fn lemma_cmp_consistent_with_eq(a: ValueV, b: ValueV)
    ensures
        (val_cmp_spec(a, b) == Some(core::cmp::Ordering::Equal)) == val_eq_spec(a, b),
{
    lemma_val_cmp_eq_agree(a, b);
}

/// Ordering is antisymmetric under the swap: where the engine decides the
/// comparison, swapping the operands flips the ordering.
pub proof fn lemma_cmp_antisymmetric(a: ValueV, b: ValueV)
    ensures
        cmp_determined(a, b) ==> val_cmp_spec(a, b) == (match val_cmp_spec(b, a) {
            Some(o) => Some(flip_ord(o)),
            None => None,
        }),
{
    if (a is Str && b is Str) {
        lemma_lex_cmp_antisymmetric(a->Str_0, b->Str_0);
    }
}

/// Widen-then-check: an integer pair is computed in the wider of the two
/// widths, and overflow is reported exactly when the operator is undefined
/// on the divisor, the machine remainder edge is hit, or the true
/// mathematical result does not fit that wider width — never the narrower
/// one. Where it fits, the result is the exact value carried in the wider
/// width.
pub proof fn lemma_widen_then_check(op: NumericBinaryOperator, a: ValueV, b: ValueV)
    requires
        a.is_int(),
        b.is_int(),
    ensures
        ({
            let w = if a.width() >= b.width() {
                a.width()
            } else {
                b.width()
            };
            &&& ((int_int_result(op, a, b) is Err) <==> !(op_defined(op, b.int_val()) && !rem_edge(
                op,
                a.int_val(),
                b.int_val(),
                w,
            ) && fits_width(op_val(op, a.int_val(), b.int_val()), w)))
            &&& (int_int_result(op, a, b) is Ok ==> int_int_result(op, a, b)->Ok_0 == mk_int(
                w,
                op_val(op, a.int_val(), b.int_val()),
            ))
            &&& (int_int_result(op, a, b) is Err ==> int_int_result(op, a, b)
                == Err::<ValueV, ValueErrorV>(
                ValueErrorV::BinaryOperationOverflow { lhs: a, rhs: b, operator: op },
            ))
        }),
{
}

/// Null absorption: every operator with a null operand yields null, whatever
/// stands on the other side.
pub proof fn lemma_null_absorption(op: NumericBinaryOperator, lhs: ValueV)
    ensures
        arith_determined(op, lhs, ValueV::Null),
        arith_spec(op, lhs, ValueV::Null) == Ok::<ValueV, ValueErrorV>(ValueV::Null),
        arith_determined(op, ValueV::Null, lhs),
        arith_spec(op, ValueV::Null, lhs) == Ok::<ValueV, ValueErrorV>(ValueV::Null),
{
}

/// Cast idempotence: casting a scalar to the type it already has returns it
/// unchanged, and the result is equal to the original under the engine's own
/// equality wherever that equality is the engine's to decide.
pub proof fn lemma_cast_identity(v: ValueV, t: DataType)
    requires
        type_of(v) == Some(t),
    ensures
        cast_determined(t, v),
        cast_spec(t, v) == Ok::<ValueV, ValueErrorV>(v),
        cmp_determined(v, v) ==> val_eq_spec(v, v),
{
}

} // verus!
