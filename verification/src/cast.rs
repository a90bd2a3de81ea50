//! Casting a resolved scalar to a named type.
//!
//! Casting a scalar to its own type returns it unchanged. Integer casts are
//! range-checked; texts parse; conversions into or out of binary64 go
//! through the embedder's floating-point engine, and what comes out of that
//! engine is range-checked here but otherwise left open.

use vstd::prelude::*;
use crate::arith::{dec_of, fits_exec, in_dec_range, int_parts, lemma_int_val_fits, make_int as make_int_exec};
use crate::decimal::{dec_parse, spec_dec_parse};
use crate::float::FloatOps;
use crate::text::{format_i128, int_text, lemma_lex_cmp_eq, parse_i128, parsed_i128, str_cmp};
use crate::value::{
    DataType, Dec, Value, ValueError, ValueErrorV, ValueV, fits_width, mk_int, res_v,
};

verus! {

/// The type a resolved scalar already has; `None` for `Null` and for the
/// interval pass-through.
pub open spec fn type_of(v: ValueV) -> Option<DataType> {
    match v {
        ValueV::Null => None,
        ValueV::Bool(_) => Some(DataType::Boolean),
        ValueV::I8(_) => Some(DataType::Int8),
        ValueV::I16(_) => Some(DataType::Int16),
        ValueV::I32(_) => Some(DataType::Int32),
        ValueV::I64(_) => Some(DataType::Int64),
        ValueV::I128(_) => Some(DataType::Int128),
        ValueV::F64(_) => Some(DataType::Float64),
        ValueV::Decimal(_) => Some(DataType::Decimal),
        ValueV::Str(_) => Some(DataType::Text),
        ValueV::Interval(_) => None,
    }
}

/// Whether the type names a fixed-width integer.
pub open spec fn is_int_type(t: DataType) -> bool {
    t is Int8 || t is Int16 || t is Int32 || t is Int64 || t is Int128
}

/// The width of an integer type in bits, 0 otherwise.
pub open spec fn width_of_type(t: DataType) -> nat {
    match t {
        DataType::Int8 => 8,
        DataType::Int16 => 16,
        DataType::Int32 => 32,
        DataType::Int64 => 64,
        DataType::Int128 => 128,
        _ => 0,
    }
}

/// Whether the cast is decided without the floating-point engine: every
/// cast except the numeric and text conversions into or out of binary64
/// (same-type casts included).
pub open spec fn cast_determined(t: DataType, v: ValueV) -> bool {
    if v is Null || type_of(v) == Some(t) {
        true
    } else if t is Float64 {
        !(v.is_int() || v is Str || v is Decimal)
    } else if v is F64 {
        !(is_int_type(t) || t is Text)
    } else {
        true
    }
}

/// What casting text to the type returns: integers and decimals by parsing,
/// text unchanged, the `true`/`false` words as booleans, `ImpossibleCast`
/// otherwise.
pub open spec fn text_cast_spec(t: DataType, s: Seq<char>) -> Result<ValueV, ValueErrorV> {
    if is_int_type(t) {
        match parsed_i128(s) {
            Some(x) => if fits_width(x as int, width_of_type(t)) {
                Ok(mk_int(width_of_type(t), x as int))
            } else {
                Err(ValueErrorV::ImpossibleCast)
            },
            None => Err(ValueErrorV::ImpossibleCast),
        }
    } else if t is Decimal {
        match spec_dec_parse(s) {
            Some(d) => Ok(ValueV::Decimal(d)),
            None => Err(ValueErrorV::ImpossibleCast),
        }
    } else if t is Text {
        Ok(ValueV::Str(s))
    } else if t is Boolean {
        if s == "TRUE"@ || s == "true"@ {
            Ok(ValueV::Bool(true))
        } else if s == "FALSE"@ || s == "false"@ {
            Ok(ValueV::Bool(false))
        } else {
            Err(ValueErrorV::ImpossibleCast)
        }
    } else {
        Err(ValueErrorV::ImpossibleCast)
    }
}

/// What a cast returns where the engine decides it. A null casts to null; a
/// scalar casts to its own type unchanged; integers move between widths
/// under a range check, become decimals, booleans of 0 and 1, or their
/// decimal text; text parses; everything else is `ImpossibleCast`.
pub open spec fn cast_spec(t: DataType, v: ValueV) -> Result<ValueV, ValueErrorV>
    recommends
        cast_determined(t, v),
{
    if v is Null {
        Ok(ValueV::Null)
    } else if type_of(v) == Some(t) {
        Ok(v)
    } else if v.is_int() && is_int_type(t) {
        if fits_width(v.int_val(), width_of_type(t)) {
            Ok(mk_int(width_of_type(t), v.int_val()))
        } else {
            Err(ValueErrorV::ImpossibleCast)
        }
    } else if v.is_int() && t is Decimal {
        if in_dec_range(v.int_val()) {
            Ok(ValueV::Decimal(Dec::spec_from_int(v.int_val())))
        } else {
            Err(ValueErrorV::ImpossibleCast)
        }
    } else if v.is_int() && t is Boolean {
        if v.int_val() == 0 {
            Ok(ValueV::Bool(false))
        } else if v.int_val() == 1 {
            Ok(ValueV::Bool(true))
        } else {
            Err(ValueErrorV::ImpossibleCast)
        }
    } else if v.is_int() && t is Text {
        Ok(ValueV::Str(int_text(v.int_val())))
    } else if v is Bool && is_int_type(t) {
        Ok(mk_int(width_of_type(t), if v->Bool_0 { 1int } else { 0int }))
    } else if v is Str {
        text_cast_spec(t, v->Str_0)
    } else {
        Err(ValueErrorV::ImpossibleCast)
    }
}

/// The width of an integer type.
fn type_width(t: &DataType) -> (r: u32)
    requires
        is_int_type(*t),
    ensures
        r as nat == width_of_type(*t),
        r == 8 || r == 16 || r == 32 || r == 64 || r == 128,
{
    match t {
        DataType::Int8 => 8,
        DataType::Int16 => 16,
        DataType::Int32 => 32,
        DataType::Int64 => 64,
        _ => 128,
    }
}

/// Casts text to the type, as `text_cast_spec` states.
pub(crate) fn text_cast<F: FloatOps>(t: &DataType, s: &String, fp: &F) -> (r: Result<Value, ValueError>)
    ensures
        !(*t is Float64) ==> res_v(r) == text_cast_spec(*t, s@),
        *t is Float64 ==> (r matches Ok(v) ==> v@ is F64),
        r matches Ok(v) ==> v@.wf(),
{
    match t {
        DataType::Int8 | DataType::Int16 | DataType::Int32 | DataType::Int64
            | DataType::Int128 => {
            match parse_i128(s.as_str()) {
                Some(x) => {
                    let w = type_width(t);
                    if fits_exec(x, w) {
                        Ok(make_int_exec(x, w))
                    } else {
                        Err(ValueError::ImpossibleCast)
                    }
                },
                None => Err(ValueError::ImpossibleCast),
            }
        },
        DataType::Decimal => {
            match dec_parse(s.as_str()) {
                Some(d) => Ok(Value::Decimal(d)),
                None => Err(ValueError::ImpossibleCast),
            }
        },
        DataType::Text => Ok(Value::Str(s.clone())),
        DataType::Boolean => {
            proof {
                lemma_lex_cmp_eq(s@, "TRUE"@);
                lemma_lex_cmp_eq(s@, "true"@);
                lemma_lex_cmp_eq(s@, "FALSE"@);
                lemma_lex_cmp_eq(s@, "false"@);
            }
            if matches!(str_cmp(s.as_str(), "TRUE"), core::cmp::Ordering::Equal) || matches!(
                str_cmp(s.as_str(), "true"),
                core::cmp::Ordering::Equal,
            ) {
                Ok(Value::Bool(true))
            } else if matches!(str_cmp(s.as_str(), "FALSE"), core::cmp::Ordering::Equal)
                || matches!(str_cmp(s.as_str(), "false"), core::cmp::Ordering::Equal) {
                Ok(Value::Bool(false))
            } else {
                Err(ValueError::ImpossibleCast)
            }
        },
        DataType::Float64 => {
            match fp.parse_text(s.as_str()) {
                Some(b) => Ok(Value::F64(b)),
                None => Err(ValueError::ImpossibleCast),
            }
        },
    }
}

impl Value {
    /// The type this scalar already has, as `type_of` states.
    pub fn value_type(&self) -> (r: Option<DataType>)
        ensures
            r == type_of(self@),
    {
        match self {
            Value::Null => None,
            Value::Bool(_) => Some(DataType::Boolean),
            Value::I8(_) => Some(DataType::Int8),
            Value::I16(_) => Some(DataType::Int16),
            Value::I32(_) => Some(DataType::Int32),
            Value::I64(_) => Some(DataType::Int64),
            Value::I128(_) => Some(DataType::Int128),
            Value::F64(_) => Some(DataType::Float64),
            Value::Decimal(_) => Some(DataType::Decimal),
            Value::Str(_) => Some(DataType::Text),
            Value::Interval(_) => None,
        }
    }

    /// Casts the scalar to the named type.
    ///
    /// On every cast the engine decides itself the result is exactly
    /// `cast_spec` — in particular, casting a scalar to its own type returns
    /// it unchanged. A conversion through the floating-point engine is
    /// pinned in shape: into `Float64` it returns binary64 bits, out of
    /// `Float64` into an integer type the result is range-checked here.
    pub fn cast<F: FloatOps>(&self, t: &DataType, fp: &F) -> (r: Result<Value, ValueError>)
        requires
            self@.wf(),
        ensures
            cast_determined(*t, self@) ==> res_v(r) == cast_spec(*t, self@),
            r matches Ok(v) ==> v@.wf(),
            r matches Ok(v) ==> (self@ is F64 && is_int_type(*t) ==> v@.is_int() && v@.width()
                == width_of_type(*t)),
            r matches Ok(v) ==> (*t is Float64 ==> (v@ is F64 || v@ is Null)),
    {
        if matches!(self, Value::Null) {
            return Ok(Value::Null);
        }
        match self.value_type() {
            Some(own) => {
                if own == *t {
                    return Ok(self.dup());
                }
            },
            None => {},
        }
        match self {
            Value::I8(_) | Value::I16(_) | Value::I32(_) | Value::I64(_) | Value::I128(_) => {
                proof {
                    lemma_int_val_fits(self@);
                }
                let (x, _w) = int_parts(self);
                match t {
                    DataType::Int8 | DataType::Int16 | DataType::Int32 | DataType::Int64
                        | DataType::Int128 => {
                        let w = type_width(t);
                        if fits_exec(x, w) {
                            Ok(make_int_exec(x, w))
                        } else {
                            Err(ValueError::ImpossibleCast)
                        }
                    },
                    DataType::Decimal => {
                        match dec_of(self) {
                            Some(d) => Ok(Value::Decimal(d)),
                            None => Err(ValueError::ImpossibleCast),
                        }
                    },
                    DataType::Boolean => {
                        if x == 0 {
                            Ok(Value::Bool(false))
                        } else if x == 1 {
                            Ok(Value::Bool(true))
                        } else {
                            Err(ValueError::ImpossibleCast)
                        }
                    },
                    DataType::Text => Ok(Value::Str(format_i128(x))),
                    DataType::Float64 => Ok(Value::F64(fp.of_int(x))),
                }
            },
            Value::Bool(b) => {
                match t {
                    DataType::Int8 | DataType::Int16 | DataType::Int32 | DataType::Int64
                        | DataType::Int128 => {
                        let w = type_width(t);
                        let x: i128 = if *b {
                            1
                        } else {
                            0
                        };
                        Ok(make_int_exec(x, w))
                    },
                    _ => Err(ValueError::ImpossibleCast),
                }
            },
            Value::Str(s) => text_cast(t, s, fp),
            Value::Decimal(d) => {
                match t {
                    DataType::Float64 => Ok(Value::F64(fp.of_dec(d.mantissa, d.scale))),
                    _ => Err(ValueError::ImpossibleCast),
                }
            },
            Value::F64(bits) => {
                match t {
                    DataType::Int8 | DataType::Int16 | DataType::Int32 | DataType::Int64
                        | DataType::Int128 => {
                        match fp.to_int(*bits) {
                            Some(x) => {
                                let w = type_width(t);
                                if fits_exec(x, w) {
                                    Ok(make_int_exec(x, w))
                                } else {
                                    Err(ValueError::ImpossibleCast)
                                }
                            },
                            None => Err(ValueError::ImpossibleCast),
                        }
                    },
                    DataType::Text => Ok(Value::Str(fp.to_text(*bits))),
                    _ => Err(ValueError::ImpossibleCast),
                }
            },
            _ => Err(ValueError::ImpossibleCast),
        }
    }
}

} // verus!
