use sql_scalar::value::{DataType, Dec, NumericBinaryOperator, Value, ValueError};
use sql_scalar::FloatOps;
use std::cmp::Ordering;

struct Fp;

impl FloatOps for Fp {
    fn bin_op(&self, op: NumericBinaryOperator, a: u64, b: u64) -> u64 {
        let x = f64::from_bits(a);
        let y = f64::from_bits(b);
        let r = match op {
            NumericBinaryOperator::Add => x + y,
            NumericBinaryOperator::Subtract => x - y,
            NumericBinaryOperator::Multiply => x * y,
            NumericBinaryOperator::Divide => x / y,
            NumericBinaryOperator::Modulo => x % y,
        };
        r.to_bits()
    }

    fn neg(&self, a: u64) -> u64 {
        (-f64::from_bits(a)).to_bits()
    }

    fn of_int(&self, v: i128) -> u64 {
        (v as f64).to_bits()
    }

    fn of_dec(&self, mantissa: i128, scale: u32) -> u64 {
        ((mantissa as f64) / 10f64.powi(scale as i32)).to_bits()
    }

    fn to_int(&self, a: u64) -> Option<i128> {
        let x = f64::from_bits(a);
        if x.is_finite() && x.abs() < 2f64.powi(96) {
            Some(x.trunc() as i128)
        } else {
            None
        }
    }

    fn eq_eps(&self, a: u64, b: u64) -> bool {
        (f64::from_bits(a) - f64::from_bits(b)).abs() < f64::EPSILON
    }

    fn cmp_bits(&self, a: u64, b: u64) -> Option<Ordering> {
        f64::from_bits(a).partial_cmp(&f64::from_bits(b))
    }

    fn parse_text(&self, s: &str) -> Option<u64> {
        s.parse::<f64>().ok().map(|v| v.to_bits())
    }

    fn to_text(&self, a: u64) -> String {
        f64::from_bits(a).to_string()
    }
}

fn dec(mantissa: i128, scale: u32) -> Value {
    Value::Decimal(Dec { mantissa, scale })
}

#[test]
fn equality_commutes_across_representations() {
    let pairs = vec![
        (Value::I8(5), Value::I64(5)),
        (Value::I16(5), Value::I128(5)),
        (Value::I32(3), dec(3, 0)),
        (dec(15, 1), dec(150, 2)),
        (Value::I16(1), Value::F64(1.0f64.to_bits())),
        (Value::F64(2.5f64.to_bits()), dec(25, 1)),
        (Value::I16(1), Value::Bool(true)),
        (Value::Str("a".to_string()), Value::Str("a".to_string())),
        (Value::Null, Value::I16(0)),
    ];
    for (a, b) in pairs {
        assert_eq!(a.eq(&b, &Fp), b.eq(&a, &Fp));
    }
}

#[test]
fn ordering_consistent_with_equality() {
    let pairs = vec![
        (Value::I8(5), Value::I64(5)),
        (Value::I16(4), Value::I64(5)),
        (Value::I32(3), dec(3, 0)),
        (dec(15, 1), dec(150, 2)),
        (dec(15, 1), dec(151, 2)),
        (Value::Str("ab".to_string()), Value::Str("ab".to_string())),
        (Value::Str("ab".to_string()), Value::Str("ac".to_string())),
        (Value::Bool(false), Value::Bool(true)),
        (Value::Interval(7), Value::Interval(7)),
    ];
    for (a, b) in pairs {
        assert_eq!(
            a.partial_cmp(&b, &Fp) == Some(Ordering::Equal),
            a.eq(&b, &Fp)
        );
    }
}

#[test]
fn widen_then_check() {
    // the checked step runs in the wider of the two widths
    assert_eq!(
        Value::I16(i16::MAX).try_add(&Value::I32(1), &Fp),
        Ok(Value::I32(32768))
    );
    assert_eq!(
        Value::I16(i16::MAX).try_add(&Value::I16(1), &Fp),
        Err(ValueError::BinaryOperationOverflow {
            lhs: Value::I16(32767),
            rhs: Value::I16(1),
            operator: NumericBinaryOperator::Add
        })
    );
    // the narrower operand widens losslessly whichever side it stands on
    assert_eq!(
        Value::I32(1).try_add(&Value::I16(i16::MAX), &Fp),
        Ok(Value::I32(32768))
    );
}

#[test]
fn null_absorbs_every_operator() {
    let lhss = vec![
        Value::I8(1),
        Value::I16(7),
        Value::I32(7),
        Value::I64(7),
        Value::I128(7),
        Value::F64(1.5f64.to_bits()),
        dec(2, 0),
    ];
    for lhs in lhss {
        assert_eq!(lhs.try_add(&Value::Null, &Fp), Ok(Value::Null));
        assert_eq!(lhs.try_subtract(&Value::Null, &Fp), Ok(Value::Null));
        assert_eq!(lhs.try_multiply(&Value::Null, &Fp), Ok(Value::Null));
        assert_eq!(lhs.try_divide(&Value::Null, &Fp), Ok(Value::Null));
        assert_eq!(lhs.try_modulo(&Value::Null, &Fp), Ok(Value::Null));
        assert_eq!(Value::Null.try_add(&lhs, &Fp), Ok(Value::Null));
        assert_eq!(Value::Null.try_divide(&lhs, &Fp), Ok(Value::Null));
    }
}

#[test]
fn zero_divisor_reporting() {
    assert_eq!(
        Value::I16(32767).try_divide(&Value::I8(0), &Fp),
        Err(ValueError::BinaryOperationOverflow {
            lhs: Value::I16(32767),
            rhs: Value::I8(0),
            operator: NumericBinaryOperator::Divide
        })
    );
    // a zero binary64 divisor follows IEEE-754 and reports nothing
    match Value::I16(32767).try_divide(&Value::F64(0.0f64.to_bits()), &Fp) {
        Ok(Value::F64(bits)) => assert!(f64::from_bits(bits).is_infinite()),
        other => panic!("expected an infinite binary64, got {:?}", other),
    }
    // a zero decimal divisor is a checked-decimal failure
    assert_eq!(
        Value::I16(6).try_divide(&dec(0, 0), &Fp),
        Err(ValueError::BinaryOperationOverflow {
            lhs: Value::I16(6),
            rhs: dec(0, 0),
            operator: NumericBinaryOperator::Divide
        })
    );
}

#[test]
fn non_numeric_rejection() {
    assert_eq!(
        Value::I16(1).try_add(&Value::Bool(true), &Fp),
        Err(ValueError::NonNumericMathOperation {
            lhs: Value::I16(1),
            operator: NumericBinaryOperator::Add,
            rhs: Value::Bool(true)
        })
    );
    assert_eq!(
        Value::Str("x".to_string()).try_multiply(&Value::I16(1), &Fp),
        Err(ValueError::NonNumericMathOperation {
            lhs: Value::Str("x".to_string()),
            operator: NumericBinaryOperator::Multiply,
            rhs: Value::I16(1)
        })
    );
}

#[test]
fn decimal_arithmetic_is_checked() {
    assert_eq!(
        dec(2, 0).try_multiply(&Value::I16(3), &Fp),
        Ok(dec(6, 0))
    );
    assert_eq!(
        dec(5, 0).try_subtract(&dec(2, 0), &Fp),
        Ok(dec(3, 0))
    );
    assert_eq!(
        dec(9, 0).try_modulo(&dec(2, 0), &Fp),
        Ok(dec(1, 0))
    );
    // half as a decimal: 3 / 2 = 1.5 (the crate may keep trailing scale)
    assert!(Value::I16(3)
        .try_divide(&dec(2, 0), &Fp)
        .unwrap()
        .eq(&dec(15, 1), &Fp));
    let big = 79228162514264337593543950335i128;
    assert_eq!(
        dec(big, 0).try_add(&Value::I16(1), &Fp),
        Err(ValueError::BinaryOperationOverflow {
            lhs: dec(big, 0),
            rhs: Value::I16(1),
            operator: NumericBinaryOperator::Add
        })
    );
}

#[test]
fn big_integers_order_against_decimals_by_sign() {
    let big = 1267650600228229401496703205376i128;
    assert_eq!(
        Value::I128(big).partial_cmp(&dec(1, 0), &Fp),
        Some(Ordering::Greater)
    );
    assert_eq!(
        Value::I128(-big).partial_cmp(&dec(1, 0), &Fp),
        Some(Ordering::Less)
    );
    assert!(!Value::I128(big).eq(&dec(1, 0), &Fp));
}

#[test]
fn interval_scales_under_multiplication() {
    assert_eq!(
        Value::I16(3).try_multiply(&Value::Interval(1000), &Fp),
        Ok(Value::Interval(3000))
    );
    assert_eq!(
        Value::Interval(1000).try_multiply(&Value::I8(-2), &Fp),
        Ok(Value::Interval(-2000))
    );
    assert_eq!(
        Value::I16(3).try_add(&Value::Interval(1000), &Fp),
        Err(ValueError::NonNumericMathOperation {
            lhs: Value::I16(3),
            operator: NumericBinaryOperator::Add,
            rhs: Value::Interval(1000)
        })
    );
}

#[test]
fn unary_sign_operators() {
    assert_eq!(Value::I16(5).unary_minus(&Fp), Ok(Value::I16(-5)));
    assert_eq!(Value::I16(5).unary_plus(), Ok(Value::I16(5)));
    assert_eq!(
        Value::I16(i16::MIN).unary_minus(&Fp),
        Err(ValueError::UnaryOperationOverflow {
            value: Value::I16(i16::MIN)
        })
    );
    assert_eq!(dec(25, 1).unary_minus(&Fp), Ok(dec(-25, 1)));
    assert_eq!(Value::Null.unary_minus(&Fp), Ok(Value::Null));
    assert_eq!(
        Value::Bool(true).unary_minus(&Fp),
        Err(ValueError::UnaryOperationOnNonNumeric {
            value: Value::Bool(true)
        })
    );
    match Value::F64(2.0f64.to_bits()).unary_minus(&Fp) {
        Ok(Value::F64(bits)) => assert_eq!(f64::from_bits(bits), -2.0),
        other => panic!("expected a binary64, got {:?}", other),
    }
}

#[test]
fn cast_between_types() {
    assert_eq!(
        Value::I16(100).cast(&DataType::Int8, &Fp),
        Ok(Value::I8(100))
    );
    assert_eq!(
        Value::I16(300).cast(&DataType::Int8, &Fp),
        Err(ValueError::ImpossibleCast)
    );
    assert_eq!(
        Value::I16(5).cast(&DataType::Decimal, &Fp),
        Ok(dec(5, 0))
    );
    assert_eq!(
        Value::I64(42).cast(&DataType::Text, &Fp),
        Ok(Value::Str("42".to_string()))
    );
    assert_eq!(
        Value::I64(-42).cast(&DataType::Text, &Fp),
        Ok(Value::Str("-42".to_string()))
    );
    assert_eq!(
        Value::Str("123".to_string()).cast(&DataType::Int32, &Fp),
        Ok(Value::I32(123))
    );
    assert_eq!(
        Value::Str("1.5".to_string()).cast(&DataType::Decimal, &Fp),
        Ok(dec(15, 1))
    );
    assert_eq!(
        Value::Str("true".to_string()).cast(&DataType::Boolean, &Fp),
        Ok(Value::Bool(true))
    );
    assert_eq!(
        Value::Bool(true).cast(&DataType::Int32, &Fp),
        Ok(Value::I32(1))
    );
    assert_eq!(
        Value::I16(0).cast(&DataType::Boolean, &Fp),
        Ok(Value::Bool(false))
    );
    match Value::F64(2.9f64.to_bits()).cast(&DataType::Int32, &Fp) {
        Ok(Value::I32(x)) => assert_eq!(x, 2),
        other => panic!("expected a 32-bit integer, got {:?}", other),
    }
}

#[test]
fn cast_to_own_type_is_identity() {
    let cases = vec![
        (Value::I8(5), DataType::Int8),
        (Value::I16(5), DataType::Int16),
        (Value::I32(5), DataType::Int32),
        (Value::I64(5), DataType::Int64),
        (Value::I128(5), DataType::Int128),
        (Value::Bool(true), DataType::Boolean),
        (dec(25, 1), DataType::Decimal),
        (Value::Str("hi".to_string()), DataType::Text),
        (Value::F64(2.5f64.to_bits()), DataType::Float64),
    ];
    for (v, t) in cases {
        let out = v.cast(&t, &Fp).unwrap();
        assert_eq!(out, v);
        if !matches!(v, Value::F64(_)) {
            assert!(out.eq(&v, &Fp));
        }
    }
    assert_eq!(Value::Null.cast(&DataType::Int64, &Fp), Ok(Value::Null));
}

#[test]
fn presence_is_null_absence() {
    assert!(!Value::Null.is_some());
    assert!(Value::I16(0).is_some());
    assert!(Value::Bool(false).is_some());
    assert!(Value::Str(String::new()).is_some());
}
