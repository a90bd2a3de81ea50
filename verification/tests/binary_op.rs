use sql_scalar::value::{Dec, NumericBinaryOperator, Value, ValueError};
use sql_scalar::FloatOps;
use std::cmp::Ordering;

struct Fp;

impl FloatOps for Fp {
    fn bin_op(&self, op: NumericBinaryOperator, a: u64, b: u64) -> u64 {
        let x = f64::from_bits(a);
        let y = f64::from_bits(b);
        let r = match op {
            NumericBinaryOperator::Add => x + y,
            NumericBinaryOperator::Subtract => x - y,
            NumericBinaryOperator::Multiply => x * y,
            NumericBinaryOperator::Divide => x / y,
            NumericBinaryOperator::Modulo => x % y,
        };
        r.to_bits()
    }

    fn neg(&self, a: u64) -> u64 {
        (-f64::from_bits(a)).to_bits()
    }

    fn of_int(&self, v: i128) -> u64 {
        (v as f64).to_bits()
    }

    fn of_dec(&self, mantissa: i128, scale: u32) -> u64 {
        ((mantissa as f64) / 10f64.powi(scale as i32)).to_bits()
    }

    fn to_int(&self, a: u64) -> Option<i128> {
        let x = f64::from_bits(a);
        if x.is_finite() && x.abs() < 2f64.powi(96) {
            Some(x.trunc() as i128)
        } else {
            None
        }
    }

    fn eq_eps(&self, a: u64, b: u64) -> bool {
        (f64::from_bits(a) - f64::from_bits(b)).abs() < f64::EPSILON
    }

    fn cmp_bits(&self, a: u64, b: u64) -> Option<Ordering> {
        f64::from_bits(a).partial_cmp(&f64::from_bits(b))
    }

    fn parse_text(&self, s: &str) -> Option<u64> {
        s.parse::<f64>().ok().map(|v| v.to_bits())
    }

    fn to_text(&self, a: u64) -> String {
        f64::from_bits(a).to_string()
    }
}

fn overflow(lhs: Value, rhs: Value, operator: NumericBinaryOperator) -> Result<Value, ValueError> {
    Err(ValueError::BinaryOperationOverflow { lhs, rhs, operator })
}

use NumericBinaryOperator::{Add, Divide, Modulo, Multiply, Subtract};
use Value::{I128, I16, I32, I64, I8};

#[test]
fn test_extremes() {
    assert!(I16(-1).eq(&I16(-1), &Fp));
    assert!(I16(0).eq(&I16(0), &Fp));
    assert!(I16(1).eq(&I16(1), &Fp));
    assert!(I16(i16::MAX).eq(&I16(i16::MAX), &Fp));
    assert!(I16(i16::MIN).eq(&I16(i16::MIN), &Fp));

    assert_eq!(
        I16(i16::MAX).try_add(&I16(1), &Fp),
        overflow(I16(i16::MAX), I16(1), Add)
    );

    assert_eq!(
        I16(i16::MAX).try_add(&I32(1), &Fp),
        Ok(I32(i16::MAX as i32 + 1))
    );
    assert_eq!(
        I16(i16::MAX).try_add(&I64(1), &Fp),
        Ok(I64(i16::MAX as i64 + 1))
    );
    assert_eq!(
        I16(i16::MAX).try_add(&I128(1), &Fp),
        Ok(I128(i16::MAX as i128 + 1))
    );

    assert_eq!(
        I16(i16::MAX).try_add(&I16(i16::MAX), &Fp),
        overflow(I16(i16::MAX), I16(i16::MAX), Add)
    );
    assert_eq!(
        I16(i16::MAX).try_add(&I32(i32::MAX), &Fp),
        overflow(I16(i16::MAX), I32(i32::MAX), Add)
    );
    assert_eq!(
        I16(i16::MAX).try_add(&I64(i64::MAX), &Fp),
        overflow(I16(i16::MAX), I64(i64::MAX), Add)
    );
    assert_eq!(
        I16(i16::MAX).try_add(&I128(i128::MAX), &Fp),
        overflow(I16(i16::MAX), I128(i128::MAX), Add)
    );

    assert_eq!(
        I16(i16::MIN).try_subtract(&I8(1), &Fp),
        overflow(I16(i16::MIN), I8(1), Subtract)
    );
    assert_eq!(
        I16(i16::MIN).try_subtract(&I16(1), &Fp),
        overflow(I16(i16::MIN), I16(1), Subtract)
    );

    // these do not overflow, since the checked step runs in the wider width
    assert_eq!(
        I16(i16::MIN).try_subtract(&I32(1), &Fp),
        Ok(I32(i16::MIN as i32 - 1))
    );
    assert_eq!(
        I16(i16::MIN).try_subtract(&I64(1), &Fp),
        Ok(I64(i16::MIN as i64 - 1))
    );
    assert_eq!(
        I16(i16::MIN).try_subtract(&I128(1), &Fp),
        Ok(I128(i16::MIN as i128 - 1))
    );

    assert_eq!(
        I16(i16::MIN).try_subtract(&I16(i16::MAX), &Fp),
        overflow(I16(i16::MIN), I16(i16::MAX), Subtract)
    );
    assert_eq!(
        I16(i16::MIN).try_subtract(&I32(i32::MAX), &Fp),
        overflow(I16(i16::MIN), I32(i32::MAX), Subtract)
    );
    assert_eq!(
        I16(i16::MIN).try_subtract(&I64(i64::MAX), &Fp),
        overflow(I16(i16::MIN), I64(i64::MAX), Subtract)
    );
    assert_eq!(
        I16(i16::MIN).try_subtract(&I128(i128::MAX), &Fp),
        overflow(I16(i16::MIN), I128(i128::MAX), Subtract)
    );

    assert_eq!(I16(i16::MAX).try_multiply(&I8(1), &Fp), Ok(I16(i16::MAX)));
    assert_eq!(I16(i16::MAX).try_multiply(&I16(1), &Fp), Ok(I16(i16::MAX)));
    assert_eq!(
        I16(i16::MAX).try_multiply(&I32(1), &Fp),
        Ok(I32(i16::MAX as i32))
    );
    assert_eq!(
        I16(i16::MAX).try_multiply(&I64(1), &Fp),
        Ok(I64(i16::MAX as i64))
    );
    assert_eq!(
        I16(i16::MAX).try_multiply(&I128(1), &Fp),
        Ok(I128(i16::MAX as i128))
    );

    assert_eq!(
        I16(i16::MAX).try_multiply(&I8(2), &Fp),
        overflow(I16(i16::MAX), I8(2), Multiply)
    );
    assert_eq!(
        I16(i16::MAX).try_multiply(&I16(2), &Fp),
        overflow(I16(i16::MAX), I16(2), Multiply)
    );
    assert_eq!(
        I16(2).try_multiply(&I32(i32::MAX), &Fp),
        overflow(I16(2), I32(i32::MAX), Multiply)
    );
    assert_eq!(
        I16(2).try_multiply(&I64(i64::MAX), &Fp),
        overflow(I16(2), I64(i64::MAX), Multiply)
    );
    assert_eq!(
        I16(2).try_multiply(&I128(i128::MAX), &Fp),
        overflow(I16(2), I128(i128::MAX), Multiply)
    );

    assert_eq!(
        I16(i16::MAX).try_divide(&I8(0), &Fp),
        overflow(I16(i16::MAX), I8(0), Divide)
    );
    assert_eq!(
        I16(i16::MAX).try_divide(&I16(0), &Fp),
        overflow(I16(i16::MAX), I16(0), Divide)
    );
    assert_eq!(
        I16(i16::MAX).try_divide(&I32(0), &Fp),
        overflow(I16(i16::MAX), I32(0), Divide)
    );
    assert_eq!(
        I16(i16::MAX).try_divide(&I64(0), &Fp),
        overflow(I16(i16::MAX), I64(0), Divide)
    );
    assert_eq!(
        I16(i16::MAX).try_divide(&I128(0), &Fp),
        overflow(I16(i16::MAX), I128(0), Divide)
    );

    assert_eq!(
        I16(i16::MAX).try_modulo(&I8(0), &Fp),
        overflow(I16(i16::MAX), I8(0), Modulo)
    );
    assert_eq!(
        I16(i16::MAX).try_modulo(&I16(0), &Fp),
        overflow(I16(i16::MAX), I16(0), Modulo)
    );
    assert_eq!(
        I16(i16::MAX).try_modulo(&I32(0), &Fp),
        overflow(I16(i16::MAX), I32(0), Modulo)
    );
    assert_eq!(
        I16(i16::MAX).try_modulo(&I64(0), &Fp),
        overflow(I16(i16::MAX), I64(0), Modulo)
    );
    assert_eq!(
        I16(i16::MAX).try_modulo(&I128(0), &Fp),
        overflow(I16(i16::MAX), I128(0), Modulo)
    );
}

#[test]
fn eq() {
    let base = Value::I16(1);

    assert!(base.eq(&Value::I8(1), &Fp));
    assert!(base.eq(&Value::I16(1), &Fp));
    assert!(base.eq(&Value::I32(1), &Fp));
    assert!(base.eq(&Value::I64(1), &Fp));
    assert!(base.eq(&Value::I128(1), &Fp));
    assert!(base.eq(&Value::F64(1.0f64.to_bits()), &Fp));
    assert!(base.eq(&Value::Decimal(Dec { mantissa: 1, scale: 0 }), &Fp));

    assert!(!base.eq(&Value::Bool(true), &Fp));
}

#[test]
fn partial_cmp() {
    let base = Value::I16(1);

    assert_eq!(base.partial_cmp(&Value::I8(0), &Fp), Some(Ordering::Greater));
    assert_eq!(base.partial_cmp(&Value::I16(0), &Fp), Some(Ordering::Greater));
    assert_eq!(base.partial_cmp(&Value::I32(0), &Fp), Some(Ordering::Greater));
    assert_eq!(base.partial_cmp(&Value::I64(0), &Fp), Some(Ordering::Greater));
    assert_eq!(base.partial_cmp(&Value::I128(0), &Fp), Some(Ordering::Greater));
    assert_eq!(
        base.partial_cmp(&Value::F64(0.0f64.to_bits()), &Fp),
        Some(Ordering::Greater)
    );

    assert_eq!(base.partial_cmp(&Value::I8(1), &Fp), Some(Ordering::Equal));
    assert_eq!(base.partial_cmp(&Value::I16(1), &Fp), Some(Ordering::Equal));
    assert_eq!(base.partial_cmp(&Value::I32(1), &Fp), Some(Ordering::Equal));
    assert_eq!(base.partial_cmp(&Value::I64(1), &Fp), Some(Ordering::Equal));
    assert_eq!(base.partial_cmp(&Value::I128(1), &Fp), Some(Ordering::Equal));
    assert_eq!(
        base.partial_cmp(&Value::F64(1.0f64.to_bits()), &Fp),
        Some(Ordering::Equal)
    );

    assert_eq!(base.partial_cmp(&Value::I8(2), &Fp), Some(Ordering::Less));
    assert_eq!(base.partial_cmp(&Value::I16(2), &Fp), Some(Ordering::Less));
    assert_eq!(base.partial_cmp(&Value::I32(2), &Fp), Some(Ordering::Less));
    assert_eq!(base.partial_cmp(&Value::I64(2), &Fp), Some(Ordering::Less));
    assert_eq!(base.partial_cmp(&Value::I128(2), &Fp), Some(Ordering::Less));
    assert_eq!(
        base.partial_cmp(&Value::F64(2.0f64.to_bits()), &Fp),
        Some(Ordering::Less)
    );

    assert_eq!(
        base.partial_cmp(&Value::Decimal(Dec { mantissa: 1, scale: 0 }), &Fp),
        Some(Ordering::Equal)
    );

    assert_eq!(base.partial_cmp(&Value::Bool(true), &Fp), None);
}

#[test]
fn try_add() {
    let base = Value::I16(1);

    assert_eq!(base.try_add(&Value::I8(1), &Fp), Ok(Value::I16(2)));
    assert_eq!(base.try_add(&Value::I16(1), &Fp), Ok(Value::I16(2)));
    assert_eq!(base.try_add(&Value::I32(1), &Fp), Ok(Value::I32(2)));
    assert_eq!(base.try_add(&Value::I64(1), &Fp), Ok(Value::I64(2)));
    assert_eq!(base.try_add(&Value::I128(1), &Fp), Ok(Value::I128(2)));

    assert!(matches!(
        base.try_add(&Value::F64(1.0f64.to_bits()), &Fp),
        Ok(Value::F64(x)) if (f64::from_bits(x) - 2.0).abs() < f64::EPSILON
    ));
    assert_eq!(
        base.try_add(&Value::Decimal(Dec { mantissa: 1, scale: 0 }), &Fp),
        Ok(Value::Decimal(Dec { mantissa: 2, scale: 0 }))
    );

    assert_eq!(
        base.try_add(&Value::Bool(true), &Fp),
        Err(ValueError::NonNumericMathOperation {
            lhs: Value::I16(1),
            operator: NumericBinaryOperator::Add,
            rhs: Value::Bool(true)
        })
    );
}

#[test]
fn try_subtract() {
    let base = Value::I16(1);

    assert_eq!(base.try_subtract(&Value::I8(1), &Fp), Ok(Value::I16(0)));
    assert_eq!(base.try_subtract(&Value::I16(1), &Fp), Ok(Value::I16(0)));
    assert_eq!(base.try_subtract(&Value::I32(1), &Fp), Ok(Value::I32(0)));
    assert_eq!(base.try_subtract(&Value::I64(1), &Fp), Ok(Value::I64(0)));
    assert_eq!(base.try_subtract(&Value::I128(1), &Fp), Ok(Value::I128(0)));

    assert!(matches!(
        base.try_subtract(&Value::F64(1.0f64.to_bits()), &Fp),
        Ok(Value::F64(x)) if (f64::from_bits(x) - 0.0).abs() < f64::EPSILON
    ));

    assert_eq!(
        base.try_subtract(&Value::Decimal(Dec { mantissa: 1, scale: 0 }), &Fp),
        Ok(Value::Decimal(Dec { mantissa: 0, scale: 0 }))
    );

    assert_eq!(
        base.try_subtract(&Value::Bool(true), &Fp),
        Err(ValueError::NonNumericMathOperation {
            lhs: Value::I16(1),
            operator: NumericBinaryOperator::Subtract,
            rhs: Value::Bool(true)
        })
    );
}

#[test]
fn try_multiply() {
    let base = Value::I16(3);

    // 3 * 2 = 6
    assert_eq!(base.try_multiply(&Value::I8(2), &Fp), Ok(Value::I16(6)));
    assert_eq!(base.try_multiply(&Value::I16(2), &Fp), Ok(Value::I16(6)));
    assert_eq!(base.try_multiply(&Value::I32(2), &Fp), Ok(Value::I32(6)));
    assert_eq!(base.try_multiply(&Value::I64(2), &Fp), Ok(Value::I64(6)));
    assert_eq!(base.try_multiply(&Value::I128(2), &Fp), Ok(Value::I128(6)));

    // the result stands in the wider width; it equals -3 at every width
    assert!(base
        .try_multiply(&Value::I8(-1), &Fp)
        .unwrap()
        .eq(&Value::I8(-3), &Fp));
    assert_eq!(base.try_multiply(&Value::I32(-1), &Fp), Ok(Value::I32(-3)));
    assert_eq!(base.try_multiply(&Value::I64(-1), &Fp), Ok(Value::I64(-3)));
    assert_eq!(base.try_multiply(&Value::I128(-1), &Fp), Ok(Value::I128(-3)));

    assert!(matches!(
        base.try_multiply(&Value::F64(1.0f64.to_bits()), &Fp),
        Ok(Value::F64(x)) if (f64::from_bits(x) - 3.0).abs() < f64::EPSILON
    ));

    assert_eq!(
        base.try_multiply(&Value::Decimal(Dec { mantissa: 1, scale: 0 }), &Fp),
        Ok(Value::Decimal(Dec { mantissa: 3, scale: 0 }))
    );

    assert_eq!(
        base.try_multiply(&Value::Bool(true), &Fp),
        Err(ValueError::NonNumericMathOperation {
            lhs: Value::I16(3),
            operator: NumericBinaryOperator::Multiply,
            rhs: Value::Bool(true)
        })
    );
}

#[test]
fn try_divide() {
    let base = Value::I16(6);

    assert_eq!(base.try_divide(&Value::I8(2), &Fp), Ok(Value::I16(3)));
    assert_eq!(base.try_divide(&Value::I16(2), &Fp), Ok(Value::I16(3)));
    assert_eq!(base.try_divide(&Value::I32(2), &Fp), Ok(Value::I32(3)));
    assert_eq!(base.try_divide(&Value::I64(2), &Fp), Ok(Value::I64(3)));
    assert_eq!(base.try_divide(&Value::I128(2), &Fp), Ok(Value::I128(3)));

    assert!(base
        .try_divide(&Value::I8(-6), &Fp)
        .unwrap()
        .eq(&Value::I8(-1), &Fp));
    assert_eq!(base.try_divide(&Value::I32(-6), &Fp), Ok(Value::I32(-1)));
    assert_eq!(base.try_divide(&Value::I64(-6), &Fp), Ok(Value::I64(-1)));
    assert_eq!(base.try_divide(&Value::I128(-6), &Fp), Ok(Value::I128(-1)));

    assert!(matches!(
        base.try_divide(&Value::F64(1.0f64.to_bits()), &Fp),
        Ok(Value::F64(x)) if (f64::from_bits(x) - 6.0).abs() < f64::EPSILON
    ));

    assert_eq!(
        base.try_divide(&Value::Decimal(Dec { mantissa: 1, scale: 0 }), &Fp),
        Ok(Value::Decimal(Dec { mantissa: 6, scale: 0 }))
    );

    assert_eq!(
        base.try_divide(&Value::Bool(true), &Fp),
        Err(ValueError::NonNumericMathOperation {
            lhs: Value::I16(6),
            operator: NumericBinaryOperator::Divide,
            rhs: Value::Bool(true)
        })
    );
}

#[test]
fn try_modulo() {
    let base = Value::I16(9);

    assert_eq!(base.try_modulo(&Value::I8(1), &Fp), Ok(Value::I16(0)));
    assert_eq!(base.try_modulo(&Value::I16(1), &Fp), Ok(Value::I16(0)));
    assert_eq!(base.try_modulo(&Value::I32(1), &Fp), Ok(Value::I32(0)));
    assert_eq!(base.try_modulo(&Value::I64(1), &Fp), Ok(Value::I64(0)));
    assert_eq!(base.try_modulo(&Value::I128(1), &Fp), Ok(Value::I128(0)));

    assert_eq!(base.try_modulo(&Value::I8(2), &Fp), Ok(Value::I16(1)));
    assert_eq!(base.try_modulo(&Value::I16(2), &Fp), Ok(Value::I16(1)));
    assert_eq!(base.try_modulo(&Value::I32(2), &Fp), Ok(Value::I32(1)));
    assert_eq!(base.try_modulo(&Value::I64(2), &Fp), Ok(Value::I64(1)));
    assert_eq!(base.try_modulo(&Value::I128(2), &Fp), Ok(Value::I128(1)));

    assert!(matches!(
        base.try_modulo(&Value::F64(1.0f64.to_bits()), &Fp),
        Ok(Value::F64(x)) if f64::from_bits(x).abs() < f64::EPSILON
    ));
    assert_eq!(
        base.try_modulo(&Value::Decimal(Dec { mantissa: 1, scale: 0 }), &Fp),
        Ok(Value::Decimal(Dec { mantissa: 0, scale: 0 }))
    );

    assert_eq!(
        base.try_modulo(&Value::Bool(true), &Fp),
        Err(ValueError::NonNumericMathOperation {
            lhs: Value::I16(9),
            operator: NumericBinaryOperator::Modulo,
            rhs: Value::Bool(true)
        })
    );
}
