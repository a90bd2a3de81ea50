//! Scalar values and deferred evaluation for an embeddable SQL expression
//! engine.
//!
//! The library answers three questions an expression evaluator asks per row:
//! whether two heterogeneously typed scalars are equal or how they are
//! ordered, what value (and type) an arithmetic operator produces on two such
//! scalars, and how a still-unresolved SQL literal behaves until it is coerced
//! into a concrete typed value.
//!
//! All computation here is over integers, booleans, strings and fixed-point
//! decimals. IEEE-754 binary64 values are carried as opaque bit patterns; the
//! embedding application supplies their arithmetic through [`float::FloatOps`].

pub mod arith;
pub mod cast;
pub mod compare;
pub mod decimal;
pub mod evaluated;
pub mod float;
pub mod laws;
pub mod literal;
pub mod text;
pub mod value;

pub use evaluated::Error;
pub use evaluated::Evaluated;
pub use float::FloatOps;
pub use literal::EvaluateError;
pub use literal::Literal;
pub use value::Dec;
pub use value::DataType;
pub use value::NumericBinaryOperator;
pub use value::Value;
pub use value::ValueError;
