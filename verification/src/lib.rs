//! A typed value algebra for symbolic execution: a program value is either a
//! fully known scalar, a named unknown, or a deferred binary computation over
//! two such values. Operators fold two known scalars into a new known scalar
//! and otherwise build a well-formed expression tree; rendering turns any
//! value into a canonical prefix-notation string; a small verdict type
//! mirrors the tri-state answer of an external satisfiability oracle.

pub mod decimal;
pub mod oracle;
pub mod render;
pub mod scalar;
pub mod value;

pub use oracle::SMTResults;
pub use oracle::verdict_from_code;
pub use value::ArithmeticError;
pub use value::ConcreteValue;
pub use value::Operation;
pub use value::SymbolicEquation;
pub use value::SymbolicVariable;
pub use value::Value;
pub use value::ValueT;
pub use value::get_concrete;
pub use value::get_symbolic;
