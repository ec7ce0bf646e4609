//! Scalar payload types for the algebra: the typed scalar contract
//! implemented for fixed-width unsigned integers. Each operation fails
//! exactly where its mathematical result leaves the type's range, and
//! division fails on a zero divisor.

use vstd::prelude::*;

use crate::decimal::render_u64;
use crate::decimal::spec_dec;
use crate::value::ArithmeticError;
use crate::value::Operation;
use crate::value::ValueT;

verus! {

impl ValueT for u8 {
    open spec fn scalar_defined(self, other: Self, op: Operation) -> bool {
        match op {
            Operation::ADD => self + other <= u8::MAX,
            Operation::SUB => self >= other,
            Operation::MUL => self * other <= u8::MAX,
            Operation::DIV => other != 0,
            Operation::AND => true,
            Operation::OR => true,
            Operation::XOR => true,
        }
    }

    open spec fn scalar_eval(self, other: Self, op: Operation) -> Self {
        match op {
            Operation::ADD => (self + other) as u8,
            Operation::SUB => (self - other) as u8,
            Operation::MUL => (self * other) as u8,
            Operation::DIV => self / other,
            Operation::AND => self & other,
            Operation::OR => self | other,
            Operation::XOR => self ^ other,
        }
    }

    open spec fn scalar_error(self, other: Self, op: Operation) -> ArithmeticError {
        if op == Operation::DIV {
            ArithmeticError::DivisionByZero
        } else {
            ArithmeticError::Overflow
        }
    }

    open spec fn spec_text(self) -> Seq<char> {
        spec_dec(self as nat)
    }

    open spec fn spec_byte_size() -> nat {
        1
    }

    fn scalar_apply(self, other: Self, op: Operation) -> (r: Result<Self, ArithmeticError>) {
        match op {
            Operation::ADD => match self.checked_add(other) {
                Some(v) => Ok(v),
                None => Err(ArithmeticError::Overflow),
            },
            Operation::SUB => match self.checked_sub(other) {
                Some(v) => Ok(v),
                None => Err(ArithmeticError::Overflow),
            },
            Operation::MUL => match self.checked_mul(other) {
                Some(v) => Ok(v),
                None => Err(ArithmeticError::Overflow),
            },
            Operation::DIV => if other != 0 {
                Ok(self / other)
            } else {
                Err(ArithmeticError::DivisionByZero)
            },
            Operation::AND => Ok(self & other),
            Operation::OR => Ok(self | other),
            Operation::XOR => Ok(self ^ other),
        }
    }

    fn byte_size() -> (r: usize) {
        1
    }

    fn render_scalar(self) -> (r: String) {
        render_u64(self as u64)
    }
}

impl ValueT for u16 {
    open spec fn scalar_defined(self, other: Self, op: Operation) -> bool {
        match op {
            Operation::ADD => self + other <= u16::MAX,
            Operation::SUB => self >= other,
            Operation::MUL => self * other <= u16::MAX,
            Operation::DIV => other != 0,
            Operation::AND => true,
            Operation::OR => true,
            Operation::XOR => true,
        }
    }

    open spec fn scalar_eval(self, other: Self, op: Operation) -> Self {
        match op {
            Operation::ADD => (self + other) as u16,
            Operation::SUB => (self - other) as u16,
            Operation::MUL => (self * other) as u16,
            Operation::DIV => self / other,
            Operation::AND => self & other,
            Operation::OR => self | other,
            Operation::XOR => self ^ other,
        }
    }

    open spec fn scalar_error(self, other: Self, op: Operation) -> ArithmeticError {
        if op == Operation::DIV {
            ArithmeticError::DivisionByZero
        } else {
            ArithmeticError::Overflow
        }
    }

    open spec fn spec_text(self) -> Seq<char> {
        spec_dec(self as nat)
    }

    open spec fn spec_byte_size() -> nat {
        2
    }

    fn scalar_apply(self, other: Self, op: Operation) -> (r: Result<Self, ArithmeticError>) {
        match op {
            Operation::ADD => match self.checked_add(other) {
                Some(v) => Ok(v),
                None => Err(ArithmeticError::Overflow),
            },
            Operation::SUB => match self.checked_sub(other) {
                Some(v) => Ok(v),
                None => Err(ArithmeticError::Overflow),
            },
            Operation::MUL => match self.checked_mul(other) {
                Some(v) => Ok(v),
                None => Err(ArithmeticError::Overflow),
            },
            Operation::DIV => if other != 0 {
                Ok(self / other)
            } else {
                Err(ArithmeticError::DivisionByZero)
            },
            Operation::AND => Ok(self & other),
            Operation::OR => Ok(self | other),
            Operation::XOR => Ok(self ^ other),
        }
    }

    fn byte_size() -> (r: usize) {
        2
    }

    fn render_scalar(self) -> (r: String) {
        render_u64(self as u64)
    }
}

impl ValueT for u32 {
    open spec fn scalar_defined(self, other: Self, op: Operation) -> bool {
        match op {
            Operation::ADD => self + other <= u32::MAX,
            Operation::SUB => self >= other,
            Operation::MUL => self * other <= u32::MAX,
            Operation::DIV => other != 0,
            Operation::AND => true,
            Operation::OR => true,
            Operation::XOR => true,
        }
    }

    open spec fn scalar_eval(self, other: Self, op: Operation) -> Self {
        match op {
            Operation::ADD => (self + other) as u32,
            Operation::SUB => (self - other) as u32,
            Operation::MUL => (self * other) as u32,
            Operation::DIV => self / other,
            Operation::AND => self & other,
            Operation::OR => self | other,
            Operation::XOR => self ^ other,
        }
    }

    open spec fn scalar_error(self, other: Self, op: Operation) -> ArithmeticError {
        if op == Operation::DIV {
            ArithmeticError::DivisionByZero
        } else {
            ArithmeticError::Overflow
        }
    }

    open spec fn spec_text(self) -> Seq<char> {
        spec_dec(self as nat)
    }

    open spec fn spec_byte_size() -> nat {
        4
    }

    fn scalar_apply(self, other: Self, op: Operation) -> (r: Result<Self, ArithmeticError>) {
        match op {
            Operation::ADD => match self.checked_add(other) {
                Some(v) => Ok(v),
                None => Err(ArithmeticError::Overflow),
            },
            Operation::SUB => match self.checked_sub(other) {
                Some(v) => Ok(v),
                None => Err(ArithmeticError::Overflow),
            },
            Operation::MUL => match self.checked_mul(other) {
                Some(v) => Ok(v),
                None => Err(ArithmeticError::Overflow),
            },
            Operation::DIV => if other != 0 {
                Ok(self / other)
            } else {
                Err(ArithmeticError::DivisionByZero)
            },
            Operation::AND => Ok(self & other),
            Operation::OR => Ok(self | other),
            Operation::XOR => Ok(self ^ other),
        }
    }

    fn byte_size() -> (r: usize) {
        4
    }

    fn render_scalar(self) -> (r: String) {
        render_u64(self as u64)
    }
}

impl ValueT for u64 {
    open spec fn scalar_defined(self, other: Self, op: Operation) -> bool {
        match op {
            Operation::ADD => self + other <= u64::MAX,
            Operation::SUB => self >= other,
            Operation::MUL => self * other <= u64::MAX,
            Operation::DIV => other != 0,
            Operation::AND => true,
            Operation::OR => true,
            Operation::XOR => true,
        }
    }

    open spec fn scalar_eval(self, other: Self, op: Operation) -> Self {
        match op {
            Operation::ADD => (self + other) as u64,
            Operation::SUB => (self - other) as u64,
            Operation::MUL => (self * other) as u64,
            Operation::DIV => self / other,
            Operation::AND => self & other,
            Operation::OR => self | other,
            Operation::XOR => self ^ other,
        }
    }

    open spec fn scalar_error(self, other: Self, op: Operation) -> ArithmeticError {
        if op == Operation::DIV {
            ArithmeticError::DivisionByZero
        } else {
            ArithmeticError::Overflow
        }
    }

    open spec fn spec_text(self) -> Seq<char> {
        spec_dec(self as nat)
    }

    open spec fn spec_byte_size() -> nat {
        8
    }

    fn scalar_apply(self, other: Self, op: Operation) -> (r: Result<Self, ArithmeticError>) {
        match op {
            Operation::ADD => match self.checked_add(other) {
                Some(v) => Ok(v),
                None => Err(ArithmeticError::Overflow),
            },
            Operation::SUB => match self.checked_sub(other) {
                Some(v) => Ok(v),
                None => Err(ArithmeticError::Overflow),
            },
            Operation::MUL => match self.checked_mul(other) {
                Some(v) => Ok(v),
                None => Err(ArithmeticError::Overflow),
            },
            Operation::DIV => if other != 0 {
                Ok(self / other)
            } else {
                Err(ArithmeticError::DivisionByZero)
            },
            Operation::AND => Ok(self & other),
            Operation::OR => Ok(self | other),
            Operation::XOR => Ok(self ^ other),
        }
    }

    fn byte_size() -> (r: usize) {
        8
    }

    fn render_scalar(self) -> (r: String) {
        render_u64(self)
    }
}

} // verus!
