//! Code pairs: the tagged values a drawing is made of.

use vstd::prelude::*;
use crate::double::Double;
use crate::error::{DxfError, DxfResult};

verus! {

/// The value of a code pair.
#[derive(Clone, Debug, PartialEq)]
pub enum CodePairValue {
    Boolean(i16),
    Integer(i32),
    Short(i16),
    Double(Double),
    Str(String),
}

/// A tag code and the value that goes with it.
#[derive(Clone, Debug, PartialEq)]
pub struct CodePair {
    pub code: i32,
    pub value: CodePairValue,
}

impl CodePair {
    pub fn new(code: i32, value: CodePairValue) -> (pair: CodePair)
        ensures
            pair.code == code,
            pair.value == value,
    {
        CodePair { code, value }
    }

    pub fn new_i16(code: i32, value: i16) -> (pair: CodePair)
        ensures
            pair == (CodePair { code, value: CodePairValue::Short(value) }),
    {
        CodePair { code, value: CodePairValue::Short(value) }
    }

    pub fn new_i32(code: i32, value: i32) -> (pair: CodePair)
        ensures
            pair == (CodePair { code, value: CodePairValue::Integer(value) }),
    {
        CodePair { code, value: CodePairValue::Integer(value) }
    }

    pub fn new_f64(code: i32, value: Double) -> (pair: CodePair)
        ensures
            pair == (CodePair { code, value: CodePairValue::Double(value) }),
    {
        CodePair { code, value: CodePairValue::Double(value) }
    }

    pub fn new_bool(code: i32, value: bool) -> (pair: CodePair)
        ensures
            pair == (CodePair {
                code,
                value: CodePairValue::Boolean(
                    if value {
                        1i16
                    } else {
                        0i16
                    },
                ),
            }),
    {
        CodePair { code, value: CodePairValue::Boolean(if value { 1 } else { 0 }) }
    }

    pub fn new_string(code: i32, value: String) -> (pair: CodePair)
        ensures
            pair == (CodePair { code, value: CodePairValue::Str(value) }),
    {
        CodePair { code, value: CodePairValue::Str(value) }
    }

    /// The value as a 16-bit integer, which it must be.
    pub open spec fn spec_i16(self) -> DxfResult<i16> {
        match self.value {
            CodePairValue::Short(v) => Ok(v),
            _ => Err(DxfError::MalformedValue),
        }
    }

    /// The value as a 32-bit integer, which it must be.
    pub open spec fn spec_i32(self) -> DxfResult<i32> {
        match self.value {
            CodePairValue::Integer(v) => Ok(v),
            _ => Err(DxfError::MalformedValue),
        }
    }

    /// The value as a floating-point number, which it must be.
    pub open spec fn spec_f64(self) -> DxfResult<Double> {
        match self.value {
            CodePairValue::Double(v) => Ok(v),
            _ => Err(DxfError::MalformedValue),
        }
    }

    /// The value as a boolean, which it must be.
    pub open spec fn spec_bool(self) -> DxfResult<bool> {
        match self.value {
            CodePairValue::Boolean(v) => Ok(v != 0),
            _ => Err(DxfError::MalformedValue),
        }
    }

    pub fn assert_i16(&self) -> (r: DxfResult<i16>)
        ensures
            r == self.spec_i16(),
    {
        match self.value {
            CodePairValue::Short(v) => Ok(v),
            _ => Err(DxfError::MalformedValue),
        }
    }

    pub fn assert_i32(&self) -> (r: DxfResult<i32>)
        ensures
            r == self.spec_i32(),
    {
        match self.value {
            CodePairValue::Integer(v) => Ok(v),
            _ => Err(DxfError::MalformedValue),
        }
    }

    pub fn assert_f64(&self) -> (r: DxfResult<Double>)
        ensures
            r == self.spec_f64(),
    {
        match self.value {
            CodePairValue::Double(v) => Ok(v),
            _ => Err(DxfError::MalformedValue),
        }
    }

    pub fn assert_bool(&self) -> (r: DxfResult<bool>)
        ensures
            r == self.spec_bool(),
    {
        match self.value {
            CodePairValue::Boolean(v) => Ok(v != 0),
            _ => Err(DxfError::MalformedValue),
        }
    }
}

} // verus!
