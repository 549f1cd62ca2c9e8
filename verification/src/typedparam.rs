//! Typed parameters: the tagged records of the native library's generic
//! key/value exchange.

use vstd::prelude::*;
use crate::error::Error;

pub mod sys;

verus! {

/// The kind of value that a typed parameter holds.
///
/// An enumeration: exactly one variant applies, and codes are never combined.
#[allow(non_camel_case_types)]
#[derive(Clone, Copy, Debug, PartialEq, Eq, Structural)]
pub enum TypedParameterType {
    /// Int
    Int,
    /// Uint
    Uint,
    /// Llong
    Llong,
    /// Ullong
    Ullong,
    /// Double
    Double,
    /// Boolean
    Boolean,
    /// String
    String,
}

impl TypedParameterType {
    /// The integer that the native library knows this kind by.
    pub open spec fn spec_to_raw(self) -> u32 {
        match self {
            TypedParameterType::Int => 1,
            TypedParameterType::Uint => 2,
            TypedParameterType::Llong => 3,
            TypedParameterType::Ullong => 4,
            TypedParameterType::Double => 5,
            TypedParameterType::Boolean => 6,
            TypedParameterType::String => 7,
        }
    }

    /// The kind that the native library knows by `raw`, if there is one.
    pub open spec fn spec_from_raw(raw: u32) -> Option<TypedParameterType> {
        if raw == 1 {
            Some(TypedParameterType::Int)
        } else if raw == 2 {
            Some(TypedParameterType::Uint)
        } else if raw == 3 {
            Some(TypedParameterType::Llong)
        } else if raw == 4 {
            Some(TypedParameterType::Ullong)
        } else if raw == 5 {
            Some(TypedParameterType::Double)
        } else if raw == 6 {
            Some(TypedParameterType::Boolean)
        } else if raw == 7 {
            Some(TypedParameterType::String)
        } else {
            None
        }
    }

    /// Encodes this kind for the native library.
    pub fn to_raw(self) -> (raw: u32)
        ensures
            raw == self.spec_to_raw(),
    {
        match self {
            TypedParameterType::Int => 1,
            TypedParameterType::Uint => 2,
            TypedParameterType::Llong => 3,
            TypedParameterType::Ullong => 4,
            TypedParameterType::Double => 5,
            TypedParameterType::Boolean => 6,
            TypedParameterType::String => 7,
        }
    }

    /// Decodes an integer that the native library handed back. A code that
    /// names no kind is an error, never some default.
    pub fn from_raw(raw: u32) -> (decoded: Result<TypedParameterType, Error>)
        ensures
            (match decoded {
                Ok(value) => TypedParameterType::spec_from_raw(raw) == Some(value),
                Err(e) => TypedParameterType::spec_from_raw(raw) is None && e == (Error::UnknownCode {
                    value: raw,
                }),
            }),
    {
        if raw == 1 {
            Ok(TypedParameterType::Int)
        } else if raw == 2 {
            Ok(TypedParameterType::Uint)
        } else if raw == 3 {
            Ok(TypedParameterType::Llong)
        } else if raw == 4 {
            Ok(TypedParameterType::Ullong)
        } else if raw == 5 {
            Ok(TypedParameterType::Double)
        } else if raw == 6 {
            Ok(TypedParameterType::Boolean)
        } else if raw == 7 {
            Ok(TypedParameterType::String)
        } else {
            Err(Error::UnknownCode { value: raw })
        }
    }

    /// Decoding the code of a kind gives that kind back.
    pub proof fn lemma_raw_round_trip(self)
        ensures
            TypedParameterType::spec_from_raw(self.spec_to_raw()) == Some(self),
    {
    }
}

} // verus!
