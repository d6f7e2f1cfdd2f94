//! The value types of native function signatures.

use vstd::prelude::*;

verus! {

/// A type that a native function of the binary format may take or return.
#[derive(Clone, Copy, Debug, PartialEq, Eq, Structural)]
pub enum ValueType {
    Int32,
    Int64,
    Float32,
    Float64,
}

impl ValueType {
    /// Whether the type is one of the two integer types.
    pub open spec fn is_integer(self) -> bool {
        self is Int32 || self is Int64
    }

    /// The name of the type in the binary format's text.
    pub open spec fn name_of(self) -> Seq<char> {
        match self {
            ValueType::Int32 => "I32"@,
            ValueType::Int64 => "I64"@,
            ValueType::Float32 => "F32"@,
            ValueType::Float64 => "F64"@,
        }
    }

    /// The name of the type.
    pub fn name(self) -> (r: String)
        ensures
            r@ == self.name_of(),
    {
        match self {
            ValueType::Int32 => String::from_str("I32"),
            ValueType::Int64 => String::from_str("I64"),
            ValueType::Float32 => String::from_str("F32"),
            ValueType::Float64 => String::from_str("F64"),
        }
    }

    /// Says whether the type is an integer type.
    pub fn integer(self) -> (r: bool)
        ensures
            r == self.is_integer(),
    {
        match self {
            ValueType::Int32 => true,
            ValueType::Int64 => true,
            ValueType::Float32 => false,
            ValueType::Float64 => false,
        }
    }
}

} // verus!
