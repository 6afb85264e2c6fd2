//! The four kinds of value that an expression can yield.

use vstd::prelude::*;

verus! {

/// The kind of value an expression evaluates to.
#[derive(Debug, Clone, Copy, PartialEq, Eq, Structural)]
pub enum ValueType {
    /// One sample per series, all at the same instant.
    Vector,
    /// A single number.
    Scalar,
    /// A range of samples per series.
    Matrix,
    /// A string.
    String,
}

impl ValueType {
    /// The lower-case name of the type, as diagnostics print it.
    pub open spec fn name(self) -> Seq<char> {
        match self {
            ValueType::Vector => "vector"@,
            ValueType::Scalar => "scalar"@,
            ValueType::Matrix => "matrix"@,
            ValueType::String => "string"@,
        }
    }

    /// The lower-case name of the type.
    pub fn as_str(&self) -> (r: &'static str)
        ensures
            r@ == self.name(),
    {
        match self {
            ValueType::Vector => "vector",
            ValueType::Scalar => "scalar",
            ValueType::Matrix => "matrix",
            ValueType::String => "string",
        }
    }
}

} // verus!
