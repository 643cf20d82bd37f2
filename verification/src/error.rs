//! The error of a failed conversion.

use vstd::prelude::*;
use vstd::string::*;
use crate::decimal::decimal;
use crate::value::Value;

verus! {

/// The error of converting an integer that no variant stands for.
#[derive(Debug, PartialEq, Eq)]
pub struct IntEnumError {
    /// The name of the enumeration that the integer was to be converted to.
    target: String,
    value: Value,
}

impl IntEnumError {
    /// The name of the enumeration that the integer was to be converted to.
    pub closed spec fn spec_target(&self) -> Seq<char> {
        self.target@
    }

    /// The integer that could not be converted.
    pub closed spec fn spec_value(&self) -> Value {
        self.value
    }

    /// What the error says.
    pub open spec fn spec_message(&self) -> Seq<char> {
        "unknown variant: "@ + decimal(self.spec_value()@)
    }

    /// The error for `n`, which no variant of `target` stands for.
    pub fn new(target: &str, n: Value) -> (e: IntEnumError)
        ensures
            e.spec_target() == target@,
            e.spec_value() == n,
    {
        IntEnumError { target: target.to_owned(), value: n }
    }

    /// The integer that could not be converted.
    #[verifier::when_used_as_spec(spec_value)]
    pub fn value(&self) -> (v: Value)
        ensures
            v == self.spec_value(),
    {
        self.value
    }

    /// The name of the enumeration that the integer was to be converted to.
    pub fn target(&self) -> (s: &str)
        ensures
            s@ == self.spec_target(),
    {
        self.target.as_str()
    }

    /// What the error says.
    pub fn to_string(&self) -> (s: String)
        ensures
            s@ == self.spec_message(),
    {
        let mut s: String = "unknown variant: ".to_owned();
        let digits: String = self.value.to_string();
        s.append(digits.as_str());
        s
    }
}

} // verus!
