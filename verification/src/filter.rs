//! The closed set of filters, and the engine's two error taxonomies.

use crate::value::{FloatBits, Value};
use vstd::prelude::*;

verus! {

/// A numeric literal or operand: a 64-bit integer, or a binary64 value
/// carried as its (non-NaN) bit pattern.
#[derive(Debug, Clone, Copy, PartialEq)]
pub enum Numeric {
    Integer(i64),
    Float(FloatBits),
}

/// The value a numeric operand stands for.
pub open spec fn spec_numeric_value(n: Numeric) -> Value {
    match n {
        Numeric::Integer(i) => Value::Integer(i),
        Numeric::Float(fb) => Value::Float(fb),
    }
}

/// The `Value` a numeric operand stands for.
pub fn numeric_value(n: Numeric) -> (r: Value)
    ensures
        r == spec_numeric_value(n),
{
    match n {
        Numeric::Integer(i) => Value::Integer(i),
        Numeric::Float(fb) => Value::Float(fb),
    }
}

/// A resolved, validated filter. Once resolved it is immutable and carries
/// everything needed to apply it repeatedly.
#[derive(Debug, PartialEq)]
pub enum GrokFilter {
    Integer,
    IntegerExt,
    Number,
    NumberExt,
    NullIf(String),
    Scale(Numeric),
    Lowercase,
    Uppercase,
    Json,
}

impl Clone for GrokFilter {
    /// Cloning preserves the filter exactly.
    fn clone(&self) -> (r: Self)
        ensures
            r == *self,
    {
        match self {
            GrokFilter::Integer => GrokFilter::Integer,
            GrokFilter::IntegerExt => GrokFilter::IntegerExt,
            GrokFilter::Number => GrokFilter::Number,
            GrokFilter::NumberExt => GrokFilter::NumberExt,
            GrokFilter::NullIf(s) => GrokFilter::NullIf(s.clone()),
            GrokFilter::Scale(n) => GrokFilter::Scale(*n),
            GrokFilter::Lowercase => GrokFilter::Lowercase,
            GrokFilter::Uppercase => GrokFilter::Uppercase,
            GrokFilter::Json => GrokFilter::Json,
        }
    }
}

impl GrokFilter {
    /// The filter's display name: the bare variant name.
    pub open spec fn spec_display_name(&self) -> Seq<char> {
        match self {
            GrokFilter::Integer => "Integer"@,
            GrokFilter::IntegerExt => "IntegerExt"@,
            GrokFilter::Number => "Number"@,
            GrokFilter::NumberExt => "NumberExt"@,
            GrokFilter::NullIf(_) => "NullIf"@,
            GrokFilter::Scale(_) => "Scale"@,
            GrokFilter::Lowercase => "Lowercase"@,
            GrokFilter::Uppercase => "Uppercase"@,
            GrokFilter::Json => "Json"@,
        }
    }

    /// The filter's display name, used when reporting a runtime failure.
    pub fn display_name(&self) -> (r: String)
        ensures
            r@ == self.spec_display_name(),
    {
        match self {
            GrokFilter::Integer => "Integer".to_owned(),
            GrokFilter::IntegerExt => "IntegerExt".to_owned(),
            GrokFilter::Number => "Number".to_owned(),
            GrokFilter::NumberExt => "NumberExt".to_owned(),
            GrokFilter::NullIf(_) => "NullIf".to_owned(),
            GrokFilter::Scale(_) => "Scale".to_owned(),
            GrokFilter::Lowercase => "Lowercase".to_owned(),
            GrokFilter::Uppercase => "Uppercase".to_owned(),
            GrokFilter::Json => "Json".to_owned(),
        }
    }
}

/// A compile-time resolution error. Unknown names and malformed calls are
/// distinct so callers can report a typo differently from a bad argument
/// list. Each carries the filter name from the call.
#[derive(Debug, Clone, PartialEq)]
pub enum GrokStaticError {
    UnknownFilter(String),
    InvalidFunctionArguments(String),
}

/// A match-time error.
#[derive(Debug, PartialEq)]
pub enum GrokRuntimeError {
    /// The one recoverable failure: the filter does not accept this value.
    /// Carries the filter and the offending value; rendering either to a
    /// string for a report is the caller's concern.
    FailedToApplyFilter(GrokFilter, Value),
    /// Unrecoverable: a delegated IEEE-754 operation produced a NaN, which
    /// `Value` cannot hold. Deliberately not a filter failure.
    NanResult(GrokFilter, Value),
}

} // verus!
