//! The dynamically typed scalar that filters consume and produce.
//!
//! Floats are carried as raw IEEE-754 binary64 bit patterns so that the
//! engine can be exact about them without performing float arithmetic
//! itself. [`FloatBits`] maintains the invariant that the pattern is never
//! a NaN, which is what the value model requires of float values.

use vstd::prelude::*;

verus! {

/// True when `b`, read as an IEEE-754 binary64 bit pattern, is a NaN:
/// all eleven exponent bits set and a nonzero mantissa.
pub open spec fn spec_is_nan_bits(b: u64) -> bool {
    (b >> 52) & 0x7ff == 0x7ff && (b & 0xf_ffff_ffff_ffff) != 0
}

/// Runtime check for [`spec_is_nan_bits`].
pub fn is_nan_bits(b: u64) -> (r: bool)
    ensures
        r == spec_is_nan_bits(b),
{
    (b >> 52) & 0x7ff == 0x7ff && (b & 0xf_ffff_ffff_ffff) != 0
}

/// An IEEE-754 binary64 value carried as its bit pattern, with the
/// invariant that it is never a NaN.
#[derive(Debug, Clone, Copy, PartialEq, Eq)]
pub struct FloatBits {
    bits: u64,
}

impl FloatBits {
    #[verifier::type_invariant]
    spec fn type_inv(self) -> bool {
        !spec_is_nan_bits(self.bits)
    }

    /// The bit pattern held.
    pub closed spec fn spec_bits(self) -> u64 {
        self.bits
    }

    /// Accepts any non-NaN bit pattern and refuses every NaN one.
    pub fn new(bits: u64) -> (r: Option<FloatBits>)
        ensures
            spec_is_nan_bits(bits) ==> r is None,
            !spec_is_nan_bits(bits) ==> (r matches Some(f) && f.spec_bits() == bits),
    {
        if is_nan_bits(bits) {
            None
        } else {
            Some(FloatBits { bits })
        }
    }

    /// The bit pattern, which is never that of a NaN.
    pub fn bits(&self) -> (r: u64)
        ensures
            r == self.spec_bits(),
            !spec_is_nan_bits(r),
    {
        proof {
            use_type_invariant(self);
        }
        self.bits
    }
}

/// A dynamically typed extracted value: filter input and output.
///
/// `Bytes` is the raw byte string the extraction step produces; the
/// structured variants (`Boolean`, `Array`, `Object`) appear when the
/// `json` filter decodes a document. Object entries keep the decoder's
/// key order.
#[derive(Debug, PartialEq)]
pub enum Value {
    Bytes(Vec<u8>),
    Integer(i64),
    Float(FloatBits),
    Boolean(bool),
    Null,
    Array(Vec<Value>),
    Object(Vec<(String, Value)>),
}

} // verus!
