//! The filter applicator: applies a resolved [`GrokFilter`] to one
//! extracted [`Value`] at match time.
//!
//! The engine decides everything itself except the host's IEEE-754
//! operations and JSON decoding. [`apply_filter`] therefore either
//! finishes the application ([`ApplyStep::Done`]) or returns an explicit
//! request; the caller performs the machine operation and hands the raw
//! outcome to the matching `finish_*` function, whose contract states the
//! engine's answer for every possible outcome. [`apply_step_model`] is the
//! whole per-filter acceptance table as one spec function.

use crate::digits::{int_text_value, is_int_text, parse_i64};
use crate::filter::{numeric_value, spec_numeric_value, GrokFilter, GrokRuntimeError, Numeric};
use crate::text::{lossy_decode, lossy_of, lower_of, to_lower, to_upper, upper_of};
use crate::value::{spec_is_nan_bits, FloatBits, Value};
use vstd::prelude::*;
use vstd::utf8::encode_utf8;

verus! {

use vstd::string::StrSliceExecFns;

/// One application step: a finished value, or a request for a machine
/// operation the engine does not perform itself.
#[derive(Debug, PartialEq)]
pub enum ApplyStep {
    /// The filter finished on its own.
    Done(Value),
    /// Decode the bytes lossily and parse the text as a binary64 float;
    /// resume with [`finish_float_parse`] and the resulting bit pattern.
    NeedsFloatParse(Vec<u8>),
    /// Decode the bytes lossily, parse the text as a binary64 float and
    /// truncate it toward zero to a 64-bit integer (the saturating cast);
    /// resume with [`finish_float_parse_to_int`].
    NeedsFloatParseToInt(Vec<u8>),
    /// Multiply the two operands as binary64 floats, promoting an integer
    /// operand first; resume with [`finish_mul`] and the product's bits.
    NeedsMul(Numeric, Numeric),
    /// Decode the bytes as a JSON document; resume with [`finish_json`].
    NeedsJson(Vec<u8>),
}

/// The bytes the `lowercase` filter produces for input bytes `b`.
pub open spec fn lowercase_bytes(b: Seq<u8>) -> Seq<u8> {
    encode_utf8(lower_of(lossy_of(b)))
}

/// The bytes the `uppercase` filter produces for input bytes `b`.
pub open spec fn uppercase_bytes(b: Seq<u8>) -> Seq<u8> {
    encode_utf8(upper_of(lossy_of(b)))
}

/// The abstract outcome of one application step.
pub ghost enum StepModel {
    /// Finished with this integer value.
    Integer(i64),
    /// Finished with a byte-string value holding these bytes.
    Text(Seq<u8>),
    /// Finished with the null value.
    NullValue,
    /// Finished with the input value, unchanged.
    Unchanged,
    /// The caller must float-parse these bytes' text.
    FloatParse(Seq<u8>),
    /// The caller must float-parse and truncate these bytes' text.
    FloatParseToInt(Seq<u8>),
    /// The caller must multiply these two numbers as binary64 floats.
    Mul(Numeric, Numeric),
    /// The caller must decode these bytes as JSON.
    Json(Seq<u8>),
    /// The filter does not accept this value.
    Failed,
}

/// The per-filter acceptance table: what one application step does for
/// every (filter, value) pair. Every filter except `scale` accepts only a
/// byte string; `scale` accepts exactly the numeric values.
pub open spec fn apply_step_model(value: Value, filter: GrokFilter) -> StepModel {
    match filter {
        GrokFilter::Integer => match value {
            Value::Bytes(b) => if is_int_text(b@) && i64::MIN <= int_text_value(b@) <= i64::MAX {
                StepModel::Integer(int_text_value(b@) as i64)
            } else {
                StepModel::Failed
            },
            _ => StepModel::Failed,
        },
        GrokFilter::IntegerExt => match value {
            Value::Bytes(b) => StepModel::FloatParseToInt(b@),
            _ => StepModel::Failed,
        },
        GrokFilter::Number => match value {
            Value::Bytes(b) => StepModel::FloatParse(b@),
            _ => StepModel::Failed,
        },
        GrokFilter::NumberExt => match value {
            Value::Bytes(b) => StepModel::FloatParse(b@),
            _ => StepModel::Failed,
        },
        GrokFilter::Scale(factor) => match value {
            Value::Integer(i) => StepModel::Mul(Numeric::Integer(i), factor),
            Value::Float(fb) => StepModel::Mul(Numeric::Float(fb), factor),
            _ => StepModel::Failed,
        },
        GrokFilter::Lowercase => match value {
            Value::Bytes(b) => StepModel::Text(lowercase_bytes(b@)),
            _ => StepModel::Failed,
        },
        GrokFilter::Uppercase => match value {
            Value::Bytes(b) => StepModel::Text(uppercase_bytes(b@)),
            _ => StepModel::Failed,
        },
        GrokFilter::Json => match value {
            Value::Bytes(b) => StepModel::Json(b@),
            _ => StepModel::Failed,
        },
        GrokFilter::NullIf(sentinel) => match value {
            Value::Bytes(b) => if lossy_of(b@) == sentinel@ {
                StepModel::NullValue
            } else {
                StepModel::Unchanged
            },
            _ => StepModel::Failed,
        },
    }
}

/// `r` is the concrete step the model prescribes for this value and filter.
pub open spec fn step_matches(
    r: Result<ApplyStep, GrokRuntimeError>,
    value: Value,
    filter: GrokFilter,
) -> bool {
    match apply_step_model(value, filter) {
        StepModel::Integer(i) => r == Ok::<ApplyStep, GrokRuntimeError>(
            ApplyStep::Done(Value::Integer(i)),
        ),
        StepModel::Text(t) => (r matches Ok(ApplyStep::Done(Value::Bytes(nb))) && nb@ == t),
        StepModel::NullValue => r == Ok::<ApplyStep, GrokRuntimeError>(
            ApplyStep::Done(Value::Null),
        ),
        StepModel::Unchanged => r == Ok::<ApplyStep, GrokRuntimeError>(ApplyStep::Done(value)),
        StepModel::FloatParse(t) => (r matches Ok(ApplyStep::NeedsFloatParse(nb)) && nb@ == t),
        StepModel::FloatParseToInt(t) => (r matches Ok(ApplyStep::NeedsFloatParseToInt(nb))
            && nb@ == t),
        StepModel::Mul(a, b) => r == Ok::<ApplyStep, GrokRuntimeError>(ApplyStep::NeedsMul(a, b)),
        StepModel::Json(t) => (r matches Ok(ApplyStep::NeedsJson(nb)) && nb@ == t),
        StepModel::Failed => r == Err::<ApplyStep, GrokRuntimeError>(
            GrokRuntimeError::FailedToApplyFilter(filter, value),
        ),
    }
}

/// Applies one filter to one value, as far as the engine can take it.
///
/// Follows [`apply_step_model`] exactly: the `integer`, `lowercase`,
/// `uppercase` and `nullIf` filters finish here; `integerExt`, `number`,
/// `numberExt`, `scale` and `json` hand back the machine operation they
/// need; any value a filter does not accept yields the one recoverable
/// runtime error, carrying the filter and the value. It never panics.
pub fn apply_filter(value: Value, filter: &GrokFilter) -> (r: Result<ApplyStep, GrokRuntimeError>)
    ensures
        step_matches(r, value, *filter),
{
    match filter {
        GrokFilter::Integer => match value {
            Value::Bytes(b) => match parse_i64(b.as_slice()) {
                Some(i) => Ok(ApplyStep::Done(Value::Integer(i))),
                None => Err(
                    GrokRuntimeError::FailedToApplyFilter(filter.clone(), Value::Bytes(b)),
                ),
            },
            other => Err(GrokRuntimeError::FailedToApplyFilter(filter.clone(), other)),
        },
        GrokFilter::IntegerExt => match value {
            Value::Bytes(b) => Ok(ApplyStep::NeedsFloatParseToInt(b)),
            other => Err(GrokRuntimeError::FailedToApplyFilter(filter.clone(), other)),
        },
        GrokFilter::Number => match value {
            Value::Bytes(b) => Ok(ApplyStep::NeedsFloatParse(b)),
            other => Err(GrokRuntimeError::FailedToApplyFilter(filter.clone(), other)),
        },
        GrokFilter::NumberExt => match value {
            Value::Bytes(b) => Ok(ApplyStep::NeedsFloatParse(b)),
            other => Err(GrokRuntimeError::FailedToApplyFilter(filter.clone(), other)),
        },
        GrokFilter::Scale(factor) => match value {
            Value::Integer(i) => Ok(ApplyStep::NeedsMul(Numeric::Integer(i), *factor)),
            Value::Float(fb) => Ok(ApplyStep::NeedsMul(Numeric::Float(fb), *factor)),
            other => Err(GrokRuntimeError::FailedToApplyFilter(filter.clone(), other)),
        },
        GrokFilter::Lowercase => match value {
            Value::Bytes(b) => {
                let text = lossy_decode(b.as_slice());
                let lowered = to_lower(text.as_str());
                Ok(ApplyStep::Done(Value::Bytes(lowered.as_str().as_bytes_vec())))
            },
            other => Err(GrokRuntimeError::FailedToApplyFilter(filter.clone(), other)),
        },
        GrokFilter::Uppercase => match value {
            Value::Bytes(b) => {
                let text = lossy_decode(b.as_slice());
                let raised = to_upper(text.as_str());
                Ok(ApplyStep::Done(Value::Bytes(raised.as_str().as_bytes_vec())))
            },
            other => Err(GrokRuntimeError::FailedToApplyFilter(filter.clone(), other)),
        },
        GrokFilter::Json => match value {
            Value::Bytes(b) => Ok(ApplyStep::NeedsJson(b)),
            other => Err(GrokRuntimeError::FailedToApplyFilter(filter.clone(), other)),
        },
        GrokFilter::NullIf(sentinel) => match value {
            Value::Bytes(b) => {
                let text = lossy_decode(b.as_slice());
                if text == *sentinel {
                    Ok(ApplyStep::Done(Value::Null))
                } else {
                    Ok(ApplyStep::Done(Value::Bytes(b)))
                }
            },
            other => Err(GrokRuntimeError::FailedToApplyFilter(filter.clone(), other)),
        },
    }
}

/// Finishes a `number`/`numberExt` application once the caller has parsed
/// the text: a failed parse is the recoverable filter failure, a NaN parse
/// (the text `NaN`) is the unrecoverable NaN fault, and anything else is
/// the float value. Defined for every possible parse outcome.
pub fn finish_float_parse(filter: GrokFilter, text: Vec<u8>, parsed: Option<u64>) -> (r: Result<
    Value,
    GrokRuntimeError,
>)
    ensures
        match parsed {
            None => r == Err::<Value, GrokRuntimeError>(
                GrokRuntimeError::FailedToApplyFilter(filter, Value::Bytes(text)),
            ),
            Some(bits) => if spec_is_nan_bits(bits) {
                r == Err::<Value, GrokRuntimeError>(
                    GrokRuntimeError::NanResult(filter, Value::Bytes(text)),
                )
            } else {
                (r matches Ok(Value::Float(fb)) && fb.spec_bits() == bits)
            },
        },
{
    match parsed {
        None => Err(GrokRuntimeError::FailedToApplyFilter(filter, Value::Bytes(text))),
        Some(bits) => match FloatBits::new(bits) {
            Some(fb) => Ok(Value::Float(fb)),
            None => Err(GrokRuntimeError::NanResult(filter, Value::Bytes(text))),
        },
    }
}

/// Finishes an `integerExt` application once the caller has parsed the
/// text and truncated the float toward zero: a failed parse is the
/// recoverable filter failure, any truncation outcome is the integer
/// value. Defined for every possible outcome.
pub fn finish_float_parse_to_int(filter: GrokFilter, text: Vec<u8>, parsed: Option<i64>) -> (r:
    Result<Value, GrokRuntimeError>)
    ensures
        match parsed {
            None => r == Err::<Value, GrokRuntimeError>(
                GrokRuntimeError::FailedToApplyFilter(filter, Value::Bytes(text)),
            ),
            Some(i) => r == Ok::<Value, GrokRuntimeError>(Value::Integer(i)),
        },
{
    match parsed {
        None => Err(GrokRuntimeError::FailedToApplyFilter(filter, Value::Bytes(text))),
        Some(i) => Ok(Value::Integer(i)),
    }
}

/// Finishes a `scale` application once the caller has multiplied the
/// operand by the factor as binary64 floats: a NaN product is the
/// unrecoverable NaN fault (deliberately not a filter failure), any other
/// product is the float value. Defined for every possible product.
pub fn finish_mul(filter: GrokFilter, operand: Numeric, product: u64) -> (r: Result<
    Value,
    GrokRuntimeError,
>)
    ensures
        if spec_is_nan_bits(product) {
            r == Err::<Value, GrokRuntimeError>(
                GrokRuntimeError::NanResult(filter, spec_numeric_value(operand)),
            )
        } else {
            (r matches Ok(Value::Float(fb)) && fb.spec_bits() == product)
        },
{
    match FloatBits::new(product) {
        Some(fb) => Ok(Value::Float(fb)),
        None => Err(GrokRuntimeError::NanResult(filter, numeric_value(operand))),
    }
}

/// Finishes a `json` application once the caller has decoded the bytes:
/// a decoded document is returned as the value, a decoding failure is the
/// recoverable filter failure. Defined for every possible outcome.
pub fn finish_json(filter: GrokFilter, text: Vec<u8>, parsed: Option<Value>) -> (r: Result<
    Value,
    GrokRuntimeError,
>)
    ensures
        match parsed {
            None => r == Err::<Value, GrokRuntimeError>(
                GrokRuntimeError::FailedToApplyFilter(filter, Value::Bytes(text)),
            ),
            Some(v) => r == Ok::<Value, GrokRuntimeError>(v),
        },
{
    match parsed {
        None => Err(GrokRuntimeError::FailedToApplyFilter(filter, Value::Bytes(text))),
        Some(v) => Ok(v),
    }
}

/// Law: `lowercase` is a no-op on a byte string that is already fully
/// lower case: the application step yields exactly the input bytes. The
/// hypotheses say the bytes are a well-formed encoding (they encode their
/// own decoding) and that their text is a fixed point of the Unicode
/// lowercase mapping.
pub proof fn lemma_lowercase_fixed_point(b: Vec<u8>)
    requires
        encode_utf8(lossy_of(b@)) == b@,
        lower_of(lossy_of(b@)) == lossy_of(b@),
    ensures
        lowercase_bytes(b@) == b@,
        apply_step_model(Value::Bytes(b), GrokFilter::Lowercase) == StepModel::Text(b@),
{
}

/// Law: `uppercase` is a no-op on a byte string that is already fully
/// upper case, under the same well-formedness hypothesis.
pub proof fn lemma_uppercase_fixed_point(b: Vec<u8>)
    requires
        encode_utf8(lossy_of(b@)) == b@,
        upper_of(lossy_of(b@)) == lossy_of(b@),
    ensures
        uppercase_bytes(b@) == b@,
        apply_step_model(Value::Bytes(b), GrokFilter::Uppercase) == StepModel::Text(b@),
{
}

/// Law: `nullIf` never produces anything but the null value or its input:
/// for a byte-string value it yields null exactly when the text equals the
/// sentinel and the unchanged input otherwise, and it accepts nothing else.
pub proof fn lemma_null_if_outcomes(value: Value, sentinel: String)
    ensures
        apply_step_model(value, GrokFilter::NullIf(sentinel)) == (match value {
            Value::Bytes(b) => if lossy_of(b@) == sentinel@ {
                StepModel::NullValue
            } else {
                StepModel::Unchanged
            },
            _ => StepModel::Failed,
        }),
{
}

} // verus!
