use grok_filter::apply::{
    apply_filter, finish_float_parse, finish_float_parse_to_int, finish_json, finish_mul,
    ApplyStep,
};
use grok_filter::filter::{GrokFilter, GrokRuntimeError, Numeric};
use grok_filter::value::{FloatBits, Value};

fn bytes(s: &str) -> Value {
    Value::Bytes(s.as_bytes().to_vec())
}

fn float(f: f64) -> Value {
    Value::Float(FloatBits::new(f.to_bits()).unwrap())
}

fn numeric_as_f64(n: &Numeric) -> f64 {
    match n {
        Numeric::Integer(i) => *i as f64,
        Numeric::Float(fb) => f64::from_bits(fb.bits()),
    }
}

fn decode_json(v: &serde_json::Value) -> Value {
    match v {
        serde_json::Value::Null => Value::Null,
        serde_json::Value::Bool(b) => Value::Boolean(*b),
        serde_json::Value::Number(n) => match n.as_i64() {
            Some(i) => Value::Integer(i),
            None => float(n.as_f64().unwrap()),
        },
        serde_json::Value::String(s) => bytes(s),
        serde_json::Value::Array(a) => Value::Array(a.iter().map(decode_json).collect()),
        serde_json::Value::Object(m) => Value::Object(
            m.iter().map(|(k, v)| (k.clone(), decode_json(v))).collect(),
        ),
    }
}

/// Runs one full application, performing the machine operations the
/// engine requests.
fn run(value: Value, filter: &GrokFilter) -> Result<Value, GrokRuntimeError> {
    match apply_filter(value, filter)? {
        ApplyStep::Done(v) => Ok(v),
        ApplyStep::NeedsFloatParse(text) => {
            let parsed = String::from_utf8_lossy(&text)
                .parse::<f64>()
                .ok()
                .map(f64::to_bits);
            finish_float_parse(filter.clone(), text, parsed)
        }
        ApplyStep::NeedsFloatParseToInt(text) => {
            let parsed = String::from_utf8_lossy(&text)
                .parse::<f64>()
                .ok()
                .map(|f| f as i64);
            finish_float_parse_to_int(filter.clone(), text, parsed)
        }
        ApplyStep::NeedsMul(operand, factor) => {
            let product = numeric_as_f64(&operand) * numeric_as_f64(&factor);
            finish_mul(filter.clone(), operand, product.to_bits())
        }
        ApplyStep::NeedsJson(text) => {
            let parsed = serde_json::from_slice::<serde_json::Value>(&text)
                .ok()
                .map(|v| decode_json(&v));
            finish_json(filter.clone(), text, parsed)
        }
    }
}

fn assert_fails(value: Value, filter: &GrokFilter) {
    let kept = match &value {
        Value::Bytes(b) => Value::Bytes(b.clone()),
        Value::Integer(i) => Value::Integer(*i),
        Value::Float(fb) => Value::Float(*fb),
        Value::Boolean(b) => Value::Boolean(*b),
        Value::Null => Value::Null,
        other => panic!("unexpected test value {:?}", other),
    };
    let r = run(value, filter);
    assert_eq!(
        r,
        Err(GrokRuntimeError::FailedToApplyFilter(filter.clone(), kept))
    );
}

#[test]
fn integer_parses_strict_decimal() {
    assert_eq!(run(bytes("42"), &GrokFilter::Integer), Ok(Value::Integer(42)));
    assert_eq!(run(bytes("+7"), &GrokFilter::Integer), Ok(Value::Integer(7)));
    assert_eq!(
        run(bytes("-0042"), &GrokFilter::Integer),
        Ok(Value::Integer(-42))
    );
    assert_eq!(
        run(bytes("9223372036854775807"), &GrokFilter::Integer),
        Ok(Value::Integer(i64::MAX))
    );
    assert_eq!(
        run(bytes("-9223372036854775808"), &GrokFilter::Integer),
        Ok(Value::Integer(i64::MIN))
    );
}

#[test]
fn integer_rejects_non_integers() {
    assert_fails(bytes("42.5"), &GrokFilter::Integer);
    assert_fails(bytes(""), &GrokFilter::Integer);
    assert_fails(bytes("+"), &GrokFilter::Integer);
    assert_fails(bytes(" 42"), &GrokFilter::Integer);
    assert_fails(bytes("42 "), &GrokFilter::Integer);
    assert_fails(bytes("4x2"), &GrokFilter::Integer);
    assert_fails(bytes("9223372036854775808"), &GrokFilter::Integer);
    assert_fails(bytes("-9223372036854775809"), &GrokFilter::Integer);
    assert_fails(Value::Integer(42), &GrokFilter::Integer);
    assert_fails(Value::Null, &GrokFilter::Integer);
}

#[test]
fn integer_ext_truncates_toward_zero() {
    assert_eq!(
        run(bytes("42.9"), &GrokFilter::IntegerExt),
        Ok(Value::Integer(42))
    );
    assert_eq!(
        run(bytes("-42.9"), &GrokFilter::IntegerExt),
        Ok(Value::Integer(-42))
    );
    assert_eq!(
        run(bytes("1e3"), &GrokFilter::IntegerExt),
        Ok(Value::Integer(1000))
    );
    assert_fails(bytes("abc"), &GrokFilter::IntegerExt);
    assert_fails(float(42.9), &GrokFilter::IntegerExt);
}

#[test]
fn number_parses_floats() {
    assert_eq!(
        run(bytes("42.5"), &GrokFilter::Number),
        Ok(float(42.5))
    );
    assert_eq!(
        run(bytes("-1e-3"), &GrokFilter::NumberExt),
        Ok(float(-0.001))
    );
    assert_eq!(run(bytes("7"), &GrokFilter::Number), Ok(float(7.0)));
    assert_fails(bytes("abc"), &GrokFilter::Number);
    assert_fails(Value::Integer(7), &GrokFilter::NumberExt);
}

#[test]
fn number_treats_nan_text_as_fault() {
    let r = run(bytes("NaN"), &GrokFilter::Number);
    assert_eq!(
        r,
        Err(GrokRuntimeError::NanResult(
            GrokFilter::Number,
            bytes("NaN")
        ))
    );
}

#[test]
fn scale_multiplies_and_promotes() {
    let by_two = GrokFilter::Scale(Numeric::Float(FloatBits::new((2.0f64).to_bits()).unwrap()));
    assert_eq!(run(Value::Integer(21), &by_two), Ok(float(42.0)));
    let by_half = GrokFilter::Scale(Numeric::Float(FloatBits::new((0.5f64).to_bits()).unwrap()));
    assert_eq!(run(float(3.0), &by_half), Ok(float(1.5)));
    let by_int = GrokFilter::Scale(Numeric::Integer(2));
    assert_eq!(run(Value::Integer(21), &by_int), Ok(float(42.0)));
    assert_fails(bytes("21"), &by_two);
    assert_fails(Value::Null, &by_int);
}

#[test]
fn scale_nan_product_is_a_fault() {
    let by_zero = GrokFilter::Scale(Numeric::Float(FloatBits::new((0.0f64).to_bits()).unwrap()));
    let r = run(float(f64::INFINITY), &by_zero);
    assert_eq!(
        r,
        Err(GrokRuntimeError::NanResult(
            by_zero.clone(),
            float(f64::INFINITY)
        ))
    );
}

#[test]
fn lowercase_and_uppercase_fold_case() {
    assert_eq!(run(bytes("ABC"), &GrokFilter::Lowercase), Ok(bytes("abc")));
    assert_eq!(run(bytes("abc"), &GrokFilter::Uppercase), Ok(bytes("ABC")));
    assert_eq!(
        run(bytes("MiXeD 123"), &GrokFilter::Lowercase),
        Ok(bytes("mixed 123"))
    );
    assert_eq!(
        run(bytes("\u{c4}\u{d6}"), &GrokFilter::Lowercase),
        Ok(bytes("\u{e4}\u{f6}"))
    );
    assert_fails(Value::Integer(3), &GrokFilter::Lowercase);
    assert_fails(Value::Null, &GrokFilter::Uppercase);
}

#[test]
fn case_folding_is_a_no_op_on_cased_text() {
    let once = run(bytes("Grok Filter 7"), &GrokFilter::Lowercase).unwrap();
    let again = match &once {
        Value::Bytes(b) => run(Value::Bytes(b.clone()), &GrokFilter::Lowercase).unwrap(),
        other => panic!("expected bytes, got {:?}", other),
    };
    assert_eq!(once, again);
    let once = run(bytes("Grok Filter 7"), &GrokFilter::Uppercase).unwrap();
    let again = match &once {
        Value::Bytes(b) => run(Value::Bytes(b.clone()), &GrokFilter::Uppercase).unwrap(),
        other => panic!("expected bytes, got {:?}", other),
    };
    assert_eq!(once, again);
    assert_eq!(run(bytes("abc"), &GrokFilter::Lowercase), Ok(bytes("abc")));
    assert_eq!(run(bytes("ABC"), &GrokFilter::Uppercase), Ok(bytes("ABC")));
}

#[test]
fn lossy_decoding_replaces_invalid_utf8() {
    let raw = Value::Bytes(vec![0x41, 0xff, 0x42]);
    let r = run(raw, &GrokFilter::Lowercase);
    assert_eq!(r, Ok(bytes("a\u{fffd}b")));
}

#[test]
fn null_if_matches_sentinel() {
    let dash = GrokFilter::NullIf("-".to_string());
    assert_eq!(run(bytes("-"), &dash), Ok(Value::Null));
    assert_eq!(run(bytes("x"), &dash), Ok(bytes("x")));
    assert_eq!(run(bytes(""), &dash), Ok(bytes("")));
    assert_fails(Value::Integer(1), &dash);
    assert_fails(Value::Null, &dash);
}

#[test]
fn errors_carry_filter_and_value() {
    let r = run(Value::Boolean(true), &GrokFilter::Json);
    match r {
        Err(GrokRuntimeError::FailedToApplyFilter(f, v)) => {
            assert_eq!(f.display_name(), "Json");
            assert_eq!(v, Value::Boolean(true));
        }
        other => panic!("expected a filter failure, got {:?}", other),
    }
}
