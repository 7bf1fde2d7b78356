use grok_filter::apply::{apply_filter, finish_json, ApplyStep};
use grok_filter::filter::{GrokFilter, GrokRuntimeError};
use grok_filter::value::{FloatBits, Value};

fn bytes(s: &str) -> Value {
    Value::Bytes(s.as_bytes().to_vec())
}

fn float(f: f64) -> Value {
    Value::Float(FloatBits::new(f.to_bits()).unwrap())
}

fn decode_json(v: &serde_json::Value) -> Value {
    match v {
        serde_json::Value::Null => Value::Null,
        serde_json::Value::Bool(b) => Value::Boolean(*b),
        serde_json::Value::Number(n) => match n.as_i64() {
            Some(i) => Value::Integer(i),
            None => float(n.as_f64().unwrap()),
        },
        serde_json::Value::String(s) => bytes(s),
        serde_json::Value::Array(a) => Value::Array(a.iter().map(decode_json).collect()),
        serde_json::Value::Object(m) => Value::Object(
            m.iter().map(|(k, v)| (k.clone(), decode_json(v))).collect(),
        ),
    }
}

fn encode_json(v: &Value) -> serde_json::Value {
    match v {
        Value::Null => serde_json::Value::Null,
        Value::Boolean(b) => serde_json::Value::Bool(*b),
        Value::Integer(i) => serde_json::Value::Number(serde_json::Number::from(*i)),
        Value::Float(fb) => serde_json::Value::Number(
            serde_json::Number::from_f64(f64::from_bits(fb.bits())).unwrap(),
        ),
        Value::Bytes(b) => serde_json::Value::String(String::from_utf8_lossy(b).into_owned()),
        Value::Array(a) => serde_json::Value::Array(a.iter().map(encode_json).collect()),
        Value::Object(m) => serde_json::Value::Object(
            m.iter()
                .map(|(k, v)| (k.clone(), encode_json(v)))
                .collect(),
        ),
    }
}

fn run_json(value: Value) -> Result<Value, GrokRuntimeError> {
    match apply_filter(value, &GrokFilter::Json)? {
        ApplyStep::Done(v) => Ok(v),
        ApplyStep::NeedsJson(text) => {
            let parsed = serde_json::from_slice::<serde_json::Value>(&text)
                .ok()
                .map(|v| decode_json(&v));
            finish_json(GrokFilter::Json, text, parsed)
        }
        other => panic!("unexpected step for json: {:?}", other),
    }
}

#[test]
fn json_decodes_an_object() {
    let r = run_json(bytes("{\"a\":1}"));
    assert_eq!(
        r,
        Ok(Value::Object(vec![("a".to_string(), Value::Integer(1))]))
    );
}

#[test]
fn json_decodes_scalars_and_arrays() {
    assert_eq!(run_json(bytes("42")), Ok(Value::Integer(42)));
    assert_eq!(run_json(bytes("2.5")), Ok(float(2.5)));
    assert_eq!(run_json(bytes("\"x\"")), Ok(bytes("x")));
    assert_eq!(run_json(bytes("null")), Ok(Value::Null));
    assert_eq!(
        run_json(bytes("[1,2.5,\"x\",true,null]")),
        Ok(Value::Array(vec![
            Value::Integer(1),
            float(2.5),
            bytes("x"),
            Value::Boolean(true),
            Value::Null,
        ]))
    );
}

#[test]
fn json_rejects_bad_documents_and_values() {
    assert_eq!(
        run_json(bytes("not json")),
        Err(GrokRuntimeError::FailedToApplyFilter(
            GrokFilter::Json,
            bytes("not json")
        ))
    );
    assert_eq!(
        run_json(Value::Integer(1)),
        Err(GrokRuntimeError::FailedToApplyFilter(
            GrokFilter::Json,
            Value::Integer(1)
        ))
    );
}

#[test]
fn json_round_trips_representable_values() {
    let samples = vec![
        Value::Null,
        Value::Boolean(false),
        Value::Integer(-12),
        float(2.5),
        bytes("hello"),
        Value::Array(vec![Value::Integer(1), bytes("two"), float(3.5)]),
        Value::Object(vec![
            ("a".to_string(), Value::Integer(1)),
            (
                "b".to_string(),
                Value::Array(vec![Value::Boolean(true), Value::Null]),
            ),
            (
                "c".to_string(),
                Value::Object(vec![("d".to_string(), float(0.25))]),
            ),
        ]),
    ];
    for v in samples {
        let serialized = serde_json::to_string(&encode_json(&v)).unwrap();
        let back = run_json(bytes(&serialized)).unwrap();
        assert_eq!(back, v);
    }
}
