use json_codec::{deserialize, to_string, to_vec_pretty, to_writer, SerializeError};
use serde_json::Value;

fn record() -> Value {
    let mut m = serde_json::Map::new();
    m.insert("name".to_string(), Value::String("x".to_string()));
    m.insert("count".to_string(), Value::from(3));
    Value::Object(m)
}

fn nested() -> Value {
    let mut inner = serde_json::Map::new();
    inner.insert("id".to_string(), Value::from(7));
    inner.insert("tags".to_string(), Value::Array(vec![Value::from("a b"), Value::from("c\nd")]));
    let mut outer = serde_json::Map::new();
    outer.insert("inner".to_string(), Value::Object(inner));
    outer.insert("flag".to_string(), Value::Bool(true));
    outer.insert("none".to_string(), Value::Null);
    Value::Object(outer)
}

#[derive(Debug)]
struct NeedsB {
    b: i64,
}

impl<'de> serde::Deserialize<'de> for NeedsB {
    fn deserialize<D: serde::Deserializer<'de>>(d: D) -> Result<Self, D::Error> {
        let m = serde_json::Map::<String, Value>::deserialize(d)?;
        match m.get("b").and_then(|b| b.as_i64()) {
            Some(b) => Ok(NeedsB { b }),
            None => Err(<D::Error as serde::de::Error>::missing_field("b")),
        }
    }
}

#[test]
fn record_to_string_is_exact() {
    assert_eq!(to_string(&record()).unwrap(), r#"{"name":"x","count":3}"#);
}

#[test]
fn record_pretty_is_indented() {
    let bytes = to_vec_pretty(&record()).unwrap();
    let text = String::from_utf8(bytes).unwrap();
    assert_eq!(text, "{\n  \"name\": \"x\",\n  \"count\": 3\n}");
}

#[test]
fn pretty_has_lines_compact_has_none() {
    let v = nested();
    let pretty = String::from_utf8(to_vec_pretty(&v).unwrap()).unwrap();
    let compact = to_string(&v).unwrap();
    assert!(pretty.lines().count() > 1);
    assert!(pretty.contains("\n  "));
    assert!(!compact.contains('\n'));
    assert_eq!(compact, r#"{"inner":{"id":7,"tags":["a b","c\nd"]},"flag":true,"none":null}"#);
}

#[test]
fn empty_containers_stay_on_one_line() {
    assert_eq!(to_vec_pretty(&Value::Array(vec![])).unwrap(), b"[]".to_vec());
    assert_eq!(to_string(&Value::Object(serde_json::Map::new())).unwrap(), "{}");
}

#[test]
fn pretty_round_trip() {
    for v in [record(), nested(), Value::Null, Value::from(-12), Value::from("é\"\\")] {
        let bytes = to_vec_pretty(&v).unwrap();
        assert_eq!(deserialize(Ok(bytes)).unwrap(), v);
    }
}

#[test]
fn compact_round_trip() {
    let v = nested();
    let mut buf = Vec::new();
    to_writer(&v, &mut buf).unwrap();
    assert_eq!(deserialize(Ok(buf)).unwrap(), v);
}

#[test]
fn failed_read_is_io() {
    let e = std::io::Error::from(std::io::ErrorKind::NotFound);
    let err = deserialize(Err(e)).unwrap_err();
    assert!(err.is_io());
    assert!(!err.is_json());
    assert_eq!(err.io_cause().unwrap().kind(), std::io::ErrorKind::NotFound);
    assert!(err.json_cause().is_none());
}

#[test]
fn malformed_text_is_json() {
    for text in ["{not valid json", "\"{not valid json", ""] {
        let err = deserialize(Ok(text.as_bytes().to_vec())).unwrap_err();
        assert!(err.is_json());
        assert!(!err.is_io());
        assert!(err.json_cause().unwrap().is_syntax() || err.json_cause().unwrap().is_eof());
        assert!(err.io_cause().is_none());
    }
}

#[test]
fn missing_field_is_json() {
    let v = deserialize(Ok(br#"{"a": 1}"#.to_vec())).unwrap();
    let err = SerializeError::from(serde_json::from_value::<NeedsB>(v).unwrap_err());
    assert!(err.is_json());
    assert!(err.message().contains("missing field `b`"));
    let v = deserialize(Ok(br#"{"b": 4}"#.to_vec())).unwrap();
    assert_eq!(serde_json::from_value::<NeedsB>(v).unwrap().b, 4);
}

#[test]
fn two_writes_concatenate() {
    let mut buf = b"head:".to_vec();
    to_writer(&record(), &mut buf).unwrap();
    let middle = buf.len();
    to_writer(&nested(), &mut buf).unwrap();
    let first = to_string(&record()).unwrap();
    let second = to_string(&nested()).unwrap();
    assert_eq!(&buf[..5], b"head:");
    assert_eq!(&buf[5..middle], first.as_bytes());
    assert_eq!(&buf[middle..], second.as_bytes());
    buf.push(b'!');
    assert_eq!(buf.last(), Some(&b'!'));
}

#[test]
fn writer_output_has_no_line_feed() {
    let mut buf = Vec::new();
    to_writer(&nested(), &mut buf).unwrap();
    assert!(!buf.contains(&b'\n'));
    assert_eq!(buf, to_string(&nested()).unwrap().into_bytes());
}

#[test]
fn errors_convert_by_kind() {
    let io = SerializeError::from(std::io::Error::new(std::io::ErrorKind::Other, "disk full"));
    assert!(io.is_io());
    assert_eq!(io.message(), "disk full");
    let json_err = serde_json::from_slice::<Value>(b"[1,").unwrap_err();
    let shown = json_err.to_string();
    let json = SerializeError::from(json_err);
    assert!(json.is_json());
    assert_eq!(json.message(), shown);
}

#[test]
fn number_array_to_string_is_minified() {
    let v = Value::Array(vec![Value::from(1u32), Value::from(2u32), Value::from(3u32)]);
    assert_eq!(to_string(&v).unwrap(), "[1,2,3]");
    let pretty = String::from_utf8(to_vec_pretty(&v).unwrap()).unwrap();
    assert_eq!(pretty, "[\n  1,\n  2,\n  3\n]");
}

#[test]
fn same_value_encodes_the_same_twice() {
    let v = nested();
    assert_eq!(to_string(&v).unwrap(), to_string(&v).unwrap());
    assert_eq!(to_vec_pretty(&v).unwrap(), to_vec_pretty(&v).unwrap());
}
