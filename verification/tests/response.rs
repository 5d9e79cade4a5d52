use serde_json::Value;
use vk_api::json::{Expected, JsonError, JsonValue, Number, Unexpected};
use vk_api::response::closures::{not_found, to_bool, to_i64, to_string, to_vec};
use vk_api::response::{AndThenGetting, Response};

/// The library's document for a `serde_json` value; object entries keep the
/// order in which `serde_json` holds them.
fn doc(v: &Value) -> JsonValue {
    match v {
        Value::Null => JsonValue::Null,
        Value::Bool(b) => JsonValue::Bool(*b),
        Value::Number(n) => {
            if let Some(u) = n.as_u64() {
                JsonValue::Number(Number::PosInt(u))
            } else if let Some(i) = n.as_i64() {
                JsonValue::Number(Number::NegInt(i))
            } else {
                JsonValue::Number(Number::Float(n.to_string()))
            }
        }
        Value::String(s) => JsonValue::String(s.clone()),
        Value::Array(items) => JsonValue::Array(items.iter().map(doc).collect()),
        Value::Object(map) => {
            JsonValue::Object(map.iter().map(|(k, v)| (k.clone(), doc(v))).collect())
        }
    }
}

fn parse(text: &str) -> Response {
    Response(doc(&serde_json::from_str(text).unwrap()))
}

const DATA: &str = r#"
{
	"response": [{
		"id": 210700286,
		"first_name": "Lindsey",
		"last_name": "Stirling",
		"is_closed": false,
		"can_access_closed": true,
		"nickname": "",
		"city": {
			"id": 5331,
			"title": "Los Angeles"
		},
		"photo_max": "https://sun3-2.us...3qx9OtttE.jpg?ava=1",
		"has_mobile": 1,
		"can_write_private_message": 0,
		"mobile_phone": "",
		"home_phone": "",
		"verified": 1,
		"personal": {
			"religion": "Mormon",
			"inspired_by": "My Parents",
			"people_main": 6,
			"life_main": 5,
			"smoking": 1,
			"alcohol": 1
		}
	}]
}"#;

#[test]
fn mod_test_get() {
    let r: Option<Response> = parse(DATA).get("response");
    let u: Option<Response> = r.and_get(0);
    assert_eq!(u.and_get("has_mobile").unwrap().to_i64().unwrap(), 1);
    assert_eq!(u.and_get("has_mobile").unwrap().to_string().unwrap(), "1");
    let personal: Response = u.and_get("personal").unwrap();
    assert_eq!(personal.get("religion").unwrap().to_string().unwrap(), "Mormon");
    assert_eq!(u.and_get("city").and_get("id").unwrap().to_string().unwrap(), "5331");
    assert!(u.and_get("heh").is_none());
    let city: &str = r#"{"id":5331,"title":"Los Angeles"}"#;
    assert_eq!(r.unwrap().get(0).and_get("city").unwrap().to_string().unwrap(), city);
}

#[test]
fn response_test_get() {
    let r = parse(DATA).get("response");
    let u = r.clone().and_then(|i| i.get(0)).unwrap();
    assert_eq!(u.get("has_mobile").unwrap().to_i64().unwrap(), 1);
    assert_eq!(u.to_sring("has_mobile").unwrap(), "1");
    let personal = u.get("personal").unwrap();
    assert_eq!(personal.to_sring("religion").unwrap(), "Mormon");
    assert_eq!(u.get("city").unwrap().to_sring("id").unwrap(), "5331");
    assert!(u.to_sring("heh").is_err());
    assert!(r.is_some());
}

#[test]
fn get_skips_null_and_missing() {
    let doc = parse(r#"{"a": null, "b": [1, null, true], "c": "x"}"#);
    assert!(doc.get("a").is_none());
    assert!(doc.get("zzz").is_none());
    assert!(doc.get(0).is_none());
    let b = doc.get("b");
    assert_eq!(b.and_get(0).unwrap().to_i64().unwrap(), 1);
    assert!(b.and_get(1).is_none());
    assert!(b.and_get(2).unwrap().to_bool().unwrap());
    assert!(b.and_get(3).is_none());
    assert!(b.and_get("a").is_none());
    assert!(doc.get(String::from("c")).is_some());
    let none: Option<Response> = None;
    assert!(none.and_get("a").is_none());
}

#[test]
fn first_entry_of_a_key_wins() {
    let doc = Response(JsonValue::Object(vec![
        ("k".to_string(), JsonValue::Bool(true)),
        ("k".to_string(), JsonValue::Bool(false)),
    ]));
    assert!(!doc.0.is_well_formed());
    assert!(doc.get("k").unwrap().to_bool().unwrap());
}

#[test]
fn well_formed_documents() {
    let sample = parse(DATA);
    assert!(sample.0.is_well_formed());
    assert!(sample.get("response").unwrap().0.is_well_formed());
    let unsorted = JsonValue::Object(vec![
        ("b".to_string(), JsonValue::Null),
        ("a".to_string(), JsonValue::Null),
    ]);
    assert!(!unsorted.is_well_formed());
    let sorted = JsonValue::Object(vec![
        ("a".to_string(), JsonValue::Null),
        ("ab".to_string(), JsonValue::Null),
        ("b".to_string(), JsonValue::Array(vec![JsonValue::Number(Number::NegInt(-1))])),
    ]);
    assert!(sorted.is_well_formed());
    let bad_negative = JsonValue::Array(vec![JsonValue::Number(Number::NegInt(3))]);
    assert!(!bad_negative.is_well_formed());
    assert!(vk_api::json::string_less(&"Z".to_string(), &"a".to_string()));
    assert!(!vk_api::json::string_less(&"é".to_string(), &"z".to_string()));
    assert!(vk_api::json::string_less(&"".to_string(), &"a".to_string()));
}

#[test]
fn error_messages_of_readings() {
    let doc = parse(r#"{"big": 9223372036854775808, "f": 2.5}"#);
    assert_eq!(
        doc.get("f").unwrap().to_i64().unwrap_err().message(),
        "invalid type: floating point `2.5`, expected i64"
    );
    assert_eq!(
        doc.get("big").unwrap().to_i64().unwrap_err().message(),
        "invalid value: integer `9223372036854775808`, expected i64"
    );
    assert_eq!(not_found("a", "b").message(), "key `a` not found in the `b`");
}

#[test]
fn error_messages_are_serde_json_messages() {
    let samples = [
        "null", "true", "false", "0", "17", "-4", "18446744073709551615", "9223372036854775808",
        "2.5", "1e300", "-0.1", r#""plain""#, r#""q\"uo\\te\n\u0001é""#, "[1]", "{}", r#"{"a":1}"#,
    ];
    for text in samples {
        let value: Value = serde_json::from_str(text).unwrap();
        let r = Response(doc(&value));
        match (r.to_i64(), serde_json::from_value::<i64>(value.clone())) {
            (Ok(a), Ok(b)) => assert_eq!(a, b),
            (Err(a), Err(b)) => assert_eq!(a.message(), b.to_string()),
            _ => panic!("to_i64 and serde_json disagree on {}", text),
        }
        match (r.to_bool(), serde_json::from_value::<bool>(value.clone())) {
            (Ok(a), Ok(b)) => assert_eq!(a, b),
            (Err(a), Err(b)) => assert_eq!(a.message(), b.to_string()),
            _ => panic!("to_bool and serde_json disagree on {}", text),
        }
        match (r.to_vec(), serde_json::from_value::<Vec<Value>>(value.clone())) {
            (Ok(a), Ok(b)) => assert_eq!(a.len(), b.len()),
            (Err(a), Err(b)) => assert_eq!(a.message(), b.to_string()),
            _ => panic!("to_vec and serde_json disagree on {}", text),
        }
    }
    let missing = parse("{}").to_sring("k").unwrap_err();
    let expected = serde_json::from_value::<String>(Value::Null).unwrap_err();
    assert_eq!(missing.message(), expected.to_string());
}

#[test]
fn text_of_each_kind() {
    let doc = parse(r#"{"s": "plain", "n": -42, "big": 18446744073709551615, "f": 1.5, "t": true, "z": null, "arr": [1, "a", {"x": []}], "o": {}}"#);
    assert_eq!(doc.get("s").unwrap().to_string().unwrap(), "plain");
    assert_eq!(doc.get("n").unwrap().to_string().unwrap(), "-42");
    assert_eq!(doc.get("big").unwrap().to_string().unwrap(), "18446744073709551615");
    assert_eq!(doc.get("f").unwrap().to_string().unwrap(), "1.5");
    assert_eq!(doc.get("t").unwrap().to_string().unwrap(), "true");
    assert_eq!(doc.get("arr").unwrap().to_string().unwrap(), r#"[1,"a",{"x":[]}]"#);
    assert_eq!(doc.get("o").unwrap().to_string().unwrap(), "{}");
    assert_eq!(Response(JsonValue::Null).to_string().unwrap(), "null");
    assert_eq!(Response(JsonValue::Bool(false)).to_string().unwrap(), "false");
    assert_eq!(doc.to_sring("s").unwrap(), "plain");
    assert_eq!(doc.to_sring("arr").unwrap(), r#"[1,"a",{"x":[]}]"#);
    assert!(matches!(
        doc.to_sring("z"),
        Err(JsonError::InvalidType { found: Unexpected::Null, expected: Expected::String })
    ));
}

#[test]
fn text_escapes_nested_strings() {
    let inner = "q\"b\\s/n\nr\rt\tb\u{8}f\u{c}c\u{1}e\u{1f}é";
    let doc = Response(JsonValue::Array(vec![JsonValue::String(inner.to_string())]));
    let expected = serde_json::Value::Array(vec![Value::String(inner.to_string())]).to_string();
    assert_eq!(doc.to_string().unwrap(), expected);
    assert_eq!(
        doc.to_string().unwrap(),
        "[\"q\\\"b\\\\s/n\\nr\\rt\\tb\\bf\\fc\\u0001e\\u001fé\"]"
    );
}

#[test]
fn text_matches_serde_json_on_the_sample() {
    let value: Value = serde_json::from_str(DATA).unwrap();
    assert_eq!(Response(doc(&value)).to_string().unwrap(), value.to_string());
}

#[test]
fn integer_text_agrees_with_i64() {
    for text in ["0", "7", "10", "-1", "9223372036854775807", "-9223372036854775808"] {
        let r = parse(text);
        assert_eq!(r.to_i64().unwrap().to_string(), r.to_string().unwrap());
    }
}

#[test]
fn reading_errors() {
    let doc = parse(r#"{"big": 9223372036854775808, "f": 2.5, "s": "x", "a": [true]}"#);
    assert!(matches!(doc.get("big").unwrap().to_i64(), Err(JsonError::OutOfRange(9223372036854775808))));
    assert!(matches!(
        doc.get("f").unwrap().to_i64(),
        Err(JsonError::InvalidType { found: Unexpected::Float(_), expected: Expected::I64 })
    ));
    assert!(matches!(
        doc.get("s").unwrap().to_bool(),
        Err(JsonError::InvalidType { found: Unexpected::Str(_), expected: Expected::Bool })
    ));
    assert!(matches!(
        doc.to_vec(),
        Err(JsonError::InvalidType { found: Unexpected::Object, expected: Expected::Sequence })
    ));
    assert!(matches!(
        Response(JsonValue::Null).to_i64(),
        Err(JsonError::InvalidType { found: Unexpected::Null, expected: Expected::I64 })
    ));
    let items = doc.get("a").unwrap().to_vec().unwrap();
    assert_eq!(items.len(), 1);
    assert!(items[0].to_bool().unwrap());
    match not_found("id", "user") {
        JsonError::Custom(m) => assert_eq!(m, "key `id` not found in the `user`"),
        _ => panic!("not a custom error"),
    }
}

#[test]
fn free_functions_read_like_methods() {
    let doc = parse(r#"{"n": 5, "b": false, "l": [1, 2]}"#);
    assert_eq!(doc.get("n").ok_or(not_found("n", "doc")).and_then(to_i64).unwrap(), 5);
    assert!(!doc.get("b").ok_or(not_found("b", "doc")).and_then(to_bool).unwrap());
    let l = doc.get("l").ok_or(not_found("l", "doc")).and_then(to_vec).unwrap();
    assert_eq!(l.len(), 2);
    assert_eq!(to_string(l[1].clone()).unwrap(), "2");
    assert!(to_vec(doc.get("n").unwrap()).is_err());
}

#[test]
fn position_agrees_with_listing() {
    let doc = parse(r#"[3, null, "x"]"#);
    let items = doc.to_vec().unwrap();
    for i in 0..items.len() {
        match doc.get(i) {
            Some(item) => assert_eq!(item.to_string().unwrap(), items[i].to_string().unwrap()),
            None => assert_eq!(items[i].to_string().unwrap(), "null"),
        }
    }
}
