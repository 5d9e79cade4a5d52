use serde_json::Value;
use vk_api::json::{JsonValue, Number};
use vk_api::long_polling::{GroupPolling, Poll};
use vk_api::response::error::ResponseError;
use vk_api::response::Response;
use vk_api::{read_reply, PutInAStrings, VK};

fn doc(v: &serde_json::Value) -> JsonValue {
    match v {
        Value::Null => JsonValue::Null,
        Value::Bool(b) => JsonValue::Bool(*b),
        Value::Number(n) => {
            if let Some(u) = n.as_u64() {
                JsonValue::Number(Number::PosInt(u))
            } else if let Some(i) = n.as_i64() {
                JsonValue::Number(Number::NegInt(i))
            } else {
                JsonValue::Number(Number::Float(n.to_string()))
            }
        }
        Value::String(s) => JsonValue::String(s.clone()),
        Value::Array(items) => JsonValue::Array(items.iter().map(doc).collect()),
        Value::Object(map) => {
            JsonValue::Object(map.iter().map(|(k, v)| (k.clone(), doc(v))).collect())
        }
    }
}

fn parse(text: &str) -> JsonValue {
    doc(&serde_json::from_str(text).unwrap())
}

fn pairs(v: &[(&str, &str)]) -> Vec<(String, String)> {
    v.iter().map(|(k, v)| (k.to_string(), v.to_string())).collect()
}

#[test]
fn put_appends_one_pair() {
    let mut params: Vec<(String, String)> = Vec::new();
    params.put("id".to_string(), 1234.to_string());
    params.put("text".to_string(), "hello".to_string());
    assert_eq!(params, pairs(&[("id", "1234"), ("text", "hello")]));
}

#[test]
fn from_token_and_group() {
    let vk = VK::from_token("TOKEN".to_string());
    assert_eq!(vk.access_token, "TOKEN");
    assert_eq!(vk.version, "5.92");
    assert_eq!(vk.group_id, 0);
    let vk = vk.with_group_id(-77);
    assert_eq!(vk.group_id, -77);
    assert_eq!(vk.access_token, "TOKEN");
}

#[test]
fn call_parameters() {
    let vk = VK::from_token("T".to_string()).with_group_id(12345567890000);
    let plain = vk.call_without("users.get", pairs(&[("user_ids", "1")]));
    assert_eq!(plain.url, "https://api.vk.com/method/users.get");
    assert_eq!(plain.query, pairs(&[("user_ids", "1")]));
    let with_token = vk.call("users.get", pairs(&[("user_ids", "1"), ("name_case", "Nom")]));
    assert_eq!(with_token.url, "https://api.vk.com/method/users.get");
    assert_eq!(
        with_token.query,
        pairs(&[("user_ids", "1"), ("name_case", "Nom"), ("access_token", "T"), ("v", "5.92")])
    );
    let for_group = vk.call_gi("groups.getLongPollServer", Vec::new());
    assert_eq!(for_group.url, "https://api.vk.com/method/groups.getLongPollServer");
    assert_eq!(
        for_group.query,
        pairs(&[("group_id", "12345567890000"), ("access_token", "T"), ("v", "5.92")])
    );
    let negative = VK::from_token("T".to_string()).with_group_id(i64::MIN).call_gi("m", Vec::new());
    assert_eq!(negative.query[0].1, "-9223372036854775808");
}

#[test]
fn call_gi_is_call_with_group() {
    let vk = VK::from_token("T".to_string()).with_group_id(42);
    let a = vk.call_gi("m", pairs(&[("x", "1")]));
    let b = vk.call("m", pairs(&[("x", "1"), ("group_id", "42")]));
    assert_eq!(a.url, b.url);
    assert_eq!(a.query, b.query);
}

#[test]
fn reading_replies() {
    let ok = read_reply(&parse(r#"{"response": {"count": 3}, "error": "ignored"}"#)).unwrap();
    assert_eq!(ok.get("count").unwrap().to_i64().unwrap(), 3);
    let err = read_reply(&parse(r#"{"response": null, "error": {"error_code": 5}}"#)).unwrap_err();
    assert_eq!(err, r#"Error: {"error_code":5}"#);
    let err = read_reply(&parse(r#"{"error": "bad"}"#)).unwrap_err();
    assert_eq!(err, r#"Error: "bad""#);
    let unknown = read_reply(&parse(r#"{"other": 1}"#)).unwrap_err();
    assert_eq!(unknown, "Unknown json from vk");
    assert_eq!(read_reply(&parse("[1]")).unwrap_err(), "Unknown json from vk");
}

#[test]
fn long_poll_server_from_reply() {
    let reply = Response(parse(r#"{"key": "abc", "server": "https://lp.vk.com/wh1", "ts": 17}"#));
    let session = GroupPolling::get_long_poll_server(&reply).unwrap();
    assert_eq!(session.key, "abc");
    assert_eq!(session.server, "https://lp.vk.com/wh1");
    assert_eq!(session.ts, "17");
    assert_eq!(session.wait, 25);
    assert_eq!(
        session.poll_url(),
        "https://lp.vk.com/wh1?act=a_check&key=abc&ts=17&wait=25"
    );
    let session = session.with_wait(7);
    assert_eq!(session.wait, 7);
    assert_eq!(session.ts, "17");
    assert_eq!(session.poll_url(), "https://lp.vk.com/wh1?act=a_check&key=abc&ts=17&wait=7");

    let missing = Response(parse(r#"{"key": "abc", "ts": 1}"#));
    match GroupPolling::get_long_poll_server(&missing) {
        Err(ResponseError::FieldNotFound(field, json)) => {
            assert_eq!(field, "server");
            assert_eq!(json, r#"{"key":"abc","ts":1}"#);
        }
        _ => panic!("expected a missing field"),
    }
}

#[test]
fn polling_moves_the_position() {
    let mut session = GroupPolling {
        key: "k".to_string(),
        server: "s".to_string(),
        ts: "1".to_string(),
        wait: 25,
    };
    let reply = Response(parse(r#"{"ts": "5", "updates": [{"type": "message_new"}, {"type": "x"}]}"#));
    let events = session.poll(&reply).unwrap();
    assert_eq!(events.len(), 2);
    assert_eq!(events[0].get("type").unwrap().to_string().unwrap(), "message_new");
    assert_eq!(session.ts, "5");

    let no_updates = Response(parse(r#"{"ts": "9", "failed": 1}"#));
    match session.poll(&no_updates) {
        Err(ResponseError::FieldNotFound(field, _)) => assert_eq!(field, "updates"),
        _ => panic!("expected a missing field"),
    }
    assert_eq!(session.ts, "5");

    let bad_updates = Response(parse(r#"{"ts": "9", "updates": 3}"#));
    assert!(matches!(session.poll(&bad_updates), Err(ResponseError::InvalidJson(_))));
    assert_eq!(session.ts, "5");

    let no_ts = Response(parse(r#"{"updates": []}"#));
    match session.poll(&no_ts) {
        Err(ResponseError::FieldNotFound(field, json)) => {
            assert_eq!(field, "ts");
            assert_eq!(json, r#"{"updates":[]}"#);
        }
        _ => panic!("expected a missing field"),
    }
    assert_eq!(session.ts, "5");
}

#[test]
fn error_messages() {
    let f = ResponseError::FieldNotFound("ts".to_string(), "{}".to_string());
    assert_eq!(f.description(), "field `ts` not found in json: {}");
    assert_eq!(
        ResponseError::InvalidJson("[".to_string()).description(),
        "Json is not valid and cannot be recognized. Json: ["
    );
    assert_eq!(
        ResponseError::ServerError("x".to_string()).description(),
        "The server returned an error. Error: x"
    );
    assert_eq!(
        ResponseError::NoImportantFieldsFound("{}".to_string()).description(),
        "Something went wrong. \n\t\t\t\tVK returned data in which there was no response or error: {}"
    );
}
