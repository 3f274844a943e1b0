//! The envelopes of calls and answers.

use agentforce_a2a::json::{parse_json_text, write_json, Json, Number};
use agentforce_a2a::jsonrpc::{
    parse_request, reason_data, request_of, JsonRpcError, JsonRpcSuccess, INVALID_REQUEST,
    METHOD_NOT_FOUND, PARSE_ERROR, TASK_NOT_FOUND,
};

fn whole(n: u64) -> Json {
    Json::Number(Number::PosInt(n))
}

fn text(s: &str) -> Json {
    Json::Text(s.to_string())
}

#[test]
fn parse_minimal_request() {
    let body = br#"{"jsonrpc":"2.0","id":1,"method":"message/send"}"#;
    let req = parse_request(body).unwrap();
    assert_eq!(req.method, "message/send");
    assert_eq!(req.id, Some(whole(1)));
}

#[test]
fn rejects_garbage() {
    let body = b"<html>nope</html>";
    let err = parse_request(body).unwrap_err();
    assert_eq!(err.error.code, PARSE_ERROR);
    assert!(err.id == Json::Null);
}

#[test]
fn rejects_wrong_jsonrpc_version() {
    let body = br#"{"jsonrpc":"1.0","id":2,"method":"x"}"#;
    let err = parse_request(body).unwrap_err();
    assert_eq!(err.error.code, INVALID_REQUEST);
    assert_eq!(err.id, whole(2));
}

#[test]
fn rejects_missing_method() {
    let body = br#"{"jsonrpc":"2.0","id":3}"#;
    let err = parse_request(body).unwrap_err();
    assert_eq!(err.error.code, INVALID_REQUEST);
}

#[test]
fn echoes_string_id() {
    let body = br#"{"jsonrpc":"2.0","id":"abc","method":"x"}"#;
    let req = parse_request(body).unwrap();
    assert_eq!(req.id, Some(text("abc")));
}

#[test]
fn success_serializes_round_trip() {
    let s = JsonRpcSuccess::new(Some(whole(1)), parse_json_text(r#"{"ok":true}"#).unwrap());
    let bytes = s.into_bytes();
    let v: serde_json::Value = serde_json::from_slice(&bytes).unwrap();
    assert_eq!(v["jsonrpc"], "2.0");
    assert_eq!(v["id"], 1);
    assert_eq!(v["result"]["ok"], true);
    assert!(v.get("error").is_none());
}

#[test]
fn error_serializes_with_optional_data() {
    let e = JsonRpcError::new(Some(text("k")), TASK_NOT_FOUND, "Task not found".to_string())
        .with_data(parse_json_text(r#"{"taskId":"x"}"#).unwrap());
    let bytes = e.into_bytes();
    let v: serde_json::Value = serde_json::from_slice(&bytes).unwrap();
    assert_eq!(v["jsonrpc"], "2.0");
    assert_eq!(v["id"], "k");
    assert_eq!(v["error"]["code"], TASK_NOT_FOUND);
    assert_eq!(v["error"]["data"]["taskId"], "x");
    assert!(v.get("result").is_none());
}

#[test]
fn error_omits_data_when_none() {
    let e = JsonRpcError::new(None, METHOD_NOT_FOUND, "Method not found".to_string());
    let bytes = e.into_bytes();
    let v: serde_json::Value = serde_json::from_slice(&bytes).unwrap();
    assert!(v["error"].get("data").is_none());
}

#[test]
fn unreadable_body_is_explained() {
    let err = parse_request(b"<html>nope</html>").unwrap_err();
    assert_eq!(err.error.message, "Parse error");
    assert_eq!(err.error.data, Some(reason_data("expected value at line 1 column 1")));
}

#[test]
fn missing_field_is_explained() {
    let err = parse_request(br#"{"jsonrpc":"2.0","id":3}"#).unwrap_err();
    assert_eq!(err.id, whole(3));
    assert_eq!(err.error.message, "Invalid Request");
    assert_eq!(err.error.data, Some(reason_data("missing field `method`")));
}

#[test]
fn wrongly_typed_field_is_explained() {
    let err = parse_request(br#"{"jsonrpc":"2.0","id":"a","method":5}"#).unwrap_err();
    assert_eq!(err.id, text("a"));
    assert_eq!(err.error.code, INVALID_REQUEST);
    assert_eq!(
        err.error.data,
        Some(reason_data("invalid type: integer `5`, expected a string"))
    );
}

#[test]
fn document_that_is_no_object_is_explained() {
    let err = parse_request(b"true").unwrap_err();
    assert_eq!(err.id, Json::Null);
    assert_eq!(
        err.error.data,
        Some(reason_data("invalid type: boolean `true`, expected struct JsonRpcRequest"))
    );
}

#[test]
fn empty_method_is_refused() {
    let err = parse_request(br#"{"jsonrpc":"2.0","id":9,"method":""}"#).unwrap_err();
    assert_eq!(err.error.code, INVALID_REQUEST);
    assert_eq!(err.error.message, "Invalid Request: method is required");
    assert_eq!(err.error.data, None);
    assert_eq!(err.id, whole(9));
}

#[test]
fn other_version_is_refused_in_words() {
    let err = parse_request(br#"{"jsonrpc":"1.0","method":""}"#).unwrap_err();
    assert_eq!(err.error.message, "Invalid Request: jsonrpc must be \"2.0\"");
    assert_eq!(err.id, Json::Null);
}

#[test]
fn null_id_counts_as_none() {
    let req = parse_request(br#"{"jsonrpc":"2.0","id":null,"method":"x","params":null}"#).unwrap();
    assert_eq!(req.id, None);
    assert_eq!(req.params, None);
}

#[test]
fn call_may_come_as_an_array() {
    let req = parse_request(br#"["2.0", 4, "x", {"a": 1}]"#).unwrap();
    assert_eq!(req.id, Some(whole(4)));
    assert_eq!(req.method, "x");
    assert_eq!(req.params, Some(parse_json_text(r#"{"a":1}"#).unwrap()));
}

#[test]
fn given_documents_are_judged_like_read_ones() {
    let refused = request_of(Err("broken".to_string())).unwrap_err();
    assert_eq!(refused.error.code, PARSE_ERROR);
    assert_eq!(refused.error.data, Some(reason_data("broken")));
    let doc = parse_json_text(r#"{"method":"tasks/get","jsonrpc":"2.0","extra":[1]}"#).unwrap();
    let req = request_of(Ok(doc)).unwrap();
    assert_eq!(req.method, "tasks/get");
    assert_eq!(req.id, None);
}

#[test]
fn answers_have_their_members_in_order() {
    let s = JsonRpcSuccess::new(None, Json::Bool(false));
    assert_eq!(s.into_bytes(), br#"{"jsonrpc":"2.0","id":null,"result":false}"#.to_vec());
    let e = JsonRpcError::new(Some(whole(7)), -32603, "no \"luck\"".to_string());
    assert_eq!(
        e.into_bytes(),
        br#"{"jsonrpc":"2.0","id":7,"error":{"code":-32603,"message":"no \"luck\""}}"#.to_vec()
    );
}

#[test]
fn json_is_written_as_it_was_read() {
    let source = r#"{"z":1,"a":[-2,1.5,"q",null,true,{}],"m":{"k":"v"}}"#;
    let doc = parse_json_text(source).unwrap();
    assert_eq!(write_json(&doc), source.as_bytes().to_vec());
}
