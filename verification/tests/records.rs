//! Records that are read from bytes.

use agentforce_a2a::a2a::methods::task_of_stored;
use agentforce_a2a::a2a::types::Task;
use agentforce_a2a::agentforce::client::{SendMessageResponse, StartSessionResponse};
use agentforce_a2a::cache::fresh_token;
use agentforce_a2a::decode::{read_record, Rec};
use agentforce_a2a::json::{parse_json_text, write_json};
use agentforce_a2a::oauth::TokenResponse;
use agentforce_a2a::spans::{is_one_value, split_items, split_members};
use agentforce_a2a::store::task_store::{HotEnvelope, TaskMeta};

fn refused(r: Rec, text: &str) -> String {
    read_record(r, text.as_bytes()).unwrap_err()
}

fn read(r: Rec, text: &str) -> String {
    String::from_utf8(write_json(&read_record(r, text.as_bytes()).unwrap())).unwrap()
}

fn task(text: &str) -> Result<Task, String> {
    task_of_stored(read_record(Rec::Task, text.as_bytes()))
}

#[test]
fn repeated_fields_are_refused() {
    assert_eq!(
        refused(Rec::Token, r#"{"access_token":"a","expires_in":1,"access_token":"b"}"#),
        "duplicate field `access_token`"
    );
    // The same name, written in another way.
    assert_eq!(
        refused(Rec::Token, r#"{"expires_in":1, "access_token":"b", "expires\u005fin":1}"#),
        "duplicate field `expires_in`"
    );
    assert!(TokenResponse::parse(br#"{"access_token":"a","access_token":"a"}"#).is_err());
    assert_eq!(
        HotEnvelope::from_bytes(br#"{"payload":[1],"expires_at_unix":5,"payload":[2]}"#),
        None
    );
    assert_eq!(
        TaskMeta::from_bytes(br#"{"sequenceId":1,"lastUpdatedAt":1,"sequenceId":2}"#),
        None
    );
    let entry = br#"{"access_token":"a","expires_at_unix":900,"access_token":"b"}"#.to_vec();
    assert_eq!(fresh_token(&Some(entry), 0, 60), None);
}

#[test]
fn repeated_fields_are_refused_further_in() {
    let answer = br#"{"sessionId":"s","messages":[{"id":"a"},{"id":"b","id":"c"}]}"#;
    assert_eq!(
        StartSessionResponse::of(read_record(Rec::StartSession, answer)),
        Err("duplicate field `id`".to_string())
    );
    assert_eq!(
        task(r#"{"id":"t","contextId":"t","kind":"task","status":{"state":"completed","state":"failed"}}"#),
        Err("duplicate field `state`".to_string())
    );
    let with_part = |part: &str| {
        task(&format!(
            r#"{{"id":"t","contextId":"t","kind":"task","status":{{"state":"completed"}},"history":[{{"kind":"message","messageId":"m","role":"user","parts":[{part}]}}]}}"#
        ))
    };
    assert_eq!(
        with_part(r#"{"kind":"text","text":"a","kind":"text"}"#),
        Err("duplicate field `kind`".to_string())
    );
    assert_eq!(
        with_part(r#"{"text":"a","kind":"text","text":"b"}"#),
        Err("duplicate field `text`".to_string())
    );
    assert_eq!(
        with_part(r#"{"kind":"text","metadata":1,"text":"b","metadata":2}"#),
        Err("duplicate field `metadata`".to_string())
    );
    // A part of another kind has no such fields.
    assert!(with_part(r#"{"kind":"data","text":"a","text":"b"}"#).is_ok());
    assert!(with_part(r#"{"kind":"text","text":"b"}"#).is_ok());
    assert!(task(
        r#"{"id":"t","contextId":"t","kind":"task","status":{"state":{"failed":null,"failed":null}}}"#
    )
    .is_err());
}

#[test]
fn ignored_members_may_repeat() {
    assert_eq!(
        read(Rec::Token, r#"{"x":1,"access_token":"a","x":{"y":1,"y":2}}"#),
        r#"{"access_token":"a"}"#
    );
    // Members that are kept without being fields keep their last value.
    let answer = br#"{"messages":[{"result":"a","result":"b","other":1}]}"#;
    let r = SendMessageResponse::of(read_record(Rec::SendMessage, answer)).unwrap();
    assert_eq!(r.messages.len(), 1);
    assert_eq!(
        read(Rec::SendMessage, r#"{"messages":[{"result":"a","result":"b","other":1}]}"#),
        r#"{"messages":[{"result":"b","other":1}]}"#
    );
    // So does what any document may stand for.
    let t = task(
        r#"{"id":"t","contextId":"t","kind":"task","status":{"state":"failed"},"metadata":{"a":1,"a":2}}"#,
    );
    assert_eq!(t.unwrap().metadata, Some(parse_json_text(r#"{"a":2}"#).unwrap()));
}

#[test]
fn ignored_members_are_only_passed_over() {
    let deep = format!("{}{}", "[".repeat(300), "]".repeat(300));
    let with_deep = format!(r#"{{"access_token":"a","x":{deep}}}"#);
    assert_eq!(read(Rec::Token, &with_deep), r#"{"access_token":"a"}"#);
    assert_eq!(
        read(Rec::Token, r#" { "x" : 1e999 , "access_token" : "a" } "#),
        r#"{"access_token":"a"}"#
    );
    assert_eq!(
        refused(Rec::Token, r#"{"access_token":"a","expires_in":1e999}"#),
        "number out of range at line 1 column 38"
    );
    assert!(read_record(Rec::Token, format!(r#"{{"access_token":{deep}}}"#).as_bytes()).is_err());
    assert!(read_record(Rec::Token, br#"{"access_token":"a","x":nope}"#).is_err());
    assert!(read_record(Rec::Token, br#"{"access_token":"a","x":[1,]}"#).is_err());
}

#[test]
fn nothing_may_follow_a_record() {
    assert_eq!(
        refused(Rec::Token, r#"{"access_token":"a"} x"#),
        "trailing characters at line 1 column 22"
    );
    assert_eq!(
        refused(Rec::Token, r#"{"access_token":"a""#),
        "EOF while parsing an object at line 1 column 19"
    );
    assert!(read_record(Rec::Token, b"").is_err());
}

#[test]
fn records_are_read_from_arrays_too() {
    assert_eq!(read(Rec::CachedToken, r#" [ "t" , 5 ] "#), r#"["t",5]"#);
    assert!(task(
        r#"["t","t","task",{"state":"failed","state":"failed"}]"#
    )
    .is_err());
    assert!(task(r#"["t","t","task",{"state":"failed","x":1,"x":1}]"#).is_ok());
}

#[test]
fn texts_are_split_into_values() {
    assert_eq!(
        split_members(br#" {"a" : [1, {"b":":,}"}] ,"a":"\"}"} "#),
        Some(vec![
            (br#""a""#.to_vec(), br#" [1, {"b":":,}"}]"#.to_vec()),
            (br#""a""#.to_vec(), br#""\"}""#.to_vec()),
        ])
    );
    assert_eq!(split_members(b"{ }"), Some(vec![]));
    assert_eq!(split_members(b"[]"), None);
    assert_eq!(split_members(br#"{"a" 1}"#), None);
    assert_eq!(
        split_items(br#"[1, "],", [2]]"#),
        Some(vec![b"1".to_vec(), br#" "],""#.to_vec(), b" [2]".to_vec()])
    );
    assert_eq!(split_items(b"[ ]"), Some(vec![]));
    assert_eq!(split_items(b"{}"), None);
    assert_eq!(split_items(b"[1,]"), None);
    assert!(is_one_value(b" 1 "));
    assert!(!is_one_value(b"1 2"));
    assert!(!is_one_value(b" "));
}
