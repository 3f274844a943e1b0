//! The objects of the protocol, in memory and as JSON.

use agentforce_a2a::a2a::types::{
    concat_text, Artifact, Message, MessageSendParams, Params, Part, Task, TaskIdParams,
    TaskQueryParams, TaskState, TaskStatus,
};
use agentforce_a2a::json::{parse_json, parse_json_text, write_json, Json, Number};

fn json(s: &str) -> Json {
    parse_json_text(s).unwrap()
}

fn value(j: &Json) -> serde_json::Value {
    serde_json::from_slice(&write_json(j)).unwrap()
}

#[test]
fn task_state_terminality() {
    assert!(TaskState::Completed.is_terminal());
    assert!(TaskState::Canceled.is_terminal());
    assert!(TaskState::Failed.is_terminal());
    assert!(TaskState::Rejected.is_terminal());
    assert!(!TaskState::Working.is_terminal());
    assert!(!TaskState::Submitted.is_terminal());
    assert!(!TaskState::InputRequired.is_terminal());
}

#[test]
fn task_state_serializes_kebab_case() {
    let v = TaskState::InputRequired.to_json();
    assert_eq!(v, json("\"input-required\""));
    let v = TaskState::AuthRequired.to_json();
    assert_eq!(v, json("\"auth-required\""));
    let v = TaskState::Completed.to_json();
    assert_eq!(v, json("\"completed\""));
}

#[test]
fn part_serializes_with_kind_discriminator() {
    let p = Part::text("hi".to_string());
    let v = value(&p.to_json());
    assert_eq!(v["kind"], "text");
    assert_eq!(v["text"], "hi");
}

#[test]
fn message_round_trips() {
    let m = Message::new("user", "m-1".into(), vec![Part::text("hi".to_string())]);
    let bytes = write_json(&m.to_json());
    let back = Message::from_json(&parse_json(&bytes).unwrap()).unwrap();
    assert_eq!(back.role, "user");
    assert_eq!(back.message_id, "m-1");
    assert_eq!(back.parts.len(), 1);
    if let Part::Text { text, .. } = &back.parts[0] {
        assert_eq!(text, "hi");
    } else {
        panic!("expected text part");
    }
}

#[test]
fn task_omits_empty_arrays() {
    let t = Task::new(
        "t1".into(),
        TaskStatus { state: TaskState::Completed, timestamp: None, message: None },
    );
    let v = value(&t.to_json());
    assert!(v.get("history").is_none());
    assert!(v.get("artifacts").is_none());
    assert_eq!(v["kind"], "task");
    assert_eq!(v["contextId"], "t1");
}

#[test]
fn concat_text_joins_text_parts() {
    let parts = vec![Part::text("hello".to_string()), Part::text("world".to_string())];
    assert_eq!(concat_text(&parts), "hello\nworld");
}

#[test]
fn concat_text_skips_unknown_parts() {
    let parts = vec![Part::text("hi".to_string()), Part::Unknown];
    assert_eq!(concat_text(&parts), "hi");
}

#[test]
fn message_send_params_parses() {
    let body = json(
        r#"{
            "message": {
                "kind": "message",
                "messageId": "m1",
                "role": "user",
                "parts": [{"kind":"text","text":"hi"}]
            },
            "configuration": { "blocking": true }
        }"#,
    );
    let p = MessageSendParams::from_json(&body).unwrap();
    assert_eq!(p.message.role, "user");
    assert_eq!(p.configuration.unwrap().blocking, Some(true));
}

#[test]
fn empty_texts_are_joined_without_a_leading_break() {
    let parts = vec![
        Part::text("".to_string()),
        Part::text("a".to_string()),
        Part::Unknown,
        Part::text("".to_string()),
        Part::text("b".to_string()),
    ];
    assert_eq!(concat_text(&parts), "a\n\nb");
    assert_eq!(concat_text(&[]), "");
}

#[test]
fn every_state_has_its_name() {
    let named = vec![
        (TaskState::Submitted, "submitted"),
        (TaskState::Working, "working"),
        (TaskState::InputRequired, "input-required"),
        (TaskState::Completed, "completed"),
        (TaskState::Canceled, "canceled"),
        (TaskState::Failed, "failed"),
        (TaskState::Rejected, "rejected"),
        (TaskState::AuthRequired, "auth-required"),
        (TaskState::Unknown, "unknown"),
    ];
    for (state, name) in named {
        assert_eq!(state.name(), name);
        let doc = json(&format!(
            r#"{{"id":"t","contextId":"c","kind":"task","status":{{"state":"{name}"}}}}"#
        ));
        assert_eq!(Task::from_json(&doc).unwrap().status.state, state);
    }
    assert!(!TaskState::AuthRequired.is_terminal());
    assert!(!TaskState::Unknown.is_terminal());
}

fn full_task() -> Task {
    let mut m = Message::new("user", "m".into(), vec![Part::text("q".to_string()), Part::Unknown]);
    m.task_id = Some("t".into());
    m.metadata = Some(json("{\"k\":[1]}"));
    let mut t = Task::new(
        "t".into(),
        TaskStatus {
            state: TaskState::Working,
            timestamp: Some("2026-01-01T00:00:00Z".into()),
            message: Some(m.clone()),
        },
    );
    t.context_id = "ctx".into();
    t.history.push(m);
    t.artifacts.push(Artifact {
        artifact_id: "a".into(),
        name: None,
        description: Some("d".into()),
        parts: vec![Part::Text { text: "x".into(), metadata: Some(json("1")) }],
        metadata: None,
    });
    t.metadata = Some(json("[]"));
    t
}

#[test]
fn task_is_written_member_by_member() {
    assert_eq!(
        String::from_utf8(write_json(&full_task().to_json())).unwrap(),
        r#"{"id":"t","contextId":"ctx","kind":"task","status":{"state":"working","timestamp":"2026-01-01T00:00:00Z","message":{"kind":"message","messageId":"m","role":"user","parts":[{"kind":"text","text":"q"},{"kind":"unknown"}],"taskId":"t","metadata":{"k":[1]}}},"history":[{"kind":"message","messageId":"m","role":"user","parts":[{"kind":"text","text":"q"},{"kind":"unknown"}],"taskId":"t","metadata":{"k":[1]}}],"artifacts":[{"artifactId":"a","description":"d","parts":[{"kind":"text","text":"x","metadata":1}]}],"metadata":[]}"#
    );
}

#[test]
fn task_is_read_back_whole() {
    let t = full_task();
    assert_eq!(Task::from_json(&t.to_json()), Ok(t));
}

#[test]
fn other_parts_are_unknown() {
    let doc = json(
        r#"{"kind":"message","messageId":"m","role":"user",
            "parts":[{"kind":"file","file":{"uri":"u"}},{"kind":"text","text":"x"}]}"#,
    );
    let m = Message::from_json(&doc).unwrap();
    assert_eq!(m.parts, vec![Part::Unknown, Part::text("x".to_string())]);
}

#[test]
fn unreadable_objects_are_explained() {
    let status = r#"{"id":"t","contextId":"c","kind":"task","status":{"state":"done"}}"#;
    assert_eq!(
        Task::from_json(&json(status)).unwrap_err(),
        "unknown variant `done`, expected one of `submitted`, `working`, `input-required`, `completed`, `canceled`, `failed`, `rejected`, `auth-required`, `unknown`"
    );
    assert_eq!(
        Message::from_json(&json(r#"{"kind":"message"}"#)).unwrap_err(),
        "missing field `messageId`"
    );
    assert_eq!(
        TaskQueryParams::from_json(&json(r#"{"id":"t","historyLength":-1}"#)).unwrap_err(),
        "invalid value: integer `-1`, expected u32"
    );
    assert_eq!(
        TaskIdParams::from_json(&json("[]")).unwrap_err(),
        "invalid length 0, expected struct TaskIdParams with 2 elements"
    );
    assert_eq!(
        Message::from_json(&json(
            r#"{"kind":"message","messageId":"m","role":"r","parts":[{"text":"x"}]}"#
        ))
        .unwrap_err(),
        "missing field `kind`"
    );
}

#[test]
fn query_may_leave_things_out() {
    let q = TaskQueryParams::from_json(&json(r#"{"id":"t","more":1}"#)).unwrap();
    assert_eq!(q.id, "t");
    assert_eq!(q.history_length, None);
    assert_eq!(q.metadata, None);
    let q = TaskQueryParams::from_json(&json(r#"{"historyLength":0,"id":"t","metadata":5}"#));
    let q = q.unwrap();
    assert_eq!(q.history_length, Some(0));
    assert_eq!(q.metadata, Some(Json::Number(Number::PosInt(5))));
}

#[test]
fn send_configuration_is_read() {
    let body = json(
        r#"{"message":{"kind":"message","messageId":"m1","role":"user","parts":[]},
            "configuration":{"acceptedOutputModes":["a","b"],"historyLength":3},"metadata":{}}"#,
    );
    let p = MessageSendParams::from_json(&body).unwrap();
    let c = p.configuration.unwrap();
    assert_eq!(c.accepted_output_modes, Some(vec!["a".to_string(), "b".to_string()]));
    assert_eq!(c.history_length, Some(3));
    assert_eq!(c.blocking, None);
    assert_eq!(p.metadata, Some(json("{}")));
    assert_eq!(p.message.parts.len(), 0);
}
