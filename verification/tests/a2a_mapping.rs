//! Agentforce's messages as the protocol's objects.

use agentforce_a2a::a2a::mapping::{
    agent_response_to_a2a, agent_response_with_id, build_task, extract_message_text,
    response_needs_id, user_message,
};
use agentforce_a2a::a2a::types::{Artifact, Message, Part, TaskState};
use agentforce_a2a::agentforce::client::{AgentforceMessage, SendMessageResponse};
use agentforce_a2a::json::{parse_json_text, Json};

fn make_msg(id: &str, text: Option<&str>) -> AgentforceMessage {
    AgentforceMessage {
        id: Some(id.into()),
        kind: Some("Inform".into()),
        message: text.map(|s| s.to_string()),
        extra: Vec::new(),
    }
}

#[test]
fn user_message_carries_task_and_context() {
    let m = user_message("hi", "task-1", Some("u1".into()));
    assert_eq!(m.role, "user");
    assert_eq!(m.message_id, "u1");
    assert_eq!(m.task_id.as_deref(), Some("task-1"));
    assert_eq!(m.context_id.as_deref(), Some("task-1"));
}

#[test]
fn user_message_generates_id_when_omitted() {
    let m = user_message("hi", "task-1", None);
    assert!(!m.message_id.is_empty());
}

#[test]
fn agent_response_concatenates_inform_messages() {
    let response = SendMessageResponse {
        messages: vec![
            make_msg("m1", Some("Hello")),
            make_msg("m2", Some("How can I help?")),
        ],
    };
    let (msg, artifact) = agent_response_to_a2a(&response, "task-1");
    let msg = msg.expect("expected agent message");
    let artifact = artifact.expect("expected artifact");
    assert_eq!(msg.parts.len(), 2);
    assert_eq!(artifact.parts.len(), 2);
    assert!(msg.message_id.starts_with("m1") || msg.message_id == "m1");
}

#[test]
fn agent_response_returns_none_when_no_text() {
    let response = SendMessageResponse {
        messages: vec![AgentforceMessage {
            id: Some("m1".into()),
            kind: Some("Acknowledge".into()),
            message: None,
            extra: Vec::new(),
        }],
    };
    let (msg, artifact) = agent_response_to_a2a(&response, "task-1");
    assert!(msg.is_none());
    assert!(artifact.is_none());
}

#[test]
fn extract_falls_back_to_result_field() {
    let m = AgentforceMessage {
        id: Some("x".into()),
        kind: Some("Inform".into()),
        message: None,
        extra: vec![("result".into(), Json::Text("a result".into()))],
    };
    assert_eq!(extract_message_text(&m).as_deref(), Some("a result"));
}

#[test]
fn extract_falls_back_to_nested_text() {
    let m = AgentforceMessage {
        id: Some("x".into()),
        kind: Some("Inform".into()),
        message: None,
        extra: vec![("value".into(), parse_json_text(r#"{"text": "deep text"}"#).unwrap())],
    };
    assert_eq!(extract_message_text(&m).as_deref(), Some("deep text"));
}

#[test]
fn build_task_records_completed_state_and_history() {
    let user = user_message("hello", "t1", None);
    let agent = Message::new("agent", "a1".into(), vec![Part::text("hi back".to_string())]);
    let artifact = Artifact {
        artifact_id: "a1".into(),
        name: Some("agent-response".into()),
        description: None,
        parts: vec![Part::text("hi back".to_string())],
        metadata: None,
    };
    let task = build_task(
        "t1".into(),
        user,
        Some(agent),
        Some(artifact),
        "2026-05-08T00:00:00Z".into(),
    );
    assert_eq!(task.id, "t1");
    assert_eq!(task.context_id, "t1");
    assert_eq!(task.status.state, TaskState::Completed);
    assert_eq!(task.history.len(), 2);
    assert_eq!(task.artifacts.len(), 1);
}

#[test]
fn texts_are_looked_for_in_order() {
    let mut m = make_msg("m", Some(""));
    m.extra = vec![
        ("value".into(), Json::Text("value".into())),
        ("text".into(), Json::Text("".into())),
        ("result".into(), Json::Array(vec![])),
    ];
    assert_eq!(extract_message_text(&m).as_deref(), Some("value"));
    m.extra[1].1 = parse_json_text(r#"{"text":"inner"}"#).unwrap();
    assert_eq!(extract_message_text(&m).as_deref(), Some("inner"));
    m.message = Some("own".into());
    assert_eq!(extract_message_text(&m).as_deref(), Some("own"));
    m.message = None;
    m.extra = vec![("value".into(), parse_json_text(r#"{"text":5}"#).unwrap())];
    assert_eq!(extract_message_text(&m), None);
}

#[test]
fn response_is_named_after_its_first_message() {
    let response = SendMessageResponse {
        messages: vec![make_msg("first", None), make_msg("second", Some("words"))],
    };
    let (msg, artifact) = agent_response_to_a2a(&response, "t");
    let msg = msg.unwrap();
    let artifact = artifact.unwrap();
    assert_eq!(msg.role, "agent");
    assert_eq!(msg.message_id, "first");
    assert_eq!(msg.task_id.as_deref(), Some("t"));
    assert_eq!(msg.parts, vec![Part::text("words".to_string())]);
    assert_eq!(artifact.artifact_id, "agent-response-first");
    assert_eq!(artifact.name.as_deref(), Some("agent-response"));
    assert_eq!(artifact.parts, msg.parts);
}

#[test]
fn nameless_response_gets_an_id() {
    let mut nameless = make_msg("", Some("words"));
    nameless.id = None;
    let response = SendMessageResponse { messages: vec![nameless, make_msg("m2", None)] };
    assert!(response_needs_id(&response));
    let (msg, artifact) = agent_response_with_id(&response, "t", "chosen".into());
    assert_eq!(msg.unwrap().message_id, "chosen");
    assert_eq!(artifact.unwrap().artifact_id, "agent-response-chosen");
    let (msg, _) = agent_response_to_a2a(&response, "t");
    let id = msg.unwrap().message_id;
    assert_eq!(id.len(), 36);
    assert_eq!(id.as_bytes()[14], b'4');
    let (other, _) = agent_response_to_a2a(&response, "t");
    assert_ne!(other.unwrap().message_id, id);
    assert!(!response_needs_id(&SendMessageResponse { messages: vec![] }));
    assert!(!response_needs_id(&SendMessageResponse {
        messages: vec![make_msg("m", Some("x"))]
    }));
}

#[test]
fn task_without_an_answer_has_one_turn() {
    let user = user_message("hello", "t1", Some("u".into()));
    let task = build_task("t1".into(), user.clone(), None, None, "now".into());
    assert_eq!(task.history, vec![user]);
    assert_eq!(task.artifacts, vec![]);
    assert_eq!(task.status.timestamp.as_deref(), Some("now"));
    assert_eq!(task.status.message, None);
}
