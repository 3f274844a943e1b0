//! The methods that tasks are worked with.

use agentforce_a2a::a2a::methods::{
    client_error_to_rpc, recent_messages, require_params, task_of_stored, Dispatcher,
};
use agentforce_a2a::a2a::types::{Message, Part, Task, TaskIdParams, TaskState, TaskStatus};
use agentforce_a2a::agentforce::auth::{AgentforceAuth, AgentforceAuthConfig, AuthError};
use agentforce_a2a::agentforce::client::{AgentforceClient, ClientError};
use agentforce_a2a::effects::{Action, Answer, HttpReply, Progress, Record};
use agentforce_a2a::json::{parse_json, parse_json_text, write_json, Json, Number};
use agentforce_a2a::jsonrpc::{
    JsonRpcError, JsonRpcRequest, JsonRpcSuccess, CONTENT_TYPE_NOT_SUPPORTED, INTERNAL_ERROR,
    INVALID_PARAMS, METHOD_NOT_FOUND, TASK_NOT_CANCELABLE, TASK_NOT_FOUND,
};
use agentforce_a2a::store::task_store::{HotEnvelope, TaskMeta, TaskStore};

fn json(s: &str) -> Json {
    parse_json_text(s).unwrap()
}

fn value(j: &Json) -> serde_json::Value {
    serde_json::from_slice(&write_json(j)).unwrap()
}

fn one() -> Json {
    Json::Number(Number::PosInt(1))
}

fn request(method: &str, params: Option<&str>) -> JsonRpcRequest {
    JsonRpcRequest {
        jsonrpc: "2.0".into(),
        id: Some(one()),
        method: method.into(),
        params: params.map(json),
    }
}

#[test]
fn require_params_rejects_missing() {
    let req = request("tasks/get", None);
    let err: JsonRpcError = require_params::<TaskIdParams>(&req).unwrap_err();
    assert_eq!(err.error.code, INVALID_PARAMS);
}

#[test]
fn require_params_rejects_garbage() {
    let req = request("tasks/get", Some(r#"{ "wrongField": 1 }"#));
    let err: JsonRpcError = require_params::<TaskIdParams>(&req).unwrap_err();
    assert_eq!(err.error.code, INVALID_PARAMS);
}

#[test]
fn require_params_parses_valid_input() {
    let req = request("tasks/get", Some(r#"{ "id": "task-1" }"#));
    let p: TaskIdParams = require_params(&req).unwrap();
    assert_eq!(p.id, "task-1");
}

#[test]
fn client_error_to_rpc_carries_reason_for_auth_rejected() {
    let err = client_error_to_rpc(Some(one()), &ClientError::AuthRejected);
    assert_eq!(err.error.code, INTERNAL_ERROR);
    assert_eq!(
        value(&err.error.data.unwrap())["reason"],
        "agentforce_auth_rejected"
    );
}

#[test]
fn client_error_to_rpc_carries_status_on_http_error() {
    let err = client_error_to_rpc(
        Some(one()),
        &ClientError::HttpStatus {
            operation: "sendMessage",
            status: 503,
            body: "service unavailable".into(),
        },
    );
    let data = value(&err.error.data.unwrap());
    assert_eq!(data["status"], 503);
    assert_eq!(data["operation"], "sendMessage");
}

#[test]
fn params_are_refused_in_words() {
    let err = require_params::<TaskIdParams>(&request("x", None)).unwrap_err();
    assert_eq!(err.error.message, "params is required");
    assert_eq!(err.id, one());
    let err = require_params::<TaskIdParams>(&request("x", Some("{}"))).unwrap_err();
    assert_eq!(err.error.message, "Invalid params: missing field `id`");
}

#[test]
fn every_client_error_has_its_answer() {
    let cases = vec![
        (
            ClientError::AuthRejected,
            "Agentforce authentication rejected",
            r#"{"reason":"agentforce_auth_rejected"}"#,
        ),
        (
            ClientError::HttpStatus { operation: "startSession", status: 500, body: "b".into() },
            "Agentforce startSession returned HTTP 500",
            r#"{"reason":"agentforce_http_error","status":500,"operation":"startSession"}"#,
        ),
        (
            ClientError::Auth(AuthError::MissingAccessToken),
            "Agentforce token endpoint failure",
            r#"{"reason":"agentforce_token_failure"}"#,
        ),
        (
            ClientError::Transport { source: "x".into() },
            "Agentforce transport error",
            r#"{"reason":"agentforce_transport_error"}"#,
        ),
        (
            ClientError::BadJson("x".into()),
            "Agentforce response was not valid JSON",
            r#"{"reason":"agentforce_bad_json"}"#,
        ),
        (
            ClientError::MissingField("sessionId"),
            "Agentforce response missing field: sessionId",
            r#"{"reason":"agentforce_missing_field","field":"sessionId"}"#,
        ),
    ];
    for (error, message, data) in cases {
        let e = client_error_to_rpc(None, &error);
        assert_eq!(e.error.code, INTERNAL_ERROR);
        assert_eq!(e.error.message, message);
        assert_eq!(e.error.data, Some(json(data)));
        assert_eq!(e.id, Json::Null);
    }
}

fn dispatcher() -> Dispatcher {
    Dispatcher {
        client: AgentforceClient::new(
            AgentforceAuth::new(AgentforceAuthConfig {
                consumer_key: "k".into(),
                consumer_secret: "s".into(),
                access_token_override: Some("tok".into()),
                my_domain_url_for_cache_key: "d".into(),
                cache_safety_margin_seconds: 0,
            }),
            "/v1".into(),
            "https://d".into(),
            "agent".into(),
            true,
        ),
        store: TaskStore::new(60),
    }
}

type Outcome = Result<JsonRpcSuccess, JsonRpcError>;

fn dispatch(request: &JsonRpcRequest, answers: &Vec<Answer>) -> Progress<Outcome> {
    dispatcher().dispatch(&mut Record::new(answers), request, 100, "T".into())
}

fn refusal(request: &JsonRpcRequest, answers: &Vec<Answer>) -> JsonRpcError {
    match dispatch(request, answers) {
        Progress::Done(Err(e)) => e,
        other => panic!("{other:?}"),
    }
}

fn reply(status: u32, body: &str) -> Answer {
    Answer::Reply(HttpReply::Answered { status, body: body.as_bytes().to_vec() })
}

fn stored(task: &Task) -> Answer {
    let envelope = HotEnvelope { payload: write_json(&task.to_json()), expires_at_unix: 101 };
    Answer::Cached(Some(envelope.to_bytes()))
}

fn task(state: TaskState, turns: usize) -> Task {
    let mut t = Task::new("t".into(), TaskStatus { state, timestamp: None, message: None });
    for i in 0..turns {
        t.history.push(Message::new("user", format!("m{i}"), vec![Part::Unknown]));
    }
    t
}

#[test]
fn unknown_method_needs_nothing() {
    let e = refusal(&request("tasks/list", None), &vec![]);
    assert_eq!(e.error.code, METHOD_NOT_FOUND);
    assert_eq!(e.error.message, "Method not found: tasks/list");
    assert_eq!(e.id, one());
}

#[test]
fn message_needs_text() {
    let params = r#"{"message":{"kind":"message","messageId":"u","role":"user","parts":[{"kind":"data","data":{}},{"kind":"text","text":" \n"}]}}"#;
    let e = refusal(&request("message/send", Some(params)), &vec![]);
    assert_eq!(e.error.code, CONTENT_TYPE_NOT_SUPPORTED);
    assert_eq!(
        e.error.message,
        "Incompatible content types: only text parts are supported in v1"
    );
}

#[test]
fn missing_task_is_named() {
    for method in vec!["tasks/get", "tasks/cancel"] {
        let e = refusal(&request(method, Some(r#"{"id":"t"}"#)), &vec![Answer::Cached(None)]);
        assert_eq!(e.error.code, TASK_NOT_FOUND);
        assert_eq!(e.error.message, "Task not found");
        assert_eq!(e.error.data, Some(json(r#"{"taskId":"t"}"#)));
    }
}

#[test]
fn spoiled_task_is_an_internal_error() {
    let envelope = HotEnvelope { payload: b"{}".to_vec(), expires_at_unix: 101 };
    let answers = vec![Answer::Cached(Some(envelope.to_bytes()))];
    let e = refusal(&request("tasks/get", Some(r#"{"id":"t"}"#)), &answers);
    assert_eq!(e.error.code, INTERNAL_ERROR);
    assert_eq!(e.error.message, "Persisted Task could not be parsed: missing field `id`");
    assert_eq!(task_of_stored(Err("gone".into())), Err("gone".to_string()));
    assert_eq!(
        task_of_stored(parse_json(&write_json(&task(TaskState::Failed, 0).to_json()))),
        Ok(task(TaskState::Failed, 0))
    );
}

#[test]
fn history_is_cut_from_the_start() {
    let answers = vec![stored(&task(TaskState::Working, 3))];
    let lengths = vec![(None, 3, "m0"), (Some(5), 3, "m0"), (Some(2), 2, "m1"), (Some(1), 1, "m2")];
    for (length, count, first) in lengths {
        let params = match length {
            Some(n) => format!(r#"{{"id":"t","historyLength":{n}}}"#),
            None => r#"{"id":"t"}"#.to_string(),
        };
        match dispatch(&request("tasks/get", Some(&params)), &answers) {
            Progress::Done(Ok(s)) => {
                let v = value(&s.result);
                assert_eq!(v["history"].as_array().unwrap().len(), count);
                assert_eq!(v["history"][0]["messageId"], first);
            }
            other => panic!("{other:?}"),
        }
    }
    match dispatch(&request("tasks/get", Some(r#"{"id":"t","historyLength":0}"#)), &answers) {
        Progress::Done(Ok(s)) => assert!(s.result.get("history").is_none()),
        other => panic!("{other:?}"),
    }
    assert_eq!(recent_messages(vec![], Some(0)), vec![]);
}

#[test]
fn ended_task_stays_as_it_is() {
    let ended = vec![
        (TaskState::Canceled, "canceled"),
        (TaskState::Failed, "failed"),
        (TaskState::Rejected, "rejected"),
    ];
    for (state, name) in ended {
        assert!(!state.is_cancelable());
        let answers = vec![stored(&task(state, 0))];
        let e = refusal(&request("tasks/cancel", Some(r#"{"id":"t"}"#)), &answers);
        assert_eq!(e.error.code, TASK_NOT_CANCELABLE);
        assert_eq!(e.error.message, "Task is in a terminal state and cannot be canceled");
        assert_eq!(
            e.error.data,
            Some(json(&format!(r#"{{"taskId":"t","state":"{name}"}}"#)))
        );
    }
}

#[test]
fn task_is_canceled_whatever_agentforce_says() {
    let mut canceled = task(TaskState::Canceled, 1);
    canceled.status.timestamp = Some("T".into());
    let calls = vec![
        (TaskState::Working, 204),
        (TaskState::Working, 404),
        (TaskState::Working, 500),
        (TaskState::Completed, 204),
        (TaskState::Completed, 500),
    ];
    for (state, status) in calls {
        assert!(state.is_cancelable());
        let mut answers = vec![stored(&task(state, 1)), reply(status, "")];
        let call = request("tasks/cancel", Some(r#"{"id":"t"}"#));
        let envelope =
            HotEnvelope { payload: write_json(&canceled.to_json()), expires_at_unix: 160 };
        assert_eq!(
            dispatch(&call, &answers),
            Progress::Do(Action::CacheSave { key: "task:t".into(), bytes: envelope.to_bytes() })
        );
        answers.push(Answer::Acknowledged);
        assert_eq!(
            dispatch(&call, &answers),
            Progress::Done(Ok(JsonRpcSuccess::new(Some(one()), canceled.to_json())))
        );
    }
}

#[test]
fn named_task_goes_on() {
    let params = r#"{"message":{"kind":"message","messageId":"u","role":"user","taskId":"s9","parts":[{"kind":"text","text":"more"}]}}"#;
    let call = request("message/send", Some(params));
    let mut answers: Vec<Answer> = vec![];
    assert_eq!(
        dispatch(&call, &answers),
        Progress::Do(Action::CacheGet { key: "meta:s9".into() })
    );
    let kept = HotEnvelope {
        payload: TaskMeta { sequence_id: 4, last_updated_at_unix: 1 }.to_bytes(),
        expires_at_unix: 500,
    };
    answers.push(Answer::Cached(Some(kept.to_bytes())));
    let next = HotEnvelope {
        payload: TaskMeta { sequence_id: 5, last_updated_at_unix: 100 }.to_bytes(),
        expires_at_unix: 160,
    };
    assert_eq!(
        dispatch(&call, &answers),
        Progress::Do(Action::CacheSave { key: "meta:s9".into(), bytes: next.to_bytes() })
    );
    answers.push(Answer::Acknowledged);
    match dispatch(&call, &answers) {
        Progress::Do(Action::Send(r)) => {
            assert_eq!(r.path.as_deref(), Some("/v1/sessions/s9/messages"));
            assert_eq!(
                r.body,
                Some(br#"{"message":{"type":"Text","sequenceId":5,"text":"more"}}"#.to_vec())
            );
        }
        other => panic!("{other:?}"),
    }
    answers.push(reply(200, r#"{"messages":[{"message":"ok"}]}"#));
    assert_eq!(dispatch(&call, &answers), Progress::Do(Action::FreshId));
    answers.push(Answer::Fresh("f".into()));
    assert!(matches!(dispatch(&call, &answers), Progress::Do(Action::CacheSave { .. })));
    answers.push(Answer::Acknowledged);
    match dispatch(&call, &answers) {
        Progress::Done(Ok(s)) => {
            let v = value(&s.result);
            assert_eq!(v["id"], "s9");
            assert_eq!(v["history"][1]["messageId"], "f");
            assert_eq!(v["artifacts"][0]["artifactId"], "agent-response-f");
            assert_eq!(v["status"]["timestamp"], "T");
        }
        other => panic!("{other:?}"),
    }
}

#[test]
fn failed_session_is_answered() {
    let params = r#"{"message":{"kind":"message","messageId":"u","role":"user","taskId":"","parts":[{"kind":"text","text":"hi"}]}}"#;
    let e = refusal(&request("message/send", Some(params)), &vec![reply(500, "oops")]);
    assert_eq!(e.error.message, "Agentforce startSession returned HTTP 500");
    assert_eq!(e.id, one());
}
