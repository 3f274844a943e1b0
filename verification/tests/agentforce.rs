//! Calls of the Agentforce API.

use agentforce_a2a::agentforce::auth::{AgentforceAuth, AgentforceAuthConfig, AuthError};
use agentforce_a2a::agentforce::client::{
    normalize_base_path, redact_body, send_message_body, start_session_body, AgentforceClient,
    ClientError, SendMessageResponse, StartSessionResponse,
};
use agentforce_a2a::cache::{token_cache_key, CachedToken, AGENTFORCE_TOKEN_PREFIX};
use agentforce_a2a::decode::{read_record, Rec};
use agentforce_a2a::effects::{
    Action, Answer, HttpReply, HttpRequest, Method, Progress, Record, Upstream,
};
use agentforce_a2a::json::{write_json, Json};

fn value(j: &Json) -> serde_json::Value {
    serde_json::from_slice(&write_json(j)).unwrap()
}

#[test]
fn start_session_request_serializes_with_camel_case() {
    let body = start_session_body("abc", "https://acme.my.salesforce.com", true);
    let json = value(&body);
    assert_eq!(json["externalSessionKey"], "abc");
    assert_eq!(json["featureSupport"], "Sync");
    assert_eq!(json["bypassUser"], true);
    assert_eq!(
        json["instanceConfig"]["endpoint"],
        "https://acme.my.salesforce.com"
    );
    assert_eq!(json["streamingCapabilities"]["chunkTypes"][0], "Text");
}

#[test]
fn send_message_request_serializes_with_camel_case() {
    let body = send_message_body("hi", 7);
    let json = value(&body);
    assert_eq!(json["message"]["type"], "Text");
    assert_eq!(json["message"]["sequenceId"], 7);
    assert_eq!(json["message"]["text"], "hi");
}

#[test]
fn normalize_base_path_handles_common_inputs() {
    assert_eq!(normalize_base_path(""), "");
    assert_eq!(normalize_base_path("/"), "");
    assert_eq!(normalize_base_path("/einstein/ai-agent/v1"), "/einstein/ai-agent/v1");
    assert_eq!(
        normalize_base_path("/einstein/ai-agent/v1/"),
        "/einstein/ai-agent/v1"
    );
    assert_eq!(normalize_base_path("einstein/ai-agent/v1"), "/einstein/ai-agent/v1");
    assert_eq!(normalize_base_path("  /v1  "), "/v1");
}

#[test]
fn redact_body_truncates_long_bodies() {
    let big = "x".repeat(2_000);
    let r = redact_body(big.as_bytes());
    assert!(r.len() < big.len());
    assert!(r.contains("(2000 bytes)"));
}

#[test]
fn parse_start_session_response_minimal() {
    let body = br#"{"sessionId":"abc-123"}"#;
    let r = StartSessionResponse::of(read_record(Rec::StartSession, body)).unwrap();
    assert_eq!(r.session_id, "abc-123");
    assert!(r.messages.is_empty());
}

#[test]
fn parse_send_message_response_with_inform() {
    let body = br#"{"messages":[{"id":"m1","type":"Inform","message":"hello"}]}"#;
    let r = SendMessageResponse::of(read_record(Rec::SendMessage, body)).unwrap();
    assert_eq!(r.messages.len(), 1);
    assert_eq!(r.messages[0].id.as_deref(), Some("m1"));
    assert_eq!(r.messages[0].kind.as_deref(), Some("Inform"));
    assert_eq!(r.messages[0].message.as_deref(), Some("hello"));
}

#[test]
fn bodies_are_written_member_by_member() {
    assert_eq!(
        write_json(&start_session_body("k", "https://d", false)),
        br#"{"externalSessionKey":"k","instanceConfig":{"endpoint":"https://d"},"featureSupport":"Sync","streamingCapabilities":{"chunkTypes":["Text"]},"bypassUser":false}"#.to_vec()
    );
    assert_eq!(
        write_json(&send_message_body("a\"b", 2)),
        br#"{"message":{"type":"Text","sequenceId":2,"text":"a\"b"}}"#.to_vec()
    );
}

#[test]
fn members_that_are_not_understood_are_kept() {
    let body = br#"{"messages":[{"type":null,"result":[1],"id":"m","feedbackId":""}],"_links":{}}"#;
    let r = SendMessageResponse::of(read_record(Rec::SendMessage, body)).unwrap();
    let m = &r.messages[0];
    assert_eq!(m.id.as_deref(), Some("m"));
    assert_eq!(m.kind, None);
    let names: Vec<&str> = m.extra.iter().map(|(k, _)| k.as_str()).collect();
    assert_eq!(names, vec!["result", "feedbackId"]);
    assert_eq!(SendMessageResponse::of(read_record(Rec::SendMessage, b"{}")).unwrap().messages.len(), 0);
}

#[test]
fn answers_of_another_shape_are_explained() {
    assert_eq!(
        StartSessionResponse::of(read_record(Rec::StartSession, b"{}")).unwrap_err(),
        "missing field `sessionId`"
    );
    assert_eq!(
        SendMessageResponse::of(read_record(Rec::SendMessage, br#"{"messages":"x"}"#)).unwrap_err(),
        "invalid type: string \"x\", expected a sequence"
    );
    assert_eq!(
        SendMessageResponse::of(Err("cut off".into())).unwrap_err(),
        "cut off"
    );
}

#[test]
fn base_path_has_one_slash_at_its_head() {
    assert_eq!(normalize_base_path("//v1//"), "/v1");
    assert_eq!(normalize_base_path("///"), "");
    assert_eq!(normalize_base_path("a//b"), "/a//b");
}

#[test]
fn redacted_bodies_keep_their_first_characters() {
    assert_eq!(redact_body("x".repeat(512).as_bytes()), "x".repeat(512));
    assert_eq!(
        redact_body("x".repeat(513).as_bytes()),
        format!("{}...(513 bytes)", "x".repeat(512))
    );
    assert_eq!(
        redact_body("\u{20ac}".repeat(600).as_bytes()),
        format!("{}...(1800 bytes)", "\u{20ac}".repeat(512))
    );
    assert_eq!(redact_body(&[b'a', 0xff, b'b']), "a\u{fffd}b");
}

fn auth_config(token: Option<&str>) -> AgentforceAuthConfig {
    AgentforceAuthConfig {
        consumer_key: "key".into(),
        consumer_secret: "s&t".into(),
        access_token_override: token.map(|t| t.to_string()),
        my_domain_url_for_cache_key: "acme.my".into(),
        cache_safety_margin_seconds: 60,
    }
}

fn client(token: Option<&str>, base: &str) -> AgentforceClient {
    AgentforceClient::new(
        AgentforceAuth::new(auth_config(token)),
        base.to_string(),
        "https://acme.my".into(),
        "agent/1".into(),
        true,
    )
}

#[test]
fn paths_are_joined_at_one_slash() {
    assert_eq!(client(None, "/v1/").full_path("/sessions"), "/v1/sessions");
    assert_eq!(client(None, "v1").full_path("sessions"), "/v1/sessions");
    assert_eq!(client(None, "").full_path("sessions"), "/sessions");
    assert_eq!(client(None, "/v1").full_path("//sessions/"), "/v1/sessions/");
    assert_eq!(client(None, "/v1").full_path(""), "/v1/");
}

fn reply(status: u32, body: &str) -> Answer {
    Answer::Reply(HttpReply::Answered { status, body: body.as_bytes().to_vec() })
}

fn token_key() -> String {
    token_cache_key(AGENTFORCE_TOKEN_PREFIX, "key", "acme.my")
}

fn token_request() -> HttpRequest {
    HttpRequest {
        upstream: Upstream::MyDomain,
        method: Method::Post,
        path: Some("/services/oauth2/token".into()),
        headers: vec![
            ("content-type".into(), "application/x-www-form-urlencoded".into()),
            ("accept".into(), "application/json".into()),
        ],
        body: Some(
            b"grant_type=client_credentials&client_id=key&client_secret=s%26t".to_vec(),
        ),
        timeout_ms: None,
    }
}

#[test]
fn token_is_asked_for_and_cached() {
    let auth = AgentforceAuth::new(auth_config(None));
    let mut answers: Vec<Answer> = vec![];
    assert_eq!(
        auth.get_token(&mut Record::new(&answers), 1_000, false),
        Progress::Do(Action::CacheGet { key: token_key() })
    );
    answers.push(Answer::Cached(None));
    assert_eq!(
        auth.get_token(&mut Record::new(&answers), 1_000, false),
        Progress::Do(Action::Send(token_request()))
    );
    answers.push(reply(200, r#"{"access_token":"t","expires_in":90}"#));
    assert_eq!(
        auth.get_token(&mut Record::new(&answers), 1_000, false),
        Progress::Do(Action::CacheSave {
            key: token_key(),
            bytes: CachedToken::new("t".into(), 1_000, 90).to_bytes(),
        })
    );
    answers.push(Answer::Acknowledged);
    assert_eq!(
        auth.get_token(&mut Record::new(&answers), 1_000, false),
        Progress::Done(Ok("t".to_string()))
    );
}

#[test]
fn cached_token_saves_the_request() {
    let auth = AgentforceAuth::new(auth_config(None));
    let entry = CachedToken::new("kept".into(), 1_000, 600).to_bytes();
    let answers = vec![Answer::Cached(Some(entry.clone()))];
    assert_eq!(
        auth.get_token(&mut Record::new(&answers), 1_539, false),
        Progress::Done(Ok("kept".to_string()))
    );
    assert_eq!(
        auth.get_token(&mut Record::new(&answers), 1_540, false),
        Progress::Do(Action::Send(token_request()))
    );
}

#[test]
fn refresh_drops_the_cached_token() {
    let auth = AgentforceAuth::new(auth_config(None));
    let mut answers: Vec<Answer> = vec![];
    assert_eq!(
        auth.get_token(&mut Record::new(&answers), 1_000, true),
        Progress::Do(Action::CacheDelete { key: token_key() })
    );
    answers.push(Answer::Acknowledged);
    assert_eq!(
        auth.get_token(&mut Record::new(&answers), 1_000, true),
        Progress::Do(Action::Send(token_request()))
    );
}

#[test]
fn configured_token_needs_nothing() {
    let auth = AgentforceAuth::new(auth_config(Some("fixed")));
    let answers: Vec<Answer> = vec![];
    for refresh in vec![false, true] {
        assert_eq!(
            auth.get_token(&mut Record::new(&answers), 0, refresh),
            Progress::Done(Ok("fixed".to_string()))
        );
    }
}

fn refused_token(answer: Answer) -> AuthError {
    let auth = AgentforceAuth::new(auth_config(None));
    let answers = vec![Answer::Cached(None), answer];
    match auth.get_token(&mut Record::new(&answers), 0, false) {
        Progress::Done(Err(e)) => e,
        other => panic!("{other:?}"),
    }
}

#[test]
fn refused_tokens_are_told_apart() {
    let e = refused_token(Answer::Reply(HttpReply::Failed("down".into())));
    assert_eq!(e, AuthError::Transport("down".into()));
    assert_eq!(e.message(), "transport error talking to Salesforce: down");
    let e = refused_token(reply(400, "no"));
    assert_eq!(e, AuthError::HttpStatus { status: 400, body: "no".into() });
    assert_eq!(e.message(), "Salesforce token endpoint returned HTTP 400: no");
    let e = refused_token(reply(200, "{}"));
    assert_eq!(e, AuthError::BadJson("missing field `access_token`".into()));
    assert_eq!(
        e.message(),
        "Salesforce token response was not valid JSON: missing field `access_token`"
    );
    let e = refused_token(reply(200, r#"{"access_token":""}"#));
    assert_eq!(e, AuthError::MissingAccessToken);
    assert_eq!(e.message(), "Salesforce token response missing access_token");
}

fn call_request(method: Method, path: &str, body: Option<&str>) -> HttpRequest {
    let mut headers: Vec<(String, String)> =
        vec![("authorization".into(), "Bearer tok".into())];
    if body.is_some() {
        headers.push(("content-type".into(), "application/json".into()));
        headers.push(("accept".into(), "application/json".into()));
    }
    HttpRequest {
        upstream: Upstream::AgentforceApi,
        method,
        path: Some(path.into()),
        headers,
        body: body.map(|b| b.as_bytes().to_vec()),
        timeout_ms: None,
    }
}

#[test]
fn calls_go_to_their_paths() {
    let c = client(Some("tok"), "/einstein/ai-agent/v1");
    let none: Vec<Answer> = vec![];
    assert_eq!(
        c.start_session(&mut Record::new(&none), "u1", 0),
        Progress::Do(Action::Send(call_request(
            Method::Post,
            "/einstein/ai-agent/v1/agents/agent%2F1/sessions",
            Some(
                r#"{"externalSessionKey":"u1","instanceConfig":{"endpoint":"https://acme.my"},"featureSupport":"Sync","streamingCapabilities":{"chunkTypes":["Text"]},"bypassUser":true}"#
            ),
        )))
    );
    assert_eq!(
        c.send_message(&mut Record::new(&none), "s 1", "hi", 2, 0),
        Progress::Do(Action::Send(call_request(
            Method::Post,
            "/einstein/ai-agent/v1/sessions/s%201/messages",
            Some(r#"{"message":{"type":"Text","sequenceId":2,"text":"hi"}}"#),
        )))
    );
    assert_eq!(
        c.end_session(&mut Record::new(&none), "s1", 0),
        Progress::Do(Action::Send(call_request(
            Method::Delete,
            "/einstein/ai-agent/v1/sessions/s1",
            None,
        )))
    );
}

#[test]
fn unauthorized_call_is_made_once_more() {
    let c = client(None, "");
    let kept = CachedToken::new("tok".into(), 0, 9_999).to_bytes();
    let mut answers = vec![Answer::Cached(Some(kept)), reply(401, "expired")];
    assert_eq!(
        c.end_session(&mut Record::new(&answers), "s", 0),
        Progress::Do(Action::CacheDelete { key: token_key() })
    );
    answers.push(Answer::Acknowledged);
    assert_eq!(
        c.end_session(&mut Record::new(&answers), "s", 0),
        Progress::Do(Action::Send(token_request()))
    );
    answers.push(reply(200, r#"{"access_token":"tok2"}"#));
    assert!(matches!(
        c.end_session(&mut Record::new(&answers), "s", 0),
        Progress::Do(Action::CacheSave { .. })
    ));
    answers.push(Answer::Acknowledged);
    match c.end_session(&mut Record::new(&answers), "s", 0) {
        Progress::Do(Action::Send(r)) => {
            assert_eq!(r.headers[0], ("authorization".to_string(), "Bearer tok2".to_string()));
        }
        other => panic!("{other:?}"),
    }
    answers.push(reply(401, "still"));
    assert_eq!(
        c.end_session(&mut Record::new(&answers), "s", 0),
        Progress::Done(Err(ClientError::AuthRejected))
    );
    answers.pop();
    answers.push(reply(204, ""));
    assert_eq!(c.end_session(&mut Record::new(&answers), "s", 0), Progress::Done(Ok(())));
}

#[test]
fn session_that_is_gone_has_ended() {
    let c = client(Some("tok"), "");
    let answers = vec![reply(404, "{}")];
    assert_eq!(c.end_session(&mut Record::new(&answers), "s", 0), Progress::Done(Ok(())));
    assert_eq!(
        c.send_message(&mut Record::new(&answers), "s", "x", 2, 0),
        Progress::Done(Err(ClientError::HttpStatus {
            operation: "sendMessage",
            status: 404,
            body: "{}".into(),
        }))
    );
}

#[test]
fn failed_calls_are_told_apart() {
    let c = client(Some("tok"), "");
    let answers = vec![Answer::Reply(HttpReply::Failed("reset".into()))];
    let e = match c.start_session(&mut Record::new(&answers), "k", 0) {
        Progress::Done(Err(e)) => e,
        other => panic!("{other:?}"),
    };
    assert_eq!(e, ClientError::Transport { source: "reset".into() });
    assert_eq!(e.message(), "transport error talking to Agentforce: reset");

    let answers = vec![reply(200, r#"{"sessionId":""}"#)];
    let e = match c.start_session(&mut Record::new(&answers), "k", 0) {
        Progress::Done(Err(e)) => e,
        other => panic!("{other:?}"),
    };
    assert_eq!(e, ClientError::MissingField("sessionId"));
    assert_eq!(e.message(), "Agentforce response missing field: sessionId");

    let answers = vec![reply(200, r#"{}"#)];
    let e = match c.start_session(&mut Record::new(&answers), "k", 0) {
        Progress::Done(Err(e)) => e,
        other => panic!("{other:?}"),
    };
    assert_eq!(e, ClientError::BadJson("missing field `sessionId`".into()));
    assert_eq!(
        e.message(),
        "Agentforce response body was not valid JSON: missing field `sessionId`"
    );

    let answers = vec![reply(503, "busy")];
    let e = match c.start_session(&mut Record::new(&answers), "k", 0) {
        Progress::Done(Err(e)) => e,
        other => panic!("{other:?}"),
    };
    assert_eq!(e.message(), "Agentforce returned HTTP 503 on startSession: busy");

    let c = client(None, "");
    let answers = vec![Answer::Cached(None), reply(500, "")];
    let e = match c.start_session(&mut Record::new(&answers), "k", 0) {
        Progress::Done(Err(e)) => e,
        other => panic!("{other:?}"),
    };
    assert_eq!(e.message(), "auth error: Salesforce token endpoint returned HTTP 500: ");
    assert_eq!(
        ClientError::AuthRejected.message(),
        "Agentforce credentials rejected after refresh (HTTP 401)"
    );
}
