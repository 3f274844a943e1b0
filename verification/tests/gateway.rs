//! Requests through both phases of the gateway.

use std::collections::HashMap;

use agentforce_a2a::effects::{
    Action, Answer, HttpReply, HttpRequest, Method, Progress, Record, Upstream,
};
use agentforce_a2a::gateway::{
    choose_api_path, make_json_response, A2APending, Flow, Policy, Response,
};
use agentforce_a2a::generated::config::{Config, ServiceUri};

fn service(authority: &str, path: &str) -> ServiceUri {
    ServiceUri { scheme: "https".into(), authority: authority.into(), path: path.into() }
}

fn config() -> Config {
    Config {
        a_2_a_rpc_path: None,
        agent_card_capabilities_push_notifications: None,
        agent_card_capabilities_streaming: None,
        agent_card_default_input_modes: None,
        agent_card_default_output_modes: None,
        agent_card_description: Some("Integration test agent".into()),
        agent_card_documentation_url: None,
        agent_card_icon_url: None,
        agent_card_json: None,
        agent_card_name: Some("Test Agent".into()),
        agent_card_override_json: None,
        agent_card_provider_organization: None,
        agent_card_provider_url: None,
        agent_card_security_schemes_json: None,
        agent_card_skills: None,
        agent_card_skills_json: Some(
            r#"[{"id":"s1","name":"Greet","description":"d","tags":["t"]}]"#.into(),
        ),
        agent_card_source: Some("structured".into()),
        agent_card_url: None,
        agent_card_version: None,
        agent_id: "0XXxx0000000000".into(),
        agentforce_access_token_override: None,
        agentforce_api_base_path: None,
        agentforce_api_url: service("api.salesforce.com", "/einstein/ai-agent/v1"),
        anypoint_client_id: Some("ANY_CLIENT".into()),
        anypoint_client_secret: Some("ANY_SECRET".into()),
        anypoint_env_id: Some("00000000-0000-0000-0000-000000000002".into()),
        anypoint_org_id: Some("00000000-0000-0000-0000-000000000001".into()),
        auto_create_store: None,
        bypass_user: None,
        cache_safety_margin_seconds: None,
        consumer_key: "TEST_CLIENT".into(),
        consumer_secret: "TEST_SECRET".into(),
        diagnostic_continue_flow: None,
        diagnostic_pre_body_agentforce_probe: None,
        diagnostic_pre_body_probe: None,
        disable_object_store: None,
        my_domain_url: service("acme.my.salesforce.com", "/"),
        object_store_id: Some("a2a-tasks".into()),
        object_store_ttl_seconds: None,
        protocol_version: None,
        public_base_url: "https://gw.example.com/agentforce".into(),
        strict_mode: None,
        task_hot_cache_ttl_seconds: None,
        task_store_timeout_ms: None,
    }
}

/// What stands for the outside: the shared cache, the upstream services, the
/// clock and the body of the request at hand.
struct World {
    cache: HashMap<String, Vec<u8>>,
    calls: Vec<String>,
    body: Vec<u8>,
    now: u64,
}

fn json(status: u32, body: &str) -> HttpReply {
    HttpReply::Answered { status, body: body.as_bytes().to_vec() }
}

impl World {
    fn new(body: &str) -> World {
        World {
            cache: HashMap::new(),
            calls: vec![],
            body: body.as_bytes().to_vec(),
            now: 1_778_198_400,
        }
    }

    fn send(&mut self, r: HttpRequest) -> HttpReply {
        let path = r.path.clone().unwrap_or_default();
        let method = match r.method {
            Method::Get => "GET",
            Method::Post => "POST",
            Method::Put => "PUT",
            Method::Delete => "DELETE",
        };
        match r.upstream {
            Upstream::MyDomain => {
                self.calls.push(format!("sf {method} {path}"));
                json(200, r#"{"access_token":"sf-tok","token_type":"Bearer","expires_in":1799}"#)
            }
            Upstream::AgentforceApi => {
                self.calls.push(format!("af {method} {path}"));
                if method == "POST" && path.contains("/agents/") && path.ends_with("/sessions") {
                    return json(200, r#"{"sessionId":"abc-123"}"#);
                }
                if method == "POST" && path.contains("/sessions/abc-123/messages") {
                    return json(
                        200,
                        r#"{"messages":[{"id":"m1","type":"Inform","message":"Hello!"}]}"#,
                    );
                }
                json(404, "{}")
            }
            Upstream::AnypointToken => {
                self.calls.push(format!("any-tok {method} {path}"));
                json(200, r#"{"access_token":"any-tok","expires_in":1800}"#)
            }
            Upstream::ObjectStore => {
                self.calls.push(format!("os2 {method} {path}"));
                match method {
                    "GET" => json(404, ""),
                    "PUT" | "DELETE" => json(204, ""),
                    _ => json(405, ""),
                }
            }
            Upstream::AgentCardUrl => {
                self.calls.push(format!("card {method} {path}"));
                json(200, r#"{"name":"remote"}"#)
            }
            Upstream::Exchange => json(500, ""),
        }
    }

    fn perform(&mut self, action: Action) -> Answer {
        match action {
            Action::CacheGet { key } => Answer::Cached(self.cache.get(&key).cloned()),
            Action::CacheSave { key, bytes } => {
                self.cache.insert(key, bytes);
                Answer::Acknowledged
            }
            Action::CacheDelete { key } => {
                self.cache.remove(&key);
                Answer::Acknowledged
            }
            Action::Send(request) => Answer::Reply(self.send(request)),
            Action::FreshId => Answer::Fresh("fresh".into()),
            Action::ReadClock => Answer::Clock(self.now),
            Action::ReadBody => Answer::Body(self.body.clone()),
        }
    }

    fn run<R>(&mut self, mut operation: impl FnMut(&mut Record) -> Progress<R>) -> R {
        let mut answers: Vec<Answer> = vec![];
        loop {
            let progress = operation(&mut Record::new(&answers));
            match progress {
                Progress::Done(r) => return r,
                Progress::Do(action) => {
                    let answer = self.perform(action);
                    answers.push(answer);
                }
            }
        }
    }

    /// The response to a request, or none where the upstream's response stands.
    fn request(&mut self, policy: &mut Policy, method: &str, path: &str) -> Option<Response> {
        let has_body = !self.body.is_empty();
        match self.run(|record| policy.request_filter(record, method, path, has_body)) {
            Flow::Break(response) => Some(response),
            Flow::Continue(pending) => {
                self.run(|record| policy.response_filter(record, &pending))
            }
        }
    }
}

fn parsed(r: &Response) -> serde_json::Value {
    serde_json::from_slice(&r.body).unwrap()
}

const SEND: &str = r#"{"jsonrpc":"2.0","id":1,"method":"message/send","params":{"message":{"kind":"message","messageId":"u1","role":"user","parts":[{"kind":"text","text":"hi"}]}}}"#;

#[test]
fn message_send_happy_path() {
    let mut policy = Policy::new(&config()).unwrap();
    let mut world = World::new(SEND);
    let resp = world.request(&mut policy, "POST", "/agentforce/").unwrap();

    assert_eq!(resp.status, 200);
    let v = parsed(&resp);
    assert_eq!(v["jsonrpc"], "2.0");
    assert_eq!(v["id"], 1);
    let task = &v["result"];
    assert_eq!(task["id"], "abc-123");
    assert_eq!(task["contextId"], "abc-123");
    assert_eq!(task["status"]["state"], "completed");
    assert_eq!(task["history"][0]["role"], "user");
    assert_eq!(task["history"][1]["role"], "agent");
    assert_eq!(task["artifacts"][0]["parts"][0]["text"], "Hello!");

    let log = world.calls;
    assert!(log.iter().any(|s| s.starts_with("sf POST")), "{log:?}");
    assert!(
        log.iter()
            .any(|s| s.contains("af POST") && s.contains("/agents/")),
        "{log:?}"
    );
    assert!(
        log.iter()
            .any(|s| s.contains("af POST") && s.contains("/messages")),
        "{log:?}"
    );
}

#[test]
fn sent_message_is_a_task_that_can_be_read() {
    let mut policy = Policy::new(&config()).unwrap();
    let mut world = World::new(SEND);
    let sent = world.request(&mut policy, "POST", "/agentforce/").unwrap();
    assert_eq!(
        world.calls,
        vec![
            "sf POST /services/oauth2/token",
            "af POST /einstein/ai-agent/v1/agents/0XXxx0000000000/sessions",
            "af POST /einstein/ai-agent/v1/sessions/abc-123/messages",
        ]
    );
    assert_eq!(parsed(&sent)["result"]["status"]["timestamp"], "2026-05-08T00:00:00Z");

    world.body =
        br#"{"jsonrpc":"2.0","id":"g","method":"tasks/get","params":{"id":"abc-123"}}"#.to_vec();
    world.now = world.now + 59;
    let got = world.request(&mut policy, "POST", "/agentforce/").unwrap();
    assert_eq!(parsed(&got)["result"], parsed(&sent)["result"]);
    assert_eq!(parsed(&got)["id"], "g");

    world.now = world.now + 1;
    let gone = world.request(&mut policy, "POST", "/agentforce/").unwrap();
    assert_eq!(gone.status, 200);
    assert_eq!(parsed(&gone)["error"]["code"], -32001);
}

#[test]
fn message_is_not_sent_in_the_request_phase() {
    let mut policy = Policy::new(&config()).unwrap();
    let mut world = World::new(SEND);
    let flow = world.run(|record| policy.request_filter(record, "POST", "/agentforce/", true));
    assert!(world.calls.is_empty());
    assert!(world.cache.is_empty());
    match flow {
        Flow::Continue(A2APending::MessageSend { body, now_unix, now_iso, .. }) => {
            assert_eq!(body, SEND.as_bytes().to_vec());
            assert_eq!(now_unix, 1_778_198_400);
            assert_eq!(now_iso, "2026-05-08T00:00:00Z");
        }
        other => panic!("{other:?}"),
    }
}

#[test]
fn calls_that_cannot_be_read_are_answered() {
    let mut policy = Policy::new(&config()).unwrap();
    let mut world = World::new("");
    let r = world.request(&mut policy, "POST", "/agentforce/").unwrap();
    assert_eq!(
        r,
        make_json_response(
            200,
            br#"{"jsonrpc":"2.0","id":null,"error":{"code":-32600,"message":"Invalid Request: empty body"}}"#
        )
    );
    world.body = b"{".to_vec();
    let r = world.request(&mut policy, "POST", "/agentforce/").unwrap();
    assert_eq!(r.status, 200);
    assert_eq!(parsed(&r)["error"]["code"], -32700);
    world.body = br#"{"jsonrpc":"2.0","id":5,"method":"tasks/resubscribe"}"#.to_vec();
    let r = world.request(&mut policy, "POST", "/agentforce/").unwrap();
    assert_eq!(
        r.body,
        br#"{"jsonrpc":"2.0","id":5,"error":{"code":-32601,"message":"Method not found: tasks/resubscribe"}}"#.to_vec()
    );
}

#[test]
fn card_is_served() {
    let mut policy = Policy::new(&config()).unwrap();
    let mut world = World::new("");
    let r = world.request(&mut policy, "GET", "/x/.well-known/agent-card.json?v=1").unwrap();
    assert_eq!(r.status, 200);
    assert_eq!(r.headers, vec![("content-type".to_string(), "application/json".to_string())]);
    let card = parsed(&r);
    assert_eq!(card["name"], "Test Agent");
    assert_eq!(card["url"], "https://gw.example.com/agentforce");
    assert_eq!(card["skills"][0]["id"], "s1");
}

#[test]
fn fetched_card_is_served_until_its_time_is_over() {
    let mut c = config();
    c.agent_card_source = Some("url".into());
    c.agent_card_url = Some(service("cards.example.com", "/card.json"));
    let mut policy = Policy::new(&c).unwrap();
    let mut world = World::new("");
    let first = world.request(&mut policy, "GET", "/.well-known/agent-card.json").unwrap();
    assert_eq!(parsed(&first)["name"], "remote");
    assert_eq!(world.calls, vec!["card GET "]);
    world.now += 599;
    let second = world.request(&mut policy, "GET", "/.well-known/agent-card.json").unwrap();
    assert_eq!(second, first);
    assert_eq!(world.calls.len(), 1);
    world.now += 1;
    let third = world.request(&mut policy, "GET", "/.well-known/agent-card.json").unwrap();
    assert_eq!(third, first);
    assert_eq!(world.calls, vec!["card GET ", "card GET "]);
    world.cache.clear();
    world.request(&mut policy, "GET", "/.well-known/agent-card.json").unwrap();
    assert_eq!(world.calls.len(), 3);
}

#[test]
fn changed_card_is_served_once_the_old_one_is_over() {
    let mut c = config();
    c.agent_card_source = Some("url".into());
    c.agent_card_url = Some(service("cards.example.com", "/card.json"));
    let mut policy = Policy::new(&c).unwrap();
    let mut world = World::new("");
    world.request(&mut policy, "GET", "/.well-known/agent-card.json").unwrap();
    let entry = world.cache.values().next().unwrap().clone();
    let answers = vec![
        Answer::Clock(world.now + 600),
        Answer::Cached(Some(entry)),
        Answer::Acknowledged,
        Answer::Reply(json(200, r#"{"name":"changed"}"#)),
        Answer::Acknowledged,
    ];
    let flow = policy.request_filter(
        &mut Record::new(&answers),
        "GET",
        "/.well-known/agent-card.json",
        false,
    );
    match flow {
        Progress::Done(Flow::Break(r)) => assert_eq!(parsed(&r)["name"], "changed"),
        other => panic!("{other:?}"),
    }
}

#[test]
fn missing_card_is_an_error() {
    let mut c = config();
    c.agent_card_source = Some("url".into());
    c.agent_card_url = Some(service("cards.example.com", "/card.json"));
    let mut policy = Policy::new(&c).unwrap();
    let answers = vec![
        Answer::Clock(0),
        Answer::Cached(None),
        Answer::Reply(HttpReply::Failed("down".into())),
    ];
    let flow = policy.request_filter(
        &mut Record::new(&answers),
        "GET",
        "/.well-known/agent-card.json",
        false,
    );
    assert_eq!(
        flow,
        Progress::Done(Flow::Break(make_json_response(
            500,
            br#"{"error":"agent_card_unavailable"}"#
        )))
    );
}

#[test]
fn other_requests_go_on_or_are_refused() {
    let mut policy = Policy::new(&config()).unwrap();
    let mut world = World::new("");
    assert_eq!(world.request(&mut policy, "GET", "/elsewhere"), None);
    let mut c = config();
    c.strict_mode = Some(true);
    let mut policy = Policy::new(&c).unwrap();
    assert_eq!(
        world.request(&mut policy, "GET", "/elsewhere"),
        Some(make_json_response(404, br#"{"error":"not_found","reason":"strictMode"}"#))
    );
}

#[test]
fn bad_configurations_are_refused() {
    let mut c = config();
    c.agent_id = " ".into();
    assert_eq!(
        Policy::new(&c).unwrap_err(),
        "policy configuration rejected: agentId is required"
    );
    let mut c = config();
    c.agent_card_url = None;
    c.agent_card_source = Some("url".into());
    assert_eq!(
        Policy::new(&c).unwrap_err(),
        "policy configuration rejected: agentCardSource is 'url' but no agentCardUrl Service is registered"
    );
}

#[test]
fn configured_path_stands_over_that_of_the_service() {
    assert_eq!(choose_api_path(&Some("/v2".into()), "/v1"), "/v2");
    assert_eq!(choose_api_path(&Some("  ".into()), "/v1"), "/v1");
    assert_eq!(choose_api_path(&None, "/v1"), "/v1");
    assert_eq!(choose_api_path(&Some("/v2".into()), "/"), "/v2");
    let mut c = config();
    c.agentforce_api_base_path = Some("/other/".into());
    let mut policy = Policy::new(&c).unwrap();
    let mut world = World::new(SEND);
    world.request(&mut policy, "POST", "/agentforce/").unwrap();
    assert_eq!(world.calls[1], "af POST /other/agents/0XXxx0000000000/sessions");
}

#[test]
fn usual_path_stands_where_none_is_given() {
    assert_eq!(choose_api_path(&None, "/"), "/einstein/ai-agent/v1");
    assert_eq!(choose_api_path(&None, ""), "/einstein/ai-agent/v1");
    assert_eq!(choose_api_path(&Some(" ".into()), " // "), "/einstein/ai-agent/v1");
    for path in ["/", ""] {
        let mut c = config();
        c.agentforce_api_url = service("api.salesforce.com", path);
        let mut policy = Policy::new(&c).unwrap();
        let mut world = World::new(SEND);
        world.request(&mut policy, "POST", "/agentforce/").unwrap();
        assert_eq!(
            world.calls[1],
            "af POST /einstein/ai-agent/v1/agents/0XXxx0000000000/sessions"
        );
    }
}

#[test]
fn answered_task_is_canceled_once() {
    let mut policy = Policy::new(&config()).unwrap();
    let mut world = World::new(SEND);
    let sent = world.request(&mut policy, "POST", "/agentforce/").unwrap();
    assert_eq!(parsed(&sent)["result"]["status"]["state"], "completed");
    world.body =
        br#"{"jsonrpc":"2.0","id":2,"method":"tasks/cancel","params":{"id":"abc-123"}}"#.to_vec();
    let r = world.request(&mut policy, "POST", "/agentforce/").unwrap();
    assert_eq!(parsed(&r)["result"]["id"], "abc-123");
    assert_eq!(parsed(&r)["result"]["status"]["state"], "canceled");
    assert_eq!(parsed(&r)["result"]["history"], parsed(&sent)["result"]["history"]);
    assert_eq!(world.calls[3..], ["af DELETE /einstein/ai-agent/v1/sessions/abc-123"]);
    let again = world.request(&mut policy, "POST", "/agentforce/").unwrap();
    assert_eq!(parsed(&again)["error"]["code"], -32002);
    assert_eq!(parsed(&again)["error"]["data"]["state"], "canceled");
    world.body =
        br#"{"jsonrpc":"2.0","id":3,"method":"tasks/get","params":{"id":"abc-123"}}"#.to_vec();
    let got = world.request(&mut policy, "POST", "/agentforce/").unwrap();
    assert_eq!(parsed(&got)["result"], parsed(&r)["result"]);
    assert_eq!(world.calls.len(), 4);
}
