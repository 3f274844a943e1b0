//! The agent card, from each of its sources.

use agentforce_a2a::agent_card::{
    build_static_card, card_from_reply, card_of, join_url, structured_to_card, CardError,
    CardProvider, CACHE_KEY_URL_CARD,
};
use agentforce_a2a::config::{AgentCardSource, PolicyConfig, ProtocolVersion, StructuredCardConfig};
use agentforce_a2a::effects::{Action, Answer, HttpReply, Method, Progress, Record, Upstream};
use agentforce_a2a::json::{parse_json_text, write_json, Json};
use agentforce_a2a::store::task_store::HotEnvelope;

fn json(s: &str) -> Json {
    parse_json_text(s).unwrap()
}

fn value(j: &Json) -> serde_json::Value {
    serde_json::from_slice(&write_json(j)).unwrap()
}

fn cfg_with(source: AgentCardSource, text: Option<String>) -> PolicyConfig {
    PolicyConfig {
        consumer_key: "k".into(),
        consumer_secret: "s".into(),
        agentforce_access_token_override: None,
        agent_id: "a".into(),
        bypass_user: true,
        cache_safety_margin_seconds: 60,
        protocol_version: ProtocolVersion::V0_3_0,
        a2a_rpc_path: "/".into(),
        public_base_url: "https://gw.example.com/a2a".into(),
        strict_mode: false,
        diagnostic_pre_body_probe: false,
        diagnostic_pre_body_agentforce_probe: false,
        diagnostic_continue_flow: false,
        anypoint_client_id: "".into(),
        anypoint_client_secret: "".into(),
        anypoint_org_id: "org".into(),
        anypoint_env_id: "env".into(),
        object_store_id: "store".into(),
        auto_create_store: true,
        disable_object_store: false,
        object_store_ttl_seconds: 86_400,
        task_hot_cache_ttl_seconds: 60,
        task_store_timeout_ms: 1500,
        agent_card_source: source,
        agent_card_json: text,
        structured_card: StructuredCardConfig {
            name: Some("Hello Agent".into()),
            description: Some("desc".into()),
            version: Some("1.0.0".into()),
            icon_url: None,
            documentation_url: None,
            provider_organization: Some("Acme".into()),
            provider_url: Some("https://acme.example.com".into()),
            capabilities_streaming: false,
            capabilities_push_notifications: false,
            default_input_modes: vec!["text/plain".into()],
            default_output_modes: vec!["text/plain".into()],
            skills: json(r#"[{"id":"s1","name":"Greet","description":"d","tags":["t"]}]"#),
            security_schemes: None,
        },
        agent_card_override: None,
    }
}

#[test]
fn structured_card_includes_capabilities_and_skills() {
    let cfg = cfg_with(AgentCardSource::Structured, None);
    let card = value(&build_static_card(&cfg).unwrap());
    assert_eq!(card["name"], "Hello Agent");
    assert_eq!(card["protocolVersion"], "0.3.0");
    assert_eq!(card["preferredTransport"], "JSONRPC");
    assert_eq!(card["url"], "https://gw.example.com/a2a");
    assert_eq!(card["capabilities"]["streaming"], false);
    assert_eq!(card["skills"][0]["id"], "s1");
    assert_eq!(card["provider"]["organization"], "Acme");
    assert_eq!(card["provider"]["url"], "https://acme.example.com");
}

#[test]
fn structured_card_omits_provider_when_both_blank() {
    let mut cfg = cfg_with(AgentCardSource::Structured, None);
    cfg.structured_card.provider_organization = None;
    cfg.structured_card.provider_url = None;
    let card = build_static_card(&cfg).unwrap();
    assert!(
        card.get("provider").is_none(),
        "provider must be absent when neither org nor url is set, got {card:?}"
    );
}

#[test]
fn inline_json_overrides_structured_when_chosen() {
    let mut cfg = cfg_with(
        AgentCardSource::InlineJson,
        Some(r#"{"name":"Inline","version":"9.9.9"}"#.into()),
    );
    cfg.structured_card.name = Some("Should be ignored".into());
    let card = value(&build_static_card(&cfg).unwrap());
    assert_eq!(card["name"], "Inline");
    assert_eq!(card["version"], "9.9.9");
    assert_eq!(card["protocolVersion"], "0.3.0");
}

#[test]
fn override_json_deep_merges() {
    let mut cfg = cfg_with(AgentCardSource::Structured, None);
    cfg.agent_card_override =
        Some(json(r#"{"capabilities": { "streaming": true }, "extra": "carried"}"#));
    let card = value(&build_static_card(&cfg).unwrap());
    assert_eq!(card["capabilities"]["streaming"], true);
    assert_eq!(card["capabilities"]["pushNotifications"], false);
    assert_eq!(card["extra"], "carried");
}

#[test]
fn forced_url_appends_path_when_present() {
    let mut cfg = cfg_with(AgentCardSource::Structured, None);
    cfg.public_base_url = "https://gw.example.com/a2a".into();
    cfg.a2a_rpc_path = "/rpc".into();
    let card = value(&build_static_card(&cfg).unwrap());
    assert_eq!(card["url"], "https://gw.example.com/a2a/rpc");
}

#[test]
fn forced_url_keeps_base_when_path_is_root() {
    let mut cfg = cfg_with(AgentCardSource::Structured, None);
    cfg.public_base_url = "https://gw.example.com/a2a/".into();
    cfg.a2a_rpc_path = "/".into();
    let card = value(&build_static_card(&cfg).unwrap());
    assert_eq!(card["url"], "https://gw.example.com/a2a");
}

#[test]
fn url_source_yields_empty_static_card() {
    let cfg = cfg_with(AgentCardSource::Url, None);
    let card = build_static_card(&cfg).unwrap();
    assert_eq!(card, json("{}"));
}

#[test]
fn structured_card_is_written_field_by_field() {
    let mut s = cfg_with(AgentCardSource::Structured, None).structured_card;
    s.icon_url = Some("https://i".into());
    s.documentation_url = Some("https://d".into());
    s.security_schemes = Some(json(r#"{"k":{}}"#));
    assert_eq!(
        String::from_utf8(write_json(&structured_to_card(&s))).unwrap(),
        r#"{"name":"Hello Agent","description":"desc","version":"1.0.0","iconUrl":"https://i","documentationUrl":"https://d","provider":{"organization":"Acme","url":"https://acme.example.com"},"capabilities":{"streaming":false,"pushNotifications":false},"defaultInputModes":["text/plain"],"defaultOutputModes":["text/plain"],"skills":[{"id":"s1","name":"Greet","description":"d","tags":["t"]}],"securitySchemes":{"k":{}}}"#
    );
    s.provider_url = None;
    assert!(structured_to_card(&s).get("provider").is_none());
}

#[test]
fn forced_fields_stand_over_the_override() {
    let mut cfg = cfg_with(
        AgentCardSource::File,
        Some(r#"{"url":"https://liar","protocolVersion":"9","preferredTransport":"GRPC"}"#.into()),
    );
    cfg.agent_card_override = Some(json(r#"{"url":"https://liar.too"}"#));
    assert_eq!(
        write_json(&build_static_card(&cfg).unwrap()),
        br#"{"url":"https://gw.example.com/a2a","protocolVersion":"0.3.0","preferredTransport":"JSONRPC"}"#.to_vec()
    );
}

#[test]
fn addresses_are_joined_with_one_slash() {
    assert_eq!(join_url("https://gw//", "rpc"), "https://gw/rpc");
    assert_eq!(join_url("https://gw", "/rpc/"), "https://gw/rpc/");
    assert_eq!(join_url("https://gw/", ""), "https://gw");
    assert_eq!(join_url("", "/"), "");
}

#[test]
fn cards_that_are_no_objects_are_refused() {
    assert_eq!(card_of(Ok(json("[1]"))), Err(CardError::NotObject));
    assert_eq!(card_of(Err("why".into())), Err(CardError::BadJson("why".into())));
    assert_eq!(card_of(Ok(json("{}"))), Ok(json("{}")));
    let cfg = cfg_with(AgentCardSource::InlineJson, Some("nope".into()));
    assert_eq!(
        build_static_card(&cfg),
        Err(CardError::BadJson("expected ident at line 1 column 2".into()))
    );
}

#[test]
fn card_errors_are_told_in_words() {
    assert_eq!(
        CardError::Transport("t".into()).message(),
        "agent card url fetch transport error: t"
    );
    assert_eq!(CardError::HttpStatus(503).message(), "agent card url fetch returned HTTP 503");
    assert_eq!(
        CardError::BadJson("b".into()).message(),
        "agent card body was not valid JSON: b"
    );
    assert_eq!(CardError::NotObject.message(), "agent card body was not a JSON object");
}

#[test]
fn replies_of_the_card_host_are_judged() {
    let cfg = cfg_with(AgentCardSource::Url, None);
    assert_eq!(
        card_from_reply(&cfg, HttpReply::Failed("down".into())),
        Err(CardError::Transport("down".into()))
    );
    assert_eq!(
        card_from_reply(&cfg, HttpReply::Answered { status: 404, body: vec![] }),
        Err(CardError::HttpStatus(404))
    );
    assert_eq!(
        card_from_reply(&cfg, HttpReply::Answered { status: 200, body: b"[]".to_vec() }),
        Err(CardError::NotObject)
    );
    let ok = card_from_reply(
        &cfg,
        HttpReply::Answered { status: 299, body: br#"{"name":"remote"}"#.to_vec() },
    );
    assert_eq!(
        ok,
        Ok(br#"{"name":"remote","protocolVersion":"0.3.0","url":"https://gw.example.com/a2a","preferredTransport":"JSONRPC"}"#.to_vec())
    );
}

#[test]
fn warm_card_needs_nothing_from_outside() {
    let mut provider = CardProvider::new(cfg_with(AgentCardSource::Structured, None), false);
    assert_eq!(provider.warmed_bytes(), None);
    provider.warm().unwrap();
    let bytes = provider.warmed_bytes().unwrap();
    let none: Vec<Answer> = vec![];
    match provider.bytes(&mut Record::new(&none), 100) {
        Progress::Done(Ok(b)) => assert_eq!(b, bytes),
        other => panic!("{other:?}"),
    }
}

#[test]
fn fetched_card_is_cached() {
    let mut provider = CardProvider::new(cfg_with(AgentCardSource::Url, None), true);
    provider.warm().unwrap();
    assert_eq!(provider.warmed_bytes(), None);
    let mut answers: Vec<Answer> = vec![];

    let step = provider.bytes(&mut Record::new(&answers), 100);
    assert_eq!(step, Progress::Do(Action::CacheGet { key: CACHE_KEY_URL_CARD.to_string() }));
    answers.push(Answer::Cached(None));

    match provider.bytes(&mut Record::new(&answers), 100) {
        Progress::Do(Action::Send(request)) => {
            assert_eq!(request.upstream, Upstream::AgentCardUrl);
            assert_eq!(request.method, Method::Get);
            assert_eq!(request.path, None);
            assert_eq!(
                request.headers,
                vec![("accept".to_string(), "application/json".to_string())]
            );
            assert_eq!(request.timeout_ms, Some(5_000));
        }
        other => panic!("{other:?}"),
    }
    answers.push(Answer::Reply(HttpReply::Answered { status: 200, body: b"{}".to_vec() }));

    let card = br#"{"protocolVersion":"0.3.0","url":"https://gw.example.com/a2a","preferredTransport":"JSONRPC"}"#.to_vec();
    let envelope = HotEnvelope { payload: card.clone(), expires_at_unix: 700 };
    assert_eq!(
        provider.bytes(&mut Record::new(&answers), 100),
        Progress::Do(Action::CacheSave {
            key: CACHE_KEY_URL_CARD.to_string(),
            bytes: envelope.to_bytes(),
        })
    );
    answers.push(Answer::Acknowledged);
    assert_eq!(provider.bytes(&mut Record::new(&answers), 100), Progress::Done(Ok(card.clone())));
    assert_eq!(provider.warmed_bytes(), None);

    let kept = vec![Answer::Cached(Some(envelope.to_bytes()))];
    assert_eq!(
        provider.bytes(&mut Record::new(&kept), 699),
        Progress::Done(Ok(card.clone()))
    );
    let mut cold = CardProvider::new(cfg_with(AgentCardSource::Url, None), true);
    assert_eq!(cold.bytes(&mut Record::new(&kept), 699), Progress::Done(Ok(card)));
}

#[test]
fn changed_card_replaces_the_old_one() {
    let mut provider = CardProvider::new(cfg_with(AgentCardSource::Url, None), true);
    let page = |name: &str| {
        Answer::Reply(HttpReply::Answered {
            status: 200,
            body: format!(r#"{{"name":"{name}"}}"#).into_bytes(),
        })
    };
    let card = |name: &str| {
        format!(r#"{{"name":"{name}","protocolVersion":"0.3.0","url":"https://gw.example.com/a2a","preferredTransport":"JSONRPC"}}"#).into_bytes()
    };
    let first = vec![Answer::Cached(None), page("old"), Answer::Acknowledged];
    assert_eq!(
        provider.bytes(&mut Record::new(&first), 100),
        Progress::Done(Ok(card("old")))
    );
    let entry = HotEnvelope { payload: card("old"), expires_at_unix: 700 };
    let mut later = vec![Answer::Cached(Some(entry.to_bytes())), Answer::Acknowledged, page("new")];
    let renewed = HotEnvelope { payload: card("new"), expires_at_unix: 1300 };
    assert_eq!(
        provider.bytes(&mut Record::new(&later), 700),
        Progress::Do(Action::CacheSave {
            key: CACHE_KEY_URL_CARD.to_string(),
            bytes: renewed.to_bytes(),
        })
    );
    later.push(Answer::Acknowledged);
    assert_eq!(
        provider.bytes(&mut Record::new(&later), 700),
        Progress::Done(Ok(card("new")))
    );
}

#[test]
fn empty_texts_of_the_form_are_left_out() {
    let s = StructuredCardConfig {
        name: Some("".into()),
        description: Some("d".into()),
        version: Some("".into()),
        icon_url: Some("".into()),
        documentation_url: None,
        provider_organization: Some("".into()),
        provider_url: Some("https://p".into()),
        capabilities_streaming: false,
        capabilities_push_notifications: true,
        default_input_modes: vec![],
        default_output_modes: vec!["text/plain".into()],
        skills: json("[]"),
        security_schemes: None,
    };
    assert_eq!(
        write_json(&structured_to_card(&s)),
        br#"{"description":"d","capabilities":{"streaming":false,"pushNotifications":true},"defaultInputModes":[],"defaultOutputModes":["text/plain"],"skills":[]}"#.to_vec()
    );
}

#[test]
fn expired_card_is_dropped_and_fetched_again() {
    let mut provider = CardProvider::new(cfg_with(AgentCardSource::Url, None), true);
    let old = HotEnvelope { payload: b"{}".to_vec(), expires_at_unix: 700 };
    let mut answers = vec![Answer::Cached(Some(old.to_bytes()))];
    assert_eq!(
        provider.bytes(&mut Record::new(&answers), 700),
        Progress::Do(Action::CacheDelete { key: CACHE_KEY_URL_CARD.to_string() })
    );
    answers.push(Answer::Acknowledged);
    assert!(matches!(
        provider.bytes(&mut Record::new(&answers), 700),
        Progress::Do(Action::Send(_))
    ));
}

#[test]
fn card_without_a_service_is_refused() {
    let mut provider = CardProvider::new(cfg_with(AgentCardSource::Url, None), false);
    let answers = vec![Answer::Cached(None)];
    assert_eq!(
        provider.bytes(&mut Record::new(&answers), 0),
        Progress::Done(Err(CardError::NotObject))
    );
}
