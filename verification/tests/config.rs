//! The settings that a configuration comes to.

use agentforce_a2a::config::{
    clamp_u32, deep_merge, nonempty, nonempty_opt, normalize_path, object_of, parse_optional_object,
    skills_array, split_csv, AgentCardSource, ConfigError, PolicyConfig, ProtocolVersion, RawConfig,
    SkillInput,
};
use agentforce_a2a::generated::config::{AgentCardSkills0Config, Config, ServiceUri};
use agentforce_a2a::json::{parse_json_text, write_json, Json};

fn json(s: &str) -> Json {
    parse_json_text(s).unwrap()
}

fn value(j: &Json) -> serde_json::Value {
    serde_json::from_slice(&write_json(j)).unwrap()
}

fn minimal() -> RawConfig {
    RawConfig {
        consumer_key: Some("client-id".into()),
        consumer_secret: Some("client-secret".into()),
        agent_id: Some("0XXxx0000000000".into()),
        public_base_url: Some("https://gw.example.com/a2a".into()),
        anypoint_org_id: Some("org-1".into()),
        anypoint_env_id: Some("env-1".into()),
        object_store_id: Some("a2a-tasks".into()),
        agent_card_source: Some("structured".into()),
        agent_card_name: Some("Test Agent".into()),
        agent_card_description: Some("desc".into()),
        ..Default::default()
    }
}

#[test]
fn applies_defaults() {
    let cfg = PolicyConfig::from_raw(minimal()).unwrap();
    assert_eq!(cfg.protocol_version, ProtocolVersion::V0_3_0);
    assert_eq!(cfg.a2a_rpc_path, "/");
    assert!(!cfg.strict_mode);
    assert!(cfg.bypass_user);
    assert_eq!(cfg.cache_safety_margin_seconds, 60);
    assert_eq!(cfg.task_hot_cache_ttl_seconds, 60);
    assert_eq!(cfg.task_store_timeout_ms, 1500);
    assert_eq!(cfg.agent_card_source, AgentCardSource::Structured);
    assert_eq!(cfg.structured_card.default_input_modes, vec!["text/plain"]);
}

#[test]
fn rejects_unknown_protocol_version() {
    let mut raw = minimal();
    raw.protocol_version = Some("9.9.9".into());
    assert!(matches!(
        PolicyConfig::from_raw(raw),
        Err(ConfigError::UnsupportedProtocolVersion(_))
    ));
}

#[test]
fn rejects_unknown_agent_card_source() {
    let mut raw = minimal();
    raw.agent_card_source = Some("smoke-signal".into());
    assert!(matches!(
        PolicyConfig::from_raw(raw),
        Err(ConfigError::UnsupportedAgentCardSource(_))
    ));
}

#[test]
fn rejects_inline_json_when_blank() {
    let mut raw = minimal();
    raw.agent_card_source = Some("inline_json".into());
    raw.agent_card_json = Some("   ".into());
    assert!(matches!(
        PolicyConfig::from_raw(raw),
        Err(ConfigError::AgentCardJsonEmpty)
    ));
}

#[test]
fn rejects_inline_json_when_not_object() {
    let mut raw = minimal();
    raw.agent_card_source = Some("inline_json".into());
    raw.agent_card_json = Some("[]".into());
    assert!(matches!(
        PolicyConfig::from_raw(raw),
        Err(ConfigError::AgentCardJsonNotObject)
    ));
}

#[test]
fn rejects_url_when_no_service_registered() {
    let mut raw = minimal();
    raw.agent_card_source = Some("url".into());
    raw.agent_card_url_registered = false;
    assert!(matches!(
        PolicyConfig::from_raw(raw),
        Err(ConfigError::AgentCardUrlNotRegistered)
    ));
}

#[test]
fn accepts_url_when_service_registered() {
    let mut raw = minimal();
    raw.agent_card_source = Some("url".into());
    raw.agent_card_url_registered = true;
    let cfg = PolicyConfig::from_raw(raw).unwrap();
    assert_eq!(cfg.agent_card_source, AgentCardSource::Url);
    assert!(cfg.agent_card_json.is_none());
}

#[test]
fn rejects_skills_when_not_array() {
    let mut raw = minimal();
    raw.agent_card_skills_json = Some("{}".into());
    assert!(matches!(
        PolicyConfig::from_raw(raw),
        Err(ConfigError::AgentCardSkillsNotArray)
    ));
}

#[test]
fn rejects_invalid_skills_json() {
    let mut raw = minimal();
    raw.agent_card_skills_json = Some("not-json".into());
    let err = PolicyConfig::from_raw(raw).unwrap_err();
    assert!(matches!(err, ConfigError::InvalidJson { field: "agentCardSkillsJson", .. }));
}

#[test]
fn parses_structured_capabilities_and_modes() {
    let mut raw = minimal();
    raw.agent_card_capabilities_streaming = Some(true);
    raw.agent_card_default_input_modes = Some("text/plain, application/json".into());
    raw.agent_card_skills_json =
        Some(r#"[{"id":"s1","name":"Greet","description":"d","tags":["t"]}]"#.into());
    let cfg = PolicyConfig::from_raw(raw).unwrap();
    assert!(cfg.structured_card.capabilities_streaming);
    assert_eq!(
        cfg.structured_card.default_input_modes,
        vec!["text/plain".to_string(), "application/json".to_string()]
    );
    assert!(cfg.structured_card.skills.is_array());
}

#[test]
fn provider_org_without_url_is_rejected() {
    let mut raw = minimal();
    raw.agent_card_provider_organization = Some("Acme".into());
    raw.agent_card_provider_url = None;
    assert!(matches!(
        PolicyConfig::from_raw(raw),
        Err(ConfigError::AgentCardProviderHalfSet)
    ));
}

#[test]
fn provider_url_without_org_is_rejected() {
    let mut raw = minimal();
    raw.agent_card_provider_organization = None;
    raw.agent_card_provider_url = Some("https://acme.example.com".into());
    assert!(matches!(
        PolicyConfig::from_raw(raw),
        Err(ConfigError::AgentCardProviderHalfSet)
    ));
}

#[test]
fn provider_both_or_neither_is_accepted() {
    let mut raw = minimal();
    raw.agent_card_provider_organization = Some("Acme".into());
    raw.agent_card_provider_url = Some("https://acme.example.com".into());
    assert!(PolicyConfig::from_raw(raw.clone()).is_ok());

    let mut raw = minimal();
    raw.agent_card_provider_organization = None;
    raw.agent_card_provider_url = None;
    assert!(PolicyConfig::from_raw(raw).is_ok());
}

#[test]
fn override_must_be_object() {
    let mut raw = minimal();
    raw.agent_card_override_json = Some("[1,2,3]".into());
    assert!(matches!(
        PolicyConfig::from_raw(raw),
        Err(ConfigError::AgentCardOverrideNotObject)
    ));
}

#[test]
fn override_when_object_is_kept() {
    let mut raw = minimal();
    raw.agent_card_override_json = Some(r#"{"name":"Override"}"#.into());
    let cfg = PolicyConfig::from_raw(raw).unwrap();
    assert!(cfg.agent_card_override.is_some());
}

#[test]
fn deep_merge_overrides_nested_field() {
    let mut base = json(
        r#"{"name": "old", "capabilities": { "streaming": false, "pushNotifications": true }}"#,
    );
    let overlay = json(r#"{"capabilities": { "streaming": true }}"#);
    deep_merge(&mut base, overlay);
    let base = value(&base);
    assert_eq!(base["capabilities"]["streaming"], true);
    assert_eq!(base["capabilities"]["pushNotifications"], true);
    assert_eq!(base["name"], "old");
}

#[test]
fn deep_merge_replaces_arrays_wholesale() {
    let mut base = json(r#"{ "tags": ["a", "b"] }"#);
    let overlay = json(r#"{ "tags": ["c"] }"#);
    deep_merge(&mut base, overlay);
    assert_eq!(base.get("tags"), Some(&json(r#"["c"]"#)));
}

#[test]
fn normalize_path_adds_leading_slash() {
    assert_eq!(normalize_path("a2a"), "/a2a");
    assert_eq!(normalize_path("/a2a"), "/a2a");
    assert_eq!(normalize_path(""), "/");
}

#[test]
fn clamp_u32_respects_bounds() {
    assert_eq!(clamp_u32(Some(-5), 0, 100, 10), 0);
    assert_eq!(clamp_u32(Some(200), 0, 100, 10), 100);
    assert_eq!(clamp_u32(None, 0, 100, 10), 10);
}

#[test]
fn every_required_text_is_missed() {
    let cases: Vec<(fn(&mut RawConfig), &str)> = vec![
        (|r| r.consumer_key = None, "consumerKey is required"),
        (|r| r.consumer_secret = Some(" ".into()), "consumerSecret is required"),
        (|r| r.agent_id = Some("".into()), "agentId is required"),
        (|r| r.public_base_url = None, "publicBaseUrl is required"),
        (|r| r.anypoint_org_id = None, "anypointOrgId is required"),
        (|r| r.anypoint_env_id = Some("\t".into()), "anypointEnvId is required"),
        (|r| r.object_store_id = None, "objectStoreId is required"),
    ];
    for (spoil, text) in cases {
        let mut raw = minimal();
        spoil(&mut raw);
        assert_eq!(PolicyConfig::from_raw(raw).unwrap_err().message(), text);
    }
}

#[test]
fn refusals_are_told_in_words() {
    let unknown = ProtocolVersion::parse("1.0").unwrap_err();
    assert_eq!(unknown.message(), "unsupported protocolVersion: 1.0 (expected 0.3.0)");
    let unknown = AgentCardSource::parse("fax").unwrap_err();
    assert_eq!(unknown.message(), "unsupported agentCardSource: fax");
    let mut raw = minimal();
    raw.agent_card_source = Some("file".into());
    raw.agent_card_json = Some("{".into());
    assert_eq!(
        PolicyConfig::from_raw(raw).unwrap_err().message(),
        "invalid JSON in agentCardJson: EOF while parsing an object at line 1 column 1"
    );
    assert_eq!(
        ConfigError::AgentCardJsonEmpty.message(),
        "agentCardSource is 'inline_json' or 'file' but agentCardJson is empty"
    );
    assert_eq!(
        ConfigError::AgentCardUrlNotRegistered.message(),
        "agentCardSource is 'url' but no agentCardUrl Service is registered"
    );
    assert_eq!(
        ConfigError::AgentCardSkillsNotArray.message(),
        "agentCardSkillsJson must be a JSON array"
    );
    assert_eq!(
        ConfigError::AgentCardOverrideNotObject.message(),
        "agentCardOverrideJson must be a JSON object"
    );
    assert_eq!(
        ConfigError::AgentCardJsonNotObject.message(),
        "agentCardJson must be a JSON object"
    );
    assert!(ConfigError::AgentCardProviderHalfSet
        .message()
        .starts_with("agentCardProviderOrganization and agentCardProviderUrl must be set together"));
}

#[test]
fn security_schemes_must_be_an_object() {
    let mut raw = minimal();
    raw.agent_card_security_schemes_json = Some("5".into());
    let err = PolicyConfig::from_raw(raw).unwrap_err();
    assert_eq!(err, ConfigError::AgentCardSecuritySchemesNotObject);
    assert_eq!(err.message(), "agentCardSecuritySchemesJson must be a JSON object");
}

#[test]
fn first_fault_is_the_one_reported() {
    let mut raw = minimal();
    raw.agent_id = None;
    raw.protocol_version = Some("9".into());
    raw.agent_card_override_json = Some("[]".into());
    assert_eq!(PolicyConfig::from_raw(raw).unwrap_err(), ConfigError::MissingAgentId);
}

#[test]
fn settings_stay_within_bounds() {
    let mut raw = minimal();
    raw.cache_safety_margin_seconds = Some(100_000);
    raw.task_hot_cache_ttl_seconds = Some(-1);
    raw.task_store_timeout_ms = Some(1);
    raw.object_store_ttl_seconds = Some(i64::MAX);
    let cfg = PolicyConfig::from_raw(raw).unwrap();
    assert_eq!(cfg.cache_safety_margin_seconds, 600);
    assert_eq!(cfg.task_hot_cache_ttl_seconds, 0);
    assert_eq!(cfg.task_store_timeout_ms, 100);
    assert_eq!(cfg.object_store_ttl_seconds, 2_592_000);
}

#[test]
fn values_are_kept_as_they_stand() {
    let mut raw = minimal();
    raw.consumer_key = Some(" key ".into());
    raw.a2a_rpc_path = Some("  rpc ".into());
    raw.agentforce_access_token_override = Some("tok".into());
    let cfg = PolicyConfig::from_raw(raw).unwrap();
    assert_eq!(cfg.consumer_key, " key ");
    assert_eq!(cfg.a2a_rpc_path, "/rpc");
    assert_eq!(cfg.agentforce_access_token_override, Some("tok".to_string()));
    assert_eq!(nonempty(Some(" x".into()), ConfigError::MissingAgentId), Ok(" x".to_string()));
    assert_eq!(nonempty_opt(Some("\n".into())), None);
    assert_eq!(nonempty_opt(Some("y".into())), Some("y".to_string()));
}

#[test]
fn modes_are_split_and_never_empty() {
    assert_eq!(split_csv(None), vec!["text/plain"]);
    assert_eq!(split_csv(Some(" , ,".into())), vec!["text/plain"]);
    assert_eq!(split_csv(Some("".into())), vec!["text/plain"]);
    assert_eq!(split_csv(Some("a ,, b c,".into())), vec!["a", "b c"]);
}

#[test]
fn skills_come_from_either_place() {
    let skill = SkillInput {
        id: "s1".into(),
        name: "Greet".into(),
        description: "d".into(),
        tags: vec!["t".into()],
    };
    let mut raw = minimal();
    raw.agent_card_skills = vec![skill.clone()];
    let cfg = PolicyConfig::from_raw(raw).unwrap();
    assert_eq!(
        cfg.structured_card.skills,
        json(r#"[{"id":"s1","name":"Greet","description":"d","tags":["t"]}]"#)
    );
    let mut raw = minimal();
    raw.agent_card_skills = vec![skill];
    raw.agent_card_skills_json = Some(" [1] ".into());
    let cfg = PolicyConfig::from_raw(raw).unwrap();
    assert_eq!(cfg.structured_card.skills, json("[1]"));
    assert_eq!(skills_array(Ok(json("[]"))), Ok(json("[]")));
}

#[test]
fn optional_objects_may_be_blank() {
    let refuse = || ConfigError::AgentCardOverrideNotObject;
    assert_eq!(parse_optional_object(&None, "f", refuse()), Ok(None));
    assert_eq!(parse_optional_object(&Some(" \n".into()), "f", refuse()), Ok(None));
    assert_eq!(
        parse_optional_object(&Some(" {\"a\":1} ".into()), "f", refuse()),
        Ok(Some(json("{\"a\":1}")))
    );
    assert_eq!(
        object_of("f", Err("bad".into()), refuse()),
        Err(ConfigError::InvalidJson { field: "f", error: "bad".into() })
    );
    assert_eq!(object_of("f", Ok(Json::Null), refuse()), Err(refuse()));
}

#[test]
fn inline_card_is_kept_as_text() {
    let mut raw = minimal();
    raw.agent_card_source = Some("file".into());
    raw.agent_card_json = Some(" {\"name\":\"n\"} ".into());
    let cfg = PolicyConfig::from_raw(raw).unwrap();
    assert_eq!(cfg.agent_card_source, AgentCardSource::File);
    assert_eq!(cfg.agent_card_json, Some(" {\"name\":\"n\"} ".to_string()));
}

#[test]
fn merging_keeps_the_order_and_repeats_to_nothing() {
    let mut base = json(r#"{"a":1,"b":{"c":2,"d":[1]},"e":null}"#);
    let overlay = json(r#"{"e":{"x":1},"b":{"d":3,"f":4},"g":true}"#);
    deep_merge(&mut base, overlay.clone());
    let merged = json(r#"{"a":1,"b":{"c":2,"d":3,"f":4},"e":{"x":1},"g":true}"#);
    assert_eq!(base, merged);
    deep_merge(&mut base, overlay);
    assert_eq!(base, merged);
    deep_merge(&mut base, json("{}"));
    assert_eq!(base, merged);
    deep_merge(&mut base, json("7"));
    assert_eq!(base, json("7"));
}

fn service(scheme: &str, authority: &str, path: &str) -> ServiceUri {
    ServiceUri { scheme: scheme.into(), authority: authority.into(), path: path.into() }
}

#[test]
fn configuration_is_taken_over() {
    let config = Config {
        a_2_a_rpc_path: Some("/rpc".into()),
        agent_card_capabilities_push_notifications: Some(true),
        agent_card_capabilities_streaming: None,
        agent_card_default_input_modes: Some("in".into()),
        agent_card_default_output_modes: Some("out".into()),
        agent_card_description: Some("description".into()),
        agent_card_documentation_url: Some("documentation".into()),
        agent_card_icon_url: Some("icon".into()),
        agent_card_json: Some("{}".into()),
        agent_card_name: Some("name".into()),
        agent_card_override_json: Some("{\"o\":1}".into()),
        agent_card_provider_organization: Some("org".into()),
        agent_card_provider_url: Some("url".into()),
        agent_card_security_schemes_json: Some("{\"s\":1}".into()),
        agent_card_skills: Some(vec![AgentCardSkills0Config {
            description: "does".into(),
            id: "s".into(),
            name: "skill".into(),
            tags: None,
        }]),
        agent_card_skills_json: None,
        agent_card_source: Some("url".into()),
        agent_card_url: Some(service("https", "cards", "/card")),
        agent_card_version: Some("2.0.0".into()),
        agent_id: "agent".into(),
        agentforce_access_token_override: Some("token".into()),
        agentforce_api_base_path: None,
        agentforce_api_url: service("https", "api", "/"),
        anypoint_client_id: Some("client".into()),
        anypoint_client_secret: Some("secret".into()),
        anypoint_env_id: Some("env".into()),
        anypoint_org_id: Some("organization".into()),
        auto_create_store: Some(false),
        bypass_user: Some(false),
        cache_safety_margin_seconds: Some(30),
        consumer_key: "key".into(),
        consumer_secret: "hush".into(),
        diagnostic_continue_flow: Some(true),
        diagnostic_pre_body_agentforce_probe: Some(false),
        diagnostic_pre_body_probe: None,
        disable_object_store: Some(true),
        my_domain_url: service("https", "my", "/"),
        object_store_id: Some("store".into()),
        object_store_ttl_seconds: Some(90),
        protocol_version: Some("0.3.0".into()),
        public_base_url: "https://gw".into(),
        strict_mode: Some(true),
        task_hot_cache_ttl_seconds: Some(5),
        task_store_timeout_ms: Some(200),
    };
    let raw = RawConfig::from(&config);
    assert_eq!(
        raw,
        RawConfig {
            consumer_key: Some("key".into()),
            consumer_secret: Some("hush".into()),
            agentforce_access_token_override: Some("token".into()),
            agent_id: Some("agent".into()),
            bypass_user: Some(false),
            cache_safety_margin_seconds: Some(30),
            protocol_version: Some("0.3.0".into()),
            a2a_rpc_path: Some("/rpc".into()),
            public_base_url: Some("https://gw".into()),
            strict_mode: Some(true),
            diagnostic_pre_body_probe: None,
            diagnostic_pre_body_agentforce_probe: Some(false),
            diagnostic_continue_flow: Some(true),
            anypoint_client_id: Some("client".into()),
            anypoint_client_secret: Some("secret".into()),
            anypoint_org_id: Some("organization".into()),
            anypoint_env_id: Some("env".into()),
            object_store_id: Some("store".into()),
            auto_create_store: Some(false),
            disable_object_store: Some(true),
            object_store_ttl_seconds: Some(90),
            task_hot_cache_ttl_seconds: Some(5),
            task_store_timeout_ms: Some(200),
            agent_card_source: Some("url".into()),
            agent_card_json: Some("{}".into()),
            agent_card_url_registered: true,
            agent_card_name: Some("name".into()),
            agent_card_description: Some("description".into()),
            agent_card_version: Some("2.0.0".into()),
            agent_card_icon_url: Some("icon".into()),
            agent_card_documentation_url: Some("documentation".into()),
            agent_card_provider_organization: Some("org".into()),
            agent_card_provider_url: Some("url".into()),
            agent_card_capabilities_streaming: None,
            agent_card_capabilities_push_notifications: Some(true),
            agent_card_default_input_modes: Some("in".into()),
            agent_card_default_output_modes: Some("out".into()),
            agent_card_skills_json: None,
            agent_card_skills: vec![SkillInput {
                id: "s".into(),
                name: "skill".into(),
                description: "does".into(),
                tags: vec![],
            }],
            agent_card_security_schemes_json: Some("{\"s\":1}".into()),
            agent_card_override_json: Some("{\"o\":1}".into()),
        }
    );
}
