//! The configuration of the gateway: defaults applied, values checked.

use vstd::prelude::*;

use crate::json::{
    array_json, copy_option_json, distinct_keys, find_member, items_view, json_of_text,
    lemma_member_absent, lemma_member_at, lemma_member_cases, lemma_member_push, lemma_object_view,
    lemma_with_member_at, lemma_with_member_lookup, member, members_view, option_json,
    parse_json_text, reading_view, set_member, text_json, with_member, Json, JsonView, Members,
    MembersView,
};
use crate::text::{
    blank, concat2, concat3, concat4, copy_option, copy_texts, is_blank, option_text, split,
    split_on, starts_with_char, text_eq, texts, trim, trimmed,
};

verus! {

/// Why a configuration is refused.
#[derive(Debug, PartialEq, Eq)]
pub enum ConfigError {
    UnsupportedProtocolVersion(String),
    UnsupportedAgentCardSource(String),
    MissingPublicBaseUrl,
    MissingConsumerKey,
    MissingConsumerSecret,
    MissingAgentId,
    MissingAnypointOrgId,
    MissingAnypointEnvId,
    MissingObjectStoreId,
    AgentCardJsonEmpty,
    AgentCardUrlNotRegistered,
    AgentCardSkillsNotArray,
    AgentCardSecuritySchemesNotObject,
    AgentCardOverrideNotObject,
    AgentCardJsonNotObject,
    AgentCardProviderHalfSet,
    InvalidJson { field: &'static str, error: String },
}

/// The value of a [`ConfigError`].
pub enum ConfigErrorView {
    UnsupportedProtocolVersion(Seq<char>),
    UnsupportedAgentCardSource(Seq<char>),
    MissingPublicBaseUrl,
    MissingConsumerKey,
    MissingConsumerSecret,
    MissingAgentId,
    MissingAnypointOrgId,
    MissingAnypointEnvId,
    MissingObjectStoreId,
    AgentCardJsonEmpty,
    AgentCardUrlNotRegistered,
    AgentCardSkillsNotArray,
    AgentCardSecuritySchemesNotObject,
    AgentCardOverrideNotObject,
    AgentCardJsonNotObject,
    AgentCardProviderHalfSet,
    InvalidJson { field: Seq<char>, error: Seq<char> },
}

impl View for ConfigError {
    type V = ConfigErrorView;

    open spec fn view(&self) -> ConfigErrorView {
        match self {
            ConfigError::UnsupportedProtocolVersion(s) => ConfigErrorView::UnsupportedProtocolVersion(s@),
            ConfigError::UnsupportedAgentCardSource(s) => ConfigErrorView::UnsupportedAgentCardSource(s@),
            ConfigError::MissingPublicBaseUrl => ConfigErrorView::MissingPublicBaseUrl,
            ConfigError::MissingConsumerKey => ConfigErrorView::MissingConsumerKey,
            ConfigError::MissingConsumerSecret => ConfigErrorView::MissingConsumerSecret,
            ConfigError::MissingAgentId => ConfigErrorView::MissingAgentId,
            ConfigError::MissingAnypointOrgId => ConfigErrorView::MissingAnypointOrgId,
            ConfigError::MissingAnypointEnvId => ConfigErrorView::MissingAnypointEnvId,
            ConfigError::MissingObjectStoreId => ConfigErrorView::MissingObjectStoreId,
            ConfigError::AgentCardJsonEmpty => ConfigErrorView::AgentCardJsonEmpty,
            ConfigError::AgentCardUrlNotRegistered => ConfigErrorView::AgentCardUrlNotRegistered,
            ConfigError::AgentCardSkillsNotArray => ConfigErrorView::AgentCardSkillsNotArray,
            ConfigError::AgentCardSecuritySchemesNotObject => ConfigErrorView::AgentCardSecuritySchemesNotObject,
            ConfigError::AgentCardOverrideNotObject => ConfigErrorView::AgentCardOverrideNotObject,
            ConfigError::AgentCardJsonNotObject => ConfigErrorView::AgentCardJsonNotObject,
            ConfigError::AgentCardProviderHalfSet => ConfigErrorView::AgentCardProviderHalfSet,
            ConfigError::InvalidJson { field, error } => ConfigErrorView::InvalidJson {
                field: field@,
                error: error@,
            },
        }
    }
}

/// A refusal in words.
pub open spec fn config_error_text(e: ConfigErrorView) -> Seq<char> {
    match e {
        ConfigErrorView::UnsupportedProtocolVersion(s) => "unsupported protocolVersion: "@ + s + " (expected 0.3.0)"@,
        ConfigErrorView::UnsupportedAgentCardSource(s) => "unsupported agentCardSource: "@ + s,
        ConfigErrorView::MissingPublicBaseUrl => "publicBaseUrl is required"@,
        ConfigErrorView::MissingConsumerKey => "consumerKey is required"@,
        ConfigErrorView::MissingConsumerSecret => "consumerSecret is required"@,
        ConfigErrorView::MissingAgentId => "agentId is required"@,
        ConfigErrorView::MissingAnypointOrgId => "anypointOrgId is required"@,
        ConfigErrorView::MissingAnypointEnvId => "anypointEnvId is required"@,
        ConfigErrorView::MissingObjectStoreId => "objectStoreId is required"@,
        ConfigErrorView::AgentCardJsonEmpty => "agentCardSource is 'inline_json' or 'file' but agentCardJson is empty"@,
        ConfigErrorView::AgentCardUrlNotRegistered => "agentCardSource is 'url' but no agentCardUrl Service is registered"@,
        ConfigErrorView::AgentCardSkillsNotArray => "agentCardSkillsJson must be a JSON array"@,
        ConfigErrorView::AgentCardSecuritySchemesNotObject => "agentCardSecuritySchemesJson must be a JSON object"@,
        ConfigErrorView::AgentCardOverrideNotObject => "agentCardOverrideJson must be a JSON object"@,
        ConfigErrorView::AgentCardJsonNotObject => "agentCardJson must be a JSON object"@,
        ConfigErrorView::AgentCardProviderHalfSet => "agentCardProviderOrganization and agentCardProviderUrl must be set together (A2A 0.3.0 \u{a7}5.5 requires AgentProvider.organization and AgentProvider.url) \u{2014} leave both blank to omit the provider block"@,
        ConfigErrorView::InvalidJson { field, error } => "invalid JSON in "@ + field + ": "@ + error,
    }
}

impl ConfigError {
    /// The refusal in words.
    pub fn message(&self) -> (r: String)
        ensures
            r@ == config_error_text(self@),
    {
        match self {
            ConfigError::UnsupportedProtocolVersion(s) => concat3("unsupported protocolVersion: ", s.as_str(), " (expected 0.3.0)"),
            ConfigError::UnsupportedAgentCardSource(s) => concat2("unsupported agentCardSource: ", s.as_str()),
            ConfigError::MissingPublicBaseUrl => "publicBaseUrl is required".to_owned(),
            ConfigError::MissingConsumerKey => "consumerKey is required".to_owned(),
            ConfigError::MissingConsumerSecret => "consumerSecret is required".to_owned(),
            ConfigError::MissingAgentId => "agentId is required".to_owned(),
            ConfigError::MissingAnypointOrgId => "anypointOrgId is required".to_owned(),
            ConfigError::MissingAnypointEnvId => "anypointEnvId is required".to_owned(),
            ConfigError::MissingObjectStoreId => "objectStoreId is required".to_owned(),
            ConfigError::AgentCardJsonEmpty => "agentCardSource is 'inline_json' or 'file' but agentCardJson is empty".to_owned(),
            ConfigError::AgentCardUrlNotRegistered => "agentCardSource is 'url' but no agentCardUrl Service is registered".to_owned(),
            ConfigError::AgentCardSkillsNotArray => "agentCardSkillsJson must be a JSON array".to_owned(),
            ConfigError::AgentCardSecuritySchemesNotObject => "agentCardSecuritySchemesJson must be a JSON object".to_owned(),
            ConfigError::AgentCardOverrideNotObject => "agentCardOverrideJson must be a JSON object".to_owned(),
            ConfigError::AgentCardJsonNotObject => "agentCardJson must be a JSON object".to_owned(),
            ConfigError::AgentCardProviderHalfSet => "agentCardProviderOrganization and agentCardProviderUrl must be set together (A2A 0.3.0 \u{a7}5.5 requires AgentProvider.organization and AgentProvider.url) \u{2014} leave both blank to omit the provider block".to_owned(),
            ConfigError::InvalidJson { field, error } => concat4(
                "invalid JSON in ",
                field,
                ": ",
                error.as_str(),
            ),
        }
    }
}

/// The version of the protocol that the gateway speaks.
#[derive(Debug, Clone, Copy, PartialEq, Eq, Structural)]
pub enum ProtocolVersion {
    V0_3_0,
}

impl ProtocolVersion {
    /// The version of that name.
    pub fn parse(s: &str) -> (r: Result<ProtocolVersion, ConfigError>)
        ensures
            match r {
                Ok(_) => s@ == "0.3.0"@,
                Err(e) => s@ != "0.3.0"@ && e@ == ConfigErrorView::UnsupportedProtocolVersion(s@),
            },
    {
        if text_eq(s, "0.3.0") {
            Ok(ProtocolVersion::V0_3_0)
        } else {
            Err(ConfigError::UnsupportedProtocolVersion(s.to_owned()))
        }
    }

    /// The name of the version.
    pub fn as_str(&self) -> (r: &'static str)
        ensures
            r@ == "0.3.0"@,
    {
        "0.3.0"
    }
}

/// Where the agent card comes from.
#[derive(Debug, Clone, Copy, PartialEq, Eq, Structural)]
pub enum AgentCardSource {
    InlineJson,
    Url,
    Structured,
    File,
}

/// The source of that name.
pub open spec fn source_named(s: Seq<char>) -> Option<AgentCardSource> {
    if s == "inline_json"@ {
        Some(AgentCardSource::InlineJson)
    } else if s == "url"@ {
        Some(AgentCardSource::Url)
    } else if s == "structured"@ {
        Some(AgentCardSource::Structured)
    } else if s == "file"@ {
        Some(AgentCardSource::File)
    } else {
        None
    }
}

impl AgentCardSource {
    /// The source of that name.
    pub fn parse(s: &str) -> (r: Result<AgentCardSource, ConfigError>)
        ensures
            match r {
                Ok(v) => source_named(s@) == Some(v),
                Err(e) => source_named(s@) is None && e@
                    == ConfigErrorView::UnsupportedAgentCardSource(s@),
            },
    {
        if text_eq(s, "inline_json") {
            Ok(AgentCardSource::InlineJson)
        } else if text_eq(s, "url") {
            Ok(AgentCardSource::Url)
        } else if text_eq(s, "structured") {
            Ok(AgentCardSource::Structured)
        } else if text_eq(s, "file") {
            Ok(AgentCardSource::File)
        } else {
            Err(ConfigError::UnsupportedAgentCardSource(s.to_owned()))
        }
    }
}

/// A skill of the agent, as the form has it.
#[derive(Debug, PartialEq, Eq)]
pub struct SkillInput {
    pub id: String,
    pub name: String,
    pub description: String,
    pub tags: Vec<String>,
}

/// The value of a [`SkillInput`].
pub struct SkillInputView {
    pub id: Seq<char>,
    pub name: Seq<char>,
    pub description: Seq<char>,
    pub tags: Seq<Seq<char>>,
}

impl View for SkillInput {
    type V = SkillInputView;

    open spec fn view(&self) -> SkillInputView {
        SkillInputView {
            id: self.id@,
            name: self.name@,
            description: self.description@,
            tags: texts(self.tags@),
        }
    }
}

impl SkillInput {
    /// Another one of the same value.
    pub fn copy(&self) -> (r: SkillInput)
        ensures
            r@ == self@,
    {
        SkillInput {
            id: self.id.clone(),
            name: self.name.clone(),
            description: self.description.clone(),
            tags: copy_texts(&self.tags),
        }
    }
}

impl Clone for SkillInput {
    fn clone(&self) -> (r: Self)
        ensures
            r@ == self@,
    {
        self.copy()
    }
}

/// The values of skills.
pub open spec fn skills_view(v: Seq<SkillInput>) -> Seq<SkillInputView> {
    Seq::new(v.len(), |i: int| v[i]@)
}

/// Other skills of the same values.
pub fn copy_skills(v: &Vec<SkillInput>) -> (r: Vec<SkillInput>)
    ensures
        skills_view(r@) == skills_view(v@),
{
    let mut out: Vec<SkillInput> = Vec::new();
    let n: usize = v.len();
    for i in 0..n
        invariant
            n == v@.len(),
            out@.len() == i,
            forall|k: int| 0 <= k < i ==> out@[k]@ == (#[trigger] v@[k])@,
    {
        out.push(v[i].copy());
    }
    assert(skills_view(out@) =~= skills_view(v@));
    out
}

/// The array of those texts.
pub open spec fn texts_json(v: Seq<Seq<char>>) -> JsonView {
    JsonView::Array(v.map_values(|s: Seq<char>| JsonView::Text(s)))
}

/// The array of those texts.
pub fn texts_to_json(v: &Vec<String>) -> (r: Json)
    ensures
        r@ == texts_json(texts(v@)),
{
    let mut out: Vec<Json> = Vec::new();
    let n: usize = v.len();
    for i in 0..n
        invariant
            n == v@.len(),
            out@.len() == i,
            forall|k: int| 0 <= k < i ==> out@[k]@ == JsonView::Text((#[trigger] v@[k])@),
    {
        out.push(text_json(v[i].as_str()));
    }
    assert(items_view(out@) =~= texts_json(texts(v@))->Array_0);
    array_json(out)
}

/// The document of a skill.
pub open spec fn skill_json(s: SkillInputView) -> JsonView {
    JsonView::Object(
        seq![
            ("id"@, JsonView::Text(s.id)),
            ("name"@, JsonView::Text(s.name)),
            ("description"@, JsonView::Text(s.description)),
            ("tags"@, texts_json(s.tags)),
        ],
    )
}

/// The array of skills.
pub open spec fn skills_json(v: Seq<SkillInputView>) -> JsonView {
    JsonView::Array(v.map_values(|s: SkillInputView| skill_json(s)))
}

fn skills_to_json(v: &Vec<SkillInput>) -> (r: Json)
    ensures
        r@ == skills_json(skills_view(v@)),
{
    let mut out: Vec<Json> = Vec::new();
    let n: usize = v.len();
    for i in 0..n
        invariant
            n == v@.len(),
            out@.len() == i,
            forall|k: int| 0 <= k < i ==> out@[k]@ == skill_json((#[trigger] v@[k])@),
    {
        let mut m: Members = Members::new();
        m.put_text("id", v[i].id.as_str());
        m.put_text("name", v[i].name.as_str());
        m.put_text("description", v[i].description.as_str());
        m.put("tags", texts_to_json(&v[i].tags));
        assert(m@ =~= skill_json(v@[i as int]@)->Object_0);
        out.push(m.object());
    }
    assert(items_view(out@) =~= skills_json(skills_view(v@))->Array_0);
    array_json(out)
}

/// The agent card as the form has it. What is left empty is left out of the card.
#[derive(Debug, PartialEq, Eq)]
pub struct StructuredCardConfig {
    pub name: Option<String>,
    pub description: Option<String>,
    pub version: Option<String>,
    pub icon_url: Option<String>,
    pub documentation_url: Option<String>,
    pub provider_organization: Option<String>,
    pub provider_url: Option<String>,
    pub capabilities_streaming: bool,
    pub capabilities_push_notifications: bool,
    pub default_input_modes: Vec<String>,
    pub default_output_modes: Vec<String>,
    pub skills: Json,
    pub security_schemes: Option<Json>,
}

/// The value of a [`StructuredCardConfig`].
pub struct StructuredCardConfigView {
    pub name: Option<Seq<char>>,
    pub description: Option<Seq<char>>,
    pub version: Option<Seq<char>>,
    pub icon_url: Option<Seq<char>>,
    pub documentation_url: Option<Seq<char>>,
    pub provider_organization: Option<Seq<char>>,
    pub provider_url: Option<Seq<char>>,
    pub capabilities_streaming: bool,
    pub capabilities_push_notifications: bool,
    pub default_input_modes: Seq<Seq<char>>,
    pub default_output_modes: Seq<Seq<char>>,
    pub skills: JsonView,
    pub security_schemes: Option<JsonView>,
}

impl View for StructuredCardConfig {
    type V = StructuredCardConfigView;

    open spec fn view(&self) -> StructuredCardConfigView {
        StructuredCardConfigView {
            name: option_text(self.name),
            description: option_text(self.description),
            version: option_text(self.version),
            icon_url: option_text(self.icon_url),
            documentation_url: option_text(self.documentation_url),
            provider_organization: option_text(self.provider_organization),
            provider_url: option_text(self.provider_url),
            capabilities_streaming: self.capabilities_streaming,
            capabilities_push_notifications: self.capabilities_push_notifications,
            default_input_modes: texts(self.default_input_modes@),
            default_output_modes: texts(self.default_output_modes@),
            skills: self.skills@,
            security_schemes: option_json(self.security_schemes),
        }
    }
}

impl StructuredCardConfig {
    /// Another one of the same value.
    pub fn copy(&self) -> (r: StructuredCardConfig)
        ensures
            r@ == self@,
    {
        StructuredCardConfig {
            name: copy_option(&self.name),
            description: copy_option(&self.description),
            version: copy_option(&self.version),
            icon_url: copy_option(&self.icon_url),
            documentation_url: copy_option(&self.documentation_url),
            provider_organization: copy_option(&self.provider_organization),
            provider_url: copy_option(&self.provider_url),
            capabilities_streaming: self.capabilities_streaming,
            capabilities_push_notifications: self.capabilities_push_notifications,
            default_input_modes: copy_texts(&self.default_input_modes),
            default_output_modes: copy_texts(&self.default_output_modes),
            skills: self.skills.copy(),
            security_schemes: copy_option_json(&self.security_schemes),
        }
    }
}

impl Clone for StructuredCardConfig {
    fn clone(&self) -> (r: Self)
        ensures
            r@ == self@,
    {
        self.copy()
    }
}

/// The configuration, checked and complete.
#[derive(Debug, PartialEq, Eq)]
pub struct PolicyConfig {
    pub consumer_key: String,
    pub consumer_secret: String,
    pub agentforce_access_token_override: Option<String>,
    pub agent_id: String,
    pub bypass_user: bool,
    pub cache_safety_margin_seconds: u32,
    pub protocol_version: ProtocolVersion,
    pub a2a_rpc_path: String,
    pub public_base_url: String,
    pub strict_mode: bool,
    pub diagnostic_pre_body_probe: bool,
    pub diagnostic_pre_body_agentforce_probe: bool,
    pub diagnostic_continue_flow: bool,
    pub anypoint_client_id: String,
    pub anypoint_client_secret: String,
    pub anypoint_org_id: String,
    pub anypoint_env_id: String,
    pub object_store_id: String,
    pub auto_create_store: bool,
    pub disable_object_store: bool,
    pub object_store_ttl_seconds: u32,
    pub task_hot_cache_ttl_seconds: u32,
    pub task_store_timeout_ms: u64,
    pub agent_card_source: AgentCardSource,
    pub agent_card_json: Option<String>,
    pub structured_card: StructuredCardConfig,
    pub agent_card_override: Option<Json>,
}

/// The value of a [`PolicyConfig`].
pub struct PolicyConfigView {
    pub consumer_key: Seq<char>,
    pub consumer_secret: Seq<char>,
    pub agentforce_access_token_override: Option<Seq<char>>,
    pub agent_id: Seq<char>,
    pub bypass_user: bool,
    pub cache_safety_margin_seconds: u32,
    pub protocol_version: ProtocolVersion,
    pub a2a_rpc_path: Seq<char>,
    pub public_base_url: Seq<char>,
    pub strict_mode: bool,
    pub diagnostic_pre_body_probe: bool,
    pub diagnostic_pre_body_agentforce_probe: bool,
    pub diagnostic_continue_flow: bool,
    pub anypoint_client_id: Seq<char>,
    pub anypoint_client_secret: Seq<char>,
    pub anypoint_org_id: Seq<char>,
    pub anypoint_env_id: Seq<char>,
    pub object_store_id: Seq<char>,
    pub auto_create_store: bool,
    pub disable_object_store: bool,
    pub object_store_ttl_seconds: u32,
    pub task_hot_cache_ttl_seconds: u32,
    pub task_store_timeout_ms: u64,
    pub agent_card_source: AgentCardSource,
    pub agent_card_json: Option<Seq<char>>,
    pub structured_card: StructuredCardConfigView,
    pub agent_card_override: Option<JsonView>,
}

impl View for PolicyConfig {
    type V = PolicyConfigView;

    open spec fn view(&self) -> PolicyConfigView {
        PolicyConfigView {
            consumer_key: self.consumer_key@,
            consumer_secret: self.consumer_secret@,
            agentforce_access_token_override: option_text(self.agentforce_access_token_override),
            agent_id: self.agent_id@,
            bypass_user: self.bypass_user,
            cache_safety_margin_seconds: self.cache_safety_margin_seconds,
            protocol_version: self.protocol_version,
            a2a_rpc_path: self.a2a_rpc_path@,
            public_base_url: self.public_base_url@,
            strict_mode: self.strict_mode,
            diagnostic_pre_body_probe: self.diagnostic_pre_body_probe,
            diagnostic_pre_body_agentforce_probe: self.diagnostic_pre_body_agentforce_probe,
            diagnostic_continue_flow: self.diagnostic_continue_flow,
            anypoint_client_id: self.anypoint_client_id@,
            anypoint_client_secret: self.anypoint_client_secret@,
            anypoint_org_id: self.anypoint_org_id@,
            anypoint_env_id: self.anypoint_env_id@,
            object_store_id: self.object_store_id@,
            auto_create_store: self.auto_create_store,
            disable_object_store: self.disable_object_store,
            object_store_ttl_seconds: self.object_store_ttl_seconds,
            task_hot_cache_ttl_seconds: self.task_hot_cache_ttl_seconds,
            task_store_timeout_ms: self.task_store_timeout_ms,
            agent_card_source: self.agent_card_source,
            agent_card_json: option_text(self.agent_card_json),
            structured_card: self.structured_card@,
            agent_card_override: option_json(self.agent_card_override),
        }
    }
}

impl PolicyConfig {
    /// Another one of the same value.
    pub fn copy(&self) -> (r: PolicyConfig)
        ensures
            r@ == self@,
    {
        PolicyConfig {
            consumer_key: self.consumer_key.clone(),
            consumer_secret: self.consumer_secret.clone(),
            agentforce_access_token_override: copy_option(&self.agentforce_access_token_override),
            agent_id: self.agent_id.clone(),
            bypass_user: self.bypass_user,
            cache_safety_margin_seconds: self.cache_safety_margin_seconds,
            protocol_version: self.protocol_version,
            a2a_rpc_path: self.a2a_rpc_path.clone(),
            public_base_url: self.public_base_url.clone(),
            strict_mode: self.strict_mode,
            diagnostic_pre_body_probe: self.diagnostic_pre_body_probe,
            diagnostic_pre_body_agentforce_probe: self.diagnostic_pre_body_agentforce_probe,
            diagnostic_continue_flow: self.diagnostic_continue_flow,
            anypoint_client_id: self.anypoint_client_id.clone(),
            anypoint_client_secret: self.anypoint_client_secret.clone(),
            anypoint_org_id: self.anypoint_org_id.clone(),
            anypoint_env_id: self.anypoint_env_id.clone(),
            object_store_id: self.object_store_id.clone(),
            auto_create_store: self.auto_create_store,
            disable_object_store: self.disable_object_store,
            object_store_ttl_seconds: self.object_store_ttl_seconds,
            task_hot_cache_ttl_seconds: self.task_hot_cache_ttl_seconds,
            task_store_timeout_ms: self.task_store_timeout_ms,
            agent_card_source: self.agent_card_source,
            agent_card_json: copy_option(&self.agent_card_json),
            structured_card: self.structured_card.copy(),
            agent_card_override: copy_option_json(&self.agent_card_override),
        }
    }
}

impl Clone for PolicyConfig {
    fn clone(&self) -> (r: Self)
        ensures
            r@ == self@,
    {
        self.copy()
    }
}

/// The configuration as it was given: nothing checked, nothing filled in.
#[derive(Debug, PartialEq, Eq, Default)]
pub struct RawConfig {
    pub consumer_key: Option<String>,
    pub consumer_secret: Option<String>,
    pub agentforce_access_token_override: Option<String>,
    pub agent_id: Option<String>,
    pub bypass_user: Option<bool>,
    pub cache_safety_margin_seconds: Option<i64>,
    pub protocol_version: Option<String>,
    pub a2a_rpc_path: Option<String>,
    pub public_base_url: Option<String>,
    pub strict_mode: Option<bool>,
    pub diagnostic_pre_body_probe: Option<bool>,
    pub diagnostic_pre_body_agentforce_probe: Option<bool>,
    pub diagnostic_continue_flow: Option<bool>,
    pub anypoint_client_id: Option<String>,
    pub anypoint_client_secret: Option<String>,
    pub anypoint_org_id: Option<String>,
    pub anypoint_env_id: Option<String>,
    pub object_store_id: Option<String>,
    pub auto_create_store: Option<bool>,
    pub disable_object_store: Option<bool>,
    pub object_store_ttl_seconds: Option<i64>,
    pub task_hot_cache_ttl_seconds: Option<i64>,
    pub task_store_timeout_ms: Option<i64>,
    pub agent_card_source: Option<String>,
    pub agent_card_json: Option<String>,
    /// Whether a service is registered for the address of the agent card.
    pub agent_card_url_registered: bool,
    pub agent_card_name: Option<String>,
    pub agent_card_description: Option<String>,
    pub agent_card_version: Option<String>,
    pub agent_card_icon_url: Option<String>,
    pub agent_card_documentation_url: Option<String>,
    pub agent_card_provider_organization: Option<String>,
    pub agent_card_provider_url: Option<String>,
    pub agent_card_capabilities_streaming: Option<bool>,
    pub agent_card_capabilities_push_notifications: Option<bool>,
    pub agent_card_default_input_modes: Option<String>,
    pub agent_card_default_output_modes: Option<String>,
    /// The skills as JSON; where it is blank, `agent_card_skills` has them.
    pub agent_card_skills_json: Option<String>,
    pub agent_card_skills: Vec<SkillInput>,
    pub agent_card_security_schemes_json: Option<String>,
    pub agent_card_override_json: Option<String>,
}

/// The value of a [`RawConfig`].
pub struct RawConfigView {
    pub consumer_key: Option<Seq<char>>,
    pub consumer_secret: Option<Seq<char>>,
    pub agentforce_access_token_override: Option<Seq<char>>,
    pub agent_id: Option<Seq<char>>,
    pub bypass_user: Option<bool>,
    pub cache_safety_margin_seconds: Option<i64>,
    pub protocol_version: Option<Seq<char>>,
    pub a2a_rpc_path: Option<Seq<char>>,
    pub public_base_url: Option<Seq<char>>,
    pub strict_mode: Option<bool>,
    pub diagnostic_pre_body_probe: Option<bool>,
    pub diagnostic_pre_body_agentforce_probe: Option<bool>,
    pub diagnostic_continue_flow: Option<bool>,
    pub anypoint_client_id: Option<Seq<char>>,
    pub anypoint_client_secret: Option<Seq<char>>,
    pub anypoint_org_id: Option<Seq<char>>,
    pub anypoint_env_id: Option<Seq<char>>,
    pub object_store_id: Option<Seq<char>>,
    pub auto_create_store: Option<bool>,
    pub disable_object_store: Option<bool>,
    pub object_store_ttl_seconds: Option<i64>,
    pub task_hot_cache_ttl_seconds: Option<i64>,
    pub task_store_timeout_ms: Option<i64>,
    pub agent_card_source: Option<Seq<char>>,
    pub agent_card_json: Option<Seq<char>>,
    pub agent_card_url_registered: bool,
    pub agent_card_name: Option<Seq<char>>,
    pub agent_card_description: Option<Seq<char>>,
    pub agent_card_version: Option<Seq<char>>,
    pub agent_card_icon_url: Option<Seq<char>>,
    pub agent_card_documentation_url: Option<Seq<char>>,
    pub agent_card_provider_organization: Option<Seq<char>>,
    pub agent_card_provider_url: Option<Seq<char>>,
    pub agent_card_capabilities_streaming: Option<bool>,
    pub agent_card_capabilities_push_notifications: Option<bool>,
    pub agent_card_default_input_modes: Option<Seq<char>>,
    pub agent_card_default_output_modes: Option<Seq<char>>,
    pub agent_card_skills_json: Option<Seq<char>>,
    pub agent_card_skills: Seq<SkillInputView>,
    pub agent_card_security_schemes_json: Option<Seq<char>>,
    pub agent_card_override_json: Option<Seq<char>>,
}

impl View for RawConfig {
    type V = RawConfigView;

    open spec fn view(&self) -> RawConfigView {
        RawConfigView {
            consumer_key: option_text(self.consumer_key),
            consumer_secret: option_text(self.consumer_secret),
            agentforce_access_token_override: option_text(self.agentforce_access_token_override),
            agent_id: option_text(self.agent_id),
            bypass_user: self.bypass_user,
            cache_safety_margin_seconds: self.cache_safety_margin_seconds,
            protocol_version: option_text(self.protocol_version),
            a2a_rpc_path: option_text(self.a2a_rpc_path),
            public_base_url: option_text(self.public_base_url),
            strict_mode: self.strict_mode,
            diagnostic_pre_body_probe: self.diagnostic_pre_body_probe,
            diagnostic_pre_body_agentforce_probe: self.diagnostic_pre_body_agentforce_probe,
            diagnostic_continue_flow: self.diagnostic_continue_flow,
            anypoint_client_id: option_text(self.anypoint_client_id),
            anypoint_client_secret: option_text(self.anypoint_client_secret),
            anypoint_org_id: option_text(self.anypoint_org_id),
            anypoint_env_id: option_text(self.anypoint_env_id),
            object_store_id: option_text(self.object_store_id),
            auto_create_store: self.auto_create_store,
            disable_object_store: self.disable_object_store,
            object_store_ttl_seconds: self.object_store_ttl_seconds,
            task_hot_cache_ttl_seconds: self.task_hot_cache_ttl_seconds,
            task_store_timeout_ms: self.task_store_timeout_ms,
            agent_card_source: option_text(self.agent_card_source),
            agent_card_json: option_text(self.agent_card_json),
            agent_card_url_registered: self.agent_card_url_registered,
            agent_card_name: option_text(self.agent_card_name),
            agent_card_description: option_text(self.agent_card_description),
            agent_card_version: option_text(self.agent_card_version),
            agent_card_icon_url: option_text(self.agent_card_icon_url),
            agent_card_documentation_url: option_text(self.agent_card_documentation_url),
            agent_card_provider_organization: option_text(self.agent_card_provider_organization),
            agent_card_provider_url: option_text(self.agent_card_provider_url),
            agent_card_capabilities_streaming: self.agent_card_capabilities_streaming,
            agent_card_capabilities_push_notifications: self.agent_card_capabilities_push_notifications,
            agent_card_default_input_modes: option_text(self.agent_card_default_input_modes),
            agent_card_default_output_modes: option_text(self.agent_card_default_output_modes),
            agent_card_skills_json: option_text(self.agent_card_skills_json),
            agent_card_skills: skills_view(self.agent_card_skills@),
            agent_card_security_schemes_json: option_text(self.agent_card_security_schemes_json),
            agent_card_override_json: option_text(self.agent_card_override_json),
        }
    }
}

impl RawConfig {
    /// Another one of the same value.
    pub fn copy(&self) -> (r: RawConfig)
        ensures
            r@ == self@,
    {
        RawConfig {
            consumer_key: copy_option(&self.consumer_key),
            consumer_secret: copy_option(&self.consumer_secret),
            agentforce_access_token_override: copy_option(&self.agentforce_access_token_override),
            agent_id: copy_option(&self.agent_id),
            bypass_user: self.bypass_user,
            cache_safety_margin_seconds: self.cache_safety_margin_seconds,
            protocol_version: copy_option(&self.protocol_version),
            a2a_rpc_path: copy_option(&self.a2a_rpc_path),
            public_base_url: copy_option(&self.public_base_url),
            strict_mode: self.strict_mode,
            diagnostic_pre_body_probe: self.diagnostic_pre_body_probe,
            diagnostic_pre_body_agentforce_probe: self.diagnostic_pre_body_agentforce_probe,
            diagnostic_continue_flow: self.diagnostic_continue_flow,
            anypoint_client_id: copy_option(&self.anypoint_client_id),
            anypoint_client_secret: copy_option(&self.anypoint_client_secret),
            anypoint_org_id: copy_option(&self.anypoint_org_id),
            anypoint_env_id: copy_option(&self.anypoint_env_id),
            object_store_id: copy_option(&self.object_store_id),
            auto_create_store: self.auto_create_store,
            disable_object_store: self.disable_object_store,
            object_store_ttl_seconds: self.object_store_ttl_seconds,
            task_hot_cache_ttl_seconds: self.task_hot_cache_ttl_seconds,
            task_store_timeout_ms: self.task_store_timeout_ms,
            agent_card_source: copy_option(&self.agent_card_source),
            agent_card_json: copy_option(&self.agent_card_json),
            agent_card_url_registered: self.agent_card_url_registered,
            agent_card_name: copy_option(&self.agent_card_name),
            agent_card_description: copy_option(&self.agent_card_description),
            agent_card_version: copy_option(&self.agent_card_version),
            agent_card_icon_url: copy_option(&self.agent_card_icon_url),
            agent_card_documentation_url: copy_option(&self.agent_card_documentation_url),
            agent_card_provider_organization: copy_option(&self.agent_card_provider_organization),
            agent_card_provider_url: copy_option(&self.agent_card_provider_url),
            agent_card_capabilities_streaming: self.agent_card_capabilities_streaming,
            agent_card_capabilities_push_notifications: self.agent_card_capabilities_push_notifications,
            agent_card_default_input_modes: copy_option(&self.agent_card_default_input_modes),
            agent_card_default_output_modes: copy_option(&self.agent_card_default_output_modes),
            agent_card_skills_json: copy_option(&self.agent_card_skills_json),
            agent_card_skills: copy_skills(&self.agent_card_skills),
            agent_card_security_schemes_json: copy_option(&self.agent_card_security_schemes_json),
            agent_card_override_json: copy_option(&self.agent_card_override_json),
        }
    }
}

impl Clone for RawConfig {
    fn clone(&self) -> (r: Self)
        ensures
            r@ == self@,
    {
        self.copy()
    }
}

/// Whether an optional text is there and not blank.
pub open spec fn filled(v: Option<Seq<char>>) -> bool {
    v matches Some(s) && !blank(s)
}

/// An optional text, where it is not blank.
pub open spec fn kept(v: Option<Seq<char>>) -> Option<Seq<char>> {
    if filled(v) {
        v
    } else {
        None
    }
}

/// An optional text, or else another.
pub open spec fn text_or(v: Option<Seq<char>>, other: Seq<char>) -> Seq<char> {
    match v {
        Some(s) => s,
        None => other,
    }
}

/// An optional truth value, or else another.
pub open spec fn bool_or(v: Option<bool>, other: bool) -> bool {
    match v {
        Some(b) => b,
        None => other,
    }
}

/// An optional number, or else `default`, brought between `min` and `max`.
pub open spec fn clamped(v: Option<i64>, min: int, max: int, default: int) -> int {
    let x = match v {
        Some(n) => n as int,
        None => default,
    };
    if x < min {
        min
    } else if x > max {
        max
    } else {
        x
    }
}

/// A path with white space taken off its ends and a slash in front.
pub open spec fn rooted(s: Seq<char>) -> Seq<char> {
    let t = trimmed(s);
    if t.len() == 0 {
        "/"@
    } else if t[0] == '/' {
        t
    } else {
        "/"@ + t
    }
}

/// The pieces that are not blank, with white space taken off their ends.
pub open spec fn solid_pieces(pieces: Seq<Seq<char>>) -> Seq<Seq<char>>
    decreases pieces.len(),
{
    if pieces.len() == 0 {
        Seq::empty()
    } else {
        let init = solid_pieces(pieces.drop_last());
        if blank(pieces.last()) {
            init
        } else {
            init.push(trimmed(pieces.last()))
        }
    }
}

/// The modes that a comma-separated list names; plain text where it names none.
pub open spec fn modes(s: Option<Seq<char>>) -> Seq<Seq<char>> {
    let pieces = solid_pieces(split_on(text_or(s, "text/plain"@), ','));
    if pieces.len() == 0 {
        seq!["text/plain"@]
    } else {
        pieces
    }
}

/// What reading an object out of a field gives: the object, the refusal of what
/// is not JSON, or `other` for what is not an object.
pub open spec fn object_in(
    field: Seq<char>,
    doc: Result<JsonView, Seq<char>>,
    other: ConfigErrorView,
) -> Result<JsonView, ConfigErrorView> {
    match doc {
        Err(error) => Err(ConfigErrorView::InvalidJson { field, error }),
        Ok(v) => if v is Object {
            Ok(v)
        } else {
            Err(other)
        },
    }
}

/// The same for a field that may be blank.
pub open spec fn optional_object(
    field: Seq<char>,
    s: Option<Seq<char>>,
    other: ConfigErrorView,
) -> Result<Option<JsonView>, ConfigErrorView> {
    if filled(s) {
        match object_in(field, json_of_text(trimmed(s->0)), other) {
            Ok(v) => Ok(Some(v)),
            Err(e) => Err(e),
        }
    } else {
        Ok(None)
    }
}

/// What reading skills gives, once their text has been read as JSON.
pub open spec fn skills_in(doc: Result<JsonView, Seq<char>>) -> Result<JsonView, ConfigErrorView> {
    match doc {
        Err(error) => Err(ConfigErrorView::InvalidJson { field: "agentCardSkillsJson"@, error }),
        Ok(v) => if v is Array {
            Ok(v)
        } else {
            Err(ConfigErrorView::AgentCardSkillsNotArray)
        },
    }
}

/// The skills of the card: those of the JSON text, or else those of the form.
pub open spec fn skills_of(raw: RawConfigView) -> Result<JsonView, ConfigErrorView> {
    if filled(raw.agent_card_skills_json) {
        skills_in(json_of_text(trimmed(raw.agent_card_skills_json->0)))
    } else {
        Ok(skills_json(raw.agent_card_skills))
    }
}

/// The security schemes of the card.
pub open spec fn schemes_of(raw: RawConfigView) -> Result<Option<JsonView>, ConfigErrorView> {
    optional_object(
        "agentCardSecuritySchemesJson"@,
        raw.agent_card_security_schemes_json,
        ConfigErrorView::AgentCardSecuritySchemesNotObject,
    )
}

/// What is merged on top of the card.
pub open spec fn override_of(raw: RawConfigView) -> Result<Option<JsonView>, ConfigErrorView> {
    optional_object(
        "agentCardOverrideJson"@,
        raw.agent_card_override_json,
        ConfigErrorView::AgentCardOverrideNotObject,
    )
}

/// The refusal of a missing text.
pub open spec fn required(v: Option<Seq<char>>, e: ConfigErrorView) -> Option<ConfigErrorView> {
    if filled(v) {
        None
    } else {
        Some(e)
    }
}

/// The first of two refusals.
pub open spec fn first(a: Option<ConfigErrorView>, b: Option<ConfigErrorView>) -> Option<
    ConfigErrorView,
> {
    if a is Some {
        a
    } else {
        b
    }
}

/// The refusal of a reading that failed.
pub open spec fn refusal<T>(r: Result<T, ConfigErrorView>) -> Option<ConfigErrorView> {
    match r {
        Ok(_) => None,
        Err(e) => Some(e),
    }
}

/// The refusal of a protocol version other than 0.3.0.
pub open spec fn version_refusal(raw: RawConfigView) -> Option<ConfigErrorView> {
    let s = text_or(raw.protocol_version, "0.3.0"@);
    if s == "0.3.0"@ {
        None
    } else {
        Some(ConfigErrorView::UnsupportedProtocolVersion(s))
    }
}

/// The source of the card.
pub open spec fn source_of(raw: RawConfigView) -> Option<AgentCardSource> {
    source_named(text_or(raw.agent_card_source, "structured"@))
}

/// The refusal of an unknown source.
pub open spec fn source_refusal(raw: RawConfigView) -> Option<ConfigErrorView> {
    if source_of(raw) is Some {
        None
    } else {
        Some(
            ConfigErrorView::UnsupportedAgentCardSource(
                text_or(raw.agent_card_source, "structured"@),
            ),
        )
    }
}

/// The refusal of a card that its source does not give.
pub open spec fn card_refusal(raw: RawConfigView) -> Option<ConfigErrorView> {
    match source_of(raw) {
        Some(AgentCardSource::InlineJson) | Some(AgentCardSource::File) => if filled(
            raw.agent_card_json,
        ) {
            refusal(
                object_in(
                    "agentCardJson"@,
                    json_of_text(raw.agent_card_json->0),
                    ConfigErrorView::AgentCardJsonNotObject,
                ),
            )
        } else {
            Some(ConfigErrorView::AgentCardJsonEmpty)
        },
        Some(AgentCardSource::Url) => if raw.agent_card_url_registered {
            None
        } else {
            Some(ConfigErrorView::AgentCardUrlNotRegistered)
        },
        _ => None,
    }
}

/// The refusal of a provider of which only one half is given.
pub open spec fn provider_refusal(raw: RawConfigView) -> Option<ConfigErrorView> {
    if filled(raw.agent_card_provider_organization) == filled(raw.agent_card_provider_url) {
        None
    } else {
        Some(ConfigErrorView::AgentCardProviderHalfSet)
    }
}

/// The first refusal of the card's form fields.
pub open spec fn structured_refusal(raw: RawConfigView) -> Option<ConfigErrorView> {
    first(refusal(skills_of(raw)), first(refusal(schemes_of(raw)), provider_refusal(raw)))
}

/// Whether the card's text is there, where the source of the card is text.
pub open spec fn card_text_given(c: PolicyConfigView) -> bool {
    (c.agent_card_source is InlineJson || c.agent_card_source is File) ==> c.agent_card_json is Some
}

/// Why a configuration is refused; the first reason where there are several.
pub open spec fn config_refusal(raw: RawConfigView) -> Option<ConfigErrorView> {
    first(
        required(raw.consumer_key, ConfigErrorView::MissingConsumerKey),
        first(
            required(raw.consumer_secret, ConfigErrorView::MissingConsumerSecret),
            first(
                required(raw.agent_id, ConfigErrorView::MissingAgentId),
                first(
                    required(raw.public_base_url, ConfigErrorView::MissingPublicBaseUrl),
                    first(
                        required(raw.anypoint_org_id, ConfigErrorView::MissingAnypointOrgId),
                        first(
                            required(raw.anypoint_env_id, ConfigErrorView::MissingAnypointEnvId),
                            first(
                                required(
                                    raw.object_store_id,
                                    ConfigErrorView::MissingObjectStoreId,
                                ),
                                first(
                                    version_refusal(raw),
                                    first(
                                        source_refusal(raw),
                                        first(
                                            card_refusal(raw),
                                            first(
                                                structured_refusal(raw),
                                                refusal(override_of(raw)),
                                            ),
                                        ),
                                    ),
                                ),
                            ),
                        ),
                    ),
                ),
            ),
        ),
    )
}

/// The card's form fields, where nothing is refused.
pub open spec fn structured_of(raw: RawConfigView) -> StructuredCardConfigView {
    StructuredCardConfigView {
        name: kept(raw.agent_card_name),
        description: kept(raw.agent_card_description),
        version: kept(raw.agent_card_version),
        icon_url: kept(raw.agent_card_icon_url),
        documentation_url: kept(raw.agent_card_documentation_url),
        provider_organization: kept(raw.agent_card_provider_organization),
        provider_url: kept(raw.agent_card_provider_url),
        capabilities_streaming: bool_or(raw.agent_card_capabilities_streaming, false),
        capabilities_push_notifications: bool_or(
            raw.agent_card_capabilities_push_notifications,
            false,
        ),
        default_input_modes: modes(raw.agent_card_default_input_modes),
        default_output_modes: modes(raw.agent_card_default_output_modes),
        skills: skills_of(raw)->Ok_0,
        security_schemes: schemes_of(raw)->Ok_0,
    }
}

/// The JSON text of the card, which only two sources have.
pub open spec fn card_json_of(raw: RawConfigView) -> Option<Seq<char>> {
    match source_of(raw) {
        Some(AgentCardSource::InlineJson) | Some(AgentCardSource::File) => raw.agent_card_json,
        _ => None,
    }
}

/// The configuration, where nothing is refused.
pub open spec fn settings(raw: RawConfigView) -> PolicyConfigView {
    PolicyConfigView {
        consumer_key: raw.consumer_key->0,
        consumer_secret: raw.consumer_secret->0,
        agentforce_access_token_override: kept(raw.agentforce_access_token_override),
        agent_id: raw.agent_id->0,
        bypass_user: bool_or(raw.bypass_user, true),
        cache_safety_margin_seconds: clamped(
            raw.cache_safety_margin_seconds,
            0,
            600,
            60,
        ) as u32,
        protocol_version: ProtocolVersion::V0_3_0,
        a2a_rpc_path: rooted(text_or(raw.a2a_rpc_path, "/"@)),
        public_base_url: raw.public_base_url->0,
        strict_mode: bool_or(raw.strict_mode, false),
        diagnostic_pre_body_probe: bool_or(raw.diagnostic_pre_body_probe, false),
        diagnostic_pre_body_agentforce_probe: bool_or(
            raw.diagnostic_pre_body_agentforce_probe,
            false,
        ),
        diagnostic_continue_flow: bool_or(raw.diagnostic_continue_flow, false),
        anypoint_client_id: text_or(raw.anypoint_client_id, Seq::empty()),
        anypoint_client_secret: text_or(raw.anypoint_client_secret, Seq::empty()),
        anypoint_org_id: raw.anypoint_org_id->0,
        anypoint_env_id: raw.anypoint_env_id->0,
        object_store_id: raw.object_store_id->0,
        auto_create_store: bool_or(raw.auto_create_store, true),
        disable_object_store: bool_or(raw.disable_object_store, false),
        object_store_ttl_seconds: clamped(
            raw.object_store_ttl_seconds,
            60,
            2_592_000,
            86_400,
        ) as u32,
        task_hot_cache_ttl_seconds: clamped(
            raw.task_hot_cache_ttl_seconds,
            0,
            3600,
            60,
        ) as u32,
        task_store_timeout_ms: clamped(raw.task_store_timeout_ms, 100, 30_000, 1_500) as u64,
        agent_card_source: source_of(raw)->0,
        agent_card_json: card_json_of(raw),
        structured_card: structured_of(raw),
        agent_card_override: override_of(raw)->Ok_0,
    }
}

/// A text that must not be missing or blank.
pub fn nonempty(value: Option<String>, err: ConfigError) -> (r: Result<String, ConfigError>)
    ensures
        match r {
            Ok(s) => filled(option_text(value)) && Some(s@) == option_text(value),
            Err(e) => !filled(option_text(value)) && e@ == err@,
        },
{
    match value {
        Some(s) => if is_blank(s.as_str()) {
            Err(err)
        } else {
            Ok(s)
        },
        None => Err(err),
    }
}

/// A text, where it is not blank.
pub fn nonempty_opt(value: Option<String>) -> (r: Option<String>)
    ensures
        option_text(r) == kept(option_text(value)),
{
    match value {
        Some(s) => if is_blank(s.as_str()) {
            None
        } else {
            Some(s)
        },
        None => None,
    }
}

fn text_or_else(v: Option<String>, other: &str) -> (r: String)
    ensures
        r@ == text_or(option_text(v), other@),
{
    match v {
        Some(s) => s,
        None => other.to_owned(),
    }
}

fn bool_or_else(v: Option<bool>, other: bool) -> (r: bool)
    ensures
        r == bool_or(v, other),
{
    match v {
        Some(b) => b,
        None => other,
    }
}

/// A number brought between two bounds.
pub fn clamp_u32(v: Option<i64>, min: i64, max: i64, default: i64) -> (r: u32)
    requires
        min <= max,
    ensures
        r == clamped(v, min as int, max as int, default as int) as u32,
        0 <= min && max <= u32::MAX ==> min <= r <= max,
{
    let x: i64 = match v {
        Some(n) => n,
        None => default,
    };
    let y: i64 = if x < min {
        min
    } else if x > max {
        max
    } else {
        x
    };
    y as u32
}

/// A path with white space taken off its ends and a slash in front.
pub fn normalize_path(s: &str) -> (r: String)
    ensures
        r@ == rooted(s@),
{
    let t: &str = trim(s);
    if t.is_empty() {
        "/".to_owned()
    } else if starts_with_char(t, '/') {
        t.to_owned()
    } else {
        concat2("/", t)
    }
}

/// The modes that a comma-separated list names.
pub fn split_csv(s: Option<String>) -> (r: Vec<String>)
    ensures
        texts(r@) == modes(option_text(s)),
{
    let list: String = text_or_else(s, "text/plain");
    let pieces: Vec<String> = split(list.as_str(), ',');
    let ghost all = texts(pieces@);
    let mut out: Vec<String> = Vec::new();
    let n: usize = pieces.len();
    assert(texts(out@) =~= solid_pieces(all.take(0)));
    for i in 0..n
        invariant
            n == pieces@.len(),
            all == texts(pieces@),
            texts(out@) == solid_pieces(all.take(i as int)),
    {
        let ghost before = texts(out@);
        assert(all.take(i + 1).drop_last() =~= all.take(i as int));
        assert(all.take(i + 1).last() == pieces@[i as int]@);
        if !is_blank(pieces[i].as_str()) {
            out.push(trim(pieces[i].as_str()).to_owned());
            assert(texts(out@) =~= before.push(trimmed(pieces@[i as int]@)));
        }
    }
    assert(all.take(n as int) =~= all);
    if out.len() == 0 {
        assert(texts(out@).len() == 0);
        let one: Vec<String> = vec!["text/plain".to_owned()];
        assert(texts(one@) =~= seq!["text/plain"@]);
        one
    } else {
        assert(texts(out@).len() > 0);
        out
    }
}

/// The value of an object that was read.
pub open spec fn object_result(r: Result<Json, ConfigError>) -> Result<JsonView, ConfigErrorView> {
    match r {
        Ok(j) => Ok(j@),
        Err(e) => Err(e@),
    }
}

/// The value of an optional object that was read.
pub open spec fn optional_result(r: Result<Option<Json>, ConfigError>) -> Result<
    Option<JsonView>,
    ConfigErrorView,
> {
    match r {
        Ok(j) => Ok(option_json(j)),
        Err(e) => Err(e@),
    }
}

/// Takes the object that a field holds, once its text has been read as JSON.
pub fn object_of(field: &'static str, doc: Result<Json, String>, not_object: ConfigError) -> (r:
    Result<Json, ConfigError>)
    ensures
        object_result(r) == object_in(field@, reading_view(doc), not_object@),
{
    match doc {
        Err(error) => Err(ConfigError::InvalidJson { field, error }),
        Ok(v) => if v.is_object() {
            Ok(v)
        } else {
            Err(not_object)
        },
    }
}

/// Reads the object of a field that may be blank.
pub fn parse_optional_object(
    s: &Option<String>,
    field: &'static str,
    not_object: ConfigError,
) -> (r: Result<Option<Json>, ConfigError>)
    ensures
        optional_result(r) == optional_object(field@, option_text(*s), not_object@),
{
    match s {
        Some(text) => if is_blank(text.as_str()) {
            Ok(None)
        } else {
            match object_of(field, parse_json_text(trim(text.as_str())), not_object) {
                Ok(v) => Ok(Some(v)),
                Err(e) => Err(e),
            }
        },
        None => Ok(None),
    }
}

/// Takes the skills, once their text has been read as JSON.
pub fn skills_array(doc: Result<Json, String>) -> (r: Result<Json, ConfigError>)
    ensures
        object_result(r) == skills_in(reading_view(doc)),
{
    match doc {
        Err(error) => Err(ConfigError::InvalidJson { field: "agentCardSkillsJson", error }),
        Ok(v) => if v.is_array() {
            Ok(v)
        } else {
            Err(ConfigError::AgentCardSkillsNotArray)
        },
    }
}

fn parse_skills(raw: &RawConfig) -> (r: Result<Json, ConfigError>)
    ensures
        object_result(r) == skills_of(raw@),
{
    match &raw.agent_card_skills_json {
        Some(text) => if is_blank(text.as_str()) {
            Ok(skills_to_json(&raw.agent_card_skills))
        } else {
            skills_array(parse_json_text(trim(text.as_str())))
        },
        None => Ok(skills_to_json(&raw.agent_card_skills)),
    }
}

/// Reads the card's form fields.
pub fn parse_structured(raw: &RawConfig) -> (r: Result<StructuredCardConfig, ConfigError>)
    ensures
        match r {
            Ok(s) => structured_refusal(raw@) is None && s@ == structured_of(raw@),
            Err(e) => structured_refusal(raw@) == Some(e@),
        },
{
    let skills: Json = match parse_skills(raw) {
        Ok(j) => j,
        Err(e) => {
            return Err(e);
        },
    };
    let security_schemes: Option<Json> = match parse_optional_object(
        &raw.agent_card_security_schemes_json,
        "agentCardSecuritySchemesJson",
        ConfigError::AgentCardSecuritySchemesNotObject,
    ) {
        Ok(j) => j,
        Err(e) => {
            return Err(e);
        },
    };
    let provider_organization: Option<String> = nonempty_opt(
        copy_option(&raw.agent_card_provider_organization),
    );
    let provider_url: Option<String> = nonempty_opt(copy_option(&raw.agent_card_provider_url));
    if provider_organization.is_some() != provider_url.is_some() {
        return Err(ConfigError::AgentCardProviderHalfSet);
    }
    Ok(
        StructuredCardConfig {
            name: nonempty_opt(copy_option(&raw.agent_card_name)),
            description: nonempty_opt(copy_option(&raw.agent_card_description)),
            version: nonempty_opt(copy_option(&raw.agent_card_version)),
            icon_url: nonempty_opt(copy_option(&raw.agent_card_icon_url)),
            documentation_url: nonempty_opt(copy_option(&raw.agent_card_documentation_url)),
            provider_organization,
            provider_url,
            capabilities_streaming: bool_or_else(raw.agent_card_capabilities_streaming, false),
            capabilities_push_notifications: bool_or_else(
                raw.agent_card_capabilities_push_notifications,
                false,
            ),
            default_input_modes: split_csv(copy_option(&raw.agent_card_default_input_modes)),
            default_output_modes: split_csv(copy_option(&raw.agent_card_default_output_modes)),
            skills,
            security_schemes,
        },
    )
}

/// Checks what the source of the card asks for, and takes the card's text where
/// the source is text.
fn parse_card_json(raw: &RawConfig, source: AgentCardSource) -> (r: Result<
    Option<String>,
    ConfigError,
>)
    requires
        source_of(raw@) == Some(source),
    ensures
        match r {
            Ok(s) => card_refusal(raw@) is None && option_text(s) == card_json_of(raw@),
            Err(e) => card_refusal(raw@) == Some(e@),
        },
{
    match source {
        AgentCardSource::InlineJson | AgentCardSource::File => {
            let text: String = match nonempty(
                copy_option(&raw.agent_card_json),
                ConfigError::AgentCardJsonEmpty,
            ) {
                Ok(s) => s,
                Err(e) => {
                    return Err(e);
                },
            };
            match object_of(
                "agentCardJson",
                parse_json_text(text.as_str()),
                ConfigError::AgentCardJsonNotObject,
            ) {
                Ok(_) => Ok(Some(text)),
                Err(e) => Err(e),
            }
        },
        AgentCardSource::Url => if raw.agent_card_url_registered {
            Ok(None)
        } else {
            Err(ConfigError::AgentCardUrlNotRegistered)
        },
        AgentCardSource::Structured => Ok(None),
    }
}

impl PolicyConfig {
    /// Checks a configuration and fills in what it leaves out.
    pub fn from_raw(raw: RawConfig) -> (r: Result<PolicyConfig, ConfigError>)
        ensures
            match r {
                Ok(c) => {
                    &&& config_refusal(raw@) is None
                    &&& c@ == settings(raw@)
                    &&& card_text_given(c@)
                },
                Err(e) => config_refusal(raw@) == Some(e@),
            },
    {
        let consumer_key: String = match nonempty(
            copy_option(&raw.consumer_key),
            ConfigError::MissingConsumerKey,
        ) {
            Ok(s) => s,
            Err(e) => {
                return Err(e);
            },
        };
        let consumer_secret: String = match nonempty(
            copy_option(&raw.consumer_secret),
            ConfigError::MissingConsumerSecret,
        ) {
            Ok(s) => s,
            Err(e) => {
                return Err(e);
            },
        };
        let agent_id: String = match nonempty(
            copy_option(&raw.agent_id),
            ConfigError::MissingAgentId,
        ) {
            Ok(s) => s,
            Err(e) => {
                return Err(e);
            },
        };
        let public_base_url: String = match nonempty(
            copy_option(&raw.public_base_url),
            ConfigError::MissingPublicBaseUrl,
        ) {
            Ok(s) => s,
            Err(e) => {
                return Err(e);
            },
        };
        let anypoint_org_id: String = match nonempty(
            copy_option(&raw.anypoint_org_id),
            ConfigError::MissingAnypointOrgId,
        ) {
            Ok(s) => s,
            Err(e) => {
                return Err(e);
            },
        };
        let anypoint_env_id: String = match nonempty(
            copy_option(&raw.anypoint_env_id),
            ConfigError::MissingAnypointEnvId,
        ) {
            Ok(s) => s,
            Err(e) => {
                return Err(e);
            },
        };
        let object_store_id: String = match nonempty(
            copy_option(&raw.object_store_id),
            ConfigError::MissingObjectStoreId,
        ) {
            Ok(s) => s,
            Err(e) => {
                return Err(e);
            },
        };
        let version: String = text_or_else(copy_option(&raw.protocol_version), "0.3.0");
        let protocol_version: ProtocolVersion = match ProtocolVersion::parse(version.as_str()) {
            Ok(v) => v,
            Err(e) => {
                return Err(e);
            },
        };
        let source: String = text_or_else(copy_option(&raw.agent_card_source), "structured");
        let agent_card_source: AgentCardSource = match AgentCardSource::parse(source.as_str()) {
            Ok(v) => v,
            Err(e) => {
                return Err(e);
            },
        };
        let agent_card_json: Option<String> = match parse_card_json(&raw, agent_card_source) {
            Ok(s) => s,
            Err(e) => {
                return Err(e);
            },
        };
        let structured_card: StructuredCardConfig = match parse_structured(&raw) {
            Ok(s) => s,
            Err(e) => {
                return Err(e);
            },
        };
        let agent_card_override: Option<Json> = match parse_optional_object(
            &raw.agent_card_override_json,
            "agentCardOverrideJson",
            ConfigError::AgentCardOverrideNotObject,
        ) {
            Ok(j) => j,
            Err(e) => {
                return Err(e);
            },
        };
        let empty: &str = "";
        proof {
            reveal_strlit("");
            assert(empty@ =~= Seq::empty());
        }
        let timeout: u32 = clamp_u32(raw.task_store_timeout_ms, 100, 30_000, 1_500);
        Ok(
            PolicyConfig {
                consumer_key,
                consumer_secret,
                agentforce_access_token_override: nonempty_opt(
                    copy_option(&raw.agentforce_access_token_override),
                ),
                agent_id,
                bypass_user: bool_or_else(raw.bypass_user, true),
                cache_safety_margin_seconds: clamp_u32(
                    raw.cache_safety_margin_seconds,
                    0,
                    600,
                    60,
                ),
                protocol_version,
                a2a_rpc_path: normalize_path(
                    text_or_else(copy_option(&raw.a2a_rpc_path), "/").as_str(),
                ),
                public_base_url,
                strict_mode: bool_or_else(raw.strict_mode, false),
                diagnostic_pre_body_probe: bool_or_else(raw.diagnostic_pre_body_probe, false),
                diagnostic_pre_body_agentforce_probe: bool_or_else(
                    raw.diagnostic_pre_body_agentforce_probe,
                    false,
                ),
                diagnostic_continue_flow: bool_or_else(raw.diagnostic_continue_flow, false),
                anypoint_client_id: text_or_else(copy_option(&raw.anypoint_client_id), empty),
                anypoint_client_secret: text_or_else(
                    copy_option(&raw.anypoint_client_secret),
                    empty,
                ),
                anypoint_org_id,
                anypoint_env_id,
                object_store_id,
                auto_create_store: bool_or_else(raw.auto_create_store, true),
                disable_object_store: bool_or_else(raw.disable_object_store, false),
                object_store_ttl_seconds: clamp_u32(
                    raw.object_store_ttl_seconds,
                    60,
                    2_592_000,
                    86_400,
                ),
                task_hot_cache_ttl_seconds: clamp_u32(raw.task_hot_cache_ttl_seconds, 0, 3600, 60),
                task_store_timeout_ms: timeout as u64,
                agent_card_source,
                agent_card_json,
                structured_card,
                agent_card_override,
            },
        )
    }
}

/// `base` with `overlay` merged into it: objects member by member, anything
/// else replaced.
pub open spec fn merged(base: JsonView, overlay: JsonView) -> JsonView
    decreases overlay, 0nat,
{
    match (base, overlay) {
        (JsonView::Object(b), JsonView::Object(o)) => JsonView::Object(merged_members(b, o)),
        _ => overlay,
    }
}

/// The members of `base` with those of `overlay` merged into them, in order.
pub open spec fn merged_members(base: MembersView, overlay: MembersView) -> MembersView
    decreases overlay, 1nat,
{
    if overlay.len() == 0 {
        base
    } else {
        let init = merged_members(base, overlay.drop_last());
        let key = overlay.last().0;
        let value = overlay.last().1;
        match member(init, key) {
            Some(old_value) => with_member(init, key, merged(old_value, value)),
            None => with_member(init, key, value),
        }
    }
}

fn merge(base: &Json, overlay: &Json) -> (r: Json)
    ensures
        r@ == merged(base@, overlay@),
    decreases overlay,
{
    match (base, overlay) {
        (Json::Object(b), Json::Object(o)) => {
            let mut out: Vec<(String, Json)> = match base.copy() {
                Json::Object(m) => m,
                _ => Vec::new(),
            };
            let ghost all = members_view(o@);
            let n: usize = o.len();
            proof {
                lemma_object_view(*b);
                lemma_object_view(*o);
                lemma_object_view(out);
                assert(all.take(0) =~= MembersView::empty());
            }
            for i in 0..n
                invariant
                    n == o@.len(),
                    *overlay == Json::Object(*o),
                    all == members_view(o@),
                    members_view(out@) == merged_members(members_view(b@), all.take(i as int)),
            {
                let ghost before = members_view(out@);
                assert(all.take(i + 1).drop_last() =~= all.take(i as int));
                assert(all.take(i + 1).last() == (o@[i as int].0@, o@[i as int].1@));
                assert(decreases_to!(*overlay => overlay->Object_0@[i as int].1));
                let key: &str = o[i].0.as_str();
                let value: Json = match find_member(&out, key) {
                    Some(existing) => merge(existing, &o[i].1),
                    None => o[i].1.copy(),
                };
                set_member(&mut out, key, value);
            }
            proof {
                assert(all.take(n as int) =~= all);
                lemma_object_view(out);
            }
            Json::Object(out)
        },
        _ => overlay.copy(),
    }
}

/// Merges `overlay` into `base`: nested objects member by member, arrays and
/// everything else replaced.
pub fn deep_merge(base: &mut Json, overlay: Json)
    ensures
        final(base)@ == merged(old(base)@, overlay@),
{
    let out: Json = merge(base, &overlay);
    *base = out;
}

/// What a key has after merging: the two values merged where both sides have
/// one, and else the value of the side that has it.
pub proof fn merging_member_by_member(base: MembersView, overlay: MembersView, key: Seq<char>)
    requires
        distinct_keys(overlay),
    ensures
        member(merged_members(base, overlay), key) == (match (
            member(base, key),
            member(overlay, key),
        ) {
            (Some(a), Some(b)) => Some(merged(a, b)),
            (None, Some(b)) => Some(b),
            (a, None) => a,
        }),
    decreases overlay.len(),
{
    if overlay.len() > 0 {
        let rest = overlay.drop_last();
        let last = overlay.last();
        assert(overlay =~= rest.push(last));
        assert forall|i: int, j: int| 0 <= i < j < rest.len() implies (#[trigger] rest[i]).0 != (
        #[trigger] rest[j]).0 by {
            assert(rest[i] == overlay[i] && rest[j] == overlay[j]);
        }
        merging_member_by_member(base, rest, key);
        merging_member_by_member(base, rest, last.0);
        lemma_member_push(rest, last.0, last.1, key);
        assert forall|k: int| 0 <= k < rest.len() implies (#[trigger] rest[k]).0 != last.0 by {
            assert(rest[k] == overlay[k]);
            assert(overlay[overlay.len() - 1] == last);
        }
        lemma_member_absent(rest, last.0);
        let init = merged_members(base, rest);
        let value = match member(init, last.0) {
            Some(v) => merged(v, last.1),
            None => last.1,
        };
        lemma_with_member_lookup(init, last.0, value, key);
    }
}

/// An empty overlay changes nothing.
pub proof fn merging_nothing(base: MembersView)
    ensures
        merged(JsonView::Object(base), JsonView::Object(MembersView::empty())) == JsonView::Object(
            base,
        ),
{
}

/// What is not an object is replaced as a whole.
pub proof fn merging_replaces(base: JsonView, overlay: JsonView)
    requires
        !(base is Object && overlay is Object),
    ensures
        merged(base, overlay) == overlay,
{
}

/// Whether no object in a document, but for those inside arrays, repeats a key.
pub open spec fn keyed(v: JsonView) -> bool
    decreases v,
{
    match v {
        JsonView::Object(o) => distinct_keys(o) && forall|i: int|
            0 <= i < o.len() ==> keyed((#[trigger] o[i]).1),
        _ => true,
    }
}

proof fn lemma_set_same(o: MembersView, key: Seq<char>, value: JsonView)
    requires
        member(o, key) == Some(value),
    ensures
        with_member(o, key, value) == o,
{
    let i = lemma_member_cases(o, key);
    lemma_member_at(o, key, i);
    lemma_with_member_at(o, key, value, i);
    assert(o.update(i, (key, value)) =~= o);
}

proof fn lemma_self_member(o: MembersView, i: int)
    requires
        distinct_keys(o),
        0 <= i < o.len(),
    ensures
        member(o, o[i].0) == Some(o[i].1),
{
    assert forall|k: int| 0 <= k < i implies (#[trigger] o[k]).0 != o[i].0 by {}
    lemma_member_at(o, o[i].0, i);
}

/// A document merged into itself is itself.
proof fn lemma_merge_self(v: JsonView)
    requires
        keyed(v),
    ensures
        merged(v, v) == v,
    decreases v, 1nat,
{
    if let JsonView::Object(o) = v {
        lemma_merge_self_members(o, o.len() as int);
        assert(o.take(o.len() as int) =~= o);
    }
}

proof fn lemma_merge_self_members(o: MembersView, i: int)
    requires
        keyed(JsonView::Object(o)),
        0 <= i <= o.len(),
    ensures
        merged_members(o, o.take(i)) == o,
    decreases JsonView::Object(o), 0nat, i,
{
    if i > 0 {
        lemma_merge_self_members(o, i - 1);
        assert(o.take(i).drop_last() =~= o.take(i - 1));
        assert(o.take(i).last() == o[i - 1]);
        lemma_self_member(o, i - 1);
        lemma_merge_self(o[i - 1].1);
        lemma_set_same(o, o[i - 1].0, o[i - 1].1);
    }
}

/// Merging an overlay a second time changes nothing.
pub proof fn merging_twice(base: JsonView, overlay: JsonView)
    requires
        keyed(overlay),
    ensures
        merged(merged(base, overlay), overlay) == merged(base, overlay),
    decreases overlay, 1nat,
{
    match (base, overlay) {
        (JsonView::Object(b), JsonView::Object(o)) => {
            lemma_merge_twice_members(b, o, o.len() as int);
            assert(o.take(o.len() as int) =~= o);
        },
        _ => {
            lemma_merge_self(overlay);
        },
    }
}

proof fn lemma_merge_twice_members(b: MembersView, o: MembersView, i: int)
    requires
        keyed(JsonView::Object(o)),
        0 <= i <= o.len(),
    ensures
        merged_members(merged_members(b, o), o.take(i)) == merged_members(b, o),
    decreases JsonView::Object(o), 0nat, i,
{
    if i > 0 {
        let m = merged_members(b, o);
        let key = o[i - 1].0;
        let value = o[i - 1].1;
        lemma_merge_twice_members(b, o, i - 1);
        assert(o.take(i).drop_last() =~= o.take(i - 1));
        assert(o.take(i).last() == o[i - 1]);
        lemma_self_member(o, i - 1);
        merging_member_by_member(b, o, key);
        match member(b, key) {
            Some(a) => {
                merging_twice(a, value);
                lemma_set_same(m, key, merged(a, value));
            },
            None => {
                lemma_merge_self(value);
                lemma_set_same(m, key, value);
            },
        }
    }
}

/// A path always has a slash in front.
pub proof fn rooted_has_leading_slash(s: Seq<char>)
    ensures
        rooted(s).len() > 0,
        rooted(s)[0] == '/',
{
    reveal_strlit("/");
}

/// There is always a mode.
pub proof fn modes_are_never_empty(s: Option<Seq<char>>)
    ensures
        modes(s).len() > 0,
{
}

/// The numbers of a configuration lie within their bounds, whatever was given.
pub proof fn settings_lie_within_bounds(raw: RawConfigView)
    ensures
        settings(raw).cache_safety_margin_seconds <= 600,
        60 <= settings(raw).object_store_ttl_seconds <= 2_592_000,
        settings(raw).task_hot_cache_ttl_seconds <= 3600,
        100 <= settings(raw).task_store_timeout_ms <= 30_000,
{
}

/// A provider of which only the organization or only the address is given is
/// refused.
pub proof fn half_a_provider_is_refused(raw: RawConfigView)
    requires
        filled(raw.agent_card_provider_organization) != filled(raw.agent_card_provider_url),
    ensures
        config_refusal(raw) is Some,
{
}

/// An accepted configuration has both halves of the provider or neither.
pub proof fn accepted_provider_is_whole(raw: RawConfigView)
    requires
        config_refusal(raw) is None,
    ensures
        settings(raw).structured_card.provider_organization is Some
            == settings(raw).structured_card.provider_url is Some,
        settings(raw).structured_card.skills is Array,
        settings(raw).structured_card.security_schemes matches Some(v) ==> v is Object,
        settings(raw).agent_card_override matches Some(v) ==> v is Object,
        (settings(raw).agent_card_source is InlineJson || settings(raw).agent_card_source is File)
            ==> (settings(raw).agent_card_json matches Some(s) && json_of_text(s) matches Ok(v)
            && v is Object),
{
}

} // verus!
