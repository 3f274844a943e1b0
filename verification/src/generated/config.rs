//! The fields of the policy's configuration.

use vstd::prelude::*;

use crate::config::{skills_view, RawConfig, RawConfigView, SkillInput, SkillInputView};
use crate::text::{copy_option, copy_texts, option_text, texts};

verus! {

/// The value of optional texts.
pub open spec fn option_tags(v: Option<Vec<String>>) -> Option<Seq<Seq<char>>> {
    match v {
        Some(t) => Some(texts(t@)),
        None => None,
    }
}

fn copy_tags(v: &Option<Vec<String>>) -> (r: Option<Vec<String>>)
    ensures
        option_tags(r) == option_tags(*v),
{
    match v {
        Some(t) => Some(copy_texts(t)),
        None => None,
    }
}

/// A skill of the agent.
#[derive(Debug, PartialEq, Eq)]
pub struct AgentCardSkills0Config {
    pub description: String,
    pub id: String,
    pub name: String,
    pub tags: Option<Vec<String>>,
}

/// The value of an [`AgentCardSkills0Config`].
pub struct AgentCardSkills0ConfigView {
    pub description: Seq<char>,
    pub id: Seq<char>,
    pub name: Seq<char>,
    pub tags: Option<Seq<Seq<char>>>,
}

impl View for AgentCardSkills0Config {
    type V = AgentCardSkills0ConfigView;

    open spec fn view(&self) -> AgentCardSkills0ConfigView {
        AgentCardSkills0ConfigView {
            description: self.description@,
            id: self.id@,
            name: self.name@,
            tags: option_tags(self.tags),
        }
    }
}

impl AgentCardSkills0Config {
    /// Another one of the same value.
    pub fn copy(&self) -> (r: AgentCardSkills0Config)
        ensures
            r@ == self@,
    {
        AgentCardSkills0Config {
            description: self.description.clone(),
            id: self.id.clone(),
            name: self.name.clone(),
            tags: copy_tags(&self.tags),
        }
    }
}

impl Clone for AgentCardSkills0Config {
    fn clone(&self) -> (r: Self)
        ensures
            r@ == self@,
    {
        self.copy()
    }
}

/// The address of a service.
#[derive(Debug, PartialEq, Eq)]
pub struct ServiceUri {
    pub scheme: String,
    pub authority: String,
    pub path: String,
}

/// The value of a [`ServiceUri`].
pub struct ServiceUriView {
    pub scheme: Seq<char>,
    pub authority: Seq<char>,
    pub path: Seq<char>,
}

impl View for ServiceUri {
    type V = ServiceUriView;

    open spec fn view(&self) -> ServiceUriView {
        ServiceUriView {
            scheme: self.scheme@,
            authority: self.authority@,
            path: self.path@,
        }
    }
}

impl ServiceUri {
    /// Another one of the same value.
    pub fn copy(&self) -> (r: ServiceUri)
        ensures
            r@ == self@,
    {
        ServiceUri {
            scheme: self.scheme.clone(),
            authority: self.authority.clone(),
            path: self.path.clone(),
        }
    }
}

impl Clone for ServiceUri {
    fn clone(&self) -> (r: Self)
        ensures
            r@ == self@,
    {
        self.copy()
    }
}

/// The value of an optional address.
pub open spec fn option_uri(u: Option<ServiceUri>) -> Option<ServiceUriView> {
    match u {
        Some(x) => Some(x@),
        None => None,
    }
}

/// The values of skills.
pub open spec fn skill_configs_view(v: Seq<AgentCardSkills0Config>) -> Seq<
    AgentCardSkills0ConfigView,
> {
    Seq::new(v.len(), |i: int| v[i]@)
}

/// The value of optional skills.
pub open spec fn option_skills(v: Option<Vec<AgentCardSkills0Config>>) -> Option<
    Seq<AgentCardSkills0ConfigView>,
> {
    match v {
        Some(s) => Some(skill_configs_view(s@)),
        None => None,
    }
}

/// The configuration.
#[derive(Debug, PartialEq, Eq)]
pub struct Config {
    pub a_2_a_rpc_path: Option<String>,
    pub agent_card_capabilities_push_notifications: Option<bool>,
    pub agent_card_capabilities_streaming: Option<bool>,
    pub agent_card_default_input_modes: Option<String>,
    pub agent_card_default_output_modes: Option<String>,
    pub agent_card_description: Option<String>,
    pub agent_card_documentation_url: Option<String>,
    pub agent_card_icon_url: Option<String>,
    pub agent_card_json: Option<String>,
    pub agent_card_name: Option<String>,
    pub agent_card_override_json: Option<String>,
    pub agent_card_provider_organization: Option<String>,
    pub agent_card_provider_url: Option<String>,
    pub agent_card_security_schemes_json: Option<String>,
    pub agent_card_skills: Option<Vec<AgentCardSkills0Config>>,
    pub agent_card_skills_json: Option<String>,
    pub agent_card_source: Option<String>,
    pub agent_card_url: Option<ServiceUri>,
    pub agent_card_version: Option<String>,
    pub agent_id: String,
    pub agentforce_access_token_override: Option<String>,
    pub agentforce_api_base_path: Option<String>,
    pub agentforce_api_url: ServiceUri,
    pub anypoint_client_id: Option<String>,
    pub anypoint_client_secret: Option<String>,
    pub anypoint_env_id: Option<String>,
    pub anypoint_org_id: Option<String>,
    pub auto_create_store: Option<bool>,
    pub bypass_user: Option<bool>,
    pub cache_safety_margin_seconds: Option<i64>,
    pub consumer_key: String,
    pub consumer_secret: String,
    pub diagnostic_continue_flow: Option<bool>,
    pub diagnostic_pre_body_agentforce_probe: Option<bool>,
    pub diagnostic_pre_body_probe: Option<bool>,
    pub disable_object_store: Option<bool>,
    pub my_domain_url: ServiceUri,
    pub object_store_id: Option<String>,
    pub object_store_ttl_seconds: Option<i64>,
    pub protocol_version: Option<String>,
    pub public_base_url: String,
    pub strict_mode: Option<bool>,
    pub task_hot_cache_ttl_seconds: Option<i64>,
    pub task_store_timeout_ms: Option<i64>,
}

/// The value of a [`Config`].
pub struct ConfigView {
    pub a_2_a_rpc_path: Option<Seq<char>>,
    pub agent_card_capabilities_push_notifications: Option<bool>,
    pub agent_card_capabilities_streaming: Option<bool>,
    pub agent_card_default_input_modes: Option<Seq<char>>,
    pub agent_card_default_output_modes: Option<Seq<char>>,
    pub agent_card_description: Option<Seq<char>>,
    pub agent_card_documentation_url: Option<Seq<char>>,
    pub agent_card_icon_url: Option<Seq<char>>,
    pub agent_card_json: Option<Seq<char>>,
    pub agent_card_name: Option<Seq<char>>,
    pub agent_card_override_json: Option<Seq<char>>,
    pub agent_card_provider_organization: Option<Seq<char>>,
    pub agent_card_provider_url: Option<Seq<char>>,
    pub agent_card_security_schemes_json: Option<Seq<char>>,
    pub agent_card_skills: Option<Seq<AgentCardSkills0ConfigView>>,
    pub agent_card_skills_json: Option<Seq<char>>,
    pub agent_card_source: Option<Seq<char>>,
    pub agent_card_url: Option<ServiceUriView>,
    pub agent_card_version: Option<Seq<char>>,
    pub agent_id: Seq<char>,
    pub agentforce_access_token_override: Option<Seq<char>>,
    pub agentforce_api_base_path: Option<Seq<char>>,
    pub agentforce_api_url: ServiceUriView,
    pub anypoint_client_id: Option<Seq<char>>,
    pub anypoint_client_secret: Option<Seq<char>>,
    pub anypoint_env_id: Option<Seq<char>>,
    pub anypoint_org_id: Option<Seq<char>>,
    pub auto_create_store: Option<bool>,
    pub bypass_user: Option<bool>,
    pub cache_safety_margin_seconds: Option<i64>,
    pub consumer_key: Seq<char>,
    pub consumer_secret: Seq<char>,
    pub diagnostic_continue_flow: Option<bool>,
    pub diagnostic_pre_body_agentforce_probe: Option<bool>,
    pub diagnostic_pre_body_probe: Option<bool>,
    pub disable_object_store: Option<bool>,
    pub my_domain_url: ServiceUriView,
    pub object_store_id: Option<Seq<char>>,
    pub object_store_ttl_seconds: Option<i64>,
    pub protocol_version: Option<Seq<char>>,
    pub public_base_url: Seq<char>,
    pub strict_mode: Option<bool>,
    pub task_hot_cache_ttl_seconds: Option<i64>,
    pub task_store_timeout_ms: Option<i64>,
}

impl View for Config {
    type V = ConfigView;

    open spec fn view(&self) -> ConfigView {
        ConfigView {
            a_2_a_rpc_path: option_text(self.a_2_a_rpc_path),
            agent_card_capabilities_push_notifications: self.agent_card_capabilities_push_notifications,
            agent_card_capabilities_streaming: self.agent_card_capabilities_streaming,
            agent_card_default_input_modes: option_text(self.agent_card_default_input_modes),
            agent_card_default_output_modes: option_text(self.agent_card_default_output_modes),
            agent_card_description: option_text(self.agent_card_description),
            agent_card_documentation_url: option_text(self.agent_card_documentation_url),
            agent_card_icon_url: option_text(self.agent_card_icon_url),
            agent_card_json: option_text(self.agent_card_json),
            agent_card_name: option_text(self.agent_card_name),
            agent_card_override_json: option_text(self.agent_card_override_json),
            agent_card_provider_organization: option_text(self.agent_card_provider_organization),
            agent_card_provider_url: option_text(self.agent_card_provider_url),
            agent_card_security_schemes_json: option_text(self.agent_card_security_schemes_json),
            agent_card_skills: option_skills(self.agent_card_skills),
            agent_card_skills_json: option_text(self.agent_card_skills_json),
            agent_card_source: option_text(self.agent_card_source),
            agent_card_url: option_uri(self.agent_card_url),
            agent_card_version: option_text(self.agent_card_version),
            agent_id: self.agent_id@,
            agentforce_access_token_override: option_text(self.agentforce_access_token_override),
            agentforce_api_base_path: option_text(self.agentforce_api_base_path),
            agentforce_api_url: self.agentforce_api_url@,
            anypoint_client_id: option_text(self.anypoint_client_id),
            anypoint_client_secret: option_text(self.anypoint_client_secret),
            anypoint_env_id: option_text(self.anypoint_env_id),
            anypoint_org_id: option_text(self.anypoint_org_id),
            auto_create_store: self.auto_create_store,
            bypass_user: self.bypass_user,
            cache_safety_margin_seconds: self.cache_safety_margin_seconds,
            consumer_key: self.consumer_key@,
            consumer_secret: self.consumer_secret@,
            diagnostic_continue_flow: self.diagnostic_continue_flow,
            diagnostic_pre_body_agentforce_probe: self.diagnostic_pre_body_agentforce_probe,
            diagnostic_pre_body_probe: self.diagnostic_pre_body_probe,
            disable_object_store: self.disable_object_store,
            my_domain_url: self.my_domain_url@,
            object_store_id: option_text(self.object_store_id),
            object_store_ttl_seconds: self.object_store_ttl_seconds,
            protocol_version: option_text(self.protocol_version),
            public_base_url: self.public_base_url@,
            strict_mode: self.strict_mode,
            task_hot_cache_ttl_seconds: self.task_hot_cache_ttl_seconds,
            task_store_timeout_ms: self.task_store_timeout_ms,
        }
    }
}

/// A skill as the form has it. Tags that are left out are none.
pub open spec fn skill_of(s: AgentCardSkills0ConfigView) -> SkillInputView {
    SkillInputView {
        id: s.id,
        name: s.name,
        description: s.description,
        tags: match s.tags {
            Some(t) => t,
            None => Seq::empty(),
        },
    }
}

/// The skills as the form has them.
pub open spec fn skills_from(v: Option<Seq<AgentCardSkills0ConfigView>>) -> Seq<SkillInputView> {
    match v {
        Some(s) => s.map_values(|x: AgentCardSkills0ConfigView| skill_of(x)),
        None => Seq::empty(),
    }
}

/// The configuration as it was given, but for the addresses of services.
pub open spec fn raw_of(c: ConfigView) -> RawConfigView {
    RawConfigView {
        consumer_key: Some(c.consumer_key),
        consumer_secret: Some(c.consumer_secret),
        agentforce_access_token_override: c.agentforce_access_token_override,
        agent_id: Some(c.agent_id),
        bypass_user: c.bypass_user,
        cache_safety_margin_seconds: c.cache_safety_margin_seconds,
        protocol_version: c.protocol_version,
        a2a_rpc_path: c.a_2_a_rpc_path,
        public_base_url: Some(c.public_base_url),
        strict_mode: c.strict_mode,
        diagnostic_pre_body_probe: c.diagnostic_pre_body_probe,
        diagnostic_pre_body_agentforce_probe: c.diagnostic_pre_body_agentforce_probe,
        diagnostic_continue_flow: c.diagnostic_continue_flow,
        anypoint_client_id: c.anypoint_client_id,
        anypoint_client_secret: c.anypoint_client_secret,
        anypoint_org_id: c.anypoint_org_id,
        anypoint_env_id: c.anypoint_env_id,
        object_store_id: c.object_store_id,
        auto_create_store: c.auto_create_store,
        disable_object_store: c.disable_object_store,
        object_store_ttl_seconds: c.object_store_ttl_seconds,
        task_hot_cache_ttl_seconds: c.task_hot_cache_ttl_seconds,
        task_store_timeout_ms: c.task_store_timeout_ms,
        agent_card_source: c.agent_card_source,
        agent_card_json: c.agent_card_json,
        agent_card_url_registered: c.agent_card_url is Some,
        agent_card_name: c.agent_card_name,
        agent_card_description: c.agent_card_description,
        agent_card_version: c.agent_card_version,
        agent_card_icon_url: c.agent_card_icon_url,
        agent_card_documentation_url: c.agent_card_documentation_url,
        agent_card_provider_organization: c.agent_card_provider_organization,
        agent_card_provider_url: c.agent_card_provider_url,
        agent_card_capabilities_streaming: c.agent_card_capabilities_streaming,
        agent_card_capabilities_push_notifications: c.agent_card_capabilities_push_notifications,
        agent_card_default_input_modes: c.agent_card_default_input_modes,
        agent_card_default_output_modes: c.agent_card_default_output_modes,
        agent_card_skills_json: c.agent_card_skills_json,
        agent_card_skills: skills_from(c.agent_card_skills),
        agent_card_security_schemes_json: c.agent_card_security_schemes_json,
        agent_card_override_json: c.agent_card_override_json,
    }
}

fn copy_skill_inputs(v: &Option<Vec<AgentCardSkills0Config>>) -> (r: Vec<SkillInput>)
    ensures
        skills_view(r@) == skills_from(option_skills(*v)),
{
    let mut out: Vec<SkillInput> = Vec::new();
    match v {
        Some(s) => {
            let n: usize = s.len();
            for i in 0..n
                invariant
                    n == s@.len(),
                    out@.len() == i,
                    forall|k: int| 0 <= k < i ==> out@[k]@ == skill_of((#[trigger] s@[k])@),
            {
                let tags: Vec<String> = match &s[i].tags {
                    Some(t) => copy_texts(t),
                    None => {
                        let none: Vec<String> = Vec::new();
                        assert(texts(none@) =~= Seq::empty());
                        none
                    },
                };
                out.push(
                    SkillInput {
                        id: s[i].id.clone(),
                        name: s[i].name.clone(),
                        description: s[i].description.clone(),
                        tags,
                    },
                );
            }
        },
        None => {},
    }
    assert(skills_view(out@) =~= skills_from(option_skills(*v)));
    out
}

impl vstd::std_specs::convert::FromSpecImpl<&Config> for RawConfig {
    /// The contract of [`RawConfig::from`] speaks of values, not of strings and
    /// vectors themselves.
    open spec fn obeys_from_spec() -> bool {
        false
    }

    open spec fn from_spec(c: &Config) -> RawConfig {
        arbitrary()
    }
}

impl From<&Config> for RawConfig {
    /// Takes over what a configuration gives. The addresses of services are not
    /// part of it, but for whether the card has one.
    fn from(c: &Config) -> (r: RawConfig)
        ensures
            r@ == raw_of(c@),
    {
        RawConfig {
            consumer_key: Some(c.consumer_key.clone()),
            consumer_secret: Some(c.consumer_secret.clone()),
            agentforce_access_token_override: copy_option(&c.agentforce_access_token_override),
            agent_id: Some(c.agent_id.clone()),
            bypass_user: c.bypass_user,
            cache_safety_margin_seconds: c.cache_safety_margin_seconds,
            protocol_version: copy_option(&c.protocol_version),
            a2a_rpc_path: copy_option(&c.a_2_a_rpc_path),
            public_base_url: Some(c.public_base_url.clone()),
            strict_mode: c.strict_mode,
            diagnostic_pre_body_probe: c.diagnostic_pre_body_probe,
            diagnostic_pre_body_agentforce_probe: c.diagnostic_pre_body_agentforce_probe,
            diagnostic_continue_flow: c.diagnostic_continue_flow,
            anypoint_client_id: copy_option(&c.anypoint_client_id),
            anypoint_client_secret: copy_option(&c.anypoint_client_secret),
            anypoint_org_id: copy_option(&c.anypoint_org_id),
            anypoint_env_id: copy_option(&c.anypoint_env_id),
            object_store_id: copy_option(&c.object_store_id),
            auto_create_store: c.auto_create_store,
            disable_object_store: c.disable_object_store,
            object_store_ttl_seconds: c.object_store_ttl_seconds,
            task_hot_cache_ttl_seconds: c.task_hot_cache_ttl_seconds,
            task_store_timeout_ms: c.task_store_timeout_ms,
            agent_card_source: copy_option(&c.agent_card_source),
            agent_card_json: copy_option(&c.agent_card_json),
            agent_card_url_registered: c.agent_card_url.is_some(),
            agent_card_name: copy_option(&c.agent_card_name),
            agent_card_description: copy_option(&c.agent_card_description),
            agent_card_version: copy_option(&c.agent_card_version),
            agent_card_icon_url: copy_option(&c.agent_card_icon_url),
            agent_card_documentation_url: copy_option(&c.agent_card_documentation_url),
            agent_card_provider_organization: copy_option(&c.agent_card_provider_organization),
            agent_card_provider_url: copy_option(&c.agent_card_provider_url),
            agent_card_capabilities_streaming: c.agent_card_capabilities_streaming,
            agent_card_capabilities_push_notifications: c.agent_card_capabilities_push_notifications,
            agent_card_default_input_modes: copy_option(&c.agent_card_default_input_modes),
            agent_card_default_output_modes: copy_option(&c.agent_card_default_output_modes),
            agent_card_skills_json: copy_option(&c.agent_card_skills_json),
            agent_card_skills: copy_skill_inputs(&c.agent_card_skills),
            agent_card_security_schemes_json: copy_option(&c.agent_card_security_schemes_json),
            agent_card_override_json: copy_option(&c.agent_card_override_json),
        }
    }
}

} // verus!
