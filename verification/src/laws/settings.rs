//! Which configurations are accepted, and what they mean.

use vstd::prelude::*;

use crate::agent_card::static_bytes;
use crate::agentforce::client::base_path;
use crate::config::{
    config_error_text, config_refusal, modes, override_of, rooted, schemes_of, settings, skill_json,
    skills_of, solid_pieces, ConfigErrorView, RawConfigView, SkillInputView,
};
use crate::gateway::{policy_of, PolicyView};
use crate::generated::config::{raw_of, ConfigView};
use crate::json::{json_of_text, JsonView};
use crate::laws::text::{splitting_takes_pieces, trimming_takes_white_space};
use crate::text::{blank, split_on, trimmed, whitespace};

verus! {

/// A configuration is accepted exactly where every required setting is given, the
/// version and the source of the card are known ones, the card of that source is there,
/// the provider is whole or absent, and every setting in JSON is of its kind.
pub proof fn accepted_configurations(raw: RawConfigView)
    ensures
        ({
            let given = |v: Option<Seq<char>>| v is Some && !blank(v->0);
            let named = |s: Seq<char>| raw.agent_card_source == Some(s);
            let pasted = named("inline_json"@) || named("file"@);
            config_refusal(raw) is None <==> {
                &&& given(raw.consumer_key)
                &&& given(raw.consumer_secret)
                &&& given(raw.agent_id)
                &&& given(raw.public_base_url)
                &&& given(raw.anypoint_org_id)
                &&& given(raw.anypoint_env_id)
                &&& given(raw.object_store_id)
                &&& raw.protocol_version is None || raw.protocol_version == Some("0.3.0"@)
                &&& raw.agent_card_source is None || named("structured"@) || named("url"@) || pasted
                &&& named("url"@) ==> raw.agent_card_url_registered
                &&& pasted ==> given(raw.agent_card_json) && (json_of_text(raw.agent_card_json->0)
                    matches Ok(v) && v is Object)
                &&& given(raw.agent_card_skills_json) ==> (json_of_text(
                    trimmed(raw.agent_card_skills_json->0),
                ) matches Ok(v) && v is Array)
                &&& given(raw.agent_card_security_schemes_json) ==> (json_of_text(
                    trimmed(raw.agent_card_security_schemes_json->0),
                ) matches Ok(v) && v is Object)
                &&& given(raw.agent_card_provider_organization) == given(
                    raw.agent_card_provider_url,
                )
                &&& given(raw.agent_card_override_json) ==> (json_of_text(
                    trimmed(raw.agent_card_override_json->0),
                ) matches Ok(v) && v is Object)
            }
        }),
{
    lemma_sources();
}

proof fn lemma_sources()
    ensures
        "inline_json"@ != "file"@,
        "inline_json"@ != "url"@,
        "inline_json"@ != "structured"@,
        "url"@ != "file"@,
        "url"@ != "structured"@,
        "structured"@ != "file"@,
{
    reveal_strlit("inline_json");
    reveal_strlit("file");
    reveal_strlit("url");
    reveal_strlit("structured");
    assert("inline_json"@.len() == 11);
    assert("file"@.len() == 4);
    assert("url"@.len() == 3);
    assert("structured"@.len() == 10);
}

/// The first thing that is wrong with a configuration is what it is refused for.
pub proof fn first_fault_is_told(raw: RawConfigView, s: Seq<char>)
    ensures
        ({
            let given = |v: Option<Seq<char>>| v is Some && !blank(v->0);
            let e = config_refusal(raw);
            let a = given(raw.consumer_key);
            let b = a && given(raw.consumer_secret);
            let c = b && given(raw.agent_id);
            let d = c && given(raw.public_base_url);
            let f = d && given(raw.anypoint_org_id);
            let g = f && given(raw.anypoint_env_id);
            let h = g && given(raw.object_store_id);
            &&& !a ==> e == Some(ConfigErrorView::MissingConsumerKey)
            &&& a && !b ==> e == Some(ConfigErrorView::MissingConsumerSecret)
            &&& b && !c ==> e == Some(ConfigErrorView::MissingAgentId)
            &&& c && !d ==> e == Some(ConfigErrorView::MissingPublicBaseUrl)
            &&& d && !f ==> e == Some(ConfigErrorView::MissingAnypointOrgId)
            &&& f && !g ==> e == Some(ConfigErrorView::MissingAnypointEnvId)
            &&& g && !h ==> e == Some(ConfigErrorView::MissingObjectStoreId)
            &&& h && raw.protocol_version == Some(s) && s != "0.3.0"@ ==> e == Some(
                ConfigErrorView::UnsupportedProtocolVersion(s),
            )
            &&& h && raw.protocol_version is None && raw.agent_card_source == Some(s) && s
                != "inline_json"@ && s != "url"@ && s != "structured"@ && s != "file"@ ==> e == Some(
                ConfigErrorView::UnsupportedAgentCardSource(s),
            )
            &&& h && raw.protocol_version is None && raw.agent_card_source == Some("url"@)
                && !raw.agent_card_url_registered ==> e == Some(
                ConfigErrorView::AgentCardUrlNotRegistered,
            )
            &&& h && raw.protocol_version is None && (raw.agent_card_source == Some("file"@)
                || raw.agent_card_source == Some("inline_json"@)) && !given(raw.agent_card_json)
                ==> e == Some(ConfigErrorView::AgentCardJsonEmpty)
        }),
        config_error_text(ConfigErrorView::UnsupportedProtocolVersion(s))
            == "unsupported protocolVersion: "@ + s + " (expected 0.3.0)"@,
        config_error_text(ConfigErrorView::UnsupportedAgentCardSource(s))
            == "unsupported agentCardSource: "@ + s,
{
    lemma_sources();
}

/// A setting in JSON that is of another kind, or no JSON, is told by its name.
pub proof fn settings_in_json_are_judged(raw: RawConfigView, v: JsonView, e: Seq<char>)
    ensures
        ({
            let given = |s: Option<Seq<char>>| s is Some && !blank(s->0);
            let doc = |s: Option<Seq<char>>| json_of_text(trimmed(s->0));
            let skills = raw.agent_card_skills_json;
            let schemes = raw.agent_card_security_schemes_json;
            let over = raw.agent_card_override_json;
            &&& given(skills) && doc(skills) == Ok::<_, Seq<char>>(v) ==> skills_of(raw) == (if v
                is Array {
                Ok(v)
            } else {
                Err(ConfigErrorView::AgentCardSkillsNotArray)
            })
            &&& given(skills) && doc(skills) == Err::<JsonView, _>(e) ==> skills_of(raw) == Err::<
                JsonView,
                _,
            >(ConfigErrorView::InvalidJson { field: "agentCardSkillsJson"@, error: e })
            &&& !given(skills) ==> skills_of(raw) == Ok::<_, ConfigErrorView>(
                JsonView::Array(
                    Seq::new(
                        raw.agent_card_skills.len(),
                        |i: int| skill_json(raw.agent_card_skills[i]),
                    ),
                ),
            )
            &&& given(schemes) && doc(schemes) == Ok::<_, Seq<char>>(v) ==> schemes_of(raw) == (if v
                is Object {
                Ok(Some(v))
            } else {
                Err(ConfigErrorView::AgentCardSecuritySchemesNotObject)
            })
            &&& given(schemes) && doc(schemes) == Err::<JsonView, _>(e) ==> schemes_of(raw)
                == Err::<Option<JsonView>, _>(
                ConfigErrorView::InvalidJson {
                    field: "agentCardSecuritySchemesJson"@,
                    error: e,
                },
            )
            &&& !given(schemes) ==> schemes_of(raw) == Ok::<_, ConfigErrorView>(None::<JsonView>)
            &&& given(over) && doc(over) == Ok::<_, Seq<char>>(v) ==> override_of(raw) == (if v
                is Object {
                Ok(Some(v))
            } else {
                Err(ConfigErrorView::AgentCardOverrideNotObject)
            })
            &&& given(over) && doc(over) == Err::<JsonView, _>(e) ==> override_of(raw) == Err::<
                Option<JsonView>,
                _,
            >(ConfigErrorView::InvalidJson { field: "agentCardOverrideJson"@, error: e })
            &&& !given(over) ==> override_of(raw) == Ok::<_, ConfigErrorView>(None::<JsonView>)
        }),
{
    assert(raw.agent_card_skills.map_values(|s: SkillInputView| skill_json(s)) =~= Seq::new(
        raw.agent_card_skills.len(),
        |i: int| skill_json(raw.agent_card_skills[i]),
    ));
}

/// A skill of the form: its id, its name, what it is, and its tags, in order.
pub proof fn skill_document(s: SkillInputView)
    ensures
        skill_json(s) == JsonView::Object(
            seq![
                ("id"@, JsonView::Text(s.id)),
                ("name"@, JsonView::Text(s.name)),
                ("description"@, JsonView::Text(s.description)),
                (
                    "tags"@,
                    JsonView::Array(Seq::new(s.tags.len(), |i: int| JsonView::Text(s.tags[i]))),
                ),
            ],
        ),
{
    assert(s.tags.map_values(|t: Seq<char>| JsonView::Text(t)) =~= Seq::new(
        s.tags.len(),
        |i: int| JsonView::Text(s.tags[i]),
    ));
}

/// Settings that are given stand; those that are not have their defaults. Numbers are
/// brought within their bounds.
pub proof fn settings_stand(raw: RawConfigView)
    requires
        config_refusal(raw) is None,
    ensures
        ({
            let s = settings(raw);
            let flag = |v: Option<bool>, other: bool|
                if v is Some {
                    v->0
                } else {
                    other
                };
            let number = |v: Option<i64>, min: int, max: int, other: int|
                if v is None {
                    other
                } else if v->0 < min {
                    min
                } else if v->0 > max {
                    max
                } else {
                    v->0 as int
                };
            let text = |v: Option<Seq<char>>|
                if v is Some && !blank(v->0) {
                    v
                } else {
                    None
                };
            &&& Some(s.consumer_key) == raw.consumer_key
            &&& Some(s.consumer_secret) == raw.consumer_secret
            &&& Some(s.agent_id) == raw.agent_id
            &&& Some(s.public_base_url) == raw.public_base_url
            &&& Some(s.anypoint_org_id) == raw.anypoint_org_id
            &&& Some(s.anypoint_env_id) == raw.anypoint_env_id
            &&& Some(s.object_store_id) == raw.object_store_id
            &&& raw.anypoint_client_id is Some ==> Some(s.anypoint_client_id)
                == raw.anypoint_client_id
            &&& raw.anypoint_client_secret is Some ==> Some(s.anypoint_client_secret)
                == raw.anypoint_client_secret
            &&& s.agentforce_access_token_override == text(raw.agentforce_access_token_override)
            &&& s.bypass_user == flag(raw.bypass_user, true)
            &&& s.strict_mode == flag(raw.strict_mode, false)
            &&& s.auto_create_store == flag(raw.auto_create_store, true)
            &&& s.disable_object_store == flag(raw.disable_object_store, false)
            &&& s.diagnostic_pre_body_probe == flag(raw.diagnostic_pre_body_probe, false)
            &&& s.diagnostic_pre_body_agentforce_probe == flag(
                raw.diagnostic_pre_body_agentforce_probe,
                false,
            )
            &&& s.diagnostic_continue_flow == flag(raw.diagnostic_continue_flow, false)
            &&& s.cache_safety_margin_seconds == number(
                raw.cache_safety_margin_seconds,
                0,
                600,
                60,
            )
            &&& s.object_store_ttl_seconds == number(
                raw.object_store_ttl_seconds,
                60,
                2592000,
                86400,
            )
            &&& s.task_hot_cache_ttl_seconds == number(raw.task_hot_cache_ttl_seconds, 0, 3600, 60)
            &&& s.task_store_timeout_ms == number(raw.task_store_timeout_ms, 100, 30000, 1500)
            &&& s.agent_card_source is Structured <==> raw.agent_card_source is None
                || raw.agent_card_source == Some("structured"@)
            &&& s.agent_card_source is Url <==> raw.agent_card_source == Some("url"@)
            &&& s.agent_card_source is InlineJson <==> raw.agent_card_source == Some(
                "inline_json"@,
            )
            &&& s.agent_card_source is File <==> raw.agent_card_source == Some("file"@)
            &&& s.agent_card_source is InlineJson || s.agent_card_source is File
                ==> s.agent_card_json == raw.agent_card_json
            &&& Ok::<_, ConfigErrorView>(s.agent_card_override) == override_of(raw)
            &&& raw.a2a_rpc_path is None ==> s.a2a_rpc_path == "/"@
            &&& raw.a2a_rpc_path matches Some(path) ==> s.a2a_rpc_path == rooted(path)
        }),
{
    lemma_sources();
    reveal_strlit("/");
    let slash = "/"@;
    assert(slash.len() == 1 && slash[0] == '/');
    assert(!whitespace('/'));
    trimming_takes_white_space(Seq::empty(), slash, Seq::empty());
    assert(Seq::<char>::empty() + slash + Seq::<char>::empty() =~= slash);
}

/// The form of the card is taken over text by text, where a text is not blank.
pub proof fn form_is_taken_over(raw: RawConfigView)
    requires
        config_refusal(raw) is None,
    ensures
        ({
            let s = settings(raw).structured_card;
            let text = |v: Option<Seq<char>>|
                if v is Some && !blank(v->0) {
                    v
                } else {
                    None
                };
            let yes = |v: Option<bool>| v == Some(true);
            &&& s.name == text(raw.agent_card_name)
            &&& s.description == text(raw.agent_card_description)
            &&& s.version == text(raw.agent_card_version)
            &&& s.icon_url == text(raw.agent_card_icon_url)
            &&& s.documentation_url == text(raw.agent_card_documentation_url)
            &&& s.provider_organization == text(raw.agent_card_provider_organization)
            &&& s.provider_url == text(raw.agent_card_provider_url)
            &&& s.capabilities_streaming == yes(raw.agent_card_capabilities_streaming)
            &&& s.capabilities_push_notifications == yes(
                raw.agent_card_capabilities_push_notifications,
            )
            &&& s.default_input_modes == modes(raw.agent_card_default_input_modes)
            &&& s.default_output_modes == modes(raw.agent_card_default_output_modes)
            &&& Ok::<_, ConfigErrorView>(s.skills) == skills_of(raw)
            &&& Ok::<_, ConfigErrorView>(s.security_schemes) == schemes_of(raw)
        }),
{
}

/// The path of calls is the configured one without the white space around it, with a
/// slash in front; a blank one is the root.
pub proof fn path_of_calls(before: Seq<char>, s: Seq<char>, after: Seq<char>)
    requires
        blank(before),
        blank(after),
        s.len() > 0 ==> !whitespace(s[0]) && !whitespace(s.last()),
    ensures
        rooted(before + s + after) == (if s.len() == 0 {
            seq!['/']
        } else if s[0] == '/' {
            s
        } else {
            seq!['/'] + s
        }),
{
    trimming_takes_white_space(before, s, after);
    reveal_strlit("/");
    assert("/"@ =~= seq!['/']);
    assert("/"@ + s =~= seq!['/'] + s);
}

proof fn lemma_solid(a: Seq<Seq<char>>, b: Seq<Seq<char>>)
    ensures
        solid_pieces(a + b) == solid_pieces(a) + solid_pieces(b),
    decreases b.len(),
{
    if b.len() == 0 {
        assert(a + b =~= a);
        assert(solid_pieces(a) + solid_pieces(b) =~= solid_pieces(a));
    } else {
        lemma_solid(a, b.drop_last());
        assert((a + b).drop_last() =~= a + b.drop_last());
        assert((a + b).last() == b.last());
        assert(solid_pieces(a + b) =~= solid_pieces(a) + solid_pieces(b));
    }
}

/// Modes are listed with commas between them, in order and without the white space
/// around them; where none is listed, it is plain text.
pub proof fn modes_are_listed(
    before: Seq<char>,
    mode: Seq<char>,
    after: Seq<char>,
    others: Seq<char>,
    s: Seq<char>,
)
    requires
        blank(before),
        blank(after),
        mode.len() > 0,
        !whitespace(mode[0]),
        !whitespace(mode.last()),
        !(before + mode + after).contains(','),
    ensures
        modes(None) == seq!["text/plain"@],
        blank(s) && !s.contains(',') ==> modes(Some(s)) == seq!["text/plain"@],
        modes(Some(before + mode + after)) == seq![mode],
        ({
            let rest = solid_pieces(split_on(others, ','));
            &&& modes(Some(before + mode + after + seq![','] + others)) == seq![mode] + rest
            &&& rest.len() > 0 ==> rest == modes(Some(others))
        }),
{
    let first = before + mode + after;
    let none = Seq::<char>::empty();
    reveal_with_fuel(solid_pieces, 2);
    splitting_takes_pieces(first, ',', others);
    trimming_takes_white_space(before, mode, after);
    assert(!blank(first)) by {
        assert(first[before.len() as int] == mode[0]);
    }
    assert(seq![first].drop_last() =~= Seq::empty());
    assert(solid_pieces(seq![first]) =~= seq![mode]);
    lemma_solid(seq![first], split_on(others, ','));
    if blank(s) && !s.contains(',') {
        splitting_takes_pieces(s, ',', none);
        assert(seq![s].drop_last() =~= Seq::empty());
        assert(solid_pieces(seq![s]) =~= Seq::empty());
    }
    let plain = "text/plain"@;
    reveal_strlit("text/plain");
    assert(plain.len() == 10 && plain[0] == 't' && plain[9] == 'n');
    assert forall|i: int| 0 <= i < plain.len() implies plain[i] != ',' by {}
    splitting_takes_pieces(plain, ',', none);
    assert(!whitespace('t') && !whitespace('n'));
    trimming_takes_white_space(none, plain, none);
    assert(none + plain + none =~= plain);
    assert(!blank(plain)) by {
        assert(!whitespace(plain[0]));
    }
    assert(seq![plain].drop_last() =~= Seq::empty());
    assert(solid_pieces(seq![plain]) =~= seq![plain]);
}

/// The policy of a configuration works with what the configuration says: the consumer's
/// key and secret at its Salesforce domain, the agent, the path of the API, the times,
/// and the card.
pub proof fn policy_is_as_configured(c: ConfigView)
    requires
        policy_of(c) is Ok,
    ensures
        ({
            let p = policy_of(c)->Ok_0;
            let s = settings(raw_of(c));
            let client = p.dispatcher.client;
            let path = c.agentforce_api_base_path;
            &&& p.cfg == s
            &&& p.card.cfg == s
            &&& p.card.url_registered == (c.agent_card_url is Some)
            &&& s.agent_card_source is Url ==> p.card.prebuilt_bytes is None
            &&& !(s.agent_card_source is Url) ==> p.card.prebuilt_bytes is Some && static_bytes(s)
                == Ok::<_, crate::agent_card::CardErrorView>(p.card.prebuilt_bytes->0)
            &&& s.consumer_key == c.consumer_key
            &&& s.agent_id == c.agent_id
            &&& client.auth.consumer_key == c.consumer_key
            &&& client.auth.consumer_secret == c.consumer_secret
            &&& client.auth.my_domain_url_for_cache_key == c.my_domain_url.authority
            &&& client.auth.access_token_override == (if c.agentforce_access_token_override is Some
                && !blank(c.agentforce_access_token_override->0) {
                c.agentforce_access_token_override
            } else {
                None
            })
            &&& client.auth.cache_safety_margin_seconds == s.cache_safety_margin_seconds
            &&& client.agent_id == c.agent_id
            &&& client.bypass_user == (c.bypass_user is None || c.bypass_user->0)
            &&& client.my_domain_url_value == c.my_domain_url.scheme + "://"@
                + c.my_domain_url.authority
            &&& p.dispatcher.ttl == s.task_hot_cache_ttl_seconds
            &&& path is Some && !blank(path->0) ==> client.api_base_path == base_path(path->0)
            &&& (path is None || blank(path->0)) && base_path(c.agentforce_api_url.path).len() > 0
                ==> client.api_base_path == base_path(c.agentforce_api_url.path)
            &&& (path is None || blank(path->0)) && base_path(c.agentforce_api_url.path).len() == 0
                ==> client.api_base_path == "/einstein/ai-agent/v1"@
        }),
{
    if !(c.agentforce_api_base_path is Some && !blank(c.agentforce_api_base_path->0)) && base_path(
        c.agentforce_api_url.path,
    ).len() == 0 {
        crate::gateway::api_path_has_a_default(c);
    }
}

/// Every setting of the gateway's form is taken over as it stands.
pub proof fn form_of_the_gateway(c: ConfigView)
    ensures
        ({
            let r = raw_of(c);
            &&& r.consumer_key == Some(c.consumer_key)
            &&& r.consumer_secret == Some(c.consumer_secret)
            &&& r.agentforce_access_token_override == c.agentforce_access_token_override
            &&& r.agent_id == Some(c.agent_id)
            &&& r.bypass_user == c.bypass_user
            &&& r.cache_safety_margin_seconds == c.cache_safety_margin_seconds
            &&& r.protocol_version == c.protocol_version
            &&& r.a2a_rpc_path == c.a_2_a_rpc_path
            &&& r.public_base_url == Some(c.public_base_url)
            &&& r.strict_mode == c.strict_mode
            &&& r.diagnostic_pre_body_probe == c.diagnostic_pre_body_probe
            &&& r.diagnostic_pre_body_agentforce_probe == c.diagnostic_pre_body_agentforce_probe
            &&& r.diagnostic_continue_flow == c.diagnostic_continue_flow
            &&& r.anypoint_client_id == c.anypoint_client_id
            &&& r.anypoint_client_secret == c.anypoint_client_secret
            &&& r.anypoint_org_id == c.anypoint_org_id
            &&& r.anypoint_env_id == c.anypoint_env_id
            &&& r.object_store_id == c.object_store_id
            &&& r.auto_create_store == c.auto_create_store
            &&& r.disable_object_store == c.disable_object_store
            &&& r.object_store_ttl_seconds == c.object_store_ttl_seconds
            &&& r.task_hot_cache_ttl_seconds == c.task_hot_cache_ttl_seconds
            &&& r.task_store_timeout_ms == c.task_store_timeout_ms
            &&& r.agent_card_source == c.agent_card_source
            &&& r.agent_card_json == c.agent_card_json
            &&& r.agent_card_url_registered == (c.agent_card_url is Some)
            &&& r.agent_card_name == c.agent_card_name
            &&& r.agent_card_description == c.agent_card_description
            &&& r.agent_card_version == c.agent_card_version
            &&& r.agent_card_icon_url == c.agent_card_icon_url
            &&& r.agent_card_documentation_url == c.agent_card_documentation_url
            &&& r.agent_card_provider_organization == c.agent_card_provider_organization
            &&& r.agent_card_provider_url == c.agent_card_provider_url
            &&& r.agent_card_capabilities_streaming == c.agent_card_capabilities_streaming
            &&& r.agent_card_capabilities_push_notifications
                == c.agent_card_capabilities_push_notifications
            &&& r.agent_card_default_input_modes == c.agent_card_default_input_modes
            &&& r.agent_card_default_output_modes == c.agent_card_default_output_modes
            &&& r.agent_card_skills_json == c.agent_card_skills_json
            &&& r.agent_card_security_schemes_json == c.agent_card_security_schemes_json
            &&& r.agent_card_override_json == c.agent_card_override_json
            &&& c.agent_card_skills is None ==> r.agent_card_skills.len() == 0
            &&& c.agent_card_skills matches Some(skills) ==> {
                &&& r.agent_card_skills.len() == skills.len()
                &&& forall|i: int|
                    0 <= i < skills.len() ==> {
                        let s = #[trigger] r.agent_card_skills[i];
                        &&& s.id == skills[i].id
                        &&& s.name == skills[i].name
                        &&& s.description == skills[i].description
                        &&& s.tags == (if skills[i].tags is Some {
                            skills[i].tags->0
                        } else {
                            Seq::empty()
                        })
                    }
            }
        }),
{
}

/// A configuration is refused for what is wrong with its settings, and then for what is
/// wrong with its card.
pub proof fn refusals_are_told(c: ConfigView)
    ensures
        config_refusal(raw_of(c)) matches Some(e) ==> policy_of(c) == Err::<PolicyView, _>(
            "policy configuration rejected: "@ + config_error_text(e),
        ),
        config_refusal(raw_of(c)) is None && !(settings(raw_of(c)).agent_card_source is Url) ==> (
        static_bytes(settings(raw_of(c))) matches Err(e) ==> policy_of(c) == Err::<PolicyView, _>(
            "agent card configuration rejected: "@ + crate::agent_card::card_error_text(e),
        )),
        config_refusal(raw_of(c)) is None && (settings(raw_of(c)).agent_card_source is Url
            || static_bytes(settings(raw_of(c))) is Ok) ==> policy_of(c) is Ok,
{
}

} // verus!
