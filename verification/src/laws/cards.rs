//! The card that is served, from each of its sources.

use vstd::prelude::*;
use vstd::utf8::encode_utf8;

use crate::agent_card::{
    card_run, fetched_card, finalized_by, forced_fields_win, joined_url, static_bytes,
    structured_card, CardErrorView, CardProviderView,
};
use crate::config::{merged, merging_member_by_member, PolicyConfigView, StructuredCardConfigView};
use crate::effects::{
    ActionView, AnswerView, HttpReplyView, HttpRequestView, Method, Run, Upstream,
};
use crate::gateway::{policy_after, request_run, FlowView, PolicyView, ResponseView};
use crate::json::{
    bytes_of_json, distinct_keys, json_member, json_of_bytes, json_of_text, lemma_member_push,
    member, JsonView, MembersView,
};
use crate::laws::text::cutting_takes_every_one;
use crate::router::route;
use crate::store::task_store::hot_bytes;


verus! {

/// Whether a served card is the card `base` with the operator's override merged in, key
/// by key, and with the three fields set that say where and how the agent is reached.
pub open spec fn serves(c: PolicyConfigView, base: MembersView, served: JsonView) -> bool {
    &&& served is Object
    &&& json_member(served, "protocolVersion"@) == Some(JsonView::Text("0.3.0"@))
    &&& json_member(served, "url"@) == Some(
        JsonView::Text(joined_url(c.public_base_url, c.a2a_rpc_path)),
    )
    &&& json_member(served, "preferredTransport"@) == Some(JsonView::Text("JSONRPC"@))
    &&& forall|key: Seq<char>|
        key != "protocolVersion"@ && key != "url"@ && key != "preferredTransport"@
            ==> #[trigger] json_member(served, key) == match c.agent_card_override {
            Some(JsonView::Object(o)) => match (member(base, key), member(o, key)) {
                (Some(a), Some(b)) => Some(merged(a, b)),
                (None, Some(b)) => Some(b),
                (a, None) => a,
            },
            _ => member(base, key),
        }
}

/// Whether an override, where there is one, is an object that repeats no key.
pub open spec fn plain_override(c: PolicyConfigView) -> bool {
    c.agent_card_override matches Some(v) ==> (v matches JsonView::Object(o) && distinct_keys(o))
}

proof fn lemma_finalized(c: PolicyConfigView, base: MembersView)
    requires
        plain_override(c),
    ensures
        serves(c, base, finalized_by(c, JsonView::Object(base))),
{
    let card = JsonView::Object(base);
    let served = finalized_by(c, card);
    assert forall|key: Seq<char>|
        key != "protocolVersion"@ && key != "url"@ && key != "preferredTransport"@ implies #[trigger] json_member(
        served,
        key,
    ) == match c.agent_card_override {
        Some(JsonView::Object(o)) => match (member(base, key), member(o, key)) {
            (Some(a), Some(b)) => Some(merged(a, b)),
            (None, Some(b)) => Some(b),
            (a, None) => a,
        },
        _ => member(base, key),
    } by {
        forced_fields_win(
            card,
            c.agent_card_override,
            c.public_base_url,
            c.a2a_rpc_path,
            "0.3.0"@,
            key,
        );
        if let Some(JsonView::Object(o)) = c.agent_card_override {
            merging_member_by_member(base, o, key);
        }
    }
    forced_fields_win(
        card,
        c.agent_card_override,
        c.public_base_url,
        c.a2a_rpc_path,
        "0.3.0"@,
        Seq::empty(),
    );
}

/// A card that is fetched is served with the override and the three fields, like any
/// other; anything that is no card is an error that says what it was.
pub proof fn fetched_card_is_overridden(
    c: PolicyConfigView,
    status: u32,
    body: Seq<u8>,
    base: MembersView,
    e: Seq<char>,
    other: JsonView,
)
    requires
        plain_override(c),
    ensures
        ({
            let r = fetched_card(c, HttpReplyView::Answered { status, body });
            &&& 200 <= status <= 299 && json_of_bytes(body) == Ok::<_, Seq<char>>(
                JsonView::Object(base),
            ) ==> exists|served: JsonView|
                serves(c, base, served) && r == Ok::<_, CardErrorView>(
                    #[trigger] bytes_of_json(served),
                )
            &&& 200 <= status <= 299 && json_of_bytes(body) == Ok::<_, Seq<char>>(other)
                && !(other is Object) ==> r == Err::<Seq<u8>, _>(CardErrorView::NotObject)
            &&& 200 <= status <= 299 && json_of_bytes(body) == Err::<JsonView, _>(e) ==> r == Err::<
                Seq<u8>,
                _,
            >(CardErrorView::BadJson(e))
            &&& !(200 <= status <= 299) ==> r == Err::<Seq<u8>, _>(
                CardErrorView::HttpStatus(status),
            )
            &&& fetched_card(c, HttpReplyView::Failed(e)) == Err::<Seq<u8>, _>(
                CardErrorView::Transport(e),
            )
        }),
{
    if json_of_bytes(body) == Ok::<_, Seq<char>>(JsonView::Object(base)) {
        lemma_finalized(c, base);
        let served = finalized_by(c, JsonView::Object(base));
        if 200 <= status <= 299 {
            assert(fetched_card(c, HttpReplyView::Answered { status, body }) == Ok::<
                _,
                CardErrorView,
            >(bytes_of_json(served)));
        }
    }
}

/// A card that the operator pasted, and one that the operator filled in, is served with
/// the override and the three fields.
pub proof fn written_card_is_overridden(c: PolicyConfigView, text: Seq<char>, base: MembersView)
    requires
        plain_override(c),
    ensures
        (c.agent_card_source is InlineJson || c.agent_card_source is File) && c.agent_card_json
            == Some(text) && json_of_text(text) == Ok::<_, Seq<char>>(JsonView::Object(base))
            ==> exists|served: JsonView|
            serves(c, base, served) && static_bytes(c) == Ok::<_, CardErrorView>(
                #[trigger] bytes_of_json(served),
            ),
        c.agent_card_source is Structured && structured_card(c.structured_card)
            == JsonView::Object(base) ==> exists|served: JsonView|
            serves(c, base, served) && static_bytes(c) == Ok::<_, CardErrorView>(
                #[trigger] bytes_of_json(served),
            ),
        structured_card(c.structured_card) is Object,
        c.agent_card_source is Url ==> static_bytes(c) == Ok::<_, CardErrorView>(
            bytes_of_json(JsonView::Object(MembersView::empty())),
        ),
{
    lemma_finalized(c, base);
    let served = finalized_by(c, JsonView::Object(base));
    if c.agent_card_source is Structured && structured_card(c.structured_card) == JsonView::Object(
        base,
    ) {
        assert(static_bytes(c) == Ok::<_, CardErrorView>(bytes_of_json(served)));
    }
    if (c.agent_card_source is InlineJson || c.agent_card_source is File) && c.agent_card_json
        == Some(text) && json_of_text(text) == Ok::<_, Seq<char>>(JsonView::Object(base)) {
        assert(static_bytes(c) == Ok::<_, CardErrorView>(bytes_of_json(served)));
    }
}

/// A fetched card is looked for in the cache, then asked for, then put in the cache for
/// 600 seconds, and what was put there is served.
pub proof fn fetching_a_card(
    p: CardProviderView,
    now: u64,
    reply: HttpReplyView,
    bytes: Seq<u8>,
    saved: AnswerView,
)
    requires
        p.cfg.agent_card_source is Url,
        p.url_registered,
        fetched_card(p.cfg, reply) == Ok::<_, CardErrorView>(bytes),
    ensures
        ({
            let none = AnswerView::Cached(None);
            let answer = AnswerView::Reply(reply);
            &&& card_run(p, now, Seq::empty()) == Run::<Result<Seq<u8>, CardErrorView>>::Do(
                ActionView::CacheGet { key: "agent-card:url-fetched"@ },
            )
            &&& card_run(p, now, seq![none]) == Run::<Result<Seq<u8>, CardErrorView>>::Do(
                ActionView::Send(
                    HttpRequestView {
                        upstream: Upstream::AgentCardUrl,
                        method: Method::Get,
                        path: None,
                        headers: seq![("accept"@, "application/json"@)],
                        body: None,
                        timeout_ms: Some(5000),
                    },
                ),
            )
            &&& card_run(p, now, seq![none, answer]) == Run::<Result<Seq<u8>, CardErrorView>>::Do(
                ActionView::CacheSave {
                    key: "agent-card:url-fetched"@,
                    bytes: hot_bytes(bytes, now, 600),
                },
            )
            &&& card_run(p, now, seq![none, answer, saved]) == Run::Done(
                Ok::<_, CardErrorView>(bytes),
                Seq::empty(),
            )
        }),
{
    let none = AnswerView::Cached(None);
    let answer = AnswerView::Reply(reply);
    assert(seq![none].drop_first() =~= Seq::empty());
    assert(seq![none, answer].drop_first() =~= seq![answer]);
    assert(seq![answer].drop_first() =~= Seq::empty());
    assert(seq![none, answer, saved].drop_first() =~= seq![answer, saved]);
    assert(seq![answer, saved].drop_first() =~= seq![saved]);
    assert(seq![saved].drop_first() =~= Seq::empty());
}

/// A request for the card is answered with 200 and the card as JSON, or with 500 and
/// nothing of it.
pub proof fn card_response_is_the_card(
    p: PolicyView,
    verb: Seq<char>,
    path: Seq<char>,
    has_body: bool,
    now: u64,
    h: Seq<AnswerView>,
)
    requires
        route(verb, path, p.cfg.a2a_rpc_path) is AgentCard,
    ensures
        ({
            let answer = |status: u32, body: Seq<u8>|
                FlowView::Break(
                    ResponseView {
                        status,
                        headers: seq![("content-type"@, "application/json"@)],
                        body,
                    },
                );
            &&& request_run(p, verb, path, has_body, seq![AnswerView::Clock(now)] + h) == match card_run(
                p.card,
                now,
                h,
            ) {
                Run::Do(a) => Run::<FlowView>::Do(a),
                Run::Done(Ok(bytes), h1) => Run::Done(answer(200, bytes), h1),
                Run::Done(Err(_), h1) => Run::Done(
                    answer(500, encode_utf8("{\"error\":\"agent_card_unavailable\"}"@)),
                    h1,
                ),
            }
            &&& !(p.card.cfg.agent_card_source is Url) && p.card.prebuilt_bytes is Some
                ==> request_run(p, verb, path, has_body, seq![AnswerView::Clock(now)] + h)
                == Run::Done(answer(200, p.card.prebuilt_bytes->0), h)
        }),
{
    assert((seq![AnswerView::Clock(now)] + h).drop_first() =~= h);
}

/// The address of the agent is the public base without slashes at its end and the path
/// of calls behind it, with one slash between them; the root adds nothing.
pub proof fn agent_address(stem: Seq<char>, n: nat, path: Seq<char>)
    requires
        stem.len() > 0 ==> stem.last() != '/',
    ensures
        ({
            let base = stem + Seq::new(n, |i: int| '/');
            &&& path == seq!['/'] || path.len() == 0 ==> joined_url(base, path) == stem
            &&& path.len() > 1 && path[0] == '/' ==> joined_url(base, path) == stem + path
            &&& path.len() > 0 && path[0] != '/' ==> joined_url(base, path) == stem + seq!['/']
                + path
        }),
{
    cutting_takes_every_one(stem, '/', n);
    reveal_strlit("/");
    assert("/"@ =~= seq!['/']);
    if path.len() == 0 {
        assert("/"@ + path =~= seq!['/']);
    }
    if path.len() > 0 && path[0] != '/' {
        assert(stem + ("/"@ + path) =~= stem + seq!['/'] + path);
        assert(("/"@ + path).len() > 1);
    }
}

proof fn lemma_card_names()
    ensures
        "name"@.len() == 4,
        "description"@.len() == 11,
        "version"@.len() == 7 && "version"@[0] == 'v',
        "iconUrl"@.len() == 7 && "iconUrl"@[0] == 'i',
        "documentationUrl"@.len() == 16,
        "provider"@.len() == 8,
        "capabilities"@.len() == 12,
        "defaultInputModes"@.len() == 17,
        "defaultOutputModes"@.len() == 18,
        "skills"@.len() == 6,
        "securitySchemes"@.len() == 15,
{
    reveal_strlit("name");
    reveal_strlit("description");
    reveal_strlit("version");
    reveal_strlit("iconUrl");
    reveal_strlit("documentationUrl");
    reveal_strlit("provider");
    reveal_strlit("capabilities");
    reveal_strlit("defaultInputModes");
    reveal_strlit("defaultOutputModes");
    reveal_strlit("skills");
    reveal_strlit("securitySchemes");
}

/// The card of a form holds what the form says, each under its key: texts that are not
/// empty, a provider where both its halves are given, what the agent can do, its modes,
/// its skills, and how it is secured where that is said.
pub proof fn form_becomes_a_card(s: StructuredCardConfigView)
    ensures
        ({
            let card = structured_card(s);
            let text = |v: Option<Seq<char>>|
                if v is Some && v->0.len() > 0 {
                    Some(JsonView::Text(v->0))
                } else {
                    None::<JsonView>
                };
            &&& json_member(card, "name"@) == text(s.name)
            &&& json_member(card, "description"@) == text(s.description)
            &&& json_member(card, "version"@) == text(s.version)
            &&& json_member(card, "iconUrl"@) == text(s.icon_url)
            &&& json_member(card, "documentationUrl"@) == text(s.documentation_url)
            &&& json_member(card, "provider"@) == (if text(s.provider_organization) is Some && text(
                s.provider_url,
            ) is Some {
                Some(
                    JsonView::Object(
                        seq![
                            ("organization"@, JsonView::Text(s.provider_organization->0)),
                            ("url"@, JsonView::Text(s.provider_url->0)),
                        ],
                    ),
                )
            } else {
                None
            })
            &&& json_member(card, "capabilities"@) == Some(
                JsonView::Object(
                    seq![
                        ("streaming"@, JsonView::Bool(s.capabilities_streaming)),
                        ("pushNotifications"@, JsonView::Bool(s.capabilities_push_notifications)),
                    ],
                ),
            )
            &&& json_member(card, "defaultInputModes"@) == Some(
                JsonView::Array(
                    Seq::new(
                        s.default_input_modes.len(),
                        |i: int| JsonView::Text(s.default_input_modes[i]),
                    ),
                ),
            )
            &&& json_member(card, "defaultOutputModes"@) == Some(
                JsonView::Array(
                    Seq::new(
                        s.default_output_modes.len(),
                        |i: int| JsonView::Text(s.default_output_modes[i]),
                    ),
                ),
            )
            &&& json_member(card, "skills"@) == Some(s.skills)
            &&& json_member(card, "securitySchemes"@) == s.security_schemes
        }),
{
    broadcast use lemma_member_push;

    lemma_card_names();
    let none = MembersView::empty();
    assert(member(none, "name"@) is None);
    assert(member(none, "description"@) is None);
    assert(member(none, "version"@) is None);
    assert(member(none, "iconUrl"@) is None);
    assert(member(none, "documentationUrl"@) is None);
    assert(member(none, "provider"@) is None);
    assert(member(none, "capabilities"@) is None);
    assert(member(none, "defaultInputModes"@) is None);
    assert(member(none, "defaultOutputModes"@) is None);
    assert(member(none, "skills"@) is None);
    assert(member(none, "securitySchemes"@) is None);
    assert(s.default_input_modes.map_values(|t: Seq<char>| JsonView::Text(t)) =~= Seq::new(
        s.default_input_modes.len(),
        |i: int| JsonView::Text(s.default_input_modes[i]),
    ));
    assert(s.default_output_modes.map_values(|t: Seq<char>| JsonView::Text(t)) =~= Seq::new(
        s.default_output_modes.len(),
        |i: int| JsonView::Text(s.default_output_modes[i]),
    ));
    lemma_card_head(s);
}

proof fn lemma_card_head(s: StructuredCardConfigView)
    ensures
        ({
            let head = crate::agent_card::card_head(s);
            let text = |v: Option<Seq<char>>|
                if v is Some && v->0.len() > 0 {
                    Some(JsonView::Text(v->0))
                } else {
                    None::<JsonView>
                };
            &&& member(head, "name"@) == text(s.name)
            &&& member(head, "description"@) == text(s.description)
            &&& member(head, "version"@) == text(s.version)
            &&& member(head, "iconUrl"@) == text(s.icon_url)
            &&& member(head, "documentationUrl"@) == text(s.documentation_url)
            &&& member(head, "provider"@) is None
            &&& member(head, "capabilities"@) is None
            &&& member(head, "defaultInputModes"@) is None
            &&& member(head, "defaultOutputModes"@) is None
            &&& member(head, "skills"@) is None
            &&& member(head, "securitySchemes"@) is None
        }),
{
    broadcast use lemma_member_push;

    lemma_card_names();
    let none = MembersView::empty();
    assert(member(none, "name"@) is None);
    assert(member(none, "description"@) is None);
    assert(member(none, "version"@) is None);
    assert(member(none, "iconUrl"@) is None);
    assert(member(none, "documentationUrl"@) is None);
    assert(member(none, "provider"@) is None);
    assert(member(none, "capabilities"@) is None);
    assert(member(none, "defaultInputModes"@) is None);
    assert(member(none, "defaultOutputModes"@) is None);
    assert(member(none, "skills"@) is None);
    assert(member(none, "securitySchemes"@) is None);
}

/// A pasted card that is no JSON, or no object, is an error that says so; a card from an
/// address that no service is registered for cannot be had.
pub proof fn cards_that_cannot_be_had(
    c: PolicyConfigView,
    text: Seq<char>,
    e: Seq<char>,
    v: JsonView,
    p: CardProviderView,
    now: u64,
    rest: Seq<AnswerView>,
)
    ensures
        (c.agent_card_source is InlineJson || c.agent_card_source is File) && c.agent_card_json
            == Some(text) ==> {
            &&& json_of_text(text) == Err::<JsonView, _>(e) ==> static_bytes(c) == Err::<
                Seq<u8>,
                _,
            >(CardErrorView::BadJson(e))
            &&& json_of_text(text) == Ok::<_, Seq<char>>(v) && !(v is Object) ==> static_bytes(c)
                == Err::<Seq<u8>, _>(CardErrorView::NotObject)
        },
        p.cfg.agent_card_source is Url && !p.url_registered ==> card_run(
            p,
            now,
            seq![AnswerView::Cached(None)] + rest,
        ) == Run::Done(Err::<Seq<u8>, _>(CardErrorView::NotObject), rest),
{
    assert((seq![AnswerView::Cached(None)] + rest).drop_first() =~= rest);
}

/// A fetch that failed is served as nothing, and nothing is put in the cache.
pub proof fn failed_fetch_is_not_kept(
    p: CardProviderView,
    now: u64,
    reply: HttpReplyView,
    e: CardErrorView,
    rest: Seq<AnswerView>,
)
    requires
        p.cfg.agent_card_source is Url,
        p.url_registered,
        fetched_card(p.cfg, reply) == Err::<Seq<u8>, _>(e),
    ensures
        card_run(p, now, seq![AnswerView::Cached(None), AnswerView::Reply(reply)] + rest)
            == Run::Done(Err::<Seq<u8>, _>(e), rest),
{
    let whole = seq![AnswerView::Cached(None), AnswerView::Reply(reply)] + rest;
    assert(whole.drop_first() =~= seq![AnswerView::Reply(reply)] + rest);
    assert((seq![AnswerView::Reply(reply)] + rest).drop_first() =~= rest);
}

/// A policy is the same after a request, but that it keeps a card that it built.
pub proof fn policy_stays_as_it_is(
    p: PolicyView,
    verb: Seq<char>,
    path: Seq<char>,
    h: Seq<AnswerView>,
)
    ensures
        ({
            let after = policy_after(p, verb, path, h);
            &&& after.cfg == p.cfg
            &&& after.dispatcher == p.dispatcher
            &&& after.card.cfg == p.card.cfg
            &&& after.card.url_registered == p.card.url_registered
            &&& p.card.cfg.agent_card_source is Url || !(route(verb, path, p.cfg.a2a_rpc_path)
                is AgentCard) ==> after == p
            &&& p.card.prebuilt_bytes is Some ==> after.card.prebuilt_bytes
                == p.card.prebuilt_bytes
        }),
{
}

} // verus!
