//! The agent card: where it comes from, and what it always says.
//!
//! The card is pasted in as text, filled in as a form, or fetched from an
//! address. What the configuration overrides is merged on top, and then three
//! fields are set: the version of the protocol, the address of the agent, and
//! the transport. The card cannot say otherwise.

use vstd::prelude::*;

use crate::cache::saturating_sum;
use crate::config::{
    card_text_given, deep_merge, merged, texts_json, texts_to_json, AgentCardSource, PolicyConfig,
    PolicyConfigView, StructuredCardConfig, StructuredCardConfigView,
};
use crate::effects::{
    copy_bytes, header, is_success, option_bytes, pairs_view, send, send_run, success, ActionView,
    AnswerView, HttpReply, HttpReplyView, HttpRequest, HttpRequestView, Method, Progress, Record,
    Run, Upstream,
};
use crate::json::{
    bytes_of_json, json_member, json_of_bytes, json_of_text, lemma_member_push, lemma_object_view,
    lemma_with_member_lookup, member, option_json, parse_json, parse_json_text, push_some,
    push_some_text, reading_view, set_member, text_json, with_member, write_json, Json, JsonView,
    Members, MembersView,
};
use crate::store::task_store::{
    hot_bytes, hot_entry, kept, read_hot, read_hot_run, write_hot, write_hot_run, HotEntry,
};
use crate::text::{
    concat2, decimal, decimal_text, option_text, starts_with_char, text_eq, trim_end_char,
    trim_end_of,
};

verus! {

/// The cache key of a card that was fetched.
pub const CACHE_KEY_URL_CARD: &'static str = "agent-card:url-fetched";

/// How long a card that was fetched lasts in the cache, in seconds.
pub const URL_CACHE_TTL_SECS: u32 = 600;

/// How long to wait for the card, in milliseconds.
pub const URL_FETCH_TIMEOUT_MS: u64 = 5000;

/// Why there is no card.
#[derive(Debug, PartialEq, Eq)]
pub enum CardError {
    Transport(String),
    HttpStatus(u32),
    BadJson(String),
    NotObject,
}

/// The value of a [`CardError`].
pub enum CardErrorView {
    Transport(Seq<char>),
    HttpStatus(u32),
    BadJson(Seq<char>),
    NotObject,
}

impl View for CardError {
    type V = CardErrorView;

    open spec fn view(&self) -> CardErrorView {
        match self {
            CardError::Transport(e) => CardErrorView::Transport(e@),
            CardError::HttpStatus(n) => CardErrorView::HttpStatus(*n),
            CardError::BadJson(e) => CardErrorView::BadJson(e@),
            CardError::NotObject => CardErrorView::NotObject,
        }
    }
}

/// The error in words.
pub open spec fn card_error_text(e: CardErrorView) -> Seq<char> {
    match e {
        CardErrorView::Transport(s) => "agent card url fetch transport error: "@ + s,
        CardErrorView::HttpStatus(n) => "agent card url fetch returned HTTP "@ + decimal(n as nat),
        CardErrorView::BadJson(s) => "agent card body was not valid JSON: "@ + s,
        CardErrorView::NotObject => "agent card body was not a JSON object"@,
    }
}

impl CardError {
    /// The error in words.
    pub fn message(&self) -> (r: String)
        ensures
            r@ == card_error_text(self@),
    {
        match self {
            CardError::Transport(s) => concat2(
                "agent card url fetch transport error: ",
                s.as_str(),
            ),
            CardError::HttpStatus(n) => concat2(
                "agent card url fetch returned HTTP ",
                decimal_text(*n as u64).as_str(),
            ),
            CardError::BadJson(s) => concat2("agent card body was not valid JSON: ", s.as_str()),
            CardError::NotObject => "agent card body was not a JSON object".to_owned(),
        }
    }
}

/// A text of the form, unless it is empty.
pub open spec fn entered(text: Option<Seq<char>>) -> Option<Seq<char>> {
    match text {
        Some(t) => if t.len() > 0 {
            Some(t)
        } else {
            None
        },
        None => None,
    }
}

/// Takes a text of the form, unless it is empty.
fn entered_text(text: &Option<String>) -> (r: Option<String>)
    ensures
        option_text(r) == entered(option_text(*text)),
{
    match text {
        Some(t) => if t.as_str().is_empty() {
            None
        } else {
            Some(t.clone())
        },
        None => None,
    }
}

/// The provider of the card: both its halves, or nothing.
pub open spec fn provider_json(s: StructuredCardConfigView) -> Option<JsonView> {
    match (entered(s.provider_organization), entered(s.provider_url)) {
        (Some(organization), Some(url)) => Some(
            JsonView::Object(
                seq![("organization"@, JsonView::Text(organization)), ("url"@, JsonView::Text(url))],
            ),
        ),
        _ => None,
    }
}

/// What the agent can do.
pub open spec fn capabilities_json(s: StructuredCardConfigView) -> JsonView {
    JsonView::Object(
        seq![
            ("streaming"@, JsonView::Bool(s.capabilities_streaming)),
            ("pushNotifications"@, JsonView::Bool(s.capabilities_push_notifications)),
        ],
    )
}

/// The optional texts at the head of the card.
pub open spec fn card_head(s: StructuredCardConfigView) -> MembersView {
    push_some_text(
        push_some_text(
            push_some_text(
                push_some_text(
                    push_some_text(MembersView::empty(), "name"@, entered(s.name)),
                    "description"@,
                    entered(s.description),
                ),
                "version"@,
                entered(s.version),
            ),
            "iconUrl"@,
            entered(s.icon_url),
        ),
        "documentationUrl"@,
        entered(s.documentation_url),
    )
}

/// The card of a form. A text that the form leaves empty is left out.
pub open spec fn structured_card(s: StructuredCardConfigView) -> JsonView {
    JsonView::Object(
        push_some(
            push_some(card_head(s), "provider"@, provider_json(s)).push(
                ("capabilities"@, capabilities_json(s)),
            ).push(("defaultInputModes"@, texts_json(s.default_input_modes))).push(
                ("defaultOutputModes"@, texts_json(s.default_output_modes)),
            ).push(("skills"@, s.skills)),
            "securitySchemes"@,
            s.security_schemes,
        ),
    )
}

/// Builds the card of a form.
pub fn structured_to_card(s: &StructuredCardConfig) -> (r: Json)
    ensures
        r@ == structured_card(s@),
{
    let mut m: Members = Members::new();
    m.put_some_text("name", &entered_text(&s.name));
    m.put_some_text("description", &entered_text(&s.description));
    m.put_some_text("version", &entered_text(&s.version));
    m.put_some_text("iconUrl", &entered_text(&s.icon_url));
    m.put_some_text("documentationUrl", &entered_text(&s.documentation_url));
    match (entered_text(&s.provider_organization), entered_text(&s.provider_url)) {
        (Some(organization), Some(url)) => {
            let mut p: Members = Members::new();
            p.put_text("organization", organization.as_str());
            p.put_text("url", url.as_str());
            assert(p@ =~= provider_json(s@)->0->Object_0);
            m.put("provider", p.object());
        },
        _ => {},
    }
    let mut c: Members = Members::new();
    c.put("streaming", Json::Bool(s.capabilities_streaming));
    c.put("pushNotifications", Json::Bool(s.capabilities_push_notifications));
    assert(c@ =~= capabilities_json(s@)->Object_0);
    m.put("capabilities", c.object());
    m.put("defaultInputModes", texts_to_json(&s.default_input_modes));
    m.put("defaultOutputModes", texts_to_json(&s.default_output_modes));
    m.put("skills", s.skills.copy());
    m.put_some("securitySchemes", &s.security_schemes);
    m.object()
}

/// The address of the agent: the base address without slashes at its end, and
/// the path behind it unless that is the root.
pub open spec fn joined_url(base: Seq<char>, path: Seq<char>) -> Seq<char> {
    let b = trim_end_of(base, '/');
    let p = if path.len() > 0 && path[0] == '/' {
        path
    } else {
        "/"@ + path
    };
    if p == "/"@ {
        b
    } else {
        b + p
    }
}

/// Joins the base address and the path.
pub fn join_url(base: &str, path: &str) -> (r: String)
    ensures
        r@ == joined_url(base@, path@),
{
    let b: String = trim_end_char(base, '/');
    let p: String = if starts_with_char(path, '/') {
        path.to_owned()
    } else {
        concat2("/", path)
    };
    if text_eq(p.as_str(), "/") {
        b
    } else {
        concat2(b.as_str(), p.as_str())
    }
}

/// A card with the override merged in.
pub open spec fn overridden(card: JsonView, over: Option<JsonView>) -> JsonView {
    match over {
        Some(o) => merged(card, o),
        None => card,
    }
}

/// The members of a card with the three fields set.
pub open spec fn with_forced(
    o: MembersView,
    public_base_url: Seq<char>,
    a2a_rpc_path: Seq<char>,
    protocol_version: Seq<char>,
) -> MembersView {
    with_member(
        with_member(
            with_member(o, "protocolVersion"@, JsonView::Text(protocol_version)),
            "url"@,
            JsonView::Text(joined_url(public_base_url, a2a_rpc_path)),
        ),
        "preferredTransport"@,
        JsonView::Text("JSONRPC"@),
    )
}

/// The card that is served.
pub open spec fn finalized(
    card: JsonView,
    over: Option<JsonView>,
    public_base_url: Seq<char>,
    a2a_rpc_path: Seq<char>,
    protocol_version: Seq<char>,
) -> JsonView {
    match overridden(card, over) {
        JsonView::Object(o) => JsonView::Object(
            with_forced(o, public_base_url, a2a_rpc_path, protocol_version),
        ),
        other => other,
    }
}

/// Merges the override into a card and sets the three fields.
pub fn finalize_card(
    card: Json,
    override_json: &Option<Json>,
    public_base_url: &str,
    a2a_rpc_path: &str,
    protocol_version: &str,
) -> (r: Json)
    ensures
        r@ == finalized(
            card@,
            option_json(*override_json),
            public_base_url@,
            a2a_rpc_path@,
            protocol_version@,
        ),
{
    let mut whole: Json = card;
    match override_json {
        Some(o) => {
            deep_merge(&mut whole, o.copy());
        },
        None => {},
    }
    match whole {
        Json::Object(members) => {
            let mut o: Vec<(String, Json)> = members;
            proof {
                lemma_object_view(members);
            }
            set_member(&mut o, "protocolVersion", text_json(protocol_version));
            set_member(
                &mut o,
                "url",
                text_json(join_url(public_base_url, a2a_rpc_path).as_str()),
            );
            set_member(&mut o, "preferredTransport", text_json("JSONRPC"));
            proof {
                lemma_object_view(o);
            }
            Json::Object(o)
        },
        other => other,
    }
}

/// The card that is served, by the configuration.
pub open spec fn finalized_by(c: PolicyConfigView, card: JsonView) -> JsonView {
    finalized(card, c.agent_card_override, c.public_base_url, c.a2a_rpc_path, "0.3.0"@)
}

fn finalize_by(c: &PolicyConfig, card: Json) -> (r: Json)
    ensures
        r@ == finalized_by(c@, card@),
{
    finalize_card(
        card,
        &c.agent_card_override,
        c.public_base_url.as_str(),
        c.a2a_rpc_path.as_str(),
        c.protocol_version.as_str(),
    )
}

/// The card that a text holds, once it has been read as JSON.
pub open spec fn card_in(doc: Result<JsonView, Seq<char>>) -> Result<JsonView, CardErrorView> {
    match doc {
        Err(e) => Err(CardErrorView::BadJson(e)),
        Ok(v) => if v is Object {
            Ok(v)
        } else {
            Err(CardErrorView::NotObject)
        },
    }
}

/// The value of a card, or why there is none.
pub open spec fn card_result(r: Result<Json, CardError>) -> Result<JsonView, CardErrorView> {
    match r {
        Ok(j) => Ok(j@),
        Err(e) => Err(e@),
    }
}

/// Takes the card out of a text that has been read as JSON.
pub fn card_of(doc: Result<Json, String>) -> (r: Result<Json, CardError>)
    ensures
        card_result(r) == card_in(reading_view(doc)),
{
    match doc {
        Err(e) => Err(CardError::BadJson(e)),
        Ok(v) => if v.is_object() {
            Ok(v)
        } else {
            Err(CardError::NotObject)
        },
    }
}

/// The card as far as the configuration alone gives it: all of it for a form or
/// a text, nothing for an address.
pub open spec fn static_card(c: PolicyConfigView) -> Result<JsonView, CardErrorView> {
    match c.agent_card_source {
        AgentCardSource::Structured => Ok(finalized_by(c, structured_card(c.structured_card))),
        AgentCardSource::Url => Ok(JsonView::Object(MembersView::empty())),
        _ => match card_in(json_of_text(c.agent_card_json->0)) {
            Ok(v) => Ok(finalized_by(c, v)),
            Err(e) => Err(e),
        },
    }
}

/// Builds the card as far as the configuration alone gives it.
pub fn build_static_card(cfg: &PolicyConfig) -> (r: Result<Json, CardError>)
    requires
        card_text_given(cfg@),
    ensures
        card_result(r) == static_card(cfg@),
{
    match cfg.agent_card_source {
        AgentCardSource::Structured => Ok(
            finalize_by(cfg, structured_to_card(&cfg.structured_card)),
        ),
        AgentCardSource::Url => Ok(Members::new().object()),
        _ => match &cfg.agent_card_json {
            Some(text) => match card_of(parse_json_text(text.as_str())) {
                Ok(v) => Ok(finalize_by(cfg, v)),
                Err(e) => Err(e),
            },
            None => Err(CardError::NotObject),
        },
    }
}

/// The card, and its bytes once they are known. The bytes of a card from an
/// address are kept in the shared cache alone.
#[derive(Debug, PartialEq, Eq)]
pub struct CardProvider {
    cfg: PolicyConfig,
    prebuilt_bytes: Option<Vec<u8>>,
    url_registered: bool,
}

/// The value of a [`CardProvider`].
pub struct CardProviderView {
    pub cfg: PolicyConfigView,
    pub prebuilt_bytes: Option<Seq<u8>>,
    /// Whether a service is registered for the address of the card.
    pub url_registered: bool,
}

impl View for CardProvider {
    type V = CardProviderView;

    closed spec fn view(&self) -> CardProviderView {
        CardProviderView {
            cfg: self.cfg@,
            prebuilt_bytes: option_bytes(self.prebuilt_bytes),
            url_registered: self.url_registered,
        }
    }
}

/// The request for the card.
pub open spec fn card_request() -> HttpRequestView {
    HttpRequestView {
        upstream: Upstream::AgentCardUrl,
        method: Method::Get,
        path: None,
        headers: seq![("accept"@, "application/json"@)],
        body: None,
        timeout_ms: Some(URL_FETCH_TIMEOUT_MS),
    }
}

fn fetch_request() -> (r: HttpRequest)
    ensures
        r@ == card_request(),
{
    let headers: Vec<(String, String)> = vec![header("accept", "application/json")];
    assert(pairs_view(headers@) =~= card_request().headers);
    HttpRequest {
        upstream: Upstream::AgentCardUrl,
        method: Method::Get,
        path: None,
        headers,
        body: None,
        timeout_ms: Some(URL_FETCH_TIMEOUT_MS),
    }
}

/// The bytes that a reply brings.
pub open spec fn fetched(reply: HttpReplyView) -> Result<Seq<u8>, CardErrorView> {
    match reply {
        HttpReplyView::Failed(e) => Err(CardErrorView::Transport(e)),
        HttpReplyView::Answered { status, body } => if success(status) {
            Ok(body)
        } else {
            Err(CardErrorView::HttpStatus(status))
        },
    }
}

/// The card that is served after a reply.
pub open spec fn fetched_card(c: PolicyConfigView, reply: HttpReplyView) -> Result<
    Seq<u8>,
    CardErrorView,
> {
    match fetched(reply) {
        Err(e) => Err(e),
        Ok(body) => match card_in(json_of_bytes(body)) {
            Err(e) => Err(e),
            Ok(v) => Ok(bytes_of_json(finalized_by(c, v))),
        },
    }
}

/// The value of bytes, or why there are none.
pub open spec fn bytes_result(r: Result<Vec<u8>, CardError>) -> Result<Seq<u8>, CardErrorView> {
    match r {
        Ok(b) => Ok(b@),
        Err(e) => Err(e@),
    }
}

/// Builds the card that is served after a reply.
pub fn card_from_reply(c: &PolicyConfig, reply: HttpReply) -> (r: Result<Vec<u8>, CardError>)
    ensures
        bytes_result(r) == fetched_card(c@, reply@),
{
    match reply {
        HttpReply::Failed(e) => Err(CardError::Transport(e)),
        HttpReply::Answered { status, body } => if is_success(status) {
            match card_of(parse_json(body.as_slice())) {
                Err(e) => Err(e),
                Ok(v) => Ok(write_json(&finalize_by(c, v))),
            }
        } else {
            Err(CardError::HttpStatus(status))
        },
    }
}

/// Getting the bytes of the card from an address: from the cache, or else by a
/// request, after which they are put in the cache.
pub open spec fn url_card_run(p: CardProviderView, now: u64, h: Seq<AnswerView>) -> Run<
    Result<Seq<u8>, CardErrorView>,
> {
    match read_hot_run("agent-card:url-fetched"@, now, h) {
        Run::Do(a) => Run::Do(a),
        Run::Done(Some(bytes), h1) => Run::Done(Ok(bytes), h1),
        Run::Done(None, h1) => if !p.url_registered {
            Run::Done(Err(CardErrorView::NotObject), h1)
        } else {
            match send_run(card_request(), h1) {
                Run::Do(a) => Run::Do(a),
                Run::Done(reply, h2) => match fetched_card(p.cfg, reply) {
                    Err(e) => Run::Done(Err(e), h2),
                    Ok(bytes) => match write_hot_run(
                        "agent-card:url-fetched"@,
                        bytes,
                        now,
                        URL_CACHE_TTL_SECS,
                        h2,
                    ) {
                        Run::Do(a) => Run::Do(a),
                        Run::Done(_, h3) => Run::Done(Ok(bytes), h3),
                    },
                },
            }
        },
    }
}

/// The bytes of the card that the configuration alone gives.
pub open spec fn static_bytes(c: PolicyConfigView) -> Result<Seq<u8>, CardErrorView> {
    match static_card(c) {
        Ok(v) => Ok(bytes_of_json(v)),
        Err(e) => Err(e),
    }
}

/// Getting the bytes of the card. A card from an address is looked up each time,
/// so that it lasts no longer than its cache entry.
pub open spec fn card_run(p: CardProviderView, now: u64, h: Seq<AnswerView>) -> Run<
    Result<Seq<u8>, CardErrorView>,
> {
    if p.cfg.agent_card_source is Url {
        url_card_run(p, now, h)
    } else {
        match p.prebuilt_bytes {
            Some(b) => Run::Done(Ok(b), h),
            None => Run::Done(static_bytes(p.cfg), h),
        }
    }
}

/// A provider that has come to know the bytes of the card. Those of a card from
/// an address are left to the cache.
pub open spec fn remembering(p: CardProviderView, r: Result<Seq<u8>, CardErrorView>) -> CardProviderView {
    match r {
        Ok(b) => if p.cfg.agent_card_source is Url {
            p
        } else {
            CardProviderView { prebuilt_bytes: Some(b), ..p }
        },
        Err(_) => p,
    }
}

/// Whether an action that saves something saves a card that the cache gives back
/// for as long as a fetched card lasts, and no longer.
pub open spec fn saves_kept_card(a: ActionView, now: u64) -> bool {
    a matches ActionView::CacheSave { bytes, .. } ==> exists|card: Seq<u8>| #[trigger]
        kept(card, now, URL_CACHE_TTL_SECS) && bytes == hot_bytes(card, now, URL_CACHE_TTL_SECS)
}

impl CardProvider {
    /// The provider of the card that a configuration describes.
    pub fn new(cfg: PolicyConfig, url_registered: bool) -> (r: CardProvider)
        requires
            card_text_given(cfg@),
        ensures
            r@ == (CardProviderView { cfg: cfg@, prebuilt_bytes: None, url_registered }),
            card_text_given(r@.cfg),
    {
        CardProvider { cfg, prebuilt_bytes: None, url_registered }
    }

    /// Builds the card ahead of time, unless it comes from an address.
    pub fn warm(&mut self) -> (r: Result<(), CardError>)
        requires
            card_text_given(old(self)@.cfg),
        ensures
            old(self)@.cfg.agent_card_source is Url ==> r is Ok && final(self)@ == old(self)@,
            !(old(self)@.cfg.agent_card_source is Url) ==> {
                &&& final(self)@ == remembering(old(self)@, static_bytes(old(self)@.cfg))
                &&& match r {
                    Ok(_) => static_bytes(old(self)@.cfg) is Ok,
                    Err(e) => static_bytes(old(self)@.cfg) == Err::<Seq<u8>, CardErrorView>(e@),
                }
            },
    {
        match self.cfg.agent_card_source {
            AgentCardSource::Url => {
                return Ok(());
            },
            _ => {},
        }
        match build_static_card(&self.cfg) {
            Ok(v) => {
                self.prebuilt_bytes = Some(write_json(&v));
                Ok(())
            },
            Err(e) => Err(e),
        }
    }

    /// The bytes of the card, where they are known. Those of a card from an address
    /// are not.
    pub fn warmed_bytes(&self) -> (r: Option<Vec<u8>>)
        ensures
            option_bytes(r) == self@.prebuilt_bytes,
    {
        match &self.prebuilt_bytes {
            Some(b) => Some(copy_bytes(b.as_slice())),
            None => None,
        }
    }

    /// Gets the bytes of the card, and remembers them unless they come from an
    /// address.
    pub fn bytes(&mut self, record: &mut Record, now_unix: u64) -> (r: Progress<
        Result<Vec<u8>, CardError>,
    >)
        requires
            card_text_given(old(self)@.cfg),
        ensures
            match r {
                Progress::Do(a) => {
                    &&& card_run(old(self)@, now_unix, old(record)@) == Run::<
                        Result<Seq<u8>, CardErrorView>,
                    >::Do(a@)
                    &&& final(self)@ == old(self)@
                    &&& saves_kept_card(a@, now_unix)
                },
                Progress::Done(v) => {
                    &&& card_run(old(self)@, now_unix, old(record)@) == Run::Done(
                        bytes_result(v),
                        final(record)@,
                    )
                    &&& final(self)@ == remembering(old(self)@, bytes_result(v))
                },
            },
    {
        let url: bool = match self.cfg.agent_card_source {
            AgentCardSource::Url => true,
            _ => false,
        };
        if url {
            return self.url_bytes(record, now_unix);
        }
        match &self.prebuilt_bytes {
            Some(b) => {
                return Progress::Done(Ok(copy_bytes(b.as_slice())));
            },
            None => {},
        }
        match build_static_card(&self.cfg) {
            Ok(v) => {
                let bytes: Vec<u8> = write_json(&v);
                self.prebuilt_bytes = Some(copy_bytes(bytes.as_slice()));
                Progress::Done(Ok(bytes))
            },
            Err(e) => Progress::Done(Err(e)),
        }
    }

    fn url_bytes(&self, record: &mut Record, now_unix: u64) -> (r: Progress<
        Result<Vec<u8>, CardError>,
    >)
        ensures
            match r {
                Progress::Do(a) => {
                    &&& url_card_run(self@, now_unix, old(record)@) == Run::<
                        Result<Seq<u8>, CardErrorView>,
                    >::Do(a@)
                    &&& saves_kept_card(a@, now_unix)
                },
                Progress::Done(v) => url_card_run(self@, now_unix, old(record)@) == Run::Done(
                    bytes_result(v),
                    final(record)@,
                ),
            },
    {
        match read_hot(record, CACHE_KEY_URL_CARD, now_unix) {
            Progress::Do(a) => {
                return Progress::Do(a);
            },
            Progress::Done(Some(bytes)) => {
                return Progress::Done(Ok(bytes));
            },
            Progress::Done(None) => {},
        }
        if !self.url_registered {
            return Progress::Done(Err(CardError::NotObject));
        }
        let reply: HttpReply = match send(record, fetch_request()) {
            Progress::Do(a) => {
                return Progress::Do(a);
            },
            Progress::Done(reply) => reply,
        };
        let bytes: Vec<u8> = match card_from_reply(&self.cfg, reply) {
            Err(e) => {
                return Progress::Done(Err(e));
            },
            Ok(b) => b,
        };
        match write_hot(record, CACHE_KEY_URL_CARD, bytes.as_slice(), now_unix, URL_CACHE_TTL_SECS) {
            Progress::Do(a) => Progress::Do(a),
            Progress::Done(_) => Progress::Done(Ok(bytes)),
        }
    }
}

proof fn lemma_forced_names()
    ensures
        "protocolVersion"@ != "url"@,
        "protocolVersion"@ != "preferredTransport"@,
        "url"@ != "preferredTransport"@,
{
    reveal_strlit("protocolVersion");
    reveal_strlit("url");
    reveal_strlit("preferredTransport");
    assert("protocolVersion"@.len() == 15);
    assert("url"@.len() == 3);
    assert("preferredTransport"@.len() == 18);
}

/// Whatever a card and its override say, the card that is served names the
/// configured version, address and transport, and every other field is as the
/// override left it.
pub proof fn forced_fields_win(
    card: JsonView,
    over: Option<JsonView>,
    base: Seq<char>,
    path: Seq<char>,
    version: Seq<char>,
    key: Seq<char>,
)
    requires
        card is Object,
        over matches Some(o) ==> o is Object,
    ensures
        ({
            let served = finalized(card, over, base, path, version);
            &&& served is Object
            &&& json_member(served, "protocolVersion"@) == Some(JsonView::Text(version))
            &&& json_member(served, "url"@) == Some(JsonView::Text(joined_url(base, path)))
            &&& json_member(served, "preferredTransport"@) == Some(JsonView::Text("JSONRPC"@))
            &&& (key != "protocolVersion"@ && key != "url"@ && key != "preferredTransport"@)
                ==> json_member(served, key) == json_member(overridden(card, over), key)
        }),
{
    lemma_forced_names();
    let o = overridden(card, over)->Object_0;
    let a = with_member(o, "protocolVersion"@, JsonView::Text(version));
    let b = with_member(a, "url"@, JsonView::Text(joined_url(base, path)));
    lemma_with_member_lookup(o, "protocolVersion"@, JsonView::Text(version), key);
    lemma_with_member_lookup(a, "url"@, JsonView::Text(joined_url(base, path)), key);
    lemma_with_member_lookup(
        a,
        "url"@,
        JsonView::Text(joined_url(base, path)),
        "protocolVersion"@,
    );
    lemma_with_member_lookup(b, "preferredTransport"@, JsonView::Text("JSONRPC"@), key);
    lemma_with_member_lookup(
        b,
        "preferredTransport"@,
        JsonView::Text("JSONRPC"@),
        "protocolVersion"@,
    );
    lemma_with_member_lookup(b, "preferredTransport"@, JsonView::Text("JSONRPC"@), "url"@);
}

/// The card of a form names a provider exactly where the form gives both its
/// halves.
pub proof fn provider_needs_both_halves(s: StructuredCardConfigView)
    ensures
        json_member(structured_card(s), "provider"@) is Some <==> entered(s.provider_organization)
            is Some && entered(s.provider_url) is Some,
{
    broadcast use lemma_member_push;

    reveal_strlit("provider");
    reveal_strlit("name");
    reveal_strlit("description");
    reveal_strlit("version");
    reveal_strlit("iconUrl");
    reveal_strlit("documentationUrl");
    reveal_strlit("capabilities");
    reveal_strlit("defaultInputModes");
    reveal_strlit("defaultOutputModes");
    reveal_strlit("skills");
    reveal_strlit("securitySchemes");
    assert("provider"@.len() == 8);
    assert("name"@.len() == 4);
    assert("description"@.len() == 11);
    assert("version"@.len() == 7);
    assert("iconUrl"@.len() == 7);
    assert("documentationUrl"@.len() == 16);
    assert("capabilities"@.len() == 12);
    assert("defaultInputModes"@.len() == 17);
    assert("defaultOutputModes"@.len() == 18);
    assert("skills"@.len() == 6);
    assert("securitySchemes"@.len() == 15);
    assert(member(MembersView::empty(), "provider"@) is None);
    assert(member(card_head(s), "provider"@) is None);
}

/// A card that does not come from an address is served, once it was got, from
/// then on without asking again.
pub proof fn known_card_is_served(p: CardProviderView, bytes: Seq<u8>, now: u64, h: Seq<AnswerView>)
    requires
        !(p.cfg.agent_card_source is Url),
    ensures
        card_run(
            remembering(p, Ok::<Seq<u8>, CardErrorView>(bytes)),
            now,
            h,
        ) == Run::Done(Ok::<Seq<u8>, CardErrorView>(bytes), h),
{
}

/// A card that was fetched is served out of the cache until its time is over.
pub proof fn fetched_card_is_served_for_a_while(
    p: CardProviderView,
    bytes: Seq<u8>,
    fetched_at: u64,
    now: u64,
)
    requires
        p.cfg.agent_card_source is Url,
        kept(bytes, fetched_at, URL_CACHE_TTL_SECS),
        now < saturating_sum(fetched_at, URL_CACHE_TTL_SECS as u64),
    ensures
        card_run(
            p,
            now,
            seq![AnswerView::Cached(Some(hot_bytes(bytes, fetched_at, URL_CACHE_TTL_SECS)))],
        ) == Run::Done(Ok::<Seq<u8>, CardErrorView>(bytes), Seq::empty()),
{
    let entry = hot_bytes(bytes, fetched_at, URL_CACHE_TTL_SECS);
    assert(hot_entry(Some(entry), now) == HotEntry::Found(bytes));
    assert(seq![AnswerView::Cached(Some(entry))].drop_first() =~= Seq::empty());
}

/// A card whose time is over is fetched again, and what the address then serves
/// is what is served: no older card is.
pub proof fn old_card_is_fetched_again(
    p: CardProviderView,
    old_card: Seq<u8>,
    fetched_at: u64,
    now: u64,
    reply: HttpReplyView,
    saved: AnswerView,
)
    requires
        p.cfg.agent_card_source is Url,
        p.url_registered,
        kept(old_card, fetched_at, URL_CACHE_TTL_SECS),
        now >= fetched_at + URL_CACHE_TTL_SECS,
    ensures
        ({
            let entry = hot_bytes(old_card, fetched_at, URL_CACHE_TTL_SECS);
            let dropped = seq![AnswerView::Cached(Some(entry)), AnswerView::Acknowledged];
            &&& card_run(p, now, dropped) == Run::<Result<Seq<u8>, CardErrorView>>::Do(
                ActionView::Send(card_request()),
            )
            &&& fetched_card(p.cfg, reply) matches Ok(card) ==> {
                &&& card_run(p, now, dropped.push(AnswerView::Reply(reply))) == Run::<
                    Result<Seq<u8>, CardErrorView>,
                >::Do(
                    ActionView::CacheSave {
                        key: "agent-card:url-fetched"@,
                        bytes: hot_bytes(card, now, URL_CACHE_TTL_SECS),
                    },
                )
                &&& card_run(p, now, dropped.push(AnswerView::Reply(reply)).push(saved))
                    == Run::Done(Ok::<Seq<u8>, CardErrorView>(card), Seq::empty())
            }
            &&& fetched_card(p.cfg, reply) matches Err(e) ==> card_run(
                p,
                now,
                dropped.push(AnswerView::Reply(reply)),
            ) == Run::Done(Err::<Seq<u8>, CardErrorView>(e), Seq::empty())
        }),
{
    let entry = hot_bytes(old_card, fetched_at, URL_CACHE_TTL_SECS);
    let two = seq![AnswerView::Cached(Some(entry)), AnswerView::Acknowledged];
    let three = two.push(AnswerView::Reply(reply));
    let four = three.push(saved);
    assert(hot_entry(Some(entry), now) is Expired);
    assert(two.drop_first().drop_first() =~= Seq::empty());
    assert(three.drop_first().drop_first() =~= seq![AnswerView::Reply(reply)]);
    assert(three.drop_first().drop_first().drop_first() =~= Seq::empty());
    assert(four.drop_first().drop_first() =~= seq![AnswerView::Reply(reply), saved]);
    assert(four.drop_first().drop_first().drop_first() =~= seq![saved]);
    assert(four.drop_first().drop_first().drop_first().drop_first() =~= Seq::empty());
}

/// A card that is not fetched needs nothing of the outside.
pub proof fn static_card_needs_no_request(p: CardProviderView, now: u64, h: Seq<AnswerView>)
    requires
        p.prebuilt_bytes is None,
        !(p.cfg.agent_card_source is Url),
    ensures
        card_run(p, now, h) == Run::Done(static_bytes(p.cfg), h),
{
}

} // verus!
