//! The two phases in which the gateway handles a request.
//!
//! In the request phase the request is classified. The agent card is answered at
//! once, and so is every call but `message/send`: a body that is no call, a
//! method that is not known, and the two methods on tasks. `message/send` needs
//! Agentforce, and calls to it may not be made once the body of a request has
//! been read; so the body is kept, the request goes on, and the call is answered
//! in the response phase, in place of whatever came back from upstream. Anything
//! else passes through, or is refused in strict mode.

use vstd::prelude::*;
use vstd::utf8::encode_utf8;

use crate::a2a::methods::{
    dispatch_run, getting_a_task_sends_nothing, unknown_method, Dispatcher, DispatcherView, Outcome,
};
use crate::agent_card::{
    bytes_result, card_error_text, card_request, card_run, old_card_is_fetched_again, remembering,
    saves_kept_card, static_bytes, CardError, CardErrorView, CardProvider, CardProviderView, URL_CACHE_TTL_SECS,
};
use crate::agentforce::auth::{AgentforceAuth, AgentforceAuthConfig, AgentforceAuthConfigView};
use crate::agentforce::client::{
    base_path, normalize_base_path, AgentforceClient, AgentforceClientView,
};
use crate::clock::{iso_timestamp, timestamp};
use crate::config::{
    card_text_given, config_error_text, config_refusal, filled, settings, PolicyConfig,
    PolicyConfigView, RawConfig,
};
use crate::effects::{
    body_run, clock, clock_run, copy_bytes, header, pairs_view, read_body, ActionView, AnswerView,
    HttpReplyView, Progress, Record, Run,
};
use crate::generated::config::{raw_of, Config, ConfigView, ServiceUriView};
use crate::json::{bytes_of_json, copy_option_json, json_of_bytes, option_json, Json, JsonView};
use crate::jsonrpc::{
    error_json, error_of, parse_request, parsed_request, result_view, success_json, JsonRpcError,
    JsonRpcErrorView, JsonRpcRequest, JsonRpcRequestView, JsonRpcSuccess, INVALID_REQUEST,
    METHOD_NOT_FOUND,
};
use crate::router::{classify, route, Route};
use crate::store::task_store::{hot_bytes, kept, TaskStore};
use crate::text::{
    concat2, concat3, copy_option, is_blank, option_text, text_eq, trim_end_of, trim_start_of, trimmed,
};

verus! {

/// The name of the gateway's shared cache.
pub const CACHE_ID: &'static str = "agentforce-a2a-shared";

/// A response that the gateway sends itself.
#[derive(Debug, PartialEq, Eq)]
pub struct Response {
    pub status: u32,
    pub headers: Vec<(String, String)>,
    pub body: Vec<u8>,
}

/// The value of a [`Response`].
pub struct ResponseView {
    pub status: u32,
    pub headers: Seq<(Seq<char>, Seq<char>)>,
    pub body: Seq<u8>,
}

impl View for Response {
    type V = ResponseView;

    open spec fn view(&self) -> ResponseView {
        ResponseView {
            status: self.status,
            headers: pairs_view(self.headers@),
            body: self.body@,
        }
    }
}

/// A JSON response.
pub open spec fn json_response(status: u32, body: Seq<u8>) -> ResponseView {
    ResponseView { status, headers: seq![("content-type"@, "application/json"@)], body }
}

/// Builds a JSON response.
pub fn make_json_response(status: u32, body: &[u8]) -> (r: Response)
    ensures
        r@ == json_response(status, body@),
{
    let headers: Vec<(String, String)> = vec![header("content-type", "application/json")];
    assert(pairs_view(headers@) =~= seq![("content-type"@, "application/json"@)]);
    Response { status, headers, body: copy_bytes(body) }
}

/// What the request phase hands on to the response phase.
#[derive(Debug, PartialEq, Eq)]
pub enum A2APending {
    /// Nothing: the response is left as it is.
    PassThrough,
    /// A `message/send` that is still to be carried out.
    MessageSend { id: Option<Json>, body: Vec<u8>, now_unix: u64, now_iso: String },
}

/// The value of an [`A2APending`].
pub enum A2APendingView {
    PassThrough,
    MessageSend { id: Option<JsonView>, body: Seq<u8>, now_unix: u64, now_iso: Seq<char> },
}

impl View for A2APending {
    type V = A2APendingView;

    open spec fn view(&self) -> A2APendingView {
        match self {
            A2APending::PassThrough => A2APendingView::PassThrough,
            A2APending::MessageSend { id, body, now_unix, now_iso } => A2APendingView::MessageSend {
                id: option_json(*id),
                body: body@,
                now_unix: *now_unix,
                now_iso: now_iso@,
            },
        }
    }
}

/// What becomes of a request.
#[derive(Debug, PartialEq, Eq)]
pub enum Flow {
    /// It goes on upstream.
    Continue(A2APending),
    /// It is answered here.
    Break(Response),
}

/// The value of a [`Flow`].
pub enum FlowView {
    Continue(A2APendingView),
    Break(ResponseView),
}

impl View for Flow {
    type V = FlowView;

    open spec fn view(&self) -> FlowView {
        match self {
            Flow::Continue(p) => FlowView::Continue(p@),
            Flow::Break(r) => FlowView::Break(r@),
        }
    }
}

/// The policy, ready to handle requests.
#[derive(Debug, PartialEq, Eq)]
pub struct Policy {
    pub cfg: PolicyConfig,
    pub card: CardProvider,
    pub dispatcher: Dispatcher,
}

/// The value of a [`Policy`].
pub struct PolicyView {
    pub cfg: PolicyConfigView,
    pub card: CardProviderView,
    pub dispatcher: DispatcherView,
}

impl View for Policy {
    type V = PolicyView;

    open spec fn view(&self) -> PolicyView {
        PolicyView { cfg: self.cfg@, card: self.card@, dispatcher: self.dispatcher@ }
    }
}

/// The address of a host, without a path.
pub open spec fn host_url(u: ServiceUriView) -> Seq<char> {
    u.scheme + "://"@ + u.authority
}

/// The path of the API: the one that is configured, or else that of its address,
/// or else the usual one.
pub open spec fn api_path(configured: Option<Seq<char>>, service_path: Seq<char>) -> Seq<char> {
    if filled(configured) {
        configured->0
    } else if base_path(service_path).len() > 0 {
        service_path
    } else {
        "/einstein/ai-agent/v1"@
    }
}

/// The methods that a configuration describes.
pub open spec fn dispatcher_of(c: ConfigView, s: PolicyConfigView) -> DispatcherView {
    DispatcherView {
        client: AgentforceClientView {
            auth: AgentforceAuthConfigView {
                consumer_key: s.consumer_key,
                consumer_secret: s.consumer_secret,
                access_token_override: s.agentforce_access_token_override,
                my_domain_url_for_cache_key: c.my_domain_url.authority,
                cache_safety_margin_seconds: s.cache_safety_margin_seconds,
            },
            api_base_path: base_path(
                api_path(c.agentforce_api_base_path, c.agentforce_api_url.path),
            ),
            my_domain_url_value: host_url(c.my_domain_url),
            agent_id: s.agent_id,
            bypass_user: s.bypass_user,
        },
        ttl: s.task_hot_cache_ttl_seconds,
    }
}

/// The card of a configuration, built ahead of time unless it is fetched.
pub open spec fn warm_card(c: ConfigView, s: PolicyConfigView) -> CardProviderView {
    let cold = CardProviderView {
        cfg: s,
        prebuilt_bytes: None,
        url_registered: c.agent_card_url is Some,
    };
    if s.agent_card_source is Url {
        cold
    } else {
        remembering(cold, static_bytes(s))
    }
}

/// Why there is no card ahead of time, where there should be one.
pub open spec fn card_failure(s: PolicyConfigView) -> Option<CardErrorView> {
    if s.agent_card_source is Url {
        None
    } else {
        match static_bytes(s) {
            Ok(_) => None,
            Err(e) => Some(e),
        }
    }
}

/// The policy of a configuration, or why it is refused.
pub open spec fn policy_of(c: ConfigView) -> Result<PolicyView, Seq<char>> {
    match config_refusal(raw_of(c)) {
        Some(e) => Err("policy configuration rejected: "@ + config_error_text(e)),
        None => {
            let s = settings(raw_of(c));
            match card_failure(s) {
                Some(e) => Err("agent card configuration rejected: "@ + card_error_text(e)),
                None => Ok(
                    PolicyView { cfg: s, card: warm_card(c, s), dispatcher: dispatcher_of(c, s) },
                ),
            }
        },
    }
}

/// The answer to a call without a body.
pub open spec fn empty_body() -> JsonRpcErrorView {
    error_of(None, INVALID_REQUEST, "Invalid Request: empty body"@)
}

/// The bytes of what a call comes to.
pub open spec fn outcome_bytes(out: Outcome) -> Seq<u8> {
    match out {
        Ok(s) => bytes_of_json(success_json(s)),
        Err(e) => bytes_of_json(error_json(e)),
    }
}

/// The response that carries what a call came to. Failed calls too are answered
/// with 200.
pub open spec fn call_response(out: Outcome) -> ResponseView {
    json_response(200, outcome_bytes(out))
}

/// Handling a call that has been read: `message/send` is put off, and everything
/// else is answered.
pub open spec fn parsed_run(
    p: PolicyView,
    body: Seq<u8>,
    request: JsonRpcRequestView,
    h: Seq<AnswerView>,
) -> Run<FlowView> {
    if request.method == "message/send"@ {
        match clock_run(h) {
            Run::Do(a) => Run::Do(a),
            Run::Done(now, h1) => Run::Done(
                FlowView::Continue(
                    A2APendingView::MessageSend {
                        id: request.id,
                        body,
                        now_unix: now,
                        now_iso: timestamp(now as nat),
                    },
                ),
                h1,
            ),
        }
    } else if request.method == "tasks/get"@ || request.method == "tasks/cancel"@ {
        match clock_run(h) {
            Run::Do(a) => Run::Do(a),
            Run::Done(now, h1) => match dispatch_run(
                p.dispatcher,
                request,
                now,
                timestamp(now as nat),
                h1,
            ) {
                Run::Do(a) => Run::Do(a),
                Run::Done(out, h2) => Run::Done(FlowView::Break(call_response(out)), h2),
            },
        }
    } else {
        Run::Done(
            FlowView::Break(call_response(Err(unknown_method(request.id, request.method)))),
            h,
        )
    }
}

/// Handling a call.
pub open spec fn rpc_run(p: PolicyView, has_body: bool, h: Seq<AnswerView>) -> Run<FlowView> {
    if !has_body {
        Run::Done(FlowView::Break(call_response(Err(empty_body()))), h)
    } else {
        match body_run(h) {
            Run::Do(a) => Run::Do(a),
            Run::Done(body, h1) => match parsed_request(json_of_bytes(body)) {
                Err(e) => Run::Done(FlowView::Break(call_response(Err(e))), h1),
                Ok(request) => parsed_run(p, body, request, h1),
            },
        }
    }
}

/// The answer to a request for the card.
pub open spec fn card_response(r: Result<Seq<u8>, CardErrorView>) -> ResponseView {
    match r {
        Ok(bytes) => json_response(200, bytes),
        Err(_) => json_response(500, encode_utf8("{\"error\":\"agent_card_unavailable\"}"@)),
    }
}

/// Serving the card.
pub open spec fn serve_card_run(p: PolicyView, h: Seq<AnswerView>) -> Run<
    Result<Seq<u8>, CardErrorView>,
> {
    match clock_run(h) {
        Run::Do(a) => Run::Do(a),
        Run::Done(now, h1) => card_run(p.card, now, h1),
    }
}

/// The refusal of strict mode.
pub open spec fn strict_refusal() -> ResponseView {
    json_response(404, encode_utf8("{\"error\":\"not_found\",\"reason\":\"strictMode\"}"@))
}

/// What the request phase does with a request.
pub open spec fn request_run(
    p: PolicyView,
    method: Seq<char>,
    path: Seq<char>,
    has_body: bool,
    h: Seq<AnswerView>,
) -> Run<FlowView> {
    match route(method, path, p.cfg.a2a_rpc_path) {
        Route::AgentCard => match serve_card_run(p, h) {
            Run::Do(a) => Run::Do(a),
            Run::Done(r, h1) => Run::Done(FlowView::Break(card_response(r)), h1),
        },
        Route::A2aRpc => rpc_run(p, has_body, h),
        Route::Passthrough => if p.cfg.strict_mode {
            Run::Done(FlowView::Break(strict_refusal()), h)
        } else {
            Run::Done(FlowView::Continue(A2APendingView::PassThrough), h)
        },
    }
}

/// The policy after a request: it remembers the card that it served, unless that
/// comes from an address.
pub open spec fn policy_after(
    p: PolicyView,
    method: Seq<char>,
    path: Seq<char>,
    h: Seq<AnswerView>,
) -> PolicyView {
    if route(method, path, p.cfg.a2a_rpc_path) is AgentCard {
        match serve_card_run(p, h) {
            Run::Done(r, _) => PolicyView { card: remembering(p.card, r), ..p },
            Run::Do(_) => p,
        }
    } else {
        p
    }
}

/// What the response phase does: a `message/send` that was put off is carried
/// out, and its answer takes the place of the response; otherwise the response
/// stays.
pub open spec fn response_run(p: PolicyView, pending: A2APendingView, h: Seq<AnswerView>) -> Run<
    Option<ResponseView>,
> {
    match pending {
        A2APendingView::PassThrough => Run::Done(None, h),
        A2APendingView::MessageSend { body, now_unix, now_iso, .. } => match parsed_request(
            json_of_bytes(body),
        ) {
            Err(e) => Run::Done(Some(call_response(Err(e))), h),
            Ok(request) => match dispatch_run(p.dispatcher, request, now_unix, now_iso, h) {
                Run::Do(a) => Run::Do(a),
                Run::Done(out, h1) => Run::Done(Some(call_response(out)), h1),
            },
        },
    }
}

/// The value of an optional response.
pub open spec fn option_response(r: Option<Response>) -> Option<ResponseView> {
    match r {
        Some(x) => Some(x@),
        None => None,
    }
}

fn respond(result: Result<JsonRpcSuccess, JsonRpcError>) -> (r: Response)
    ensures
        r@ == call_response(result_view(result)),
{
    let bytes: Vec<u8> = match result {
        Ok(s) => s.into_bytes(),
        Err(e) => e.into_bytes(),
    };
    make_json_response(200, bytes.as_slice())
}

/// The path of the API where neither the configuration nor the address gives one.
pub const DEFAULT_API_BASE_PATH: &'static str = "/einstein/ai-agent/v1";

/// The path of the API: the one that is configured, or else that of its address,
/// or else the usual one.
pub fn choose_api_path(configured: &Option<String>, service_path: &str) -> (r: String)
    ensures
        r@ == api_path(option_text(*configured), service_path@),
{
    match configured {
        Some(s) => if !is_blank(s.as_str()) {
            return s.clone();
        },
        None => {},
    }
    if normalize_base_path(service_path).as_str().is_empty() {
        DEFAULT_API_BASE_PATH.to_owned()
    } else {
        service_path.to_owned()
    }
}

impl Policy {
    /// Builds the policy of a configuration.
    pub fn new(config: &Config) -> (r: Result<Policy, String>)
        ensures
            match r {
                Ok(p) => {
                    &&& policy_of(config@) == Ok::<PolicyView, Seq<char>>(p@)
                    &&& card_text_given(p@.card.cfg)
                },
                Err(e) => policy_of(config@) == Err::<PolicyView, Seq<char>>(e@),
            },
    {
        let cfg: PolicyConfig = match PolicyConfig::from_raw(RawConfig::from(config)) {
            Ok(c) => c,
            Err(e) => {
                return Err(concat2("policy configuration rejected: ", e.message().as_str()));
            },
        };
        let auth: AgentforceAuth = AgentforceAuth::new(
            AgentforceAuthConfig {
                consumer_key: cfg.consumer_key.clone(),
                consumer_secret: cfg.consumer_secret.clone(),
                access_token_override: copy_option(&cfg.agentforce_access_token_override),
                my_domain_url_for_cache_key: config.my_domain_url.authority.clone(),
                cache_safety_margin_seconds: cfg.cache_safety_margin_seconds,
            },
        );
        let client: AgentforceClient = AgentforceClient::new(
            auth,
            choose_api_path(
                &config.agentforce_api_base_path,
                config.agentforce_api_url.path.as_str(),
            ),
            concat3(
                config.my_domain_url.scheme.as_str(),
                "://",
                config.my_domain_url.authority.as_str(),
            ),
            cfg.agent_id.clone(),
            cfg.bypass_user,
        );
        let dispatcher = Dispatcher {
            client,
            store: TaskStore::new(cfg.task_hot_cache_ttl_seconds),
        };
        let mut card: CardProvider = CardProvider::new(cfg.copy(), config.agent_card_url.is_some());
        match card.warm() {
            Ok(_) => {},
            Err(e) => {
                return Err(concat2("agent card configuration rejected: ", e.message().as_str()));
            },
        }
        Ok(Policy { cfg, card, dispatcher })
    }

    /// Handles a call in the request phase.
    pub fn handle_rpc_request(&self, record: &mut Record, contains_body: bool) -> (r: Progress<Flow>)
        ensures
            match r {
                Progress::Do(a) => rpc_run(self@, contains_body, old(record)@) == Run::<
                    FlowView,
                >::Do(a@),
                Progress::Done(v) => rpc_run(self@, contains_body, old(record)@) == Run::Done(
                    v@,
                    final(record)@,
                ),
            },
    {
        if !contains_body {
            let e: JsonRpcError = JsonRpcError::new(
                None,
                INVALID_REQUEST,
                "Invalid Request: empty body".to_owned(),
            );
            return Progress::Done(Flow::Break(respond(Err(e))));
        }
        let body: Vec<u8> = match read_body(record) {
            Progress::Do(a) => {
                return Progress::Do(a);
            },
            Progress::Done(b) => b,
        };
        let request: JsonRpcRequest = match parse_request(body.as_slice()) {
            Ok(q) => q,
            Err(e) => {
                return Progress::Done(Flow::Break(respond(Err(e))));
            },
        };
        let method: &str = request.method.as_str();
        if text_eq(method, "message/send") {
            let now: u64 = match clock(record) {
                Progress::Do(a) => {
                    return Progress::Do(a);
                },
                Progress::Done(n) => n,
            };
            return Progress::Done(
                Flow::Continue(
                    A2APending::MessageSend {
                        id: request.id,
                        body,
                        now_unix: now,
                        now_iso: iso_timestamp(now),
                    },
                ),
            );
        }
        if text_eq(method, "tasks/get") || text_eq(method, "tasks/cancel") {
            let now: u64 = match clock(record) {
                Progress::Do(a) => {
                    return Progress::Do(a);
                },
                Progress::Done(n) => n,
            };
            return match self.dispatcher.dispatch(record, &request, now, iso_timestamp(now)) {
                Progress::Do(a) => Progress::Do(a),
                Progress::Done(result) => Progress::Done(Flow::Break(respond(result))),
            };
        }
        let e: JsonRpcError = JsonRpcError::new(
            copy_option_json(&request.id),
            METHOD_NOT_FOUND,
            concat2("Method not found: ", method),
        );
        Progress::Done(Flow::Break(respond(Err(e))))
    }

    fn serve_card(&mut self, record: &mut Record) -> (r: Progress<Result<Vec<u8>, CardError>>)
        requires
            card_text_given(old(self)@.card.cfg),
        ensures
            match r {
                Progress::Do(a) => {
                    &&& serve_card_run(old(self)@, old(record)@) == Run::<
                        Result<Seq<u8>, CardErrorView>,
                    >::Do(a@)
                    &&& final(self)@ == old(self)@
                    &&& clock_run(old(record)@) matches Run::Done(now, _) ==> saves_kept_card(
                        a@,
                        now,
                    )
                },
                Progress::Done(v) => {
                    &&& serve_card_run(old(self)@, old(record)@) == Run::Done(
                        bytes_result(v),
                        final(record)@,
                    )
                    &&& final(self)@ == (PolicyView {
                        card: remembering(old(self)@.card, bytes_result(v)),
                        ..old(self)@
                    })
                },
            },
    {
        let now: u64 = match clock(record) {
            Progress::Do(a) => {
                return Progress::Do(a);
            },
            Progress::Done(n) => n,
        };
        self.card.bytes(record, now)
    }

    /// Handles a request in the request phase.
    pub fn request_filter(
        &mut self,
        record: &mut Record,
        method: &str,
        path: &str,
        contains_body: bool,
    ) -> (r: Progress<Flow>)
        requires
            card_text_given(old(self)@.card.cfg),
        ensures
            match r {
                Progress::Do(a) => request_run(
                    old(self)@,
                    method@,
                    path@,
                    contains_body,
                    old(record)@,
                ) == Run::<FlowView>::Do(a@),
                Progress::Done(v) => request_run(
                    old(self)@,
                    method@,
                    path@,
                    contains_body,
                    old(record)@,
                ) == Run::Done(v@, final(record)@),
            },
            final(self)@ == policy_after(old(self)@, method@, path@, old(record)@),
            card_text_given(final(self)@.card.cfg),
    {
        match classify(method, path, self.cfg.a2a_rpc_path.as_str()) {
            Route::AgentCard => match self.serve_card(record) {
                Progress::Do(a) => Progress::Do(a),
                Progress::Done(Ok(bytes)) => Progress::Done(
                    Flow::Break(make_json_response(200, bytes.as_slice())),
                ),
                Progress::Done(Err(_)) => Progress::Done(
                    Flow::Break(
                        make_json_response(
                            500,
                            "{\"error\":\"agent_card_unavailable\"}".as_bytes(),
                        ),
                    ),
                ),
            },
            Route::A2aRpc => self.handle_rpc_request(record, contains_body),
            Route::Passthrough => if self.cfg.strict_mode {
                Progress::Done(
                    Flow::Break(
                        make_json_response(
                            404,
                            "{\"error\":\"not_found\",\"reason\":\"strictMode\"}".as_bytes(),
                        ),
                    ),
                )
            } else {
                Progress::Done(Flow::Continue(A2APending::PassThrough))
            },
        }
    }

    /// Handles what the request phase handed on, in the response phase.
    pub fn response_filter(&self, record: &mut Record, pending: &A2APending) -> (r: Progress<
        Option<Response>,
    >)
        ensures
            match r {
                Progress::Do(a) => response_run(self@, pending@, old(record)@) == Run::<
                    Option<ResponseView>,
                >::Do(a@),
                Progress::Done(v) => response_run(self@, pending@, old(record)@) == Run::Done(
                    option_response(v),
                    final(record)@,
                ),
            },
    {
        match pending {
            A2APending::PassThrough => Progress::Done(None),
            A2APending::MessageSend { body, now_unix, now_iso, .. } => {
                let request: JsonRpcRequest = match parse_request(body.as_slice()) {
                    Ok(q) => q,
                    Err(e) => {
                        return Progress::Done(Some(respond(Err(e))));
                    },
                };
                match self.dispatcher.dispatch(record, &request, *now_unix, now_iso.clone()) {
                    Progress::Do(a) => Progress::Do(a),
                    Progress::Done(result) => Progress::Done(Some(respond(result))),
                }
            },
        }
    }
}

/// A request that is neither for the card nor a call goes on, and its response
/// comes back as it is; in strict mode it is refused.
pub proof fn other_requests_pass_through(
    p: PolicyView,
    method: Seq<char>,
    path: Seq<char>,
    has_body: bool,
    h: Seq<AnswerView>,
)
    requires
        route(method, path, p.cfg.a2a_rpc_path) is Passthrough,
    ensures
        !p.cfg.strict_mode ==> request_run(p, method, path, has_body, h) == Run::Done(
            FlowView::Continue(A2APendingView::PassThrough),
            h,
        ),
        response_run(p, A2APendingView::PassThrough, h) == Run::Done(None::<ResponseView>, h),
        p.cfg.strict_mode ==> request_run(p, method, path, has_body, h) == Run::Done(
            FlowView::Break(strict_refusal()),
            h,
        ),
        strict_refusal().status == 404,
{
}

/// The request phase of `message/send` reads the body and the clock and nothing
/// else: no call goes out before the response phase, which then answers the same
/// request.
pub proof fn message_send_is_put_off(
    p: PolicyView,
    method: Seq<char>,
    path: Seq<char>,
    body: Seq<u8>,
    now: u64,
    request: JsonRpcRequestView,
    h: Seq<AnswerView>,
)
    requires
        route(method, path, p.cfg.a2a_rpc_path) is A2aRpc,
        parsed_request(json_of_bytes(body)) == Ok::<_, JsonRpcErrorView>(request),
        request.method == "message/send"@,
    ensures
        request_run(p, method, path, true, Seq::empty()) == Run::<FlowView>::Do(
            ActionView::ReadBody,
        ),
        request_run(p, method, path, true, seq![AnswerView::Body(body)]) == Run::<FlowView>::Do(
            ActionView::ReadClock,
        ),
        ({
            let pending = A2APendingView::MessageSend {
                id: request.id,
                body,
                now_unix: now,
                now_iso: timestamp(now as nat),
            };
            &&& request_run(
                p,
                method,
                path,
                true,
                seq![AnswerView::Body(body), AnswerView::Clock(now)],
            ) == Run::Done(FlowView::Continue(pending), Seq::empty())
            &&& response_run(p, pending, h) == (match dispatch_run(
                p.dispatcher,
                request,
                now,
                timestamp(now as nat),
                h,
            ) {
                Run::Do(a) => Run::Do(a),
                Run::Done(out, h1) => Run::Done(Some(call_response(out)), h1),
            })
        }),
{
    let one = seq![AnswerView::Body(body)];
    let two = seq![AnswerView::Body(body), AnswerView::Clock(now)];
    assert(one.drop_first() =~= Seq::empty());
    assert(two.drop_first() =~= seq![AnswerView::Clock(now)]);
    assert(two.drop_first().drop_first() =~= Seq::empty());
}

/// A call that cannot be read, or whose method is not known, is answered at
/// once, with 200 and an error.
pub proof fn bad_calls_are_answered_at_once(
    p: PolicyView,
    method: Seq<char>,
    path: Seq<char>,
    body: Seq<u8>,
)
    requires
        route(method, path, p.cfg.a2a_rpc_path) is A2aRpc,
    ensures
        request_run(p, method, path, false, Seq::empty()) == Run::Done(
            FlowView::Break(call_response(Err(empty_body()))),
            Seq::empty(),
        ),
        parsed_request(json_of_bytes(body)) matches Err(e) ==> request_run(
            p,
            method,
            path,
            true,
            seq![AnswerView::Body(body)],
        ) == Run::Done(FlowView::Break(call_response(Err(e))), Seq::empty()),
        parsed_request(json_of_bytes(body)) matches Ok(q) ==> (q.method != "message/send"@
            && q.method != "tasks/get"@ && q.method != "tasks/cancel"@) ==> request_run(
            p,
            method,
            path,
            true,
            seq![AnswerView::Body(body)],
        ) == Run::Done(
            FlowView::Break(call_response(Err(unknown_method(q.id, q.method)))),
            Seq::empty(),
        ),
{
    assert(seq![AnswerView::Body(body)].drop_first() =~= Seq::empty());
}

/// Whatever comes of a call, its answer has status 200; so does the one that
/// replaces a response.
pub proof fn calls_are_answered_with_200(
    p: PolicyView,
    has_body: bool,
    pending: A2APendingView,
    h: Seq<AnswerView>,
)
    ensures
        rpc_run(p, has_body, h) matches Run::Done(FlowView::Break(r), _) ==> r.status == 200,
        response_run(p, pending, h) matches Run::Done(Some(r), _) ==> r.status == 200,
{
}

/// In the request phase nothing is sent for a call, unless it is `tasks/cancel`.
pub proof fn request_phase_sends_nothing(p: PolicyView, has_body: bool, h: Seq<AnswerView>)
    requires
        body_run(h) matches Run::Done(body, _) ==> (parsed_request(json_of_bytes(body)) matches Ok(
            q,
        ) ==> q.method != "tasks/cancel"@),
    ensures
        rpc_run(p, has_body, h) matches Run::Do(a) ==> !(a is Send),
{
    if let Run::Done(body, h1) = body_run(h) {
        if let Ok(q) = parsed_request(json_of_bytes(body)) {
            if let Run::Done(now, h2) = clock_run(h1) {
                getting_a_task_sends_nothing(q, now, h2);
            }
        }
    }
}

/// Once a card that does not come from an address has been served, it is served
/// again without asking the outside for more than the time.
pub proof fn served_card_is_kept(
    p: PolicyView,
    method: Seq<char>,
    path: Seq<char>,
    has_body: bool,
    h: Seq<AnswerView>,
    rest: Seq<AnswerView>,
    bytes: Seq<u8>,
    now: u64,
)
    requires
        route(method, path, p.cfg.a2a_rpc_path) is AgentCard,
        !(p.card.cfg.agent_card_source is Url),
        serve_card_run(p, h) == Run::Done(Ok::<_, CardErrorView>(bytes), rest),
    ensures
        request_run(
            policy_after(p, method, path, h),
            method,
            path,
            has_body,
            seq![AnswerView::Clock(now)],
        ) == Run::Done(FlowView::Break(json_response(200, bytes)), Seq::empty()),
{
    assert(seq![AnswerView::Clock(now)].drop_first() =~= Seq::empty());
}

/// A card from an address is asked for again once its time is over, on the next
/// request for it.
pub proof fn old_card_is_replaced(
    p: PolicyView,
    method: Seq<char>,
    path: Seq<char>,
    has_body: bool,
    old_card: Seq<u8>,
    fetched_at: u64,
    now: u64,
)
    requires
        route(method, path, p.cfg.a2a_rpc_path) is AgentCard,
        p.card.cfg.agent_card_source is Url,
        p.card.url_registered,
        kept(old_card, fetched_at, URL_CACHE_TTL_SECS),
        now >= fetched_at + URL_CACHE_TTL_SECS,
    ensures
        request_run(
            p,
            method,
            path,
            has_body,
            seq![
                AnswerView::Clock(now),
                AnswerView::Cached(Some(hot_bytes(old_card, fetched_at, URL_CACHE_TTL_SECS))),
                AnswerView::Acknowledged,
            ],
        ) == Run::<FlowView>::Do(ActionView::Send(card_request())),
{
    let entry = hot_bytes(old_card, fetched_at, URL_CACHE_TTL_SECS);
    let h = seq![
        AnswerView::Clock(now),
        AnswerView::Cached(Some(entry)),
        AnswerView::Acknowledged,
    ];
    assert(h.drop_first() =~= seq![AnswerView::Cached(Some(entry)), AnswerView::Acknowledged]);
    old_card_is_fetched_again(
        p.card,
        old_card,
        fetched_at,
        now,
        HttpReplyView::Failed(Seq::empty()),
        AnswerView::Acknowledged,
    );
}

/// Where the configuration names no path of the API and its address has none,
/// calls go under the usual path.
pub proof fn api_path_has_a_default(c: ConfigView)
    requires
        !filled(c.agentforce_api_base_path),
        base_path(c.agentforce_api_url.path).len() == 0,
        policy_of(c) is Ok,
    ensures
        policy_of(c)->Ok_0.dispatcher.client.api_base_path == "/einstein/ai-agent/v1"@,
{
    let t = "/einstein/ai-agent/v1"@;
    reveal_strlit("/einstein/ai-agent/v1");
    reveal_strlit("/");
    assert(trimmed(t) =~= t);
    let tail = t.drop_first();
    reveal_with_fuel(trim_start_of, 3);
    assert(trim_start_of(t, '/') =~= tail);
    assert(trim_end_of(tail, '/') =~= tail);
    assert(base_path(t) =~= t);
}

} // verus!
