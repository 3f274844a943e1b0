//! The calls of the Agentforce API.
//!
//!   * starting a session: `POST /agents/{agent}/sessions`
//!   * sending a message: `POST /sessions/{session}/messages`
//!   * ending a session: `DELETE /sessions/{session}`
//!
//! Each goes out with a token that is still good. Where the answer is 401 all
//! the same, the token is dropped, a new one is got, and the call is made once
//! more and no more.

use vstd::prelude::*;
use vstd::string::StringExecFns;
use vstd::utf8::encode_utf8;

use crate::agentforce::auth::{
    auth_error_text, auth_run, AgentforceAuth, AgentforceAuthConfigView, AuthError, AuthErrorView,
};
use crate::decode::{
    check, items_at, items_of_field, option_text_at, option_text_of_field, read_record,
    record_of_bytes, shape_error, text_at, text_of_field, Rec, Shape,
};
use crate::effects::{
    copy_bytes, header, is_success, option_bytes, pairs_view, send, send_run, success, ActionView,
    AnswerView, HttpReply, HttpReplyView, HttpRequest, HttpRequestView, Method, Progress, Record,
    Run, Upstream,
};
use crate::encoding::{lossy_text, text_lossy, url_encode, url_encoded};
use crate::json::{
    array_json, bytes_of_json, items_view, lemma_object_view, members_view,
    number_json, reading_view, text_json, write_json, Json, JsonView, Members,
    MembersView, NumberView,
};
use crate::text::{
    concat2, concat3, concat4, decimal, decimal_text, first_chars, lemma_trim_end_of,
    lemma_trim_start_of, option_text, text_eq, trim, trim_end_char, trim_end_of,
    trim_start_char, trim_start_of, trimmed,
};

verus! {

/// Why a call failed.
#[derive(Debug, PartialEq, Eq)]
pub enum ClientError {
    Auth(AuthError),
    Transport { source: String },
    HttpStatus { operation: &'static str, status: u32, body: String },
    BadJson(String),
    MissingField(&'static str),
    /// The answer was 401 with a fresh token too.
    AuthRejected,
}

/// The value of a [`ClientError`].
pub enum ClientErrorView {
    Auth(AuthErrorView),
    Transport { source: Seq<char> },
    HttpStatus { operation: Seq<char>, status: u32, body: Seq<char> },
    BadJson(Seq<char>),
    MissingField(Seq<char>),
    AuthRejected,
}

impl View for ClientError {
    type V = ClientErrorView;

    open spec fn view(&self) -> ClientErrorView {
        match self {
            ClientError::Auth(e) => ClientErrorView::Auth(e@),
            ClientError::Transport { source } => ClientErrorView::Transport { source: source@ },
            ClientError::HttpStatus { operation, status, body } => ClientErrorView::HttpStatus {
                operation: operation@,
                status: *status,
                body: body@,
            },
            ClientError::BadJson(e) => ClientErrorView::BadJson(e@),
            ClientError::MissingField(f) => ClientErrorView::MissingField(f@),
            ClientError::AuthRejected => ClientErrorView::AuthRejected,
        }
    }
}

/// The error in words.
pub open spec fn client_error_text(e: ClientErrorView) -> Seq<char> {
    match e {
        ClientErrorView::Auth(a) => "auth error: "@ + auth_error_text(a),
        ClientErrorView::Transport { source } => "transport error talking to Agentforce: "@
            + source,
        ClientErrorView::HttpStatus { operation, status, body } => "Agentforce returned HTTP "@
            + decimal(status as nat) + " on "@ + operation + ": "@ + body,
        ClientErrorView::BadJson(s) => "Agentforce response body was not valid JSON: "@ + s,
        ClientErrorView::MissingField(f) => "Agentforce response missing field: "@ + f,
        ClientErrorView::AuthRejected => {
            "Agentforce credentials rejected after refresh (HTTP 401)"@
        },
    }
}

impl ClientError {
    /// The error in words.
    pub fn message(&self) -> (r: String)
        ensures
            r@ == client_error_text(self@),
    {
        match self {
            ClientError::Auth(e) => concat2("auth error: ", e.message().as_str()),
            ClientError::Transport { source } => concat2(
                "transport error talking to Agentforce: ",
                source.as_str(),
            ),
            ClientError::HttpStatus { operation, status, body } => {
                let mut s: String = concat4(
                    "Agentforce returned HTTP ",
                    decimal_text(*status as u64).as_str(),
                    " on ",
                    operation,
                );
                s.append(": ");
                s.append(body.as_str());
                s
            },
            ClientError::BadJson(e) => concat2(
                "Agentforce response body was not valid JSON: ",
                e.as_str(),
            ),
            ClientError::MissingField(f) => concat2("Agentforce response missing field: ", f),
            ClientError::AuthRejected => {
                "Agentforce credentials rejected after refresh (HTTP 401)".to_owned()
            },
        }
    }
}

/// One message of an answer. The members that are not understood are kept.
#[derive(Debug, PartialEq, Eq)]
pub struct AgentforceMessage {
    pub id: Option<String>,
    pub kind: Option<String>,
    pub message: Option<String>,
    pub extra: Vec<(String, Json)>,
}

/// The value of an [`AgentforceMessage`].
pub struct AgentforceMessageView {
    pub id: Option<Seq<char>>,
    pub kind: Option<Seq<char>>,
    pub message: Option<Seq<char>>,
    pub extra: MembersView,
}

impl View for AgentforceMessage {
    type V = AgentforceMessageView;

    open spec fn view(&self) -> AgentforceMessageView {
        AgentforceMessageView {
            id: option_text(self.id),
            kind: option_text(self.kind),
            message: option_text(self.message),
            extra: members_view(self.extra@),
        }
    }
}

/// The values of messages.
pub open spec fn agent_messages_view(v: Seq<AgentforceMessage>) -> Seq<AgentforceMessageView> {
    Seq::new(v.len(), |i: int| v[i]@)
}

/// The members of an object that are none of a message's own.
pub open spec fn extra_members(o: MembersView) -> MembersView
    decreases o.len(),
{
    if o.len() == 0 {
        MembersView::empty()
    } else {
        let init = extra_members(o.drop_last());
        if o.last().0 == "id"@ || o.last().0 == "type"@ || o.last().0 == "message"@ {
            init
        } else {
            init.push(o.last())
        }
    }
}

/// The message that a document holds.
pub open spec fn agent_message_in(v: JsonView) -> AgentforceMessageView {
    let r = Rec::AgentMessage;
    AgentforceMessageView {
        id: option_text_at(r, v, "id"@),
        kind: option_text_at(r, v, "type"@),
        message: option_text_at(r, v, "message"@),
        extra: match v {
            JsonView::Object(o) => extra_members(o),
            _ => MembersView::empty(),
        },
    }
}

/// The messages that documents hold.
pub open spec fn agent_messages_in(items: Seq<JsonView>) -> Seq<AgentforceMessageView> {
    items.map_values(|v: JsonView| agent_message_in(v))
}

fn read_extra(o: &Vec<(String, Json)>) -> (r: Vec<(String, Json)>)
    ensures
        members_view(r@) == extra_members(members_view(o@)),
{
    let ghost all = members_view(o@);
    let mut out: Vec<(String, Json)> = Vec::new();
    let n: usize = o.len();
    assert(members_view(out@) =~= extra_members(all.take(0)));
    for i in 0..n
        invariant
            n == o@.len(),
            all == members_view(o@),
            members_view(out@) == extra_members(all.take(i as int)),
    {
        let ghost before = members_view(out@);
        assert(all.take(i + 1).drop_last() =~= all.take(i as int));
        assert(all.take(i + 1).last() == (o@[i as int].0@, o@[i as int].1@));
        let key: &str = o[i].0.as_str();
        if !(text_eq(key, "id") || text_eq(key, "type") || text_eq(key, "message")) {
            out.push((o[i].0.clone(), o[i].1.copy()));
            assert(members_view(out@) =~= before.push((o@[i as int].0@, o@[i as int].1@)));
        }
    }
    assert(all.take(n as int) =~= all);
    out
}

fn read_agent_message(j: &Json) -> (m: AgentforceMessage)
    ensures
        m@ == agent_message_in(j@),
{
    let r = Rec::AgentMessage;
    let extra: Vec<(String, Json)> = match j {
        Json::Object(o) => {
            proof {
                lemma_object_view(*o);
            }
            read_extra(o)
        },
        _ => {
            let none: Vec<(String, Json)> = Vec::new();
            assert(members_view(none@) =~= MembersView::empty());
            none
        },
    };
    AgentforceMessage {
        id: option_text_of_field(r, j, "id"),
        kind: option_text_of_field(r, j, "type"),
        message: option_text_of_field(r, j, "message"),
        extra,
    }
}

fn read_agent_messages(r: Rec, j: &Json) -> (v: Vec<AgentforceMessage>)
    ensures
        agent_messages_view(v@) == agent_messages_in(items_at(r, j@, "messages"@)),
{
    let mut out: Vec<AgentforceMessage> = Vec::new();
    match items_of_field(r, j, "messages") {
        Some(a) => {
            let n: usize = a.len();
            for i in 0..n
                invariant
                    n == a@.len(),
                    out@.len() == i,
                    forall|k: int| 0 <= k < i ==> out@[k]@ == agent_message_in(#[trigger] a@[k]@),
            {
                out.push(read_agent_message(&a[i]));
            }
        },
        None => {},
    }
    assert(agent_messages_view(out@) =~= agent_messages_in(items_at(r, j@, "messages"@)));
    out
}

/// The answer to a session that was started.
#[derive(Debug, PartialEq, Eq)]
pub struct StartSessionResponse {
    pub session_id: String,
    pub messages: Vec<AgentforceMessage>,
}

/// The value of a [`StartSessionResponse`].
pub struct StartSessionResponseView {
    pub session_id: Seq<char>,
    pub messages: Seq<AgentforceMessageView>,
}

impl View for StartSessionResponse {
    type V = StartSessionResponseView;

    open spec fn view(&self) -> StartSessionResponseView {
        StartSessionResponseView {
            session_id: self.session_id@,
            messages: agent_messages_view(self.messages@),
        }
    }
}

/// The answer to a message that was sent.
#[derive(Debug, PartialEq, Eq)]
pub struct SendMessageResponse {
    pub messages: Vec<AgentforceMessage>,
}

/// The value of a [`SendMessageResponse`].
pub struct SendMessageResponseView {
    pub messages: Seq<AgentforceMessageView>,
}

impl View for SendMessageResponse {
    type V = SendMessageResponseView;

    open spec fn view(&self) -> SendMessageResponseView {
        SendMessageResponseView {
            messages: agent_messages_view(self.messages@),
        }
    }
}

/// The answer to a session that was started, once its body has been read as
/// JSON.
pub open spec fn session_answer(doc: Result<JsonView, Seq<char>>) -> Result<
    StartSessionResponseView,
    Seq<char>,
> {
    match doc {
        Err(e) => Err(e),
        Ok(v) => match shape_error(Shape::Record(Rec::StartSession), v) {
            Some(e) => Err(e),
            None => Ok(
                StartSessionResponseView {
                    session_id: text_at(Rec::StartSession, v, "sessionId"@),
                    messages: agent_messages_in(items_at(Rec::StartSession, v, "messages"@)),
                },
            ),
        },
    }
}

/// The answer to a message that was sent, once its body has been read as JSON.
pub open spec fn message_answer(doc: Result<JsonView, Seq<char>>) -> Result<
    SendMessageResponseView,
    Seq<char>,
> {
    match doc {
        Err(e) => Err(e),
        Ok(v) => match shape_error(Shape::Record(Rec::SendMessage), v) {
            Some(e) => Err(e),
            None => Ok(
                SendMessageResponseView {
                    messages: agent_messages_in(items_at(Rec::SendMessage, v, "messages"@)),
                },
            ),
        },
    }
}

impl StartSessionResponse {
    /// Takes the answer out of a body that has been read as JSON.
    pub fn of(doc: Result<Json, String>) -> (r: Result<StartSessionResponse, String>)
        ensures
            match r {
                Ok(s) => session_answer(reading_view(doc)) == Ok::<_, Seq<char>>(s@),
                Err(e) => session_answer(reading_view(doc)) == Err::<
                    StartSessionResponseView,
                    _,
                >(e@),
            },
    {
        let j: Json = match doc {
            Ok(j) => j,
            Err(e) => {
                return Err(e);
            },
        };
        match check(Shape::Record(Rec::StartSession), &j) {
            Some(e) => Err(e),
            None => Ok(
                StartSessionResponse {
                    session_id: text_of_field(Rec::StartSession, &j, "sessionId"),
                    messages: read_agent_messages(Rec::StartSession, &j),
                },
            ),
        }
    }
}

impl SendMessageResponse {
    /// Takes the answer out of a body that has been read as JSON.
    pub fn of(doc: Result<Json, String>) -> (r: Result<SendMessageResponse, String>)
        ensures
            match r {
                Ok(s) => message_answer(reading_view(doc)) == Ok::<_, Seq<char>>(s@),
                Err(e) => message_answer(reading_view(doc)) == Err::<SendMessageResponseView, _>(
                    e@,
                ),
            },
    {
        let j: Json = match doc {
            Ok(j) => j,
            Err(e) => {
                return Err(e);
            },
        };
        match check(Shape::Record(Rec::SendMessage), &j) {
            Some(e) => Err(e),
            None => Ok(
                SendMessageResponse { messages: read_agent_messages(Rec::SendMessage, &j) },
            ),
        }
    }
}

/// The body of a request to start a session.
pub open spec fn start_session_json(
    external_session_key: Seq<char>,
    endpoint: Seq<char>,
    bypass_user: bool,
) -> JsonView {
    JsonView::Object(
        seq![
            ("externalSessionKey"@, JsonView::Text(external_session_key)),
            (
                "instanceConfig"@,
                JsonView::Object(seq![("endpoint"@, JsonView::Text(endpoint))]),
            ),
            ("featureSupport"@, JsonView::Text("Sync"@)),
            (
                "streamingCapabilities"@,
                JsonView::Object(
                    seq![("chunkTypes"@, JsonView::Array(seq![JsonView::Text("Text"@)]))],
                ),
            ),
            ("bypassUser"@, JsonView::Bool(bypass_user)),
        ],
    )
}

/// The body of a request to start a session.
pub fn start_session_body(external_session_key: &str, endpoint: &str, bypass_user: bool) -> (r:
    Json)
    ensures
        r@ == start_session_json(external_session_key@, endpoint@, bypass_user),
{
    let mut instance: Members = Members::new();
    instance.put_text("endpoint", endpoint);
    assert(instance@ =~= seq![("endpoint"@, JsonView::Text(endpoint@))]);
    let chunk_types: Vec<Json> = vec![text_json("Text")];
    assert(items_view(chunk_types@) =~= seq![JsonView::Text("Text"@)]);
    let mut streaming: Members = Members::new();
    streaming.put("chunkTypes", array_json(chunk_types));
    assert(streaming@ =~= seq![("chunkTypes"@, JsonView::Array(seq![JsonView::Text("Text"@)]))]);
    let mut m: Members = Members::new();
    m.put_text("externalSessionKey", external_session_key);
    m.put("instanceConfig", instance.object());
    m.put_text("featureSupport", "Sync");
    m.put("streamingCapabilities", streaming.object());
    m.put("bypassUser", Json::Bool(bypass_user));
    assert(m@ =~= start_session_json(
        external_session_key@,
        endpoint@,
        bypass_user,
    )->Object_0);
    m.object()
}

/// The body of a request to send a message.
pub open spec fn send_message_json(text: Seq<char>, sequence_id: u32) -> JsonView {
    JsonView::Object(
        seq![
            (
                "message"@,
                JsonView::Object(
                    seq![
                        ("type"@, JsonView::Text("Text"@)),
                        ("sequenceId"@, JsonView::Number(NumberView::PosInt(sequence_id as u64))),
                        ("text"@, JsonView::Text(text)),
                    ],
                ),
            ),
        ],
    )
}

/// The body of a request to send a message.
pub fn send_message_body(text: &str, sequence_id: u32) -> (r: Json)
    ensures
        r@ == send_message_json(text@, sequence_id),
{
    let mut inner: Members = Members::new();
    inner.put_text("type", "Text");
    inner.put("sequenceId", number_json(sequence_id as u64));
    inner.put_text("text", text);
    assert(inner@ =~= seq![
        ("type"@, JsonView::Text("Text"@)),
        ("sequenceId"@, JsonView::Number(NumberView::PosInt(sequence_id as u64))),
        ("text"@, JsonView::Text(text@)),
    ]);
    let mut m: Members = Members::new();
    m.put("message", inner.object());
    assert(m@ =~= send_message_json(text@, sequence_id)->Object_0);
    m.object()
}

/// A base path with one slash in front and none at the end; nothing where there
/// is no path.
pub open spec fn base_path(raw: Seq<char>) -> Seq<char> {
    let core = trim_end_of(trim_start_of(trimmed(raw), '/'), '/');
    if core.len() == 0 {
        Seq::empty()
    } else {
        "/"@ + core
    }
}

/// Brings a base path into shape.
pub fn normalize_base_path(raw: &str) -> (r: String)
    ensures
        r@ == base_path(raw@),
{
    let tail: String = trim_start_char(trim(raw), '/');
    let core: String = trim_end_char(tail.as_str(), '/');
    if core.as_str().is_empty() {
        let none: String = String::new();
        assert(none@ =~= Seq::empty());
        none
    } else {
        concat2("/", core.as_str())
    }
}

/// The base path with a relative path behind it, and one slash between them.
pub open spec fn joined_path(base: Seq<char>, rel: Seq<char>) -> Seq<char> {
    base + "/"@ + trim_start_of(rel, '/')
}

/// A body in text, shortened to its first 512 characters where it is longer
/// than 512 bytes, with its size.
pub open spec fn redacted(body: Seq<u8>) -> Seq<char> {
    let s = lossy_text(body);
    let size = encode_utf8(s).len();
    if size <= 512 {
        s
    } else {
        (if s.len() <= 512 {
            s
        } else {
            s.take(512)
        }) + "...("@ + decimal(size) + " bytes)"@
    }
}

/// Shortens a body for an error.
pub fn redact_body(body: &[u8]) -> (r: String)
    ensures
        r@ == redacted(body@),
{
    let s: String = text_lossy(body);
    let size: usize = s.as_str().as_bytes().len();
    if size <= 512 {
        s
    } else {
        let head: String = first_chars(s.as_str(), 512);
        concat4(head.as_str(), "...(", decimal_text(size as u64).as_str(), " bytes)")
    }
}

/// A call of the API, but for the token.
pub struct ApiCall {
    pub operation: &'static str,
    pub method: Method,
    pub path: String,
    pub body: Option<Vec<u8>>,
}

/// The value of an [`ApiCall`].
pub struct ApiCallView {
    pub operation: Seq<char>,
    pub method: Method,
    pub path: Seq<char>,
    pub body: Option<Seq<u8>>,
}

impl View for ApiCall {
    type V = ApiCallView;

    open spec fn view(&self) -> ApiCallView {
        ApiCallView {
            operation: self.operation@,
            method: self.method,
            path: self.path@,
            body: option_bytes(self.body),
        }
    }
}

/// The request of a call with a token. What carries a body says that it is
/// JSON.
pub open spec fn call_request(call: ApiCallView, token: Seq<char>) -> HttpRequestView {
    let bearer = ("authorization"@, "Bearer "@ + token);
    HttpRequestView {
        upstream: Upstream::AgentforceApi,
        method: call.method,
        path: Some(call.path),
        headers: match call.body {
            Some(_) => seq![
                bearer,
                ("content-type"@, "application/json"@),
                ("accept"@, "application/json"@),
            ],
            None => seq![bearer],
        },
        body: call.body,
        timeout_ms: None,
    }
}

fn request_of(call: &ApiCall, token: &str) -> (r: HttpRequest)
    ensures
        r@ == call_request(call@, token@),
{
    let bearer: String = concat2("Bearer ", token);
    let mut headers: Vec<(String, String)> = vec![header("authorization", bearer.as_str())];
    let body: Option<Vec<u8>> = match &call.body {
        Some(b) => {
            headers.push(header("content-type", "application/json"));
            headers.push(header("accept", "application/json"));
            Some(copy_bytes(b.as_slice()))
        },
        None => None,
    };
    assert(pairs_view(headers@) =~= call_request(call@, token@).headers);
    HttpRequest {
        upstream: Upstream::AgentforceApi,
        method: call.method,
        path: Some(call.path.clone()),
        headers,
        body,
        timeout_ms: None,
    }
}

/// Whether a status means that the call was carried out. A session that is gone
/// counts as deleted.
pub open spec fn accepted(method: Method, status: u32) -> bool {
    success(status) || (method is Delete && status == 404)
}

/// What a reply to a call comes to: the body, or an error.
pub open spec fn answer_of(call: ApiCallView, reply: HttpReplyView) -> Result<
    Seq<u8>,
    ClientErrorView,
> {
    match reply {
        HttpReplyView::Failed(e) => Err(ClientErrorView::Transport { source: e }),
        HttpReplyView::Answered { status, body } => if accepted(call.method, status) {
            Ok(body)
        } else {
            Err(
                ClientErrorView::HttpStatus {
                    operation: call.operation,
                    status,
                    body: redacted(body),
                },
            )
        },
    }
}

/// Whether a call was refused for its token.
pub open spec fn unauthorized(r: Result<Seq<u8>, ClientErrorView>) -> bool {
    r matches Err(ClientErrorView::HttpStatus { status, .. }) && status == 401
}

/// The value of a call's outcome.
pub open spec fn call_result(r: Result<Vec<u8>, ClientError>) -> Result<Seq<u8>, ClientErrorView> {
    match r {
        Ok(b) => Ok(b@),
        Err(e) => Err(e@),
    }
}

fn answered(call: &ApiCall, reply: HttpReply) -> (r: Result<Vec<u8>, ClientError>)
    ensures
        call_result(r) == answer_of(call@, reply@),
{
    match reply {
        HttpReply::Failed(e) => Err(ClientError::Transport { source: e }),
        HttpReply::Answered { status, body } => {
            let gone: bool = match call.method {
                Method::Delete => status == 404,
                _ => false,
            };
            if is_success(status) || gone {
                Ok(body)
            } else {
                Err(
                    ClientError::HttpStatus {
                        operation: call.operation,
                        status,
                        body: redact_body(body.as_slice()),
                    },
                )
            }
        },
    }
}

/// Making a call with a token, once.
pub open spec fn attempt_run(
    auth: AgentforceAuthConfigView,
    call: ApiCallView,
    now: u64,
    refresh: bool,
    h: Seq<AnswerView>,
) -> Run<Result<Seq<u8>, ClientErrorView>> {
    match auth_run(auth, now, refresh, h) {
        Run::Do(a) => Run::Do(a),
        Run::Done(Err(e), h1) => Run::Done(Err(ClientErrorView::Auth(e)), h1),
        Run::Done(Ok(token), h1) => match send_run(call_request(call, token), h1) {
            Run::Do(a) => Run::Do(a),
            Run::Done(reply, h2) => Run::Done(answer_of(call, reply), h2),
        },
    }
}

/// Making a call, and making it once more with a fresh token where it was
/// refused for its token.
pub open spec fn call_run(
    auth: AgentforceAuthConfigView,
    call: ApiCallView,
    now: u64,
    h: Seq<AnswerView>,
) -> Run<Result<Seq<u8>, ClientErrorView>> {
    match attempt_run(auth, call, now, false, h) {
        Run::Do(a) => Run::Do(a),
        Run::Done(first, h1) => if unauthorized(first) {
            match attempt_run(auth, call, now, true, h1) {
                Run::Do(a) => Run::Do(a),
                Run::Done(second, h2) => if unauthorized(second) {
                    Run::Done(Err(ClientErrorView::AuthRejected), h2)
                } else {
                    Run::Done(second, h2)
                },
            }
        } else {
            Run::Done(first, h1)
        },
    }
}

fn attempt(auth: &AgentforceAuth, call: &ApiCall, now: u64, refresh: bool, record: &mut Record) -> (r:
    Progress<Result<Vec<u8>, ClientError>>)
    ensures
        match r {
            Progress::Do(a) => attempt_run(auth@, call@, now, refresh, old(record)@) == Run::<
                Result<Seq<u8>, ClientErrorView>,
            >::Do(a@),
            Progress::Done(v) => attempt_run(auth@, call@, now, refresh, old(record)@)
                == Run::Done(call_result(v), final(record)@),
        },
{
    let token: String = match auth.get_token(record, now, refresh) {
        Progress::Do(a) => {
            return Progress::Do(a);
        },
        Progress::Done(Err(e)) => {
            return Progress::Done(Err(ClientError::Auth(e)));
        },
        Progress::Done(Ok(t)) => t,
    };
    match send(record, request_of(call, token.as_str())) {
        Progress::Do(a) => Progress::Do(a),
        Progress::Done(reply) => Progress::Done(answered(call, reply)),
    }
}

fn is_unauthorized(r: &Result<Vec<u8>, ClientError>) -> (b: bool)
    ensures
        b == unauthorized(call_result(*r)),
{
    match r {
        Err(ClientError::HttpStatus { status, .. }) => *status == 401,
        _ => false,
    }
}

fn make_call(auth: &AgentforceAuth, call: &ApiCall, now: u64, record: &mut Record) -> (r: Progress<
    Result<Vec<u8>, ClientError>,
>)
    ensures
        match r {
            Progress::Do(a) => call_run(auth@, call@, now, old(record)@) == Run::<
                Result<Seq<u8>, ClientErrorView>,
            >::Do(a@),
            Progress::Done(v) => call_run(auth@, call@, now, old(record)@) == Run::Done(
                call_result(v),
                final(record)@,
            ),
        },
{
    let first: Result<Vec<u8>, ClientError> = match attempt(auth, call, now, false, record) {
        Progress::Do(a) => {
            return Progress::Do(a);
        },
        Progress::Done(v) => v,
    };
    if !is_unauthorized(&first) {
        return Progress::Done(first);
    }
    let second: Result<Vec<u8>, ClientError> = match attempt(auth, call, now, true, record) {
        Progress::Do(a) => {
            return Progress::Do(a);
        },
        Progress::Done(v) => v,
    };
    if is_unauthorized(&second) {
        Progress::Done(Err(ClientError::AuthRejected))
    } else {
        Progress::Done(second)
    }
}

/// The client of the API.
#[derive(Debug, PartialEq, Eq)]
pub struct AgentforceClient {
    pub auth: AgentforceAuth,
    /// The path that every call's path begins with; empty where there is none.
    api_base_path: String,
    /// The Salesforce domain that a session is told of.
    my_domain_url_value: String,
    agent_id: String,
    bypass_user: bool,
}

/// The value of an [`AgentforceClient`].
pub struct AgentforceClientView {
    pub auth: AgentforceAuthConfigView,
    pub api_base_path: Seq<char>,
    pub my_domain_url_value: Seq<char>,
    pub agent_id: Seq<char>,
    pub bypass_user: bool,
}

impl View for AgentforceClient {
    type V = AgentforceClientView;

    closed spec fn view(&self) -> AgentforceClientView {
        AgentforceClientView {
            auth: self.auth@,
            api_base_path: self.api_base_path@,
            my_domain_url_value: self.my_domain_url_value@,
            agent_id: self.agent_id@,
            bypass_user: self.bypass_user,
        }
    }
}

/// The call that starts a session.
pub open spec fn start_session_call(c: AgentforceClientView, external_session_key: Seq<char>) -> ApiCallView {
    ApiCallView {
        operation: "startSession"@,
        method: Method::Post,
        path: joined_path(
            c.api_base_path,
            "/agents/"@ + url_encoded(c.agent_id) + "/sessions"@,
        ),
        body: Some(
            bytes_of_json(
                start_session_json(external_session_key, c.my_domain_url_value, c.bypass_user),
            ),
        ),
    }
}

/// The call that sends a message.
pub open spec fn send_message_call(
    c: AgentforceClientView,
    session_id: Seq<char>,
    text: Seq<char>,
    sequence_id: u32,
) -> ApiCallView {
    ApiCallView {
        operation: "sendMessage"@,
        method: Method::Post,
        path: joined_path(
            c.api_base_path,
            "/sessions/"@ + url_encoded(session_id) + "/messages"@,
        ),
        body: Some(bytes_of_json(send_message_json(text, sequence_id))),
    }
}

/// The call that ends a session.
pub open spec fn end_session_call(c: AgentforceClientView, session_id: Seq<char>) -> ApiCallView {
    ApiCallView {
        operation: "endSession"@,
        method: Method::Delete,
        path: joined_path(c.api_base_path, "/sessions/"@ + url_encoded(session_id)),
        body: None,
    }
}

/// What a started session comes to, by the body of the answer.
pub open spec fn session_of(body: Seq<u8>) -> Result<StartSessionResponseView, ClientErrorView> {
    match session_answer(record_of_bytes(Rec::StartSession, body)) {
        Err(e) => Err(ClientErrorView::BadJson(e)),
        Ok(s) => if s.session_id.len() == 0 {
            Err(ClientErrorView::MissingField("sessionId"@))
        } else {
            Ok(s)
        },
    }
}

/// What a sent message comes to, by the body of the answer.
pub open spec fn message_of(body: Seq<u8>) -> Result<SendMessageResponseView, ClientErrorView> {
    match message_answer(record_of_bytes(Rec::SendMessage, body)) {
        Err(e) => Err(ClientErrorView::BadJson(e)),
        Ok(m) => Ok(m),
    }
}

/// Starting a session.
pub open spec fn start_session_run(
    c: AgentforceClientView,
    external_session_key: Seq<char>,
    now: u64,
    h: Seq<AnswerView>,
) -> Run<Result<StartSessionResponseView, ClientErrorView>> {
    match call_run(c.auth, start_session_call(c, external_session_key), now, h) {
        Run::Do(a) => Run::Do(a),
        Run::Done(Err(e), h1) => Run::Done(Err(e), h1),
        Run::Done(Ok(body), h1) => Run::Done(session_of(body), h1),
    }
}

/// Sending a message.
pub open spec fn send_message_run(
    c: AgentforceClientView,
    session_id: Seq<char>,
    text: Seq<char>,
    sequence_id: u32,
    now: u64,
    h: Seq<AnswerView>,
) -> Run<Result<SendMessageResponseView, ClientErrorView>> {
    match call_run(c.auth, send_message_call(c, session_id, text, sequence_id), now, h) {
        Run::Do(a) => Run::Do(a),
        Run::Done(Err(e), h1) => Run::Done(Err(e), h1),
        Run::Done(Ok(body), h1) => Run::Done(message_of(body), h1),
    }
}

/// Ending a session.
pub open spec fn end_session_run(
    c: AgentforceClientView,
    session_id: Seq<char>,
    now: u64,
    h: Seq<AnswerView>,
) -> Run<Result<(), ClientErrorView>> {
    match call_run(c.auth, end_session_call(c, session_id), now, h) {
        Run::Do(a) => Run::Do(a),
        Run::Done(Err(e), h1) => Run::Done(Err(e), h1),
        Run::Done(Ok(_), h1) => Run::Done(Ok(()), h1),
    }
}

/// The value of a started session.
pub open spec fn session_result(r: Result<StartSessionResponse, ClientError>) -> Result<
    StartSessionResponseView,
    ClientErrorView,
> {
    match r {
        Ok(s) => Ok(s@),
        Err(e) => Err(e@),
    }
}

/// The value of a sent message.
pub open spec fn message_result(r: Result<SendMessageResponse, ClientError>) -> Result<
    SendMessageResponseView,
    ClientErrorView,
> {
    match r {
        Ok(s) => Ok(s@),
        Err(e) => Err(e@),
    }
}

/// The value of an ended session.
pub open spec fn end_result(r: Result<(), ClientError>) -> Result<(), ClientErrorView> {
    match r {
        Ok(_) => Ok(()),
        Err(e) => Err(e@),
    }
}

impl AgentforceClient {
    /// The client with that configuration.
    pub fn new(
        auth: AgentforceAuth,
        api_base_path: String,
        my_domain_url_value: String,
        agent_id: String,
        bypass_user: bool,
    ) -> (r: AgentforceClient)
        ensures
            r@ == (AgentforceClientView {
                auth: auth@,
                api_base_path: base_path(api_base_path@),
                my_domain_url_value: my_domain_url_value@,
                agent_id: agent_id@,
                bypass_user,
            }),
    {
        AgentforceClient {
            auth,
            api_base_path: normalize_base_path(api_base_path.as_str()),
            my_domain_url_value,
            agent_id,
            bypass_user,
        }
    }

    /// The base path with a relative path behind it, and one slash between them.
    pub fn full_path(&self, rel: &str) -> (r: String)
        ensures
            r@ == joined_path(self@.api_base_path, rel@),
    {
        let tail: String = trim_start_char(rel, '/');
        concat3(self.api_base_path.as_str(), "/", tail.as_str())
    }

    /// Starts a session.
    pub fn start_session(
        &self,
        record: &mut Record,
        external_session_key: &str,
        now_unix: u64,
    ) -> (r: Progress<Result<StartSessionResponse, ClientError>>)
        ensures
            match r {
                Progress::Do(a) => start_session_run(
                    self@,
                    external_session_key@,
                    now_unix,
                    old(record)@,
                ) == Run::<Result<StartSessionResponseView, ClientErrorView>>::Do(a@),
                Progress::Done(v) => start_session_run(
                    self@,
                    external_session_key@,
                    now_unix,
                    old(record)@,
                ) == Run::Done(session_result(v), final(record)@),
            },
    {
        let body: Json = start_session_body(
            external_session_key,
            self.my_domain_url_value.as_str(),
            self.bypass_user,
        );
        let rel: String = concat3("/agents/", url_encode(self.agent_id.as_str()).as_str(), "/sessions");
        let call = ApiCall {
            operation: "startSession",
            method: Method::Post,
            path: self.full_path(rel.as_str()),
            body: Some(write_json(&body)),
        };
        let answer: Vec<u8> = match make_call(&self.auth, &call, now_unix, record) {
            Progress::Do(a) => {
                return Progress::Do(a);
            },
            Progress::Done(Err(e)) => {
                return Progress::Done(Err(e));
            },
            Progress::Done(Ok(b)) => b,
        };
        match StartSessionResponse::of(read_record(Rec::StartSession, answer.as_slice())) {
            Err(e) => Progress::Done(Err(ClientError::BadJson(e))),
            Ok(s) => if s.session_id.as_str().is_empty() {
                Progress::Done(Err(ClientError::MissingField("sessionId")))
            } else {
                Progress::Done(Ok(s))
            },
        }
    }

    /// Sends a message.
    pub fn send_message(
        &self,
        record: &mut Record,
        session_id: &str,
        text: &str,
        sequence_id: u32,
        now_unix: u64,
    ) -> (r: Progress<Result<SendMessageResponse, ClientError>>)
        ensures
            match r {
                Progress::Do(a) => send_message_run(
                    self@,
                    session_id@,
                    text@,
                    sequence_id,
                    now_unix,
                    old(record)@,
                ) == Run::<Result<SendMessageResponseView, ClientErrorView>>::Do(a@),
                Progress::Done(v) => send_message_run(
                    self@,
                    session_id@,
                    text@,
                    sequence_id,
                    now_unix,
                    old(record)@,
                ) == Run::Done(message_result(v), final(record)@),
            },
    {
        let rel: String = concat3("/sessions/", url_encode(session_id).as_str(), "/messages");
        let call = ApiCall {
            operation: "sendMessage",
            method: Method::Post,
            path: self.full_path(rel.as_str()),
            body: Some(write_json(&send_message_body(text, sequence_id))),
        };
        let answer: Vec<u8> = match make_call(&self.auth, &call, now_unix, record) {
            Progress::Do(a) => {
                return Progress::Do(a);
            },
            Progress::Done(Err(e)) => {
                return Progress::Done(Err(e));
            },
            Progress::Done(Ok(b)) => b,
        };
        match SendMessageResponse::of(read_record(Rec::SendMessage, answer.as_slice())) {
            Err(e) => Progress::Done(Err(ClientError::BadJson(e))),
            Ok(m) => Progress::Done(Ok(m)),
        }
    }

    /// Ends a session.
    pub fn end_session(&self, record: &mut Record, session_id: &str, now_unix: u64) -> (r: Progress<
        Result<(), ClientError>,
    >)
        ensures
            match r {
                Progress::Do(a) => end_session_run(self@, session_id@, now_unix, old(record)@)
                    == Run::<Result<(), ClientErrorView>>::Do(a@),
                Progress::Done(v) => end_session_run(self@, session_id@, now_unix, old(record)@)
                    == Run::Done(end_result(v), final(record)@),
            },
    {
        let rel: String = concat2("/sessions/", url_encode(session_id).as_str());
        let call = ApiCall {
            operation: "endSession",
            method: Method::Delete,
            path: self.full_path(rel.as_str()),
            body: None,
        };
        match make_call(&self.auth, &call, now_unix, record) {
            Progress::Do(a) => Progress::Do(a),
            Progress::Done(Err(e)) => Progress::Done(Err(e)),
            Progress::Done(Ok(_)) => Progress::Done(Ok(())),
        }
    }
}

/// A base path is empty, or has exactly one slash in front and none at the end.
pub proof fn base_path_shape(raw: Seq<char>)
    ensures
        base_path(raw).len() > 0 ==> base_path(raw).len() > 1 && base_path(raw)[0] == '/'
            && base_path(raw)[1] != '/' && base_path(raw).last() != '/',
{
    reveal_strlit("/");
    let tail = trim_start_of(trimmed(raw), '/');
    lemma_trim_start_of(trimmed(raw), '/');
    lemma_trim_end_of(tail, '/');
}

/// A full path begins with a slash, and exactly one slash stands where the relative
/// path begins, however many the relative path has in front. A relative path with
/// one slash in front goes behind the base path as it is.
pub proof fn one_slash_at_the_seam(raw: Seq<char>, rel: Seq<char>)
    ensures
        ({
            let base = base_path(raw);
            let path = joined_path(base, rel);
            let seam = base.len() as int;
            &&& path.len() > seam
            &&& path[0] == '/'
            &&& path[seam] == '/'
            &&& seam > 0 ==> path[seam - 1] != '/'
            &&& path.len() > seam + 1 ==> path[seam + 1] != '/'
            &&& rel.len() > 0 && rel[0] == '/' && (rel.len() > 1 ==> rel[1] != '/') ==> path == base
                + rel
        }),
{
    reveal_strlit("/");
    base_path_shape(raw);
    lemma_trim_start_of(rel, '/');
    if rel.len() > 0 && rel[0] == '/' && (rel.len() > 1 ==> rel[1] != '/') {
        assert(trim_start_of(rel.drop_first(), '/') == rel.drop_first());
        assert("/"@ + rel.drop_first() =~= rel);
        assert(joined_path(base_path(raw), rel) =~= base_path(raw) + rel);
    }
}

/// A call that was refused for its token is made once more with a fresh one,
/// and that attempt is the last: a second refusal comes to `AuthRejected`, and
/// any other outcome is the call's outcome.
pub proof fn refused_call_is_retried_once(
    auth: AgentforceAuthConfigView,
    call: ApiCallView,
    now: u64,
    h: Seq<AnswerView>,
    first: Seq<char>,
    h1: Seq<AnswerView>,
    second: Seq<char>,
    h2: Seq<AnswerView>,
)
    requires
        auth_run(auth, now, false, h) == Run::Done(Ok::<_, AuthErrorView>(first), h1),
        h1.len() > 0,
        unauthorized(answer_of(call, crate::effects::reply_of(h1[0]))),
        auth_run(auth, now, true, h1.drop_first()) == Run::Done(
            Ok::<_, AuthErrorView>(second),
            h2,
        ),
    ensures
        h2.len() == 0 ==> call_run(auth, call, now, h) == Run::<
            Result<Seq<u8>, ClientErrorView>,
        >::Do(ActionView::Send(call_request(call, second))),
        h2.len() > 0 ==> call_run(auth, call, now, h) == Run::Done(
            if unauthorized(answer_of(call, crate::effects::reply_of(h2[0]))) {
                Err(ClientErrorView::AuthRejected)
            } else {
                answer_of(call, crate::effects::reply_of(h2[0]))
            },
            h2.drop_first(),
        ),
{
}

/// A call that was not refused for its token is made once.
pub proof fn accepted_call_is_made_once(
    auth: AgentforceAuthConfigView,
    call: ApiCallView,
    now: u64,
    h: Seq<AnswerView>,
    token: Seq<char>,
    h1: Seq<AnswerView>,
)
    requires
        auth_run(auth, now, false, h) == Run::Done(Ok::<_, AuthErrorView>(token), h1),
        h1.len() > 0,
        !unauthorized(answer_of(call, crate::effects::reply_of(h1[0]))),
    ensures
        call_run(auth, call, now, h) == Run::Done(
            answer_of(call, crate::effects::reply_of(h1[0])),
            h1.drop_first(),
        ),
{
}

/// Ending a session that is already gone is no error.
pub proof fn missing_session_counts_as_ended(c: AgentforceClientView, session_id: Seq<char>, body: Seq<u8>)
    ensures
        answer_of(
            end_session_call(c, session_id),
            HttpReplyView::Answered { status: 404, body },
        ) == Ok::<Seq<u8>, ClientErrorView>(body),
{
}

} // verus!
