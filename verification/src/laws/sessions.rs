//! The calls of the Agentforce API, as they go out and as they are answered.

use vstd::prelude::*;
use vstd::utf8::encode_utf8;

use crate::agentforce::auth::{auth_run, AgentforceAuthConfigView, AuthErrorView};
use crate::agentforce::client::{
    base_path, call_run, end_session_run, joined_path, message_answer, redacted, send_message_run,
    session_answer, start_session_run, AgentforceClientView, ApiCallView, ClientErrorView,
    SendMessageResponseView, StartSessionResponseView,
};
use crate::decode::{record_of_bytes, shape_error, Rec, Shape};
use crate::effects::{
    ActionView, AnswerView, HttpReplyView, HttpRequestView, Method, Run, Upstream,
};
use crate::encoding::{lossy_text, url_encoded};
use crate::json::{bytes_of_json, member, JsonView, MembersView, NumberView};
use crate::laws::text::{cutting_takes_every_one, trimming_takes_white_space};
use crate::text::{blank, decimal, trim_start_of, whitespace};

verus! {

proof fn lemma_rooted(base: Seq<char>, rel: Seq<char>)
    requires
        rel.len() > 1,
        rel[0] == '/',
        rel[1] != '/',
    ensures
        joined_path(base, rel) == base + rel,
{
    reveal_strlit("/");
    reveal_with_fuel(trim_start_of, 2);
    assert("/"@ + rel.drop_first() =~= rel);
    assert(trim_start_of(rel, '/') == rel.drop_first());
    assert(joined_path(base, rel) =~= base + rel);
}

/// A session is started with a `POST` for the agent: under the caller's key, for the
/// configured Salesforce address, without streaming, and for the configured kind of
/// user.
pub proof fn session_is_started_for_the_agent(
    c: AgentforceClientView,
    key: Seq<char>,
    now: u64,
    h: Seq<AnswerView>,
    token: Seq<char>,
)
    requires
        auth_run(c.auth, now, false, h) == Run::Done(Ok::<_, AuthErrorView>(token), Seq::empty()),
    ensures
        start_session_run(c, key, now, h) == Run::<
            Result<StartSessionResponseView, ClientErrorView>,
        >::Do(
            ActionView::Send(
                HttpRequestView {
                    upstream: Upstream::AgentforceApi,
                    method: Method::Post,
                    path: Some(
                        c.api_base_path + ("/agents/"@ + url_encoded(c.agent_id) + "/sessions"@),
                    ),
                    headers: seq![
                        ("authorization"@, "Bearer "@ + token),
                        ("content-type"@, "application/json"@),
                        ("accept"@, "application/json"@),
                    ],
                    body: Some(
                        bytes_of_json(
                            JsonView::Object(
                                seq![
                                    ("externalSessionKey"@, JsonView::Text(key)),
                                    (
                                        "instanceConfig"@,
                                        JsonView::Object(
                                            seq![
                                                (
                                                    "endpoint"@,
                                                    JsonView::Text(c.my_domain_url_value),
                                                ),
                                            ],
                                        ),
                                    ),
                                    ("featureSupport"@, JsonView::Text("Sync"@)),
                                    (
                                        "streamingCapabilities"@,
                                        JsonView::Object(
                                            seq![
                                                (
                                                    "chunkTypes"@,
                                                    JsonView::Array(seq![JsonView::Text("Text"@)]),
                                                ),
                                            ],
                                        ),
                                    ),
                                    ("bypassUser"@, JsonView::Bool(c.bypass_user)),
                                ],
                            ),
                        ),
                    ),
                    timeout_ms: None,
                },
            ),
        ),
{
    let rel = "/agents/"@ + url_encoded(c.agent_id) + "/sessions"@;
    reveal_strlit("/agents/");
    lemma_rooted(c.api_base_path, rel);
}

/// A message goes to its session with a `POST`, under its number and with its text.
pub proof fn message_goes_to_its_session(
    c: AgentforceClientView,
    session_id: Seq<char>,
    text: Seq<char>,
    number: u32,
    now: u64,
    h: Seq<AnswerView>,
    token: Seq<char>,
)
    requires
        auth_run(c.auth, now, false, h) == Run::Done(Ok::<_, AuthErrorView>(token), Seq::empty()),
    ensures
        send_message_run(c, session_id, text, number, now, h) == Run::<
            Result<SendMessageResponseView, ClientErrorView>,
        >::Do(
            ActionView::Send(
                HttpRequestView {
                    upstream: Upstream::AgentforceApi,
                    method: Method::Post,
                    path: Some(
                        c.api_base_path + ("/sessions/"@ + url_encoded(session_id) + "/messages"@),
                    ),
                    headers: seq![
                        ("authorization"@, "Bearer "@ + token),
                        ("content-type"@, "application/json"@),
                        ("accept"@, "application/json"@),
                    ],
                    body: Some(
                        bytes_of_json(
                            JsonView::Object(
                                seq![
                                    (
                                        "message"@,
                                        JsonView::Object(
                                            seq![
                                                ("type"@, JsonView::Text("Text"@)),
                                                (
                                                    "sequenceId"@,
                                                    JsonView::Number(
                                                        NumberView::PosInt(number as u64),
                                                    ),
                                                ),
                                                ("text"@, JsonView::Text(text)),
                                            ],
                                        ),
                                    ),
                                ],
                            ),
                        ),
                    ),
                    timeout_ms: None,
                },
            ),
        ),
{
    let rel = "/sessions/"@ + url_encoded(session_id) + "/messages"@;
    reveal_strlit("/sessions/");
    lemma_rooted(c.api_base_path, rel);
}

/// A session is ended with a `DELETE` of it.
pub proof fn session_is_ended_by_its_id(
    c: AgentforceClientView,
    session_id: Seq<char>,
    now: u64,
    h: Seq<AnswerView>,
    token: Seq<char>,
)
    requires
        auth_run(c.auth, now, false, h) == Run::Done(Ok::<_, AuthErrorView>(token), Seq::empty()),
    ensures
        end_session_run(c, session_id, now, h) == Run::<Result<(), ClientErrorView>>::Do(
            ActionView::Send(
                HttpRequestView {
                    upstream: Upstream::AgentforceApi,
                    method: Method::Delete,
                    path: Some(c.api_base_path + ("/sessions/"@ + url_encoded(session_id))),
                    headers: seq![("authorization"@, "Bearer "@ + token)],
                    body: None,
                    timeout_ms: None,
                },
            ),
        ),
{
    let rel = "/sessions/"@ + url_encoded(session_id);
    reveal_strlit("/sessions/");
    lemma_rooted(c.api_base_path, rel);
}

/// A reply with a status from 200 to 299 brings what its body holds; a `DELETE` takes
/// 404 for success too. Any other status but 401, and a failed transport, is an error
/// that names the call. Nothing more is asked for then.
pub proof fn replies_are_judged_by_status(
    c: AgentforceClientView,
    key: Seq<char>,
    text: Seq<char>,
    number: u32,
    now: u64,
    h: Seq<AnswerView>,
    token: Seq<char>,
    h1: Seq<AnswerView>,
    status: u32,
    body: Seq<u8>,
    rest: Seq<AnswerView>,
)
    requires
        auth_run(c.auth, now, false, h) == Run::Done(Ok::<_, AuthErrorView>(token), h1),
        h1 == seq![AnswerView::Reply(HttpReplyView::Answered { status, body })] + rest,
        status != 401,
    ensures
        200 <= status <= 299 ==> {
            &&& start_session_run(c, key, now, h) == Run::Done(
                match session_answer(record_of_bytes(Rec::StartSession, body)) {
                    Err(e) => Err(ClientErrorView::BadJson(e)),
                    Ok(s) => if s.session_id == Seq::<char>::empty() {
                        Err(ClientErrorView::MissingField("sessionId"@))
                    } else {
                        Ok(s)
                    },
                },
                rest,
            )
            &&& send_message_run(c, key, text, number, now, h) == Run::Done(
                match message_answer(record_of_bytes(Rec::SendMessage, body)) {
                    Err(e) => Err(ClientErrorView::BadJson(e)),
                    Ok(m) => Ok(m),
                },
                rest,
            )
        },
        200 <= status <= 299 || status == 404 ==> end_session_run(c, key, now, h) == Run::Done(
            Ok::<(), ClientErrorView>(()),
            rest,
        ),
        !(200 <= status <= 299) ==> {
            &&& start_session_run(c, key, now, h) == Run::Done(
                Err::<StartSessionResponseView, _>(
                    ClientErrorView::HttpStatus {
                        operation: "startSession"@,
                        status,
                        body: redacted(body),
                    },
                ),
                rest,
            )
            &&& send_message_run(c, key, text, number, now, h) == Run::Done(
                Err::<SendMessageResponseView, _>(
                    ClientErrorView::HttpStatus {
                        operation: "sendMessage"@,
                        status,
                        body: redacted(body),
                    },
                ),
                rest,
            )
            &&& status != 404 ==> end_session_run(c, key, now, h) == Run::Done(
                Err::<(), _>(
                    ClientErrorView::HttpStatus {
                        operation: "endSession"@,
                        status,
                        body: redacted(body),
                    },
                ),
                rest,
            )
        },
{
    assert(h1.drop_first() =~= rest);
    if let Ok(s) = session_answer(record_of_bytes(Rec::StartSession, body)) {
        assert(s.session_id.len() == 0 <==> s.session_id =~= Seq::<char>::empty());
    }
}

/// A transport that fails, and a token that cannot be got, are told apart from an
/// answer.
pub proof fn failures_are_told_apart(
    c: AgentforceClientView,
    key: Seq<char>,
    text: Seq<char>,
    number: u32,
    now: u64,
    h: Seq<AnswerView>,
    token: Seq<char>,
    h1: Seq<AnswerView>,
    source: Seq<char>,
    rest: Seq<AnswerView>,
    e: AuthErrorView,
)
    ensures
        auth_run(c.auth, now, false, h) == Run::Done(Ok::<_, AuthErrorView>(token), h1) && h1
            == seq![AnswerView::Reply(HttpReplyView::Failed(source))] + rest ==> {
            &&& start_session_run(c, key, now, h) == Run::Done(
                Err::<StartSessionResponseView, _>(ClientErrorView::Transport { source }),
                rest,
            )
            &&& send_message_run(c, key, text, number, now, h) == Run::Done(
                Err::<SendMessageResponseView, _>(ClientErrorView::Transport { source }),
                rest,
            )
            &&& end_session_run(c, key, now, h) == Run::Done(
                Err::<(), _>(ClientErrorView::Transport { source }),
                rest,
            )
        },
        auth_run(c.auth, now, false, h) == Run::Done(Err::<Seq<char>, _>(e), rest) ==> {
            &&& start_session_run(c, key, now, h) == Run::Done(
                Err::<StartSessionResponseView, _>(ClientErrorView::Auth(e)),
                rest,
            )
            &&& send_message_run(c, key, text, number, now, h) == Run::Done(
                Err::<SendMessageResponseView, _>(ClientErrorView::Auth(e)),
                rest,
            )
            &&& end_session_run(c, key, now, h) == Run::Done(
                Err::<(), _>(ClientErrorView::Auth(e)),
                rest,
            )
        },
{
    assert((seq![AnswerView::Reply(HttpReplyView::Failed(source))] + rest).drop_first() =~= rest);
}

/// After a 401 the token is got anew and the same request goes out once more with it;
/// a second 401 is the end of it.
pub proof fn refused_token_is_replaced_once(
    auth: AgentforceAuthConfigView,
    call: ApiCallView,
    now: u64,
    h: Seq<AnswerView>,
    first: Seq<char>,
    body: Seq<u8>,
    between: Seq<AnswerView>,
    second: Seq<char>,
    after: Seq<AnswerView>,
)
    requires
        auth_run(auth, now, false, h) == Run::Done(
            Ok::<_, AuthErrorView>(first),
            seq![AnswerView::Reply(HttpReplyView::Answered { status: 401, body })] + between,
        ),
    ensures
        auth_run(auth, now, true, between) matches Run::Do(a) ==> call_run(auth, call, now, h)
            == Run::<Result<Seq<u8>, ClientErrorView>>::Do(a),
        auth_run(auth, now, true, between) == Run::Done(Ok::<_, AuthErrorView>(second), after) ==> {
            &&& after.len() == 0 ==> (call_run(auth, call, now, h) matches Run::Do(
                ActionView::Send(r),
            ) && r.path == Some(call.path) && r.method == call.method && r.body == call.body
                && r.headers.len() > 0 && r.headers[0] == ("authorization"@, "Bearer "@ + second))
            &&& after.len() > 0 && (after[0] matches AnswerView::Reply(
                HttpReplyView::Answered { status, .. },
            ) && status == 401) ==> call_run(auth, call, now, h) == Run::Done(
                Err::<Seq<u8>, _>(ClientErrorView::AuthRejected),
                after.drop_first(),
            )
        },
        auth_run(auth, now, true, between) matches Run::Done(Err(e), rest) ==> call_run(
            auth,
            call,
            now,
            h,
        ) == Run::Done(Err::<Seq<u8>, _>(ClientErrorView::Auth(e)), rest),
{
    let whole = seq![AnswerView::Reply(HttpReplyView::Answered { status: 401, body })] + between;
    assert(whole.drop_first() =~= between);
}

/// What an answer's document holds under `sessionId` is the session's id.
pub proof fn session_id_is_read(o: MembersView, id: Seq<char>)
    requires
        shape_error(Shape::Record(Rec::StartSession), JsonView::Object(o)) is None,
        member(o, "sessionId"@) == Some(JsonView::Text(id)),
    ensures
        session_answer(Ok(JsonView::Object(o))) matches Ok(s) && s.session_id == id,
        forall|e: Seq<char>| (#[trigger] session_answer(Err(e))) == Err::<
            StartSessionResponseView,
            _,
        >(e),
        forall|e: Seq<char>| (#[trigger] message_answer(Err(e))) == Err::<
            SendMessageResponseView,
            _,
        >(e),
{
}

/// A base path is the path between the slashes and the white space around it, with one
/// slash in front; slashes and white space alone are none.
pub proof fn base_path_is_the_core(
    before: Seq<char>,
    m: nat,
    core: Seq<char>,
    n: nat,
    after: Seq<char>,
)
    requires
        blank(before),
        blank(after),
        core.len() > 0 ==> core[0] != '/' && core.last() != '/' && !whitespace(core[0])
            && !whitespace(core.last()),
    ensures
        base_path(
            before + (Seq::new(m, |i: int| '/') + core + Seq::new(n, |i: int| '/')) + after,
        ) == (if core.len() == 0 {
            core
        } else {
            seq!['/'] + core
        }),
{
    let left = Seq::new(m, |i: int| '/');
    let right = Seq::new(n, |i: int| '/');
    let middle = left + core + right;
    reveal_strlit("/");
    assert(!whitespace('/'));
    if middle.len() > 0 {
        assert(middle[0] == '/' || middle[0] == core[0]);
        assert(middle.last() == '/' || middle.last() == core.last());
    }
    trimming_takes_white_space(before, middle, after);
    if core.len() == 0 {
        let both = Seq::new(m + n, |i: int| '/');
        assert(middle =~= both + core);
        cutting_takes_every_one(core, '/', m + n);
        cutting_takes_every_one(core, '/', 0);
        assert(core + Seq::new(0, |i: int| '/') =~= core);
        assert(core =~= Seq::empty());
    } else {
        let tail = core + right;
        assert(middle =~= left + tail);
        assert(tail[0] == core[0]);
        cutting_takes_every_one(tail, '/', m);
        cutting_takes_every_one(core, '/', n);
        assert("/"@ + core =~= seq!['/'] + core);
    }
}

/// A body of at most 512 bytes is told as it is; of a longer one the first 512
/// characters, and how many bytes it had.
pub proof fn long_bodies_are_shortened(body: Seq<u8>)
    ensures
        ({
            let s = lossy_text(body);
            let size = encode_utf8(s).len();
            &&& size <= 512 ==> redacted(body) == s
            &&& size > 512 && s.len() > 512 ==> redacted(body) == s.take(512) + "...("@ + decimal(
                size,
            ) + " bytes)"@
            &&& size > 512 && s.len() <= 512 ==> redacted(body) == s + "...("@ + decimal(size)
                + " bytes)"@
        }),
{
}

} // verus!
