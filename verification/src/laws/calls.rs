//! How calls are read and answered.

use vstd::prelude::*;
use vstd::utf8::encode_utf8;

use crate::a2a::methods::{dispatch_run, params_of};
use crate::a2a::types::{
    message_json, message_round_trip, plain_message, MessageSendParams, MessageView, TaskIdParams,
    TaskQueryParams,
};
use crate::clock::timestamp;
use crate::decode::{
    fields, lemma_field_index, lemma_members_push, lemma_nothing_absent, members_error, shape_error,
    Rec, Shape,
};
use crate::effects::{AnswerView, Run};
use crate::gateway::{
    request_run, response_run, A2APendingView, FlowView, PolicyView, ResponseView,
};
use crate::json::{
    bytes_of_json, json_of_bytes, lemma_member_push, member, JsonView, MembersView, NumberView,
};
use crate::jsonrpc::{
    error_json, parsed_request, success_json, JsonRpcErrorView, JsonRpcRequestView,
};
use crate::router::route;

verus! {

proof fn lemma_call_names()
    ensures
        "jsonrpc"@.len() == 7,
        "id"@.len() == 2,
        "method"@.len() == 6 && "method"@[0] == 'm',
        "params"@.len() == 6 && "params"@[0] == 'p',
        "message"@.len() == 7,
        "configuration"@.len() == 13 && "configuration"@[0] == 'c',
        "historyLength"@.len() == 13 && "historyLength"@[0] == 'h',
        "metadata"@.len() == 8,
{
    reveal_strlit("jsonrpc");
    reveal_strlit("id");
    reveal_strlit("method");
    reveal_strlit("params");
    reveal_strlit("message");
    reveal_strlit("configuration");
    reveal_strlit("historyLength");
    reveal_strlit("metadata");
}

/// A call is read as it is written: its id, its method and its parameters. A `null` id
/// is none.
pub proof fn call_is_read(id: JsonView, method: Seq<char>, params: JsonView)
    requires
        method.len() > 0,
        !(params is Null),
    ensures
        parsed_request(
            Ok(
                JsonView::Object(
                    seq![
                        ("jsonrpc"@, JsonView::Text("2.0"@)),
                        ("id"@, id),
                        ("method"@, JsonView::Text(method)),
                        ("params"@, params),
                    ],
                ),
            ),
        ) == Ok::<_, JsonRpcErrorView>(
            JsonRpcRequestView {
                jsonrpc: "2.0"@,
                id: if id is Null {
                    None
                } else {
                    Some(id)
                },
                method,
                params: Some(params),
            },
        ),
        parsed_request(
            Ok(
                JsonView::Object(
                    seq![
                        ("jsonrpc"@, JsonView::Text("2.0"@)),
                        ("method"@, JsonView::Text(method)),
                    ],
                ),
            ),
        ) == Ok::<_, JsonRpcErrorView>(
            JsonRpcRequestView { jsonrpc: "2.0"@, id: None, method, params: None },
        ),
{
    broadcast use {lemma_member_push, lemma_members_push};

    lemma_call_names();
    let r = Rec::Request;
    let none = MembersView::empty();
    let v = none.push(("jsonrpc"@, JsonView::Text("2.0"@)));
    let whole = v.push(("id"@, id)).push(("method"@, JsonView::Text(method))).push(
        ("params"@, params),
    );
    let short = v.push(("method"@, JsonView::Text(method)));
    assert(whole =~= seq![
        ("jsonrpc"@, JsonView::Text("2.0"@)),
        ("id"@, id),
        ("method"@, JsonView::Text(method)),
        ("params"@, params),
    ]);
    assert(short =~= seq![
        ("jsonrpc"@, JsonView::Text("2.0"@)),
        ("method"@, JsonView::Text(method)),
    ]);
    lemma_field_index(fields(r), "jsonrpc"@, 0);
    lemma_field_index(fields(r), "id"@, 1);
    lemma_field_index(fields(r), "method"@, 2);
    lemma_field_index(fields(r), "params"@, 3);
    assert(member(none, "jsonrpc"@) is None);
    assert(member(none, "id"@) is None);
    assert(member(none, "method"@) is None);
    assert(member(none, "params"@) is None);
    assert(members_error(r, none, 0) is None);
    assert(members_error(r, whole, 0) is None);
    assert(members_error(r, short, 0) is None);
    lemma_nothing_absent(fields(r), whole);
    lemma_nothing_absent(fields(r), short);
}

/// What is no call is refused: -32700 where it is no JSON, and -32600 where it is JSON
/// of another shape, another version, or without a method. The reason is told.
pub proof fn what_is_no_call_is_refused(
    e: Seq<char>,
    v: JsonView,
    version: Seq<char>,
    method: Seq<char>,
)
    ensures
        parsed_request(Err(e)) matches Err(r) && r.error.code == -32700 && r.error.message
            == "Parse error"@ && r.id is Null && r.error.data == Some(
            JsonView::Object(seq![("reason"@, JsonView::Text(e))]),
        ),
        shape_error(Shape::Record(Rec::Request), v) matches Some(why) ==> (parsed_request(Ok(v))
            matches Err(r) && r.error.code == -32600 && r.error.message == "Invalid Request"@
            && r.error.data == Some(JsonView::Object(seq![("reason"@, JsonView::Text(why))]))),
        parsed_request(Ok(v)) matches Ok(q) ==> q.jsonrpc == "2.0"@ && q.method.len() > 0,
        parsed_request(Ok(v)) matches Err(r) ==> r.error.code == -32600 && r.jsonrpc == "2.0"@,
{
}

/// The parameters of a method are read as they are written, and a method without any is
/// refused with -32602.
pub proof fn parameters_are_read(
    request: JsonRpcRequestView,
    m: MessageView,
    id: Seq<char>,
    n: u32,
)
    requires
        plain_message(m),
    ensures
        request.params == Some(JsonView::Object(seq![("message"@, message_json(m))])) ==> (params_of::<
            MessageSendParams,
        >(request) matches Ok(p) && p.message == m),
        request.params == Some(JsonView::Object(seq![("id"@, JsonView::Text(id))])) ==> {
            &&& params_of::<TaskIdParams>(request) matches Ok(p) && p.id == id
            &&& params_of::<TaskQueryParams>(request) matches Ok(p) && p.id == id
                && p.history_length is None
        },
        request.params == Some(
            JsonView::Object(
                seq![
                    ("id"@, JsonView::Text(id)),
                    ("historyLength"@, JsonView::Number(NumberView::PosInt(n as u64))),
                ],
            ),
        ) ==> (params_of::<TaskQueryParams>(request) matches Ok(p) && p.id == id
            && p.history_length == Some(n)),
        request.params is None ==> {
            &&& params_of::<MessageSendParams>(request) matches Err(e) && e.error.code == -32602
            &&& params_of::<TaskIdParams>(request) matches Err(e) && e.error.code == -32602
            &&& params_of::<TaskQueryParams>(request) matches Err(e) && e.error.code == -32602
        },
        request.params matches Some(v) && shape_error(Shape::Record(Rec::IdParams), v) is Some ==> (
        params_of::<TaskIdParams>(request) matches Err(e) && e.error.code == -32602),
{
    broadcast use {lemma_member_push, lemma_members_push};

    lemma_call_names();
    message_round_trip(m);
    let none = MembersView::empty();
    let a = none.push(("message"@, message_json(m)));
    let b = none.push(("id"@, JsonView::Text(id)));
    let c = b.push(("historyLength"@, JsonView::Number(NumberView::PosInt(n as u64))));
    assert(a =~= seq![("message"@, message_json(m))]);
    assert(b =~= seq![("id"@, JsonView::Text(id))]);
    assert(c =~= seq![
        ("id"@, JsonView::Text(id)),
        ("historyLength"@, JsonView::Number(NumberView::PosInt(n as u64))),
    ]);
    assert(member(none, "message"@) is None);
    assert(member(none, "id"@) is None);
    assert(member(none, "historyLength"@) is None);
    assert(member(none, "metadata"@) is None);
    assert(member(none, "configuration"@) is None);
    lemma_field_index(fields(Rec::SendParams), "message"@, 0);
    lemma_field_index(fields(Rec::IdParams), "id"@, 0);
    lemma_field_index(fields(Rec::QueryParams), "id"@, 0);
    lemma_field_index(fields(Rec::QueryParams), "historyLength"@, 1);
    assert(members_error(Rec::SendParams, none, 0) is None);
    assert(members_error(Rec::IdParams, none, 0) is None);
    assert(members_error(Rec::QueryParams, none, 0) is None);
    assert(members_error(Rec::SendParams, a, 0) is None);
    assert(members_error(Rec::IdParams, b, 0) is None);
    assert(members_error(Rec::QueryParams, b, 0) is None);
    assert(members_error(Rec::QueryParams, c, 0) is None);
    lemma_nothing_absent(fields(Rec::SendParams), a);
    lemma_nothing_absent(fields(Rec::IdParams), b);
    lemma_nothing_absent(fields(Rec::QueryParams), b);
    lemma_nothing_absent(fields(Rec::QueryParams), c);
}

/// In the request phase `message/send` is put off with its body and the moment of the
/// clock, and the response phase carries it out with them; its answer takes the place of
/// the response.
pub proof fn message_send_keeps_its_moment(
    p: PolicyView,
    verb: Seq<char>,
    path: Seq<char>,
    body: Seq<u8>,
    request: JsonRpcRequestView,
    now: u64,
    h: Seq<AnswerView>,
)
    requires
        route(verb, path, p.cfg.a2a_rpc_path) is A2aRpc,
        parsed_request(json_of_bytes(body)) == Ok::<_, JsonRpcErrorView>(request),
        request.method == "message/send"@,
    ensures
        ({
            let pending = A2APendingView::MessageSend {
                id: request.id,
                body,
                now_unix: now,
                now_iso: timestamp(now as nat),
            };
            let answer = |doc: JsonView|
                Some(
                    ResponseView {
                        status: 200,
                        headers: seq![("content-type"@, "application/json"@)],
                        body: bytes_of_json(doc),
                    },
                );
            &&& request_run(
                p,
                verb,
                path,
                true,
                seq![AnswerView::Body(body), AnswerView::Clock(now)],
            ) == Run::Done(FlowView::Continue(pending), Seq::empty())
            &&& response_run(p, pending, h) == match crate::a2a::methods::message_send_run(
                p.dispatcher,
                request,
                now,
                timestamp(now as nat),
                h,
            ) {
                Run::Do(a) => Run::<Option<ResponseView>>::Do(a),
                Run::Done(Ok(s), h1) => Run::Done(answer(success_json(s)), h1),
                Run::Done(Err(e), h1) => Run::Done(answer(error_json(e)), h1),
            }
        }),
{
    let two = seq![AnswerView::Body(body), AnswerView::Clock(now)];
    assert(two.drop_first() =~= seq![AnswerView::Clock(now)]);
    assert(two.drop_first().drop_first() =~= Seq::empty());
}

/// A call that is none, one without a body and one of another method are answered at
/// once, with 200 and an error, under the id that the call gave.
pub proof fn bad_calls_are_told_so(
    p: PolicyView,
    verb: Seq<char>,
    path: Seq<char>,
    body: Seq<u8>,
    e: JsonRpcErrorView,
    request: JsonRpcRequestView,
    rest: Seq<AnswerView>,
)
    requires
        route(verb, path, p.cfg.a2a_rpc_path) is A2aRpc,
    ensures
        ({
            let answer = |doc: JsonView|
                FlowView::Break(
                    ResponseView {
                        status: 200,
                        headers: seq![("content-type"@, "application/json"@)],
                        body: bytes_of_json(doc),
                    },
                );
            let error = |id: JsonView, code: int, message: Seq<char>|
                JsonView::Object(
                    seq![
                        ("jsonrpc"@, JsonView::Text("2.0"@)),
                        ("id"@, id),
                        (
                            "error"@,
                            JsonView::Object(
                                seq![
                                    ("code"@, JsonView::Number(NumberView::NegInt(code as i64))),
                                    ("message"@, JsonView::Text(message)),
                                ],
                            ),
                        ),
                    ],
                );
            let read = seq![AnswerView::Body(body)] + rest;
            &&& request_run(p, verb, path, false, rest) == Run::Done(
                answer(error(JsonView::Null, -32600, "Invalid Request: empty body"@)),
                rest,
            )
            &&& parsed_request(json_of_bytes(body)) == Err::<JsonRpcRequestView, _>(e)
                ==> request_run(p, verb, path, true, read) == Run::Done(
                answer(error_json(e)),
                rest,
            )
            &&& parsed_request(json_of_bytes(body)) == Ok::<_, JsonRpcErrorView>(request)
                && request.method != "message/send"@ && request.method != "tasks/get"@
                && request.method != "tasks/cancel"@ ==> request_run(p, verb, path, true, read)
                == Run::Done(
                answer(
                    error(
                        if request.id is Some {
                            request.id->0
                        } else {
                            JsonView::Null
                        },
                        -32601,
                        "Method not found: "@ + request.method,
                    ),
                ),
                rest,
            )
        }),
{
    assert((seq![AnswerView::Body(body)] + rest).drop_first() =~= rest);
}

/// Whatever method a request has, it is carried out as that method, or refused as
/// unknown.
pub proof fn methods_are_told_apart(
    d: crate::a2a::methods::DispatcherView,
    request: JsonRpcRequestView,
    now: u64,
    moment: Seq<char>,
    h: Seq<AnswerView>,
)
    ensures
        request.method == "message/send"@ ==> dispatch_run(d, request, now, moment, h)
            == crate::a2a::methods::message_send_run(d, request, now, moment, h),
        request.method == "tasks/get"@ ==> dispatch_run(d, request, now, moment, h)
            == crate::a2a::methods::tasks_get_run(request, now, h),
        request.method == "tasks/cancel"@ ==> dispatch_run(d, request, now, moment, h)
            == crate::a2a::methods::tasks_cancel_run(d, request, now, moment, h),
        request.method != "message/send"@ && request.method != "tasks/get"@ && request.method
            != "tasks/cancel"@ ==> (dispatch_run(d, request, now, moment, h) matches Run::Done(
            Err(e),
            left,
        ) && left == h && e.error.code == -32601 && e.error.message == "Method not found: "@
            + request.method),
{
    reveal_strlit("tasks/cancel");
    reveal_strlit("tasks/get");
    reveal_strlit("message/send");
    assert("tasks/cancel"@.len() == 12 && "tasks/cancel"@[0] == 't');
    assert("tasks/get"@.len() == 9);
    assert("message/send"@.len() == 12 && "message/send"@[0] == 'm');
}

/// A message without a word in it is refused with -32005, before anything is done.
pub proof fn wordless_message_is_refused(
    d: crate::a2a::methods::DispatcherView,
    request: JsonRpcRequestView,
    params: crate::a2a::types::MessageSendParamsView,
    now: u64,
    moment: Seq<char>,
    h: Seq<AnswerView>,
)
    requires
        params_of::<MessageSendParams>(request) == Ok::<_, JsonRpcErrorView>(params),
        crate::text::blank(crate::a2a::types::joined_text(params.message.parts)),
    ensures
        crate::a2a::methods::message_send_run(d, request, now, moment, h) matches Run::Done(
            Err(e),
            left,
        ) && left == h && e.error.code == -32005 && e.id == (if request.id is Some {
            request.id->0
        } else {
            JsonView::Null
        }),
{
}

/// In strict mode a request that is none of the gateway's is refused with 404 and told
/// why; otherwise it goes on, and its response comes back as it is.
pub proof fn strict_mode_refuses(
    p: PolicyView,
    verb: Seq<char>,
    path: Seq<char>,
    has_body: bool,
    h: Seq<AnswerView>,
)
    requires
        route(verb, path, p.cfg.a2a_rpc_path) is Passthrough,
    ensures
        request_run(p, verb, path, has_body, h) == Run::Done(
            if p.cfg.strict_mode {
                FlowView::Break(
                    ResponseView {
                        status: 404,
                        headers: seq![("content-type"@, "application/json"@)],
                        body: encode_utf8("{\"error\":\"not_found\",\"reason\":\"strictMode\"}"@),
                    },
                )
            } else {
                FlowView::Continue(A2APendingView::PassThrough)
            },
            h,
        ),
        response_run(p, A2APendingView::PassThrough, h) == Run::Done(None::<ResponseView>, h),
{
}

/// A call of another version, or without a method, is refused with -32600 under its id.
pub proof fn calls_need_version_and_method(id: JsonView, version: Seq<char>, method: Seq<char>)
    ensures
        ({
            let call = JsonView::Object(
                seq![
                    ("jsonrpc"@, JsonView::Text(version)),
                    ("id"@, id),
                    ("method"@, JsonView::Text(method)),
                ],
            );
            &&& version != "2.0"@ || method.len() == 0 ==> (parsed_request(Ok(call)) matches Err(e)
                && e.error.code == -32600 && e.id == id)
            &&& version == "2.0"@ && method.len() > 0 ==> parsed_request(Ok(call)) is Ok
        }),
{
    broadcast use {lemma_member_push, lemma_members_push};

    lemma_call_names();
    let r = Rec::Request;
    let none = MembersView::empty();
    let o = none.push(("jsonrpc"@, JsonView::Text(version))).push(("id"@, id)).push(
        ("method"@, JsonView::Text(method)),
    );
    assert(o =~= seq![
        ("jsonrpc"@, JsonView::Text(version)),
        ("id"@, id),
        ("method"@, JsonView::Text(method)),
    ]);
    lemma_field_index(fields(r), "jsonrpc"@, 0);
    lemma_field_index(fields(r), "id"@, 1);
    lemma_field_index(fields(r), "method"@, 2);
    assert(member(none, "jsonrpc"@) is None);
    assert(member(none, "id"@) is None);
    assert(member(none, "method"@) is None);
    assert(members_error(r, none, 0) is None);
    assert(members_error(r, o, 0) is None);
    lemma_nothing_absent(fields(r), o);
}

/// A call that was put off and cannot be read is answered with its error, and with 200.
pub proof fn unreadable_call_is_answered(
    p: PolicyView,
    id: Option<JsonView>,
    body: Seq<u8>,
    now: u64,
    moment: Seq<char>,
    e: JsonRpcErrorView,
    h: Seq<AnswerView>,
)
    requires
        parsed_request(json_of_bytes(body)) == Err::<JsonRpcRequestView, _>(e),
    ensures
        response_run(
            p,
            A2APendingView::MessageSend { id, body, now_unix: now, now_iso: moment },
            h,
        ) == Run::Done(
            Some(
                ResponseView {
                    status: 200,
                    headers: seq![("content-type"@, "application/json"@)],
                    body: bytes_of_json(error_json(e)),
                },
            ),
            h,
        ),
{
}

} // verus!
