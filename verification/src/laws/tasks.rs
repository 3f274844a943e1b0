//! What `tasks/get` and `tasks/cancel` do, as calls through the gateway.

use vstd::prelude::*;

use crate::a2a::methods::{
    load_run, params_of, recent, stored_task, stored_task_is_canceled, task_kept, tasks_cancel_run,
    tasks_get_run, DispatcherView, Outcome,
};
use crate::a2a::types::{
    cancelable, plain_task, task_json, terminal, TaskIdParams, TaskIdParamsView, TaskQueryParams, TaskQueryParamsView,
    TaskState, TaskStatusView, TaskView,
};
use crate::clock::timestamp;
use crate::decode::{record_of_bytes, Rec};
use crate::effects::{
    ActionView, AnswerView, HttpReplyView, HttpRequestView, Method, Run, Upstream,
};
use crate::encoding::url_encoded;
use crate::gateway::{request_run, FlowView, PolicyView, ResponseView};
use crate::json::{bytes_of_json, json_of_bytes, JsonView};
use crate::jsonrpc::{
    error_json, parsed_request, success_json, JsonRpcErrorView, JsonRpcRequestView,
    JsonRpcSuccessView,
};
use crate::laws::sessions::{replies_are_judged_by_status, session_is_ended_by_its_id};
use crate::router::route;
use crate::store::task_store::{hot_bytes, hot_entry, HotEntry};

verus! {

/// A call of `tasks/get` or `tasks/cancel` is carried out in the request phase, at the
/// moment that the clock shows and with that moment as its timestamp, and its outcome
/// is answered with 200.
pub proof fn task_calls_happen_at_the_clock(
    p: PolicyView,
    verb: Seq<char>,
    path: Seq<char>,
    body: Seq<u8>,
    request: JsonRpcRequestView,
    now: u64,
    h: Seq<AnswerView>,
)
    requires
        route(verb, path, p.cfg.a2a_rpc_path) is A2aRpc,
        parsed_request(json_of_bytes(body)) == Ok::<_, JsonRpcErrorView>(request),
        request.method == "tasks/cancel"@ || request.method == "tasks/get"@,
    ensures
        ({
            let run = if request.method == "tasks/cancel"@ {
                tasks_cancel_run(p.dispatcher, request, now, timestamp(now as nat), h)
            } else {
                tasks_get_run(request, now, h)
            };
            let answer = |doc: JsonView|
                FlowView::Break(
                    ResponseView {
                        status: 200,
                        headers: seq![("content-type"@, "application/json"@)],
                        body: bytes_of_json(doc),
                    },
                );
            request_run(
                p,
                verb,
                path,
                true,
                seq![AnswerView::Body(body), AnswerView::Clock(now)] + h,
            ) == match run {
                Run::Do(a) => Run::<FlowView>::Do(a),
                Run::Done(Ok(s), h1) => Run::Done(answer(success_json(s)), h1),
                Run::Done(Err(e), h1) => Run::Done(answer(error_json(e)), h1),
            }
        }),
{
    let whole = seq![AnswerView::Body(body), AnswerView::Clock(now)] + h;
    assert(whole.drop_first() =~= seq![AnswerView::Clock(now)] + h);
    assert((seq![AnswerView::Clock(now)] + h).drop_first() =~= h);
    reveal_strlit("tasks/cancel");
    reveal_strlit("tasks/get");
    reveal_strlit("message/send");
    assert("tasks/cancel"@.len() == 12 && "tasks/cancel"@[0] == 't');
    assert("tasks/get"@.len() == 9);
    assert("message/send"@.len() == 12 && "message/send"@[0] == 'm');
}

/// A stored task that is still open is canceled by deleting the session of its id.
pub proof fn canceling_deletes_the_session(
    d: DispatcherView,
    request: JsonRpcRequestView,
    params: TaskIdParamsView,
    t: TaskView,
    token: Seq<char>,
    written_at: u64,
    ttl: u32,
    now: u64,
    moment: Seq<char>,
)
    requires
        d.client.auth.access_token_override == Some(token),
        params_of::<TaskIdParams>(request) == Ok::<_, JsonRpcErrorView>(params),
        plain_task(t),
        task_kept(t, written_at, ttl),
        t.status.state is Submitted || t.status.state is Working || t.status.state is InputRequired
            || t.status.state is Completed || t.status.state is AuthRequired || t.status.state
            is Unknown,
        now < written_at + ttl,
        written_at + ttl <= u64::MAX,
    ensures
        tasks_cancel_run(d, request, now, moment, Seq::empty()) == Run::<Outcome>::Do(
            ActionView::CacheGet { key: "task:"@ + params.id },
        ),
        tasks_cancel_run(
            d,
            request,
            now,
            moment,
            seq![
                AnswerView::Cached(Some(hot_bytes(bytes_of_json(task_json(t)), written_at, ttl))),
            ],
        ) == Run::<Outcome>::Do(
            ActionView::Send(
                HttpRequestView {
                    upstream: Upstream::AgentforceApi,
                    method: Method::Delete,
                    path: Some(d.client.api_base_path + ("/sessions/"@ + url_encoded(params.id))),
                    headers: seq![("authorization"@, "Bearer "@ + token)],
                    body: None,
                    timeout_ms: None,
                },
            ),
        ),
{
    let entry = AnswerView::Cached(Some(hot_bytes(bytes_of_json(task_json(t)), written_at, ttl)));
    lemma_cancel_step(d, request, params, t, written_at, ttl, now, moment, Seq::empty());
    assert(seq![entry] + Seq::<AnswerView>::empty() =~= seq![entry]);
    session_is_ended_by_its_id(d.client, params.id, now, Seq::empty(), token);
}

/// Whatever came of deleting the session, the task is stored and returned as it was but
/// for its status, which is `canceled` at the moment of the call.
pub proof fn canceled_task_carries_the_moment(
    d: DispatcherView,
    request: JsonRpcRequestView,
    params: TaskIdParamsView,
    t: TaskView,
    token: Seq<char>,
    written_at: u64,
    ttl: u32,
    now: u64,
    moment: Seq<char>,
    status: u32,
    body: Seq<u8>,
    rest: Seq<AnswerView>,
)
    requires
        d.client.auth.access_token_override == Some(token),
        params_of::<TaskIdParams>(request) == Ok::<_, JsonRpcErrorView>(params),
        plain_task(t),
        task_kept(t, written_at, ttl),
        t.status.state is Submitted || t.status.state is Working || t.status.state is InputRequired
            || t.status.state is Completed || t.status.state is AuthRequired || t.status.state
            is Unknown,
        now < written_at + ttl,
        written_at + ttl <= u64::MAX,
        status != 401,
    ensures
        ({
            let entry = AnswerView::Cached(
                Some(hot_bytes(bytes_of_json(task_json(t)), written_at, ttl)),
            );
            let reply = AnswerView::Reply(HttpReplyView::Answered { status, body });
            let after = TaskView {
                status: TaskStatusView {
                    state: TaskState::Canceled,
                    timestamp: Some(moment),
                    message: None,
                },
                ..t
            };
            tasks_cancel_run(d, request, now, moment, seq![entry] + (seq![reply] + rest)) == if rest.len()
                == 0 {
                Run::<Outcome>::Do(
                    ActionView::CacheSave {
                        key: "task:"@ + params.id,
                        bytes: hot_bytes(bytes_of_json(task_json(after)), now, d.ttl),
                    },
                )
            } else {
                Run::Done(
                    Ok(
                        JsonRpcSuccessView {
                            jsonrpc: "2.0"@,
                            id: if request.id is Some {
                                request.id->0
                            } else {
                                JsonView::Null
                            },
                            result: task_json(after),
                        },
                    ),
                    rest.drop_first(),
                )
            }
        }),
{
    let reply = AnswerView::Reply(HttpReplyView::Answered { status, body });
    let left = seq![reply] + rest;
    lemma_cancel_step(d, request, params, t, written_at, ttl, now, moment, left);
    replies_are_judged_by_status(
        d.client,
        params.id,
        Seq::empty(),
        0,
        now,
        left,
        token,
        left,
        status,
        body,
        rest,
    );
}

proof fn lemma_cancel_step(
    d: DispatcherView,
    request: JsonRpcRequestView,
    params: TaskIdParamsView,
    t: TaskView,
    written_at: u64,
    ttl: u32,
    now: u64,
    moment: Seq<char>,
    rest: Seq<AnswerView>,
)
    requires
        params_of::<TaskIdParams>(request) == Ok::<_, JsonRpcErrorView>(params),
        plain_task(t),
        task_kept(t, written_at, ttl),
        !(t.status.state is Canceled || t.status.state is Failed || t.status.state is Rejected),
        now < written_at + ttl,
        written_at + ttl <= u64::MAX,
    ensures
        ({
            let entry = AnswerView::Cached(
                Some(hot_bytes(bytes_of_json(task_json(t)), written_at, ttl)),
            );
            tasks_cancel_run(d, request, now, moment, seq![entry] + rest) == match
                crate::agentforce::client::end_session_run(d.client, params.id, now, rest) {
                Run::Do(a) => Run::<Outcome>::Do(a),
                Run::Done(_, h2) => crate::a2a::methods::store_run(
                    d,
                    request.id,
                    params.id,
                    TaskView {
                        status: TaskStatusView {
                            state: TaskState::Canceled,
                            timestamp: Some(moment),
                            message: None,
                        },
                        ..t
                    },
                    now,
                    h2,
                ),
            }
        }),
{
    stored_task_is_canceled(d, request, params, t, written_at, ttl, now, moment, rest);
}

/// A task that was canceled, that failed or that was rejected is refused with -32002, and
/// its id and its state are told; one that is not there with -32001 and its id.
pub proof fn refused_cancels_say_why(
    d: DispatcherView,
    request: JsonRpcRequestView,
    params: TaskIdParamsView,
    t: TaskView,
    now: u64,
    moment: Seq<char>,
    h: Seq<AnswerView>,
    rest: Seq<AnswerView>,
)
    requires
        params_of::<TaskIdParams>(request) == Ok::<_, JsonRpcErrorView>(params),
    ensures
        load_run(request.id, params.id, now, h) == Run::Done(Ok::<_, JsonRpcErrorView>(t), rest)
            && (t.status.state is Canceled || t.status.state is Failed || t.status.state
            is Rejected) ==> (tasks_cancel_run(d, request, now, moment, h) matches Run::Done(
            Err(e),
            left,
        ) && left == rest && e.error.code == -32002 && e.error.data == Some(
            JsonView::Object(
                seq![
                    ("taskId"@, JsonView::Text(params.id)),
                    (
                        "state"@,
                        JsonView::Text(
                            if t.status.state is Canceled {
                                "canceled"@
                            } else if t.status.state is Failed {
                                "failed"@
                            } else {
                                "rejected"@
                            },
                        ),
                    ),
                ],
            ),
        )),
        tasks_cancel_run(d, request, now, moment, seq![AnswerView::Cached(None)]) matches Run::Done(
            Err(e),
            left,
        ) && left.len() == 0 && e.error.code == -32001 && e.error.data == Some(
            JsonView::Object(seq![("taskId"@, JsonView::Text(params.id))]),
        ),
{
    assert(seq![AnswerView::Cached(None)].drop_first() =~= Seq::empty());
}

/// A task that is got is the one that is stored under its id, with the last of its
/// history: as many messages as were asked for, in order, or all of them.
pub proof fn got_task_is_the_stored_one(
    request: JsonRpcRequestView,
    params: TaskQueryParamsView,
    t: TaskView,
    now: u64,
    h: Seq<AnswerView>,
    rest: Seq<AnswerView>,
)
    requires
        params_of::<TaskQueryParams>(request) == Ok::<_, JsonRpcErrorView>(params),
        load_run(request.id, params.id, now, h) == Run::Done(Ok::<_, JsonRpcErrorView>(t), rest),
    ensures
        tasks_get_run(request, now, Seq::empty()) == Run::<Outcome>::Do(
            ActionView::CacheGet { key: "task:"@ + params.id },
        ),
        ({
            let shown = match params.history_length {
                Some(n) => if t.history.len() > n {
                    t.history.subrange(t.history.len() - n, t.history.len() as int)
                } else {
                    t.history
                },
                None => t.history,
            };
            tasks_get_run(request, now, h) == Run::Done(
                Ok::<_, JsonRpcErrorView>(
                    JsonRpcSuccessView {
                        jsonrpc: "2.0"@,
                        id: if request.id is Some {
                            request.id->0
                        } else {
                            JsonView::Null
                        },
                        result: task_json(TaskView { history: shown, ..t }),
                    },
                ),
                rest,
            )
        }),
{
    if let Some(n) = params.history_length {
        if t.history.len() > n {
            assert(recent(t.history, params.history_length) =~= t.history.subrange(
                t.history.len() - n,
                t.history.len() as int,
            ));
        }
    }
}

/// A stored task that cannot be read is an internal error that says why, and one that is
/// not there is told by its id, for `tasks/get` as for `tasks/cancel`.
pub proof fn unreadable_tasks_are_told(
    d: DispatcherView,
    request: JsonRpcRequestView,
    query: TaskQueryParamsView,
    entry: Seq<u8>,
    payload: Seq<u8>,
    why: Seq<char>,
    now: u64,
    rest: Seq<AnswerView>,
)
    requires
        params_of::<TaskQueryParams>(request) == Ok::<_, JsonRpcErrorView>(query),
    ensures
        hot_entry(Some(entry), now) == HotEntry::Found(payload) && stored_task(
            record_of_bytes(Rec::Task, payload),
        ) == Err::<TaskView, _>(why) ==> (tasks_get_run(
            request,
            now,
            seq![AnswerView::Cached(Some(entry))] + rest,
        ) matches Run::Done(Err(e), left) && left == rest && e.error.code == -32603
            && e.error.message == "Persisted Task could not be parsed: "@ + why),
        tasks_get_run(request, now, seq![AnswerView::Cached(None)] + rest) matches Run::Done(
            Err(e),
            left,
        ) && left == rest && e.error.code == -32001 && e.error.data == Some(
            JsonView::Object(seq![("taskId"@, JsonView::Text(query.id))]),
        ),
        stored_task(Err(why)) == Err::<TaskView, _>(why),
{
    assert((seq![AnswerView::Cached(Some(entry))] + rest).drop_first() =~= rest);
    assert((seq![AnswerView::Cached(None)] + rest).drop_first() =~= rest);
}

/// A task is at its end once it is completed, canceled, failed or rejected.
pub proof fn ends_of_tasks(s: TaskState)
    ensures
        terminal(s) <==> s is Completed || s is Canceled || s is Failed || s is Rejected,
        cancelable(s) <==> !(s is Canceled || s is Failed || s is Rejected),
{
}

} // verus!
