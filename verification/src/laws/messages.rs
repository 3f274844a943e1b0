//! What `message/send` relays, and what it returns.

use vstd::prelude::*;

use crate::a2a::mapping::{message_text, response_parts};
use crate::a2a::methods::{
    answer_id_run, client_failure, exchange_run, exchange_task, message_send_run, named_task_is_continued, params_of,
    sequence_run, session_run, DispatcherView, Outcome,
};
use crate::a2a::types::{
    joined_text, task_json, ArtifactView, MessageSendParams, MessageSendParamsView, MessageView,
    PartView, TaskState, TaskStatusView, TaskView,
};
use crate::agentforce::auth::AuthErrorView;
use crate::agentforce::client::{
    agent_message_in, agent_messages_in, extra_members, message_answer, redacted, send_message_run,
    session_answer, AgentforceMessageView, ClientErrorView, SendMessageResponseView,
    StartSessionResponseView,
};
use crate::decode::{
    fields, items_at, lemma_field_index, lemma_list_fine, lemma_members_push, lemma_nothing_absent,
    members_error, record_of_bytes, shape_error, Rec, Shape,
};
use crate::effects::{
    ActionView, AnswerView, HttpReplyView, HttpRequestView, Method, Run, Upstream,
};
use crate::encoding::url_encoded;
use crate::json::{bytes_of_json, lemma_member_push, member, JsonView, MembersView, NumberView};
use crate::jsonrpc::{JsonRpcErrorView, JsonRpcRequestView, JsonRpcSuccessView};
use crate::laws::sessions::{message_goes_to_its_session, session_is_started_for_the_agent};
use crate::store::task_store::{hot_bytes, hot_entry, kept, meta_json, meta_round_trip, HotEntry, TaskMeta};
use crate::text::blank;

verus! {

/// The parts of two answers, one after the other, are the parts of the first and then
/// those of the second: nothing is lost and nothing changes its place.
pub proof fn parts_keep_the_order(
    m: Seq<AgentforceMessageView>,
    n: Seq<AgentforceMessageView>,
)
    ensures
        response_parts(m + n) == response_parts(m) + response_parts(n),
        response_parts(Seq::empty()) == Seq::<PartView>::empty(),
    decreases n.len(),
{
    if n.len() == 0 {
        assert(m + n =~= m);
        assert(response_parts(m) + response_parts(n) =~= response_parts(m));
    } else {
        parts_keep_the_order(m, n.drop_last());
        assert((m + n).drop_last() =~= m + n.drop_last());
        assert((m + n).last() == n.last());
        assert(response_parts(m + n) =~= response_parts(m) + response_parts(n));
    }
}

/// A message with a text under `message` is that text; one without is the text that
/// stands first under `result`, `text` and `value`, itself or as the member `text`; one
/// with none of them is nothing.
pub proof fn message_is_its_text(m: AgentforceMessageView, t: Seq<char>)
    ensures
        t.len() > 0 && m.message == Some(t) ==> response_parts(seq![m]) == seq![
            PartView::Text { text: t, metadata: None },
        ],
        ({
            let silent = m.message is None || m.message == Some(Seq::<char>::empty());
            let gives = |key: Seq<char>, s: Seq<char>|
                s.len() > 0 && (member(m.extra, key) == Some(JsonView::Text(s)) || (member(
                    m.extra,
                    key,
                ) matches Some(JsonView::Object(o)) && member(o, "text"@) == Some(
                    JsonView::Text(s),
                )));
            let mute = |key: Seq<char>| forall|s: Seq<char>| !#[trigger] gives(key, s);
            let one = seq![PartView::Text { text: t, metadata: None }];
            &&& silent && gives("result"@, t) ==> response_parts(seq![m]) == one
            &&& silent && mute("result"@) && gives("text"@, t) ==> response_parts(seq![m]) == one
            &&& silent && mute("result"@) && mute("text"@) && gives("value"@, t) ==> response_parts(
                seq![m],
            ) == one
            &&& silent && mute("result"@) && mute("text"@) && mute("value"@) ==> response_parts(
                seq![m],
            ) == Seq::<PartView>::empty()
        }),
{
    reveal_with_fuel(response_parts, 2);
    assert(seq![m].drop_last() =~= Seq::empty());
    assert(seq![m].last() == m);
    assert(Seq::<char>::empty().len() == 0);
    let gives = |key: Seq<char>, s: Seq<char>|
        s.len() > 0 && (member(m.extra, key) == Some(JsonView::Text(s)) || (member(m.extra, key)
            matches Some(JsonView::Object(o)) && member(o, "text"@) == Some(JsonView::Text(s))));
    assert forall|key: Seq<char>, s: Seq<char>|
        crate::a2a::mapping::text_under(m.extra, key) == Some(s) <==> #[trigger] gives(key, s) by {}
    if let Some(s) = crate::a2a::mapping::text_under(m.extra, "result"@) {
        assert(gives("result"@, s));
    }
    if let Some(s) = crate::a2a::mapping::text_under(m.extra, "text"@) {
        assert(gives("text"@, s));
    }
    if let Some(s) = crate::a2a::mapping::text_under(m.extra, "value"@) {
        assert(gives("value"@, s));
    }
    match message_text(m) {
        Some(s) => {
            assert(response_parts(seq![m]) =~= seq![PartView::Text { text: s, metadata: None }]);
        },
        None => {
            assert(response_parts(seq![m]) =~= Seq::<PartView>::empty());
        },
    }
}

/// What the user says is the texts of the message, in order, a line each; other parts
/// say nothing.
pub proof fn user_text_is_the_parts(a: Seq<PartView>, t: Seq<char>, metadata: Option<JsonView>)
    ensures
        joined_text(seq![PartView::Text { text: t, metadata }]) == t,
        joined_text(Seq::empty()) == Seq::<char>::empty(),
        joined_text(a.push(PartView::Unknown)) == joined_text(a),
        joined_text(seq![PartView::Unknown] + a) == joined_text(a),
        joined_text(a).len() > 0 ==> joined_text(a.push(PartView::Text { text: t, metadata }))
            == joined_text(a) + seq!['\n'] + t,
    decreases a.len(),
{
    reveal_with_fuel(joined_text, 2);
    let one = seq![PartView::Text { text: t, metadata }];
    assert(one.drop_last() =~= Seq::empty());
    assert(a.push(PartView::Unknown).drop_last() =~= a);
    assert(a.push(PartView::Text { text: t, metadata }).drop_last() =~= a);
    assert(joined_text(a).push('\n') + t =~= joined_text(a) + seq!['\n'] + t);
    let front = seq![PartView::Unknown] + a;
    if a.len() == 0 {
        assert(front.drop_last() =~= Seq::empty());
        assert(front.last() == PartView::Unknown);
    } else {
        user_text_is_the_parts(a.drop_last(), t, metadata);
        assert(front.drop_last() =~= seq![PartView::Unknown] + a.drop_last());
        assert(front.last() == a.last());
    }
}

/// The task of an exchange: its id is its context, it is completed at the moment of the
/// exchange, and it holds the user's text under the user's message id and what the agent
/// said under the id of the agent's first message, as a message and as an artifact.
pub proof fn exchange_becomes_a_task(
    message: MessageView,
    task_id: Seq<char>,
    response: SendMessageResponseView,
    other: Seq<char>,
    timestamp: Seq<char>,
)
    ensures
        ({
            let parts = response_parts(response.messages);
            let id = if response.messages.len() > 0 && response.messages[0].id is Some {
                response.messages[0].id->0
            } else {
                other
            };
            let user = MessageView {
                kind: "message"@,
                message_id: message.message_id,
                role: "user"@,
                parts: seq![PartView::Text { text: joined_text(message.parts), metadata: None }],
                task_id: Some(task_id),
                context_id: Some(task_id),
                metadata: None,
            };
            let agent = MessageView {
                kind: "message"@,
                message_id: id,
                role: "agent"@,
                parts,
                task_id: Some(task_id),
                context_id: Some(task_id),
                metadata: None,
            };
            let artifact = ArtifactView {
                artifact_id: "agent-response-"@ + id,
                name: Some("agent-response"@),
                description: None,
                parts,
                metadata: None,
            };
            exchange_task(message, task_id, response, other, timestamp) == (TaskView {
                id: task_id,
                context_id: task_id,
                kind: "task"@,
                status: TaskStatusView {
                    state: TaskState::Completed,
                    timestamp: Some(timestamp),
                    message: None,
                },
                history: if parts.len() == 0 {
                    seq![user]
                } else {
                    seq![user, agent]
                },
                artifacts: if parts.len() == 0 {
                    Seq::empty()
                } else {
                    seq![artifact]
                },
                metadata: None,
            })
        }),
{
}

proof fn lemma_answer_names()
    ensures
        "id"@ != "type"@,
        "id"@ != "message"@,
        "type"@ != "message"@,
        "sessionId"@ != "messages"@,
{
    reveal_strlit("id");
    reveal_strlit("type");
    reveal_strlit("message");
    reveal_strlit("messages");
    reveal_strlit("sessionId");
    assert("id"@.len() == 2);
    assert("type"@.len() == 4);
    assert("message"@.len() == 7);
    assert("messages"@.len() == 8);
    assert("sessionId"@.len() == 9);
}

/// Of a message of the agent, every member but `id`, `type` and `message` is kept under
/// its key.
pub proof fn other_members_are_kept(o: MembersView, key: Seq<char>)
    ensures
        key != "id"@ && key != "type"@ && key != "message"@ ==> member(extra_members(o), key)
            == member(o, key),
        member(extra_members(o), "id"@) is None,
        member(extra_members(o), "type"@) is None,
        member(extra_members(o), "message"@) is None,
    decreases o.len(),
{
    broadcast use lemma_member_push;

    lemma_answer_names();
    if o.len() > 0 {
        other_members_are_kept(o.drop_last(), key);
        assert(o =~= o.drop_last().push((o.last().0, o.last().1)));
    }
}

/// The document of a message with an id, a kind and a text, as Agentforce sends it.
pub open spec fn inform(id: Seq<char>, kind: Seq<char>, text: Seq<char>) -> JsonView {
    JsonView::Object(
        seq![
            ("id"@, JsonView::Text(id)),
            ("type"@, JsonView::Text(kind)),
            ("message"@, JsonView::Text(text)),
        ],
    )
}

proof fn lemma_inform(id: Seq<char>, kind: Seq<char>, text: Seq<char>)
    ensures
        shape_error(Shape::Record(Rec::AgentMessage), inform(id, kind, text)) is None,
        agent_message_in(inform(id, kind, text)).id == Some(id),
        agent_message_in(inform(id, kind, text)).kind == Some(kind),
        agent_message_in(inform(id, kind, text)).message == Some(text),
{
    broadcast use {lemma_member_push, lemma_members_push};

    lemma_answer_names();
    let r = Rec::AgentMessage;
    let o = inform(id, kind, text)->Object_0;
    assert(o =~= MembersView::empty().push(("id"@, JsonView::Text(id))).push(
        ("type"@, JsonView::Text(kind)),
    ).push(("message"@, JsonView::Text(text))));
    lemma_field_index(fields(r), "id"@, 0);
    lemma_field_index(fields(r), "type"@, 1);
    lemma_field_index(fields(r), "message"@, 2);
    assert(members_error(r, MembersView::empty(), 0) is None);
    assert(members_error(r, o, 0) is None);
    lemma_nothing_absent(fields(r), o);
    assert(member(MembersView::empty(), "id"@) is None);
    assert(member(MembersView::empty(), "type"@) is None);
    assert(member(MembersView::empty(), "message"@) is None);
}

/// What Agentforce says in an answer is read as it stands there: so many messages, in
/// that order, with those ids and texts. An answer without messages has none.
pub proof fn answer_is_read(said: Seq<(Seq<char>, Seq<char>, Seq<char>)>)
    ensures
        ({
            let items = Seq::new(said.len(), |i: int| inform(said[i].0, said[i].1, said[i].2));
            &&& message_answer(
                Ok(JsonView::Object(seq![("messages"@, JsonView::Array(items))])),
            ) matches Ok(r) && {
                &&& r.messages.len() == said.len()
                &&& forall|i: int|
                    0 <= i < said.len() ==> (#[trigger] r.messages[i]).id == Some(said[i].0)
                        && r.messages[i].message == Some(said[i].2)
            }
        }),
        message_answer(Ok(JsonView::Object(MembersView::empty()))) matches Ok(r)
            && r.messages.len() == 0,
{
    broadcast use {lemma_member_push, lemma_members_push};

    let r = Rec::SendMessage;
    let items = Seq::new(said.len(), |i: int| inform(said[i].0, said[i].1, said[i].2));
    let o = seq![("messages"@, JsonView::Array(items))];
    assert(o =~= MembersView::empty().push(("messages"@, JsonView::Array(items))));
    lemma_field_index(fields(r), "messages"@, 0);
    assert forall|k: int| 0 <= k < items.len() implies shape_error(
        Shape::Record(Rec::AgentMessage),
        #[trigger] items[k],
    ) is None by {
        lemma_inform(said[k].0, said[k].1, said[k].2);
    }
    lemma_list_fine(Shape::AgentMessages, items, 0);
    assert(members_error(r, MembersView::empty(), 0) is None);
    assert(members_error(r, o, 0) is None);
    lemma_nothing_absent(fields(r), o);
    lemma_nothing_absent(fields(r), MembersView::empty());
    assert(member(MembersView::empty(), "messages"@) is None);
    assert(items_at(r, JsonView::Object(o), "messages"@) == items);
    let read = agent_messages_in(items);
    assert forall|i: int| 0 <= i < said.len() implies (#[trigger] read[i]).id == Some(said[i].0)
        && read[i].message == Some(said[i].2) by {
        lemma_inform(said[i].0, said[i].1, said[i].2);
        assert(read[i] == agent_message_in(items[i]));
    }
    assert(items_at(r, JsonView::Object(MembersView::empty()), "messages"@) =~= Seq::empty());
}

/// The parts of an answer whose messages all have a text are those texts, in order.
pub proof fn texts_come_back_in_order(messages: Seq<AgentforceMessageView>)
    requires
        forall|i: int|
            0 <= i < messages.len() ==> ((#[trigger] messages[i]).message matches Some(t) && t.len()
                > 0),
    ensures
        response_parts(messages).len() == messages.len(),
        forall|i: int|
            0 <= i < messages.len() ==> #[trigger] response_parts(messages)[i] == (PartView::Text {
                text: messages[i].message->0,
                metadata: None,
            }),
    decreases messages.len(),
{
    if messages.len() > 0 {
        let init = messages.drop_last();
        assert forall|i: int| 0 <= i < init.len() implies ((#[trigger] init[i]).message matches Some(
            t,
        ) && t.len() > 0) by {
            assert(init[i] == messages[i]);
        }
        texts_come_back_in_order(init);
        assert(messages.last() == messages[messages.len() - 1]);
        assert forall|i: int| 0 <= i < messages.len() implies #[trigger] response_parts(
            messages,
        )[i] == (PartView::Text { text: messages[i].message->0, metadata: None }) by {
            if i < init.len() {
                assert(response_parts(messages)[i] == response_parts(init)[i]);
                assert(init[i] == messages[i]);
            }
        }
    }
}

/// A message that names no task begins a session under the message's own id, and then
/// goes on as a message that names the new session as its task would.
#[verifier::rlimit(40)]
#[verifier::spinoff_prover]
pub proof fn new_message_begins_a_session(
    d: DispatcherView,
    request: JsonRpcRequestView,
    params: MessageSendParamsView,
    named: JsonRpcRequestView,
    token: Seq<char>,
    now: u64,
    timestamp: Seq<char>,
    body: Seq<u8>,
    started: StartSessionResponseView,
    h: Seq<AnswerView>,
)
    requires
        d.client.auth.access_token_override == Some(token),
        params_of::<MessageSendParams>(request) == Ok::<_, JsonRpcErrorView>(params),
        params.message.task_id is None || params.message.task_id == Some(Seq::<char>::empty()),
        !blank(joined_text(params.message.parts)),
        session_answer(record_of_bytes(Rec::StartSession, body)) == Ok::<_, Seq<char>>(started),
        started.session_id.len() > 0,
        named.id == request.id,
        params_of::<MessageSendParams>(named) == Ok::<_, JsonRpcErrorView>(
            MessageSendParamsView {
                message: MessageView { task_id: Some(started.session_id), ..params.message },
                ..params
            },
        ),
    ensures
        message_send_run(d, request, now, timestamp, Seq::empty()) matches Run::Do(
            ActionView::Send(r),
        ) && r.method is Post && r.path == Some(
            d.client.api_base_path + ("/agents/"@ + url_encoded(d.client.agent_id) + "/sessions"@),
        ) && r.body == Some(
            bytes_of_json(
                JsonView::Object(
                    seq![
                        ("externalSessionKey"@, JsonView::Text(params.message.message_id)),
                        (
                            "instanceConfig"@,
                            JsonView::Object(
                                seq![
                                    ("endpoint"@, JsonView::Text(d.client.my_domain_url_value)),
                                ],
                            ),
                        ),
                        ("featureSupport"@, JsonView::Text("Sync"@)),
                        (
                            "streamingCapabilities"@,
                            JsonView::Object(
                                seq![
                                    (
                                        "chunkTypes"@,
                                        JsonView::Array(seq![JsonView::Text("Text"@)]),
                                    ),
                                ],
                            ),
                        ),
                        ("bypassUser"@, JsonView::Bool(d.client.bypass_user)),
                    ],
                ),
            ),
        ),
        message_send_run(
            d,
            request,
            now,
            timestamp,
            seq![AnswerView::Reply(HttpReplyView::Answered { status: 200, body })] + h,
        ) == message_send_run(d, named, now, timestamp, h),
{
    session_is_started_for_the_agent(
        d.client,
        params.message.message_id,
        now,
        Seq::empty(),
        token,
    );
    let whole = seq![AnswerView::Reply(HttpReplyView::Answered { status: 200, body })] + h;
    assert(whole.drop_first() =~= h);
    crate::laws::sessions::replies_are_judged_by_status(
        d.client,
        params.message.message_id,
        Seq::empty(),
        0,
        now,
        whole,
        token,
        whole,
        200,
        body,
        h,
    );
    assert(started.session_id =~= Seq::<char>::empty() <==> started.session_id.len() == 0);
    assert(session_run(d, params.message, now, whole) == Run::Done(
        Ok::<_, ClientErrorView>(started.session_id),
        h,
    ));
    lemma_exchange_is_the_same(
        d,
        request.id,
        params.message,
        MessageView { task_id: Some(started.session_id), ..params.message },
        started.session_id,
        now,
        timestamp,
        h,
    );
    named_task_is_continued(
        d,
        named,
        MessageSendParamsView {
            message: MessageView { task_id: Some(started.session_id), ..params.message },
            ..params
        },
        now,
        timestamp,
        h,
    );
}

proof fn lemma_exchange_is_the_same(
    d: DispatcherView,
    id: Option<JsonView>,
    a: MessageView,
    b: MessageView,
    task_id: Seq<char>,
    now: u64,
    timestamp: Seq<char>,
    h: Seq<AnswerView>,
)
    requires
        a.parts == b.parts,
        a.message_id == b.message_id,
    ensures
        exchange_run(d, id, a, task_id, now, timestamp, h) == exchange_run(
            d,
            id,
            b,
            task_id,
            now,
            timestamp,
            h,
        ),
{
    assert forall|response: SendMessageResponseView, other: Seq<char>| #[trigger]
        exchange_task(a, task_id, response, other, timestamp) == exchange_task(
            b,
            task_id,
            response,
            other,
            timestamp,
        ) by {}
}

/// A message that names its task goes to the session of that id: its number is taken
/// and noted first, and then the text goes out. The first message of a task has number
/// 2.
#[verifier::rlimit(60)]
#[verifier::spinoff_prover]
pub proof fn named_message_is_relayed(
    d: DispatcherView,
    request: JsonRpcRequestView,
    params: MessageSendParamsView,
    task_id: Seq<char>,
    token: Seq<char>,
    now: u64,
    timestamp: Seq<char>,
    noted: AnswerView,
)
    requires
        d.client.auth.access_token_override == Some(token),
        params_of::<MessageSendParams>(request) == Ok::<_, JsonRpcErrorView>(params),
        params.message.task_id == Some(task_id),
        task_id.len() > 0,
        !blank(joined_text(params.message.parts)),
    ensures
        ({
            let none = AnswerView::Cached(None);
            let numbers = JsonView::Object(
                seq![
                    ("sequenceId"@, JsonView::Number(NumberView::PosInt(2))),
                    ("lastUpdatedAt"@, JsonView::Number(NumberView::PosInt(now))),
                ],
            );
            &&& message_send_run(d, request, now, timestamp, Seq::empty()) == Run::<Outcome>::Do(
                ActionView::CacheGet { key: "meta:"@ + task_id },
            )
            &&& message_send_run(d, request, now, timestamp, seq![none]) == Run::<Outcome>::Do(
                ActionView::CacheSave {
                    key: "meta:"@ + task_id,
                    bytes: hot_bytes(bytes_of_json(numbers), now, d.ttl),
                },
            )
            &&& message_send_run(d, request, now, timestamp, seq![none, noted]) == Run::<
                Outcome,
            >::Do(
                ActionView::Send(
                    HttpRequestView {
                        upstream: Upstream::AgentforceApi,
                        method: Method::Post,
                        path: Some(
                            d.client.api_base_path + ("/sessions/"@ + url_encoded(task_id)
                                + "/messages"@),
                        ),
                        headers: seq![
                            ("authorization"@, "Bearer "@ + token),
                            ("content-type"@, "application/json"@),
                            ("accept"@, "application/json"@),
                        ],
                        body: Some(
                            bytes_of_json(
                                JsonView::Object(
                                    seq![
                                        (
                                            "message"@,
                                            JsonView::Object(
                                                seq![
                                                    ("type"@, JsonView::Text("Text"@)),
                                                    (
                                                        "sequenceId"@,
                                                        JsonView::Number(NumberView::PosInt(2)),
                                                    ),
                                                    (
                                                        "text"@,
                                                        JsonView::Text(
                                                            joined_text(params.message.parts),
                                                        ),
                                                    ),
                                                ],
                                            ),
                                        ),
                                    ],
                                ),
                            ),
                        ),
                        timeout_ms: None,
                    },
                ),
            )
        }),
{
    let none = AnswerView::Cached(None);
    let meta = TaskMeta { sequence_id: 2, last_updated_at_unix: now };
    let numbers = JsonView::Object(
        seq![
            ("sequenceId"@, JsonView::Number(NumberView::PosInt(2))),
            ("lastUpdatedAt"@, JsonView::Number(NumberView::PosInt(now))),
        ],
    );
    assert(meta_json(meta)->Object_0 =~= numbers->Object_0);
    assert(seq![none].drop_first() =~= Seq::empty());
    let text = joined_text(params.message.parts);
    message_goes_to_its_session(d.client, task_id, text, 2, now, Seq::empty(), token);
    named_task_is_continued(d, request, params, now, timestamp, Seq::empty());
    named_task_is_continued(d, request, params, now, timestamp, seq![none]);
    named_task_is_continued(d, request, params, now, timestamp, seq![none, noted]);
    lemma_first_number(d, task_id, now, noted, Seq::empty());
    assert(seq![none, noted] + Seq::<AnswerView>::empty() =~= seq![none, noted]);
    assert(sequence_run(d, task_id, now, seq![none]) == Run::<u32>::Do(
        ActionView::CacheSave {
            key: "meta:"@ + task_id,
            bytes: hot_bytes(bytes_of_json(numbers), now, d.ttl),
        },
    ));
}

/// Whatever number a message has, its text goes out under that number.
#[verifier::rlimit(60)]
#[verifier::spinoff_prover]
pub proof fn message_goes_out_under_its_number(
    d: DispatcherView,
    request: JsonRpcRequestView,
    params: MessageSendParamsView,
    task_id: Seq<char>,
    token: Seq<char>,
    now: u64,
    timestamp: Seq<char>,
    h: Seq<AnswerView>,
    number: u32,
)
    requires
        d.client.auth.access_token_override == Some(token),
        params_of::<MessageSendParams>(request) == Ok::<_, JsonRpcErrorView>(params),
        params.message.task_id == Some(task_id),
        task_id.len() > 0,
        !blank(joined_text(params.message.parts)),
        sequence_run(d, task_id, now, h) == Run::Done(number, Seq::empty()),
    ensures
        message_send_run(d, request, now, timestamp, h) == Run::<Outcome>::Do(
            ActionView::Send(
                HttpRequestView {
                    upstream: Upstream::AgentforceApi,
                    method: Method::Post,
                    path: Some(
                        d.client.api_base_path + ("/sessions/"@ + url_encoded(task_id)
                            + "/messages"@),
                    ),
                    headers: seq![
                        ("authorization"@, "Bearer "@ + token),
                        ("content-type"@, "application/json"@),
                        ("accept"@, "application/json"@),
                    ],
                    body: Some(
                        bytes_of_json(
                            JsonView::Object(
                                seq![
                                    (
                                        "message"@,
                                        JsonView::Object(
                                            seq![
                                                ("type"@, JsonView::Text("Text"@)),
                                                (
                                                    "sequenceId"@,
                                                    JsonView::Number(
                                                        NumberView::PosInt(number as u64),
                                                    ),
                                                ),
                                                (
                                                    "text"@,
                                                    JsonView::Text(
                                                        joined_text(params.message.parts),
                                                    ),
                                                ),
                                            ],
                                        ),
                                    ),
                                ],
                            ),
                        ),
                    ),
                    timeout_ms: None,
                },
            ),
        ),
{
    let text = joined_text(params.message.parts);
    message_goes_to_its_session(d.client, task_id, text, number, now, Seq::empty(), token);
    named_task_is_continued(d, request, params, now, timestamp, h);
}

/// What Agentforce answers a message with becomes a task, which is stored under its id
/// and then returned under the id of the request.
#[verifier::rlimit(60)]
#[verifier::spinoff_prover]
pub proof fn answer_becomes_a_task(
    d: DispatcherView,
    request: JsonRpcRequestView,
    params: MessageSendParamsView,
    task_id: Seq<char>,
    token: Seq<char>,
    now: u64,
    timestamp: Seq<char>,
    h: Seq<AnswerView>,
    number: u32,
    status: u32,
    answer: Seq<u8>,
    response: SendMessageResponseView,
    rest: Seq<AnswerView>,
)
    requires
        d.client.auth.access_token_override == Some(token),
        params_of::<MessageSendParams>(request) == Ok::<_, JsonRpcErrorView>(params),
        params.message.task_id == Some(task_id),
        task_id.len() > 0,
        !blank(joined_text(params.message.parts)),
        sequence_run(d, task_id, now, h) == Run::Done(
            number,
            seq![AnswerView::Reply(HttpReplyView::Answered { status, body: answer })] + rest,
        ),
        200 <= status <= 299,
        message_answer(record_of_bytes(Rec::SendMessage, answer)) == Ok::<_, Seq<char>>(response),
        response.messages.len() > 0 && response.messages[0].id is Some,
    ensures
        ({
            let task = task_json(
                exchange_task(params.message, task_id, response, Seq::empty(), timestamp),
            );
            message_send_run(d, request, now, timestamp, h) == if rest.len() == 0 {
                Run::<Outcome>::Do(
                    ActionView::CacheSave {
                        key: "task:"@ + task_id,
                        bytes: hot_bytes(bytes_of_json(task), now, d.ttl),
                    },
                )
            } else {
                Run::Done(
                    Ok(
                        JsonRpcSuccessView {
                            jsonrpc: "2.0"@,
                            id: if request.id is Some {
                                request.id->0
                            } else {
                                JsonView::Null
                            },
                            result: task,
                        },
                    ),
                    rest.drop_first(),
                )
            }
        }),
{
    let reply = AnswerView::Reply(HttpReplyView::Answered { status, body: answer });
    let left = seq![reply] + rest;
    let text = joined_text(params.message.parts);
    named_task_is_continued(d, request, params, now, timestamp, h);
    crate::laws::sessions::replies_are_judged_by_status(
        d.client,
        task_id,
        text,
        number,
        now,
        left,
        token,
        left,
        status,
        answer,
        rest,
    );
    assert(send_message_run(d.client, task_id, text, number, now, left) == Run::Done(
        Ok::<_, ClientErrorView>(response),
        rest,
    ));
    assert(answer_id_run(response, rest) == Run::Done(Seq::<char>::empty(), rest));
}

/// The task of an answer that has no id of its own has the fresh one.
#[verifier::rlimit(60)]
#[verifier::spinoff_prover]
pub proof fn fresh_id_is_the_answers(
    d: DispatcherView,
    request: JsonRpcRequestView,
    params: MessageSendParamsView,
    task_id: Seq<char>,
    token: Seq<char>,
    now: u64,
    timestamp: Seq<char>,
    h: Seq<AnswerView>,
    number: u32,
    answer: Seq<u8>,
    response: SendMessageResponseView,
    fresh: Seq<char>,
)
    requires
        d.client.auth.access_token_override == Some(token),
        params_of::<MessageSendParams>(request) == Ok::<_, JsonRpcErrorView>(params),
        params.message.task_id == Some(task_id),
        task_id.len() > 0,
        !blank(joined_text(params.message.parts)),
        sequence_run(d, task_id, now, h) == Run::Done(
            number,
            seq![AnswerView::Reply(HttpReplyView::Answered { status: 200, body: answer })] + seq![
                AnswerView::Fresh(fresh),
            ],
        ),
        message_answer(record_of_bytes(Rec::SendMessage, answer)) == Ok::<_, Seq<char>>(response),
        response.messages.len() > 0 && response.messages[0].id is None,
        response_parts(response.messages).len() > 0,
    ensures
        message_send_run(d, request, now, timestamp, h) == Run::<Outcome>::Do(
            ActionView::CacheSave {
                key: "task:"@ + task_id,
                bytes: hot_bytes(
                    bytes_of_json(
                        task_json(exchange_task(params.message, task_id, response, fresh, timestamp)),
                    ),
                    now,
                    d.ttl,
                ),
            },
        ),
{
    let reply = AnswerView::Reply(HttpReplyView::Answered { status: 200, body: answer });
    let rest = seq![AnswerView::Fresh(fresh)];
    let left = seq![reply] + rest;
    let text = joined_text(params.message.parts);
    named_task_is_continued(d, request, params, now, timestamp, h);
    crate::laws::sessions::replies_are_judged_by_status(
        d.client,
        task_id,
        text,
        number,
        now,
        left,
        token,
        left,
        200,
        answer,
        rest,
    );
    assert(rest.drop_first() =~= Seq::empty());
    assert(answer_id_run(response, rest) == Run::Done(fresh, Seq::empty()));
}

proof fn lemma_first_number(
    d: DispatcherView,
    task_id: Seq<char>,
    now: u64,
    noted: AnswerView,
    rest: Seq<AnswerView>,
)
    ensures
        sequence_run(d, task_id, now, seq![AnswerView::Cached(None), noted] + rest) == Run::Done(
            2u32,
            rest,
        ),
{
    let h = seq![AnswerView::Cached(None), noted] + rest;
    assert(h.drop_first() =~= seq![noted] + rest);
    assert((seq![noted] + rest).drop_first() =~= rest);
}

/// The number of a message is one more than the one that is noted for its task, up to
/// the largest there is.
pub proof fn numbers_go_up_by_one(
    d: DispatcherView,
    task_id: Seq<char>,
    noted: TaskMeta,
    written_at: u64,
    now: u64,
    saved: AnswerView,
)
    requires
        kept(
            bytes_of_json(meta_json(noted)),
            written_at,
            d.ttl,
        ),
        crate::json::json_of_bytes(bytes_of_json(meta_json(noted)))
            == crate::json::read_as(meta_json(noted)),
        now < written_at + d.ttl,
        written_at + d.ttl <= u64::MAX,
    ensures
        sequence_run(
            d,
            task_id,
            now,
            seq![
                AnswerView::Cached(
                    Some(
                        hot_bytes(
                            bytes_of_json(meta_json(noted)),
                            written_at,
                            d.ttl,
                        ),
                    ),
                ),
                saved,
            ],
        ) == Run::Done(
            if noted.sequence_id < u32::MAX {
                (noted.sequence_id + 1) as u32
            } else {
                u32::MAX
            },
            Seq::empty(),
        ),
{
    let payload = bytes_of_json(meta_json(noted));
    let entry = hot_bytes(payload, written_at, d.ttl);
    let h = seq![AnswerView::Cached(Some(entry)), saved];
    assert(hot_entry(Some(entry), now)
        == HotEntry::Found(payload));
    meta_round_trip(noted);
    assert(h.drop_first() =~= seq![saved]);
    assert(seq![saved].drop_first() =~= Seq::empty());
}

/// An error of Agentforce comes back as an internal error that says what failed.
pub proof fn failures_say_their_reason(
    id: Option<JsonView>,
    operation: Seq<char>,
    status: u32,
    body: Seq<char>,
    source: Seq<char>,
    e: AuthErrorView,
    field: Seq<char>,
)
    ensures
        ({
            let says = |err: ClientErrorView, reason: Seq<char>| ({
                let out = client_failure(id, err);
                &&& out.jsonrpc == "2.0"@
                &&& out.id == (if id is Some {
                    id->0
                } else {
                    JsonView::Null
                })
                &&& out.error.code == -32603
                &&& out.error.data matches Some(JsonView::Object(o)) && o.len() > 0 && o[0] == (
                    "reason"@,
                    JsonView::Text(reason),
                )
            });
            &&& says(ClientErrorView::AuthRejected, "agentforce_auth_rejected"@)
            &&& says(
                ClientErrorView::HttpStatus { operation, status, body },
                "agentforce_http_error"@,
            )
            &&& says(ClientErrorView::Auth(e), "agentforce_token_failure"@)
            &&& says(ClientErrorView::Transport { source }, "agentforce_transport_error"@)
            &&& says(ClientErrorView::BadJson(source), "agentforce_bad_json"@)
            &&& says(ClientErrorView::MissingField(field), "agentforce_missing_field"@)
            &&& client_failure(
                id,
                ClientErrorView::HttpStatus { operation, status, body },
            ).error.data == Some(
                JsonView::Object(
                    seq![
                        ("reason"@, JsonView::Text("agentforce_http_error"@)),
                        ("status"@, JsonView::Number(NumberView::PosInt(status as u64))),
                        ("operation"@, JsonView::Text(operation)),
                    ],
                ),
            )
            &&& client_failure(id, ClientErrorView::MissingField(field)).error.data == Some(
                JsonView::Object(
                    seq![
                        ("reason"@, JsonView::Text("agentforce_missing_field"@)),
                        ("field"@, JsonView::Text(field)),
                    ],
                ),
            )
        }),
{
}

/// A session that Agentforce does not start is an error under the id of the request, and
/// no message is sent.
#[verifier::rlimit(60)]
#[verifier::spinoff_prover]
pub proof fn unstarted_session_is_an_error(
    d: DispatcherView,
    request: JsonRpcRequestView,
    params: MessageSendParamsView,
    token: Seq<char>,
    now: u64,
    timestamp: Seq<char>,
    status: u32,
    body: Seq<u8>,
    rest: Seq<AnswerView>,
)
    requires
        d.client.auth.access_token_override == Some(token),
        params_of::<MessageSendParams>(request) == Ok::<_, JsonRpcErrorView>(params),
        !blank(joined_text(params.message.parts)),
        params.message.task_id is None,
        status != 401,
        !(200 <= status <= 299),
    ensures
        ({
            let reply = AnswerView::Reply(HttpReplyView::Answered { status, body });
            let out = client_failure(
                request.id,
                ClientErrorView::HttpStatus { operation: "startSession"@, status, body: redacted(body) },
            );
            &&& message_send_run(d, request, now, timestamp, seq![reply] + rest) == Run::Done(
                Err::<JsonRpcSuccessView, _>(out),
                rest,
            )
            &&& out.error.code == -32603
            &&& out.error.data == Some(
                JsonView::Object(
                    seq![
                        ("reason"@, JsonView::Text("agentforce_http_error"@)),
                        ("status"@, JsonView::Number(NumberView::PosInt(status as u64))),
                        ("operation"@, JsonView::Text("startSession"@)),
                    ],
                ),
            )
        }),
{
    let reply = AnswerView::Reply(HttpReplyView::Answered { status, body });
    let left = seq![reply] + rest;
    let text = joined_text(params.message.parts);
    crate::laws::sessions::replies_are_judged_by_status(
        d.client,
        params.message.message_id,
        text,
        2,
        now,
        left,
        token,
        left,
        status,
        body,
        rest,
    );
    assert(session_run(d, params.message, now, left) == Run::Done(
        Err::<Seq<char>, _>(
            ClientErrorView::HttpStatus { operation: "startSession"@, status, body: redacted(body) },
        ),
        rest,
    ));
}

/// A message that Agentforce refuses is an error under the id of the request, and no task
/// is stored.
#[verifier::rlimit(60)]
#[verifier::spinoff_prover]
pub proof fn refused_message_is_an_error(
    d: DispatcherView,
    request: JsonRpcRequestView,
    params: MessageSendParamsView,
    token: Seq<char>,
    now: u64,
    timestamp: Seq<char>,
    task_id: Seq<char>,
    noted: AnswerView,
    status: u32,
    body: Seq<u8>,
    rest: Seq<AnswerView>,
)
    requires
        d.client.auth.access_token_override == Some(token),
        params_of::<MessageSendParams>(request) == Ok::<_, JsonRpcErrorView>(params),
        !blank(joined_text(params.message.parts)),
        params.message.task_id == Some(task_id),
        task_id.len() > 0,
        status != 401,
        !(200 <= status <= 299),
    ensures
        ({
            let reply = AnswerView::Reply(HttpReplyView::Answered { status, body });
            let out = client_failure(
                request.id,
                ClientErrorView::HttpStatus { operation: "sendMessage"@, status, body: redacted(body) },
            );
            &&& message_send_run(d, request, now, timestamp, seq![AnswerView::Cached(None), noted] + (seq![reply] + rest)) == Run::Done(
                Err::<JsonRpcSuccessView, _>(out),
                rest,
            )
            &&& out.error.code == -32603
            &&& out.error.data == Some(
                JsonView::Object(
                    seq![
                        ("reason"@, JsonView::Text("agentforce_http_error"@)),
                        ("status"@, JsonView::Number(NumberView::PosInt(status as u64))),
                        ("operation"@, JsonView::Text("sendMessage"@)),
                    ],
                ),
            )
        }),
{
    let reply = AnswerView::Reply(HttpReplyView::Answered { status, body });
    let left = seq![reply] + rest;
    let text = joined_text(params.message.parts);
    crate::laws::sessions::replies_are_judged_by_status(
        d.client,
        task_id,
        text,
        2,
        now,
        left,
        token,
        left,
        status,
        body,
        rest,
    );
    let h = seq![AnswerView::Cached(None), noted] + left;
    lemma_first_number(d, task_id, now, noted, left);
    named_task_is_continued(d, request, params, now, timestamp, h);
}

/// An answer that has text but no id for its first message is given a fresh one, which
/// its message and its artifact then have; no other answer is.
pub proof fn fresh_ids_are_taken_where_needed(
    response: SendMessageResponseView,
    fresh: Seq<char>,
    rest: Seq<AnswerView>,
    h: Seq<AnswerView>,
)
    ensures
        ({
            let bare = response.messages.len() > 0 && response.messages[0].id is None
                && response_parts(response.messages).len() > 0;
            &&& bare ==> answer_id_run(response, Seq::empty()) == Run::<Seq<char>>::Do(
                ActionView::FreshId,
            )
            &&& bare ==> answer_id_run(response, seq![AnswerView::Fresh(fresh)] + rest)
                == Run::Done(fresh, rest)
            &&& !bare ==> (answer_id_run(response, h) matches Run::Done(_, left) && left == h)
        }),
{
    assert((seq![AnswerView::Fresh(fresh)] + rest).drop_first() =~= rest);
    if response.messages.len() == 0 {
        assert(response_parts(response.messages).len() == 0);
    }
}

/// The number of a message is noted for its task, with the moment, before the message
/// goes out.
pub proof fn numbers_are_noted(
    d: DispatcherView,
    task_id: Seq<char>,
    noted: TaskMeta,
    written_at: u64,
    now: u64,
)
    requires
        kept(bytes_of_json(meta_json(noted)), written_at, d.ttl),
        crate::json::json_of_bytes(bytes_of_json(meta_json(noted))) == crate::json::read_as(
            meta_json(noted),
        ),
        now < written_at + d.ttl,
        written_at + d.ttl <= u64::MAX,
    ensures
        ({
            let entry = hot_bytes(bytes_of_json(meta_json(noted)), written_at, d.ttl);
            let next = if noted.sequence_id < u32::MAX {
                noted.sequence_id + 1
            } else {
                u32::MAX as int
            };
            let numbers = JsonView::Object(
                seq![
                    ("sequenceId"@, JsonView::Number(NumberView::PosInt(next as u64))),
                    ("lastUpdatedAt"@, JsonView::Number(NumberView::PosInt(now))),
                ],
            );
            sequence_run(d, task_id, now, seq![AnswerView::Cached(Some(entry))]) == Run::<u32>::Do(
                ActionView::CacheSave {
                    key: "meta:"@ + task_id,
                    bytes: hot_bytes(bytes_of_json(numbers), now, d.ttl),
                },
            )
        }),
{
    let payload = bytes_of_json(meta_json(noted));
    let entry = hot_bytes(payload, written_at, d.ttl);
    let h = seq![AnswerView::Cached(Some(entry))];
    assert(hot_entry(Some(entry), now) == HotEntry::Found(payload));
    meta_round_trip(noted);
    assert(h.drop_first() =~= Seq::empty());
    let next = if noted.sequence_id < u32::MAX {
        (noted.sequence_id + 1) as u32
    } else {
        u32::MAX
    };
    crate::laws::wire::cache_documents(
        crate::store::task_store::HotEnvelopeView { payload: Seq::empty(), expires_at_unix: 0 },
        crate::cache::CachedTokenView { access_token: Seq::empty(), expires_at_unix: 0 },
        TaskMeta { sequence_id: next, last_updated_at_unix: now },
    );
}

/// A started session is read from an answer that names it, whatever else it says or does
/// not say; a message of the agent has the id, the kind and the text that it names.
pub proof fn answers_need_little(id: Seq<char>, o: MembersView)
    ensures
        session_answer(Ok(JsonView::Object(seq![("sessionId"@, JsonView::Text(id))]))) matches Ok(s)
            && s.session_id == id && s.messages.len() == 0,
        session_answer(Ok(JsonView::Object(MembersView::empty()))) is Err,
        ({
            let m = agent_message_in(JsonView::Object(o));
            let text = |key: Seq<char>|
                match member(o, key) {
                    Some(JsonView::Text(t)) => Some(t),
                    _ => None,
                };
            &&& m.id == text("id"@)
            &&& m.kind == text("type"@)
            &&& m.message == text("message"@)
            &&& m.extra == extra_members(o)
        }),
{
    broadcast use {lemma_member_push, lemma_members_push};

    lemma_answer_names();
    let r = Rec::StartSession;
    let none = MembersView::empty();
    let one = none.push(("sessionId"@, JsonView::Text(id)));
    assert(one =~= seq![("sessionId"@, JsonView::Text(id))]);
    lemma_field_index(fields(r), "sessionId"@, 0);
    assert(member(none, "sessionId"@) is None);
    assert(member(none, "messages"@) is None);
    assert(members_error(r, none, 0) is None);
    assert(members_error(r, one, 0) is None);
    lemma_nothing_absent(fields(r), one);
    assert(items_at(r, JsonView::Object(one), "messages"@) =~= Seq::empty());
    assert(agent_messages_in(Seq::empty()) =~= Seq::empty());
}

} // verus!
