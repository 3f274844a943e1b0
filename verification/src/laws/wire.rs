//! The documents that go over the wire and into the cache.

use vstd::prelude::*;

use crate::a2a::types::{
    artifact_json, message_json, part_json, state_name, status_json, task_json, ArtifactView,
    MessageView, PartView, TaskState, TaskStatusView, TaskView,
};
use crate::cache::{token_json, CachedTokenView};
use crate::json::{JsonView, NumberView};
use crate::jsonrpc::{error_json, success_json, JsonRpcErrorView, JsonRpcSuccessView};
use crate::store::task_store::{envelope_json, meta_json, HotEnvelopeView, TaskMeta};

verus! {

/// A part: its kind, and for a text the text; metadata only where there is any.
pub proof fn part_document(text: Seq<char>, data: JsonView)
    ensures
        part_json(PartView::Text { text, metadata: None }) == JsonView::Object(
            seq![("kind"@, JsonView::Text("text"@)), ("text"@, JsonView::Text(text))],
        ),
        part_json(PartView::Text { text, metadata: Some(data) }) == JsonView::Object(
            seq![
                ("kind"@, JsonView::Text("text"@)),
                ("text"@, JsonView::Text(text)),
                ("metadata"@, data),
            ],
        ),
        part_json(PartView::Unknown) == JsonView::Object(
            seq![("kind"@, JsonView::Text("unknown"@))],
        ),
{
    let a = seq![("kind"@, JsonView::Text("text"@)), ("text"@, JsonView::Text(text))];
    let b = part_json(PartView::Text { text, metadata: None })->Object_0;
    let c = part_json(PartView::Text { text, metadata: Some(data) })->Object_0;
    assert(b =~= a);
    assert(c =~= a.push(("metadata"@, data)));
    assert(a.push(("metadata"@, data)) =~= seq![
        ("kind"@, JsonView::Text("text"@)),
        ("text"@, JsonView::Text(text)),
        ("metadata"@, data),
    ]);
    assert(part_json(PartView::Unknown)->Object_0 =~= seq![("kind"@, JsonView::Text("unknown"@))]);
}

/// A message of a task: who says what, and in which task.
pub proof fn message_document(m: MessageView, task_id: Seq<char>, context_id: Seq<char>)
    requires
        m.metadata is None,
    ensures
        ({
            let parts = JsonView::Array(Seq::new(m.parts.len(), |i: int| part_json(m.parts[i])));
            let base = seq![
                ("kind"@, JsonView::Text(m.kind)),
                ("messageId"@, JsonView::Text(m.message_id)),
                ("role"@, JsonView::Text(m.role)),
                ("parts"@, parts),
            ];
            &&& m.task_id == Some(task_id) && m.context_id == Some(context_id) ==> message_json(m)
                == JsonView::Object(
                base + seq![
                    ("taskId"@, JsonView::Text(task_id)),
                    ("contextId"@, JsonView::Text(context_id)),
                ],
            )
            &&& m.task_id is None && m.context_id is None ==> message_json(m) == JsonView::Object(
                base,
            )
        }),
{
    let a = m.parts.map_values(|x: PartView| part_json(x));
    let b = Seq::new(m.parts.len(), |i: int| part_json(m.parts[i]));
    assert(a =~= b);
    let parts = JsonView::Array(b);
    let base = seq![
        ("kind"@, JsonView::Text(m.kind)),
        ("messageId"@, JsonView::Text(m.message_id)),
        ("role"@, JsonView::Text(m.role)),
        ("parts"@, parts),
    ];
    if m.task_id is None && m.context_id is None {
        assert(message_json(m)->Object_0 =~= base);
    }
    if m.task_id == Some(task_id) && m.context_id == Some(context_id) {
        assert(message_json(m)->Object_0 =~= base + seq![
            ("taskId"@, JsonView::Text(task_id)),
            ("contextId"@, JsonView::Text(context_id)),
        ]);
    }
}

/// An artifact with a name.
pub proof fn artifact_document(a: ArtifactView, name: Seq<char>)
    requires
        a.name == Some(name),
        a.description is None,
        a.metadata is None,
    ensures
        artifact_json(a) == JsonView::Object(
            seq![
                ("artifactId"@, JsonView::Text(a.artifact_id)),
                ("name"@, JsonView::Text(name)),
                (
                    "parts"@,
                    JsonView::Array(Seq::new(a.parts.len(), |i: int| part_json(a.parts[i]))),
                ),
            ],
        ),
{
    let x = a.parts.map_values(|x: PartView| part_json(x));
    let y = Seq::new(a.parts.len(), |i: int| part_json(a.parts[i]));
    assert(x =~= y);
    assert(artifact_json(a)->Object_0 =~= seq![
        ("artifactId"@, JsonView::Text(a.artifact_id)),
        ("name"@, JsonView::Text(name)),
        ("parts"@, JsonView::Array(y)),
    ]);
}

/// A status with its moment.
pub proof fn status_document(state: TaskState, moment: Seq<char>)
    ensures
        status_json(TaskStatusView { state, timestamp: Some(moment), message: None })
            == JsonView::Object(
            seq![
                (
                    "state"@,
                    JsonView::Text(
                        match state {
                            TaskState::Submitted => "submitted"@,
                            TaskState::Working => "working"@,
                            TaskState::InputRequired => "input-required"@,
                            TaskState::Completed => "completed"@,
                            TaskState::Canceled => "canceled"@,
                            TaskState::Failed => "failed"@,
                            TaskState::Rejected => "rejected"@,
                            TaskState::AuthRequired => "auth-required"@,
                            TaskState::Unknown => "unknown"@,
                        },
                    ),
                ),
                ("timestamp"@, JsonView::Text(moment)),
            ],
        ),
{
    let s = TaskStatusView { state, timestamp: Some(moment), message: None };
    assert(status_json(s)->Object_0 =~= seq![
        ("state"@, JsonView::Text(state_name(state))),
        ("timestamp"@, JsonView::Text(moment)),
    ]);
}

/// A task: its id, its context, its status, its history and its artifacts, the last two
/// only where there are any.
pub proof fn task_document(t: TaskView)
    requires
        t.metadata is None,
    ensures
        ({
            let base = seq![
                ("id"@, JsonView::Text(t.id)),
                ("contextId"@, JsonView::Text(t.context_id)),
                ("kind"@, JsonView::Text(t.kind)),
                ("status"@, status_json(t.status)),
            ];
            let history = seq![
                (
                    "history"@,
                    JsonView::Array(Seq::new(t.history.len(), |i: int| message_json(t.history[i]))),
                ),
            ];
            let artifacts = seq![
                (
                    "artifacts"@,
                    JsonView::Array(
                        Seq::new(t.artifacts.len(), |i: int| artifact_json(t.artifacts[i])),
                    ),
                ),
            ];
            &&& t.history.len() > 0 && t.artifacts.len() > 0 ==> task_json(t) == JsonView::Object(
                base + history + artifacts,
            )
            &&& t.history.len() > 0 && t.artifacts.len() == 0 ==> task_json(t) == JsonView::Object(
                base + history,
            )
            &&& t.history.len() == 0 && t.artifacts.len() > 0 ==> task_json(t) == JsonView::Object(
                base + artifacts,
            )
            &&& t.history.len() == 0 && t.artifacts.len() == 0 ==> task_json(t)
                == JsonView::Object(base)
        }),
{
    let base = seq![
        ("id"@, JsonView::Text(t.id)),
        ("contextId"@, JsonView::Text(t.context_id)),
        ("kind"@, JsonView::Text(t.kind)),
        ("status"@, status_json(t.status)),
    ];
    let h = Seq::new(t.history.len(), |i: int| message_json(t.history[i]));
    let a = Seq::new(t.artifacts.len(), |i: int| artifact_json(t.artifacts[i]));
    assert(t.history.map_values(|x: MessageView| message_json(x)) =~= h);
    assert(t.artifacts.map_values(|x: ArtifactView| artifact_json(x)) =~= a);
    let o = task_json(t)->Object_0;
    let history = seq![("history"@, JsonView::Array(h))];
    let artifacts = seq![("artifacts"@, JsonView::Array(a))];
    if t.history.len() > 0 && t.artifacts.len() > 0 {
        assert(o =~= base + history + artifacts);
    } else if t.history.len() > 0 {
        assert(o =~= base + history);
    } else if t.artifacts.len() > 0 {
        assert(o =~= base + artifacts);
    } else {
        assert(o =~= base);
    }
}

/// A response: the version, the id of the request, and the result or the error.
pub proof fn response_document(s: JsonRpcSuccessView, e: JsonRpcErrorView, d: JsonView)
    ensures
        success_json(s) == JsonView::Object(
            seq![("jsonrpc"@, JsonView::Text(s.jsonrpc)), ("id"@, s.id), ("result"@, s.result)],
        ),
        e.error.code < 0 && e.error.data is None ==> error_json(e) == JsonView::Object(
            seq![
                ("jsonrpc"@, JsonView::Text(e.jsonrpc)),
                ("id"@, e.id),
                (
                    "error"@,
                    JsonView::Object(
                        seq![
                            (
                                "code"@,
                                JsonView::Number(NumberView::NegInt(e.error.code as i64)),
                            ),
                            ("message"@, JsonView::Text(e.error.message)),
                        ],
                    ),
                ),
            ],
        ),
        e.error.code < 0 && e.error.data == Some(d) ==> error_json(e) == JsonView::Object(
            seq![
                ("jsonrpc"@, JsonView::Text(e.jsonrpc)),
                ("id"@, e.id),
                (
                    "error"@,
                    JsonView::Object(
                        seq![
                            (
                                "code"@,
                                JsonView::Number(NumberView::NegInt(e.error.code as i64)),
                            ),
                            ("message"@, JsonView::Text(e.error.message)),
                            ("data"@, d),
                        ],
                    ),
                ),
            ],
        ),
{
    if e.error.code < 0 && e.error.data == Some(d) {
        let code = ("code"@, JsonView::Number(NumberView::NegInt(e.error.code as i64)));
        let text = ("message"@, JsonView::Text(e.error.message));
        assert(seq![code, text].push(("data"@, d)) =~= seq![code, text, ("data"@, d)]);
    }
}

/// What is kept in the cache: a payload byte by byte with its end, a token with its end,
/// and a task's numbers.
pub proof fn cache_documents(e: HotEnvelopeView, t: CachedTokenView, m: TaskMeta)
    ensures
        envelope_json(e) == JsonView::Object(
            seq![
                (
                    "payload"@,
                    JsonView::Array(
                        Seq::new(
                            e.payload.len(),
                            |i: int| JsonView::Number(NumberView::PosInt(e.payload[i] as u64)),
                        ),
                    ),
                ),
                ("expires_at_unix"@, JsonView::Number(NumberView::PosInt(e.expires_at_unix))),
            ],
        ),
        token_json(t) == JsonView::Object(
            seq![
                ("access_token"@, JsonView::Text(t.access_token)),
                ("expires_at_unix"@, JsonView::Number(NumberView::PosInt(t.expires_at_unix))),
            ],
        ),
        meta_json(m) == JsonView::Object(
            seq![
                ("sequenceId"@, JsonView::Number(NumberView::PosInt(m.sequence_id as u64))),
                ("lastUpdatedAt"@, JsonView::Number(NumberView::PosInt(m.last_updated_at_unix))),
            ],
        ),
{
    let bytes = Seq::new(
        e.payload.len(),
        |i: int| JsonView::Number(NumberView::PosInt(e.payload[i] as u64)),
    );
    assert(e.payload.map_values(|b: u8| crate::store::task_store::byte_json(b)) =~= bytes);
    assert(envelope_json(e)->Object_0 =~= seq![
        ("payload"@, JsonView::Array(bytes)),
        ("expires_at_unix"@, JsonView::Number(NumberView::PosInt(e.expires_at_unix))),
    ]);
    assert(token_json(t)->Object_0 =~= seq![
        ("access_token"@, JsonView::Text(t.access_token)),
        ("expires_at_unix"@, JsonView::Number(NumberView::PosInt(t.expires_at_unix))),
    ]);
    assert(meta_json(m)->Object_0 =~= seq![
        ("sequenceId"@, JsonView::Number(NumberView::PosInt(m.sequence_id as u64))),
        ("lastUpdatedAt"@, JsonView::Number(NumberView::PosInt(m.last_updated_at_unix))),
    ]);
}

/// Metadata comes last in a document, as it was given; so do the description of an
/// artifact and the message of a status in their places.
pub proof fn optional_members(
    t: TaskView,
    m: MessageView,
    a: ArtifactView,
    s: TaskStatusView,
    data: JsonView,
    text: Seq<char>,
    moment: Seq<char>,
    said: MessageView,
)
    ensures
        t.metadata == Some(data) ==> task_json(t) == JsonView::Object(
            task_json(TaskView { metadata: None, ..t })->Object_0.push(("metadata"@, data)),
        ),
        m.metadata == Some(data) ==> message_json(m) == JsonView::Object(
            message_json(MessageView { metadata: None, ..m })->Object_0.push(("metadata"@, data)),
        ),
        a.metadata == Some(data) ==> artifact_json(a) == JsonView::Object(
            artifact_json(ArtifactView { metadata: None, ..a })->Object_0.push(
                ("metadata"@, data),
            ),
        ),
        a.name is None && a.description == Some(text) && a.metadata is None ==> artifact_json(a)
            == JsonView::Object(
            seq![
                ("artifactId"@, JsonView::Text(a.artifact_id)),
                ("description"@, JsonView::Text(text)),
                (
                    "parts"@,
                    JsonView::Array(Seq::new(a.parts.len(), |i: int| part_json(a.parts[i]))),
                ),
            ],
        ),
        s.timestamp is None && s.message is None ==> status_json(s) == JsonView::Object(
            seq![("state"@, JsonView::Text(state_name(s.state)))],
        ),
        s.message == Some(said) ==> status_json(s) == JsonView::Object(
            status_json(TaskStatusView { message: None, ..s })->Object_0.push(
                ("message"@, message_json(said)),
            ),
        ),
{
    if a.name is None && a.description == Some(text) && a.metadata is None {
        let x = a.parts.map_values(|x: PartView| part_json(x));
        let y = Seq::new(a.parts.len(), |i: int| part_json(a.parts[i]));
        assert(x =~= y);
        assert(artifact_json(a)->Object_0 =~= seq![
            ("artifactId"@, JsonView::Text(a.artifact_id)),
            ("description"@, JsonView::Text(text)),
            ("parts"@, JsonView::Array(y)),
        ]);
    }
    if s.timestamp is None && s.message is None {
        assert(status_json(s)->Object_0 =~= seq![
            ("state"@, JsonView::Text(state_name(s.state))),
        ]);
    }
}

} // verus!
