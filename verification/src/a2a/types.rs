//! The data objects of the protocol that the gateway reads and writes.
//!
//! Optional fields are left out where they are empty.

use vstd::prelude::*;
use vstd::string::StringExecFns;

use crate::decode::{
    check, field_index, field_value, fields, items_at, items_of_field, lemma_field_index,
    lemma_list_fine, lemma_members_push, lemma_nothing_absent, members_error, option_bool_at,
    option_bool_of_field, option_json_at, option_json_of_field, option_text_at,
    option_text_of_field, option_texts_of_field, option_u32_at, option_u32_of_field, part_error,
    shape_error, state_index, state_position, state_text, text_at, text_in, text_of_field, value_of,
    Rec, Shape,
};
use crate::json::{
    array_json, copy_option_json, find_member, items_view, lemma_array_view, lemma_member_push,
    lemma_object_view, lemma_storable_deeper, lemma_storable_push, member, option_json, push_some,
    push_some_text, storable, text_json, Json, JsonView, Members, MembersView,
};
use crate::text::{copy_option, copy_texts, option_text, text_eq, texts};

verus! {

/// Where a task stands.
#[derive(Debug, Clone, Copy, PartialEq, Eq, Structural)]
pub enum TaskState {
    Submitted,
    Working,
    InputRequired,
    Completed,
    Canceled,
    Failed,
    Rejected,
    AuthRequired,
    Unknown,
}

/// Whether a task in that state has come to its end.
pub open spec fn terminal(s: TaskState) -> bool {
    s is Completed || s is Canceled || s is Failed || s is Rejected
}

/// Whether a task in that state can be canceled. One that has been answered can:
/// its session is still open.
pub open spec fn cancelable(s: TaskState) -> bool {
    s is Completed || !terminal(s)
}

/// The name of a state.
pub open spec fn state_name(s: TaskState) -> Seq<char> {
    match s {
        TaskState::Submitted => "submitted"@,
        TaskState::Working => "working"@,
        TaskState::InputRequired => "input-required"@,
        TaskState::Completed => "completed"@,
        TaskState::Canceled => "canceled"@,
        TaskState::Failed => "failed"@,
        TaskState::Rejected => "rejected"@,
        TaskState::AuthRequired => "auth-required"@,
        TaskState::Unknown => "unknown"@,
    }
}

/// The state at a position of the list of names.
pub open spec fn state_numbered(i: int) -> TaskState {
    if i == 0 {
        TaskState::Submitted
    } else if i == 1 {
        TaskState::Working
    } else if i == 2 {
        TaskState::InputRequired
    } else if i == 3 {
        TaskState::Completed
    } else if i == 4 {
        TaskState::Canceled
    } else if i == 5 {
        TaskState::Failed
    } else if i == 6 {
        TaskState::Rejected
    } else if i == 7 {
        TaskState::AuthRequired
    } else {
        TaskState::Unknown
    }
}

/// The state that a document names.
pub open spec fn state_in(v: JsonView) -> TaskState {
    state_numbered(state_index(state_text(v)))
}

impl TaskState {
    /// Tells whether a task in this state has come to its end.
    pub fn is_terminal(&self) -> (r: bool)
        ensures
            r == terminal(*self),
    {
        match self {
            TaskState::Completed => true,
            TaskState::Canceled => true,
            TaskState::Failed => true,
            TaskState::Rejected => true,
            _ => false,
        }
    }

    /// Tells whether a task in this state can be canceled.
    pub fn is_cancelable(&self) -> (r: bool)
        ensures
            r == cancelable(*self),
    {
        match self {
            TaskState::Canceled => false,
            TaskState::Failed => false,
            TaskState::Rejected => false,
            _ => true,
        }
    }

    /// The name of the state.
    pub fn name(&self) -> (r: &'static str)
        ensures
            r@ == state_name(*self),
    {
        match self {
            TaskState::Submitted => "submitted",
            TaskState::Working => "working",
            TaskState::InputRequired => "input-required",
            TaskState::Completed => "completed",
            TaskState::Canceled => "canceled",
            TaskState::Failed => "failed",
            TaskState::Rejected => "rejected",
            TaskState::AuthRequired => "auth-required",
            TaskState::Unknown => "unknown",
        }
    }

    /// The document of the state: its name.
    pub fn to_json(&self) -> (r: Json)
        ensures
            r@ == JsonView::Text(state_name(*self)),
    {
        text_json(self.name())
    }
}

fn state_named(s: &str) -> (r: TaskState)
    ensures
        r == state_numbered(state_index(s@)),
{
    let i: usize = state_position(s);
    if i == 0 {
        TaskState::Submitted
    } else if i == 1 {
        TaskState::Working
    } else if i == 2 {
        TaskState::InputRequired
    } else if i == 3 {
        TaskState::Completed
    } else if i == 4 {
        TaskState::Canceled
    } else if i == 5 {
        TaskState::Failed
    } else if i == 6 {
        TaskState::Rejected
    } else if i == 7 {
        TaskState::AuthRequired
    } else {
        TaskState::Unknown
    }
}

fn read_state(j: Option<&Json>) -> (r: TaskState)
    ensures
        j is Some ==> r == state_in(j->0@),
        j is None ==> r == state_in(JsonView::Null),
{
    let ghost none = JsonView::Null;
    assert(state_text(none) == Seq::<char>::empty());
    match j {
        Some(Json::Text(s)) => state_named(s.as_str()),
        Some(Json::Object(o)) => {
            proof {
                lemma_object_view(*o);
            }
            if o.len() > 0 {
                assert(crate::json::members_view(o@)[0].0 == o@[0].0@);
                state_named(o[0].0.as_str())
            } else {
                let s: String = String::new();
                assert(s@ =~= Seq::empty());
                state_named(s.as_str())
            }
        },
        _ => {
            let s: String = String::new();
            assert(s@ =~= Seq::empty());
            state_named(s.as_str())
        },
    }
}

/// One part of a message. Only text is understood; a part of any other kind is
/// known to be there and nothing more.
#[derive(Debug, PartialEq, Eq)]
pub enum Part {
    Text { text: String, metadata: Option<Json> },
    Unknown,
}

/// The value of a [`Part`].
pub enum PartView {
    Text { text: Seq<char>, metadata: Option<JsonView> },
    Unknown,
}

impl View for Part {
    type V = PartView;

    open spec fn view(&self) -> PartView {
        match self {
            Part::Text { text, metadata } => PartView::Text {
                text: text@,
                metadata: option_json(*metadata),
            },
            Part::Unknown => PartView::Unknown,
        }
    }
}

/// The text part of that text.
pub open spec fn text_part(text: Seq<char>) -> PartView {
    PartView::Text { text, metadata: None }
}

/// The document of a part.
pub open spec fn part_json(p: PartView) -> JsonView {
    JsonView::Object(
        match p {
            PartView::Text { text, metadata } => push_some(
                MembersView::empty().push(("kind"@, JsonView::Text("text"@))).push(
                    ("text"@, JsonView::Text(text)),
                ),
                "metadata"@,
                metadata,
            ),
            PartView::Unknown => MembersView::empty().push(("kind"@, JsonView::Text("unknown"@))),
        },
    )
}

/// The optional value behind an element of an array.
pub open spec fn option_element(a: Seq<JsonView>, i: int) -> Option<JsonView> {
    if i < a.len() && !(a[i] is Null) {
        Some(a[i])
    } else {
        None
    }
}

/// The part that a document holds.
pub open spec fn part_in(v: JsonView) -> PartView {
    match v {
        JsonView::Object(o) => if member(o, "kind"@) == Some(JsonView::Text("text"@)) {
            PartView::Text {
                text: match member(o, "text"@) {
                    Some(t) => text_in(t),
                    None => Seq::empty(),
                },
                metadata: match member(o, "metadata"@) {
                    Some(JsonView::Null) => None,
                    other => other,
                },
            }
        } else {
            PartView::Unknown
        },
        JsonView::Array(a) => if a.len() > 1 && a[0] == JsonView::Text("text"@) {
            PartView::Text { text: text_in(a[1]), metadata: option_element(a, 2) }
        } else {
            PartView::Unknown
        },
        _ => PartView::Unknown,
    }
}

impl Part {
    /// The text part of that text.
    pub fn text(text: String) -> (r: Part)
        ensures
            r@ == text_part(text@),
    {
        Part::Text { text, metadata: None }
    }

    /// Another one of the same value.
    pub fn copy(&self) -> (r: Part)
        ensures
            r@ == self@,
    {
        match self {
            Part::Text { text, metadata } => Part::Text {
                text: text.clone(),
                metadata: copy_option_json(metadata),
            },
            Part::Unknown => Part::Unknown,
        }
    }

    /// The document of the part.
    pub fn to_json(&self) -> (r: Json)
        ensures
            r@ == part_json(self@),
    {
        let mut m: Members = Members::new();
        match self {
            Part::Text { text, metadata } => {
                m.put_text("kind", "text");
                m.put_text("text", text.as_str());
                m.put_some("metadata", metadata);
            },
            Part::Unknown => {
                m.put_text("kind", "unknown");
            },
        }
        m.object()
    }
}

impl Clone for Part {
    fn clone(&self) -> (r: Self)
        ensures
            r@ == self@,
    {
        self.copy()
    }
}

fn read_text(j: &Json) -> (r: String)
    ensures
        r@ == text_in(j@),
{
    match j {
        Json::Text(s) => s.clone(),
        _ => {
            let s: String = String::new();
            assert(s@ =~= Seq::empty());
            s
        },
    }
}

fn read_part(j: &Json) -> (r: Part)
    ensures
        r@ == part_in(j@),
{
    match j {
        Json::Object(o) => {
            proof {
                lemma_object_view(*o);
            }
            match find_member(o, "kind") {
                Some(Json::Text(k)) => if text_eq(k.as_str(), "text") {
                    let text: String = match find_member(o, "text") {
                        Some(t) => read_text(t),
                        None => {
                            let s: String = String::new();
                            assert(s@ =~= Seq::empty());
                            s
                        },
                    };
                    let metadata: Option<Json> = match find_member(o, "metadata") {
                        Some(Json::Null) => None,
                        Some(v) => Some(v.copy()),
                        None => None,
                    };
                    Part::Text { text, metadata }
                } else {
                    Part::Unknown
                },
                _ => Part::Unknown,
            }
        },
        Json::Array(a) => {
            proof {
                lemma_array_view(*a);
            }
            if a.len() <= 1 {
                return Part::Unknown;
            }
            assert(items_view(a@)[0] == a@[0]@);
            assert(items_view(a@)[1] == a@[1]@);
            match &a[0] {
                Json::Text(k) => if text_eq(k.as_str(), "text") {
                    let metadata: Option<Json> = if a.len() > 2 {
                        assert(items_view(a@)[2] == a@[2]@);
                        match &a[2] {
                            Json::Null => None,
                            v => Some(v.copy()),
                        }
                    } else {
                        None
                    };
                    Part::Text { text: read_text(&a[1]), metadata }
                } else {
                    Part::Unknown
                },
                _ => Part::Unknown,
            }
        },
        _ => Part::Unknown,
    }
}

/// The values of parts.
pub open spec fn parts_view(v: Seq<Part>) -> Seq<PartView> {
    Seq::new(v.len(), |i: int| v[i]@)
}

/// Other parts of the same values.
pub fn copy_parts(v: &Vec<Part>) -> (r: Vec<Part>)
    ensures
        parts_view(r@) == parts_view(v@),
{
    let mut out: Vec<Part> = Vec::new();
    let n: usize = v.len();
    for i in 0..n
        invariant
            n == v@.len(),
            out@.len() == i,
            forall|k: int| 0 <= k < i ==> out@[k]@ == (#[trigger] v@[k])@,
    {
        out.push(v[i].copy());
    }
    assert(parts_view(out@) =~= parts_view(v@));
    out
}

/// The array of parts.
pub open spec fn parts_json(v: Seq<PartView>) -> JsonView {
    JsonView::Array(v.map_values(|x: PartView| part_json(x)))
}

fn parts_to_json(v: &Vec<Part>) -> (r: Json)
    ensures
        r@ == parts_json(parts_view(v@)),
{
    let mut out: Vec<Json> = Vec::new();
    let n: usize = v.len();
    for i in 0..n
        invariant
            n == v@.len(),
            out@.len() == i,
            forall|k: int| 0 <= k < i ==> out@[k]@ == part_json((#[trigger] v@[k])@),
    {
        out.push(v[i].to_json());
    }
    assert(items_view(out@) =~= parts_json(parts_view(v@))->Array_0);
    array_json(out)
}

/// The parts that documents hold.
pub open spec fn parts_in(items: Seq<JsonView>) -> Seq<PartView> {
    items.map_values(|v: JsonView| part_in(v))
}

fn read_parts(r: Rec, j: &Json, name: &str) -> (v: Vec<Part>)
    ensures
        parts_view(v@) == parts_in(items_at(r, j@, name@)),
{
    let mut out: Vec<Part> = Vec::new();
    match items_of_field(r, j, name) {
        Some(a) => {
            let n: usize = a.len();
            for i in 0..n
                invariant
                    n == a@.len(),
                    out@.len() == i,
                    forall|k: int| 0 <= k < i ==> out@[k]@ == part_in(#[trigger] a@[k]@),
            {
                out.push(read_part(&a[i]));
            }
        },
        None => {},
    }
    assert(parts_view(out@) =~= parts_in(items_at(r, j@, name@)));
    out
}

/// A message: one turn of a conversation.
#[derive(Debug, PartialEq, Eq)]
pub struct Message {
    /// Always `message`.
    pub kind: String,
    pub message_id: String,
    /// `user` or `agent`.
    pub role: String,
    pub parts: Vec<Part>,
    pub task_id: Option<String>,
    pub context_id: Option<String>,
    pub metadata: Option<Json>,
}

/// The value of a [`Message`].
pub struct MessageView {
    pub kind: Seq<char>,
    pub message_id: Seq<char>,
    pub role: Seq<char>,
    pub parts: Seq<PartView>,
    pub task_id: Option<Seq<char>>,
    pub context_id: Option<Seq<char>>,
    pub metadata: Option<JsonView>,
}

impl View for Message {
    type V = MessageView;

    open spec fn view(&self) -> MessageView {
        MessageView {
            kind: self.kind@,
            message_id: self.message_id@,
            role: self.role@,
            parts: parts_view(self.parts@),
            task_id: option_text(self.task_id),
            context_id: option_text(self.context_id),
            metadata: option_json(self.metadata),
        }
    }
}

impl Message {
    /// Another one of the same value.
    pub fn copy(&self) -> (r: Message)
        ensures
            r@ == self@,
    {
        Message {
            kind: self.kind.clone(),
            message_id: self.message_id.clone(),
            role: self.role.clone(),
            parts: copy_parts(&self.parts),
            task_id: copy_option(&self.task_id),
            context_id: copy_option(&self.context_id),
            metadata: copy_option_json(&self.metadata),
        }
    }
}

impl Clone for Message {
    fn clone(&self) -> (r: Self)
        ensures
            r@ == self@,
    {
        self.copy()
    }
}

/// A message of that role, id and parts.
pub open spec fn message_of(role: Seq<char>, message_id: Seq<char>, parts: Seq<PartView>) -> MessageView {
    MessageView {
        kind: "message"@,
        message_id,
        role,
        parts,
        task_id: None,
        context_id: None,
        metadata: None,
    }
}

/// The document of a message.
pub open spec fn message_json(m: MessageView) -> JsonView {
    JsonView::Object(
        push_some(
            push_some_text(
                push_some_text(
                    MembersView::empty().push(("kind"@, JsonView::Text(m.kind))).push(
                        ("messageId"@, JsonView::Text(m.message_id)),
                    ).push(("role"@, JsonView::Text(m.role))).push(("parts"@, parts_json(m.parts))),
                    "taskId"@,
                    m.task_id,
                ),
                "contextId"@,
                m.context_id,
            ),
            "metadata"@,
            m.metadata,
        ),
    )
}

/// The message that a document holds.
pub open spec fn message_in(v: JsonView) -> MessageView {
    let r = Rec::Message;
    MessageView {
        kind: text_at(r, v, "kind"@),
        message_id: text_at(r, v, "messageId"@),
        role: text_at(r, v, "role"@),
        parts: parts_in(items_at(r, v, "parts"@)),
        task_id: option_text_at(r, v, "taskId"@),
        context_id: option_text_at(r, v, "contextId"@),
        metadata: option_json_at(r, v, "metadata"@),
    }
}

impl Message {
    /// A message of that role, id and parts.
    pub fn new(role: &str, message_id: String, parts: Vec<Part>) -> (r: Message)
        ensures
            r@ == message_of(role@, message_id@, parts_view(parts@)),
    {
        Message {
            kind: "message".to_owned(),
            message_id,
            role: role.to_owned(),
            parts,
            task_id: None,
            context_id: None,
            metadata: None,
        }
    }

    /// The document of the message.
    pub fn to_json(&self) -> (r: Json)
        ensures
            r@ == message_json(self@),
    {
        let mut m: Members = Members::new();
        m.put_text("kind", self.kind.as_str());
        m.put_text("messageId", self.message_id.as_str());
        m.put_text("role", self.role.as_str());
        m.put("parts", parts_to_json(&self.parts));
        m.put_some_text("taskId", &self.task_id);
        m.put_some_text("contextId", &self.context_id);
        m.put_some("metadata", &self.metadata);
        m.object()
    }

    /// Reads a message from a document.
    pub fn from_json(j: &Json) -> (r: Result<Message, String>)
        ensures
            match r {
                Ok(m) => shape_error(Shape::Record(Rec::Message), j@) is None && m@ == message_in(
                    j@,
                ),
                Err(e) => shape_error(Shape::Record(Rec::Message), j@) == Some(e@),
            },
    {
        match check(Shape::Record(Rec::Message), j) {
            Some(e) => Err(e),
            None => Ok(read_message(j)),
        }
    }
}

fn read_message(j: &Json) -> (m: Message)
    ensures
        m@ == message_in(j@),
{
    let r = Rec::Message;
    Message {
        kind: text_of_field(r, j, "kind"),
        message_id: text_of_field(r, j, "messageId"),
        role: text_of_field(r, j, "role"),
        parts: read_parts(r, j, "parts"),
        task_id: option_text_of_field(r, j, "taskId"),
        context_id: option_text_of_field(r, j, "contextId"),
        metadata: option_json_of_field(r, j, "metadata"),
    }
}

/// The values of messages.
pub open spec fn messages_view(v: Seq<Message>) -> Seq<MessageView> {
    Seq::new(v.len(), |i: int| v[i]@)
}

/// Other messages of the same values.
pub fn copy_messages(v: &Vec<Message>) -> (r: Vec<Message>)
    ensures
        messages_view(r@) == messages_view(v@),
{
    let mut out: Vec<Message> = Vec::new();
    let n: usize = v.len();
    for i in 0..n
        invariant
            n == v@.len(),
            out@.len() == i,
            forall|k: int| 0 <= k < i ==> out@[k]@ == (#[trigger] v@[k])@,
    {
        out.push(v[i].copy());
    }
    assert(messages_view(out@) =~= messages_view(v@));
    out
}

/// The array of messages.
pub open spec fn messages_json(v: Seq<MessageView>) -> JsonView {
    JsonView::Array(v.map_values(|x: MessageView| message_json(x)))
}

fn messages_to_json(v: &Vec<Message>) -> (r: Json)
    ensures
        r@ == messages_json(messages_view(v@)),
{
    let mut out: Vec<Json> = Vec::new();
    let n: usize = v.len();
    for i in 0..n
        invariant
            n == v@.len(),
            out@.len() == i,
            forall|k: int| 0 <= k < i ==> out@[k]@ == message_json((#[trigger] v@[k])@),
    {
        out.push(v[i].to_json());
    }
    assert(items_view(out@) =~= messages_json(messages_view(v@))->Array_0);
    array_json(out)
}

/// The messages that documents hold.
pub open spec fn messages_in(items: Seq<JsonView>) -> Seq<MessageView> {
    items.map_values(|v: JsonView| message_in(v))
}

fn read_messages(r: Rec, j: &Json, name: &str) -> (v: Vec<Message>)
    ensures
        messages_view(v@) == messages_in(items_at(r, j@, name@)),
{
    let mut out: Vec<Message> = Vec::new();
    match items_of_field(r, j, name) {
        Some(a) => {
            let n: usize = a.len();
            for i in 0..n
                invariant
                    n == a@.len(),
                    out@.len() == i,
                    forall|k: int| 0 <= k < i ==> out@[k]@ == message_in(#[trigger] a@[k]@),
            {
                out.push(read_message(&a[i]));
            }
        },
        None => {},
    }
    assert(messages_view(out@) =~= messages_in(items_at(r, j@, name@)));
    out
}

/// What an agent produced.
#[derive(Debug, PartialEq, Eq)]
pub struct Artifact {
    pub artifact_id: String,
    pub name: Option<String>,
    pub description: Option<String>,
    pub parts: Vec<Part>,
    pub metadata: Option<Json>,
}

/// The value of an [`Artifact`].
pub struct ArtifactView {
    pub artifact_id: Seq<char>,
    pub name: Option<Seq<char>>,
    pub description: Option<Seq<char>>,
    pub parts: Seq<PartView>,
    pub metadata: Option<JsonView>,
}

impl View for Artifact {
    type V = ArtifactView;

    open spec fn view(&self) -> ArtifactView {
        ArtifactView {
            artifact_id: self.artifact_id@,
            name: option_text(self.name),
            description: option_text(self.description),
            parts: parts_view(self.parts@),
            metadata: option_json(self.metadata),
        }
    }
}

impl Artifact {
    /// Another one of the same value.
    pub fn copy(&self) -> (r: Artifact)
        ensures
            r@ == self@,
    {
        Artifact {
            artifact_id: self.artifact_id.clone(),
            name: copy_option(&self.name),
            description: copy_option(&self.description),
            parts: copy_parts(&self.parts),
            metadata: copy_option_json(&self.metadata),
        }
    }
}

impl Clone for Artifact {
    fn clone(&self) -> (r: Self)
        ensures
            r@ == self@,
    {
        self.copy()
    }
}

/// The document of an artifact.
pub open spec fn artifact_json(a: ArtifactView) -> JsonView {
    JsonView::Object(
        push_some(
            push_some_text(
                push_some_text(
                    MembersView::empty().push(("artifactId"@, JsonView::Text(a.artifact_id))),
                    "name"@,
                    a.name,
                ),
                "description"@,
                a.description,
            ).push(("parts"@, parts_json(a.parts))),
            "metadata"@,
            a.metadata,
        ),
    )
}

/// The artifact that a document holds.
pub open spec fn artifact_in(v: JsonView) -> ArtifactView {
    let r = Rec::Artifact;
    ArtifactView {
        artifact_id: text_at(r, v, "artifactId"@),
        name: option_text_at(r, v, "name"@),
        description: option_text_at(r, v, "description"@),
        parts: parts_in(items_at(r, v, "parts"@)),
        metadata: option_json_at(r, v, "metadata"@),
    }
}

impl Artifact {
    /// The document of the artifact.
    pub fn to_json(&self) -> (r: Json)
        ensures
            r@ == artifact_json(self@),
    {
        let mut m: Members = Members::new();
        m.put_text("artifactId", self.artifact_id.as_str());
        m.put_some_text("name", &self.name);
        m.put_some_text("description", &self.description);
        m.put("parts", parts_to_json(&self.parts));
        m.put_some("metadata", &self.metadata);
        m.object()
    }
}

fn read_artifact(j: &Json) -> (a: Artifact)
    ensures
        a@ == artifact_in(j@),
{
    let r = Rec::Artifact;
    Artifact {
        artifact_id: text_of_field(r, j, "artifactId"),
        name: option_text_of_field(r, j, "name"),
        description: option_text_of_field(r, j, "description"),
        parts: read_parts(r, j, "parts"),
        metadata: option_json_of_field(r, j, "metadata"),
    }
}

/// The values of artifacts.
pub open spec fn artifacts_view(v: Seq<Artifact>) -> Seq<ArtifactView> {
    Seq::new(v.len(), |i: int| v[i]@)
}

/// Other artifacts of the same values.
pub fn copy_artifacts(v: &Vec<Artifact>) -> (r: Vec<Artifact>)
    ensures
        artifacts_view(r@) == artifacts_view(v@),
{
    let mut out: Vec<Artifact> = Vec::new();
    let n: usize = v.len();
    for i in 0..n
        invariant
            n == v@.len(),
            out@.len() == i,
            forall|k: int| 0 <= k < i ==> out@[k]@ == (#[trigger] v@[k])@,
    {
        out.push(v[i].copy());
    }
    assert(artifacts_view(out@) =~= artifacts_view(v@));
    out
}

/// The array of artifacts.
pub open spec fn artifacts_json(v: Seq<ArtifactView>) -> JsonView {
    JsonView::Array(v.map_values(|x: ArtifactView| artifact_json(x)))
}

fn artifacts_to_json(v: &Vec<Artifact>) -> (r: Json)
    ensures
        r@ == artifacts_json(artifacts_view(v@)),
{
    let mut out: Vec<Json> = Vec::new();
    let n: usize = v.len();
    for i in 0..n
        invariant
            n == v@.len(),
            out@.len() == i,
            forall|k: int| 0 <= k < i ==> out@[k]@ == artifact_json((#[trigger] v@[k])@),
    {
        out.push(v[i].to_json());
    }
    assert(items_view(out@) =~= artifacts_json(artifacts_view(v@))->Array_0);
    array_json(out)
}

/// The artifacts that documents hold.
pub open spec fn artifacts_in(items: Seq<JsonView>) -> Seq<ArtifactView> {
    items.map_values(|v: JsonView| artifact_in(v))
}

fn read_artifacts(r: Rec, j: &Json, name: &str) -> (v: Vec<Artifact>)
    ensures
        artifacts_view(v@) == artifacts_in(items_at(r, j@, name@)),
{
    let mut out: Vec<Artifact> = Vec::new();
    match items_of_field(r, j, name) {
        Some(a) => {
            let n: usize = a.len();
            for i in 0..n
                invariant
                    n == a@.len(),
                    out@.len() == i,
                    forall|k: int| 0 <= k < i ==> out@[k]@ == artifact_in(#[trigger] a@[k]@),
            {
                out.push(read_artifact(&a[i]));
            }
        },
        None => {},
    }
    assert(artifacts_view(out@) =~= artifacts_in(items_at(r, j@, name@)));
    out
}

/// The value of an optional message.
pub open spec fn option_message(m: Option<Message>) -> Option<MessageView> {
    match m {
        Some(x) => Some(x@),
        None => None,
    }
}

fn copy_option_message(m: &Option<Message>) -> (r: Option<Message>)
    ensures
        option_message(r) == option_message(*m),
{
    match m {
        Some(x) => Some(x.copy()),
        None => None,
    }
}

/// Where a task stands, since when, and what the agent says to it.
#[derive(Debug, PartialEq, Eq)]
pub struct TaskStatus {
    pub state: TaskState,
    /// In ISO-8601 form.
    pub timestamp: Option<String>,
    pub message: Option<Message>,
}

/// The value of a [`TaskStatus`].
pub struct TaskStatusView {
    pub state: TaskState,
    pub timestamp: Option<Seq<char>>,
    pub message: Option<MessageView>,
}

impl View for TaskStatus {
    type V = TaskStatusView;

    open spec fn view(&self) -> TaskStatusView {
        TaskStatusView {
            state: self.state,
            timestamp: option_text(self.timestamp),
            message: option_message(self.message),
        }
    }
}

impl TaskStatus {
    /// Another one of the same value.
    pub fn copy(&self) -> (r: TaskStatus)
        ensures
            r@ == self@,
    {
        TaskStatus {
            state: self.state,
            timestamp: copy_option(&self.timestamp),
            message: copy_option_message(&self.message),
        }
    }
}

impl Clone for TaskStatus {
    fn clone(&self) -> (r: Self)
        ensures
            r@ == self@,
    {
        self.copy()
    }
}

/// The document of an optional message.
pub open spec fn option_message_json(m: Option<MessageView>) -> Option<JsonView> {
    match m {
        Some(x) => Some(message_json(x)),
        None => None,
    }
}

/// The document of a status.
pub open spec fn status_json(s: TaskStatusView) -> JsonView {
    JsonView::Object(
        push_some(
            push_some_text(
                MembersView::empty().push(("state"@, JsonView::Text(state_name(s.state)))),
                "timestamp"@,
                s.timestamp,
            ),
            "message"@,
            option_message_json(s.message),
        ),
    )
}

/// The optional message that an optional document holds.
pub open spec fn option_message_in(v: Option<JsonView>) -> Option<MessageView> {
    match v {
        Some(x) => Some(message_in(x)),
        None => None,
    }
}

/// The status that a document holds.
pub open spec fn status_in(v: JsonView) -> TaskStatusView {
    let r = Rec::Status;
    TaskStatusView {
        state: state_in(
            match field_value(r, v, "state"@) {
                Some(s) => s,
                None => JsonView::Null,
            },
        ),
        timestamp: option_text_at(r, v, "timestamp"@),
        message: option_message_in(option_json_at(r, v, "message"@)),
    }
}

impl TaskStatus {
    /// The document of the status.
    pub fn to_json(&self) -> (r: Json)
        ensures
            r@ == status_json(self@),
    {
        let mut m: Members = Members::new();
        m.put("state", self.state.to_json());
        m.put_some_text("timestamp", &self.timestamp);
        match &self.message {
            Some(x) => {
                m.put("message", x.to_json());
            },
            None => {},
        }
        m.object()
    }
}

fn read_status(j: &Json) -> (s: TaskStatus)
    ensures
        s@ == status_in(j@),
{
    let r = Rec::Status;
    TaskStatus {
        state: read_state(value_of(r, j, "state")),
        timestamp: option_text_of_field(r, j, "timestamp"),
        message: match value_of(r, j, "message") {
            None => None,
            Some(Json::Null) => None,
            Some(x) => Some(read_message(x)),
        },
    }
}

/// A task: the unit of work that a client follows.
#[derive(Debug, PartialEq, Eq)]
pub struct Task {
    pub id: String,
    pub context_id: String,
    /// Always `task`.
    pub kind: String,
    pub status: TaskStatus,
    pub history: Vec<Message>,
    pub artifacts: Vec<Artifact>,
    pub metadata: Option<Json>,
}

/// The value of a [`Task`].
pub struct TaskView {
    pub id: Seq<char>,
    pub context_id: Seq<char>,
    pub kind: Seq<char>,
    pub status: TaskStatusView,
    pub history: Seq<MessageView>,
    pub artifacts: Seq<ArtifactView>,
    pub metadata: Option<JsonView>,
}

impl View for Task {
    type V = TaskView;

    open spec fn view(&self) -> TaskView {
        TaskView {
            id: self.id@,
            context_id: self.context_id@,
            kind: self.kind@,
            status: self.status@,
            history: messages_view(self.history@),
            artifacts: artifacts_view(self.artifacts@),
            metadata: option_json(self.metadata),
        }
    }
}

impl Task {
    /// Another one of the same value.
    pub fn copy(&self) -> (r: Task)
        ensures
            r@ == self@,
    {
        Task {
            id: self.id.clone(),
            context_id: self.context_id.clone(),
            kind: self.kind.clone(),
            status: self.status.copy(),
            history: copy_messages(&self.history),
            artifacts: copy_artifacts(&self.artifacts),
            metadata: copy_option_json(&self.metadata),
        }
    }
}

impl Clone for Task {
    fn clone(&self) -> (r: Self)
        ensures
            r@ == self@,
    {
        self.copy()
    }
}

/// A fresh task, whose context is its own id.
pub open spec fn task_of(id: Seq<char>, status: TaskStatusView) -> TaskView {
    TaskView {
        id,
        context_id: id,
        kind: "task"@,
        status,
        history: Seq::empty(),
        artifacts: Seq::empty(),
        metadata: None,
    }
}

/// The document of a list, left out where it is empty.
pub open spec fn some_messages(v: Seq<MessageView>) -> Option<JsonView> {
    if v.len() == 0 {
        None
    } else {
        Some(messages_json(v))
    }
}

/// The document of a list, left out where it is empty.
pub open spec fn some_artifacts(v: Seq<ArtifactView>) -> Option<JsonView> {
    if v.len() == 0 {
        None
    } else {
        Some(artifacts_json(v))
    }
}

/// The document of a task.
pub open spec fn task_json(t: TaskView) -> JsonView {
    JsonView::Object(
        push_some(
            push_some(
                push_some(
                    MembersView::empty().push(("id"@, JsonView::Text(t.id))).push(
                        ("contextId"@, JsonView::Text(t.context_id)),
                    ).push(("kind"@, JsonView::Text(t.kind))).push(
                        ("status"@, status_json(t.status)),
                    ),
                    "history"@,
                    some_messages(t.history),
                ),
                "artifacts"@,
                some_artifacts(t.artifacts),
            ),
            "metadata"@,
            t.metadata,
        ),
    )
}

/// The task that a document holds.
pub open spec fn task_in(v: JsonView) -> TaskView {
    let r = Rec::Task;
    TaskView {
        id: text_at(r, v, "id"@),
        context_id: text_at(r, v, "contextId"@),
        kind: text_at(r, v, "kind"@),
        status: status_in(
            match field_value(r, v, "status"@) {
                Some(s) => s,
                None => JsonView::Null,
            },
        ),
        history: messages_in(items_at(r, v, "history"@)),
        artifacts: artifacts_in(items_at(r, v, "artifacts"@)),
        metadata: option_json_at(r, v, "metadata"@),
    }
}

/// What reading a task from a document gives: the task, or what is wrong.
pub open spec fn task_reading(v: JsonView) -> Result<TaskView, Seq<char>> {
    match shape_error(Shape::Record(Rec::Task), v) {
        Some(e) => Err(e),
        None => Ok(task_in(v)),
    }
}

/// The value of a task that was read.
pub open spec fn task_result(r: Result<Task, String>) -> Result<TaskView, Seq<char>> {
    match r {
        Ok(t) => Ok(t@),
        Err(e) => Err(e@),
    }
}

impl Task {
    /// A fresh task, whose context is its own id.
    pub fn new(id: String, status: TaskStatus) -> (r: Task)
        ensures
            r@ == task_of(id@, status@),
    {
        let r = Task {
            context_id: id.clone(),
            id,
            kind: "task".to_owned(),
            status,
            history: Vec::new(),
            artifacts: Vec::new(),
            metadata: None,
        };
        assert(r@.history =~= Seq::empty());
        assert(r@.artifacts =~= Seq::empty());
        r
    }

    /// The document of the task.
    pub fn to_json(&self) -> (r: Json)
        ensures
            r@ == task_json(self@),
    {
        let mut m: Members = Members::new();
        m.put_text("id", self.id.as_str());
        m.put_text("contextId", self.context_id.as_str());
        m.put_text("kind", self.kind.as_str());
        m.put("status", self.status.to_json());
        if self.history.len() > 0 {
            m.put("history", messages_to_json(&self.history));
        }
        if self.artifacts.len() > 0 {
            m.put("artifacts", artifacts_to_json(&self.artifacts));
        }
        m.put_some("metadata", &self.metadata);
        m.object()
    }

    /// Reads a task from a document.
    pub fn from_json(j: &Json) -> (r: Result<Task, String>)
        ensures
            task_result(r) == task_reading(j@),
    {
        match check(Shape::Record(Rec::Task), j) {
            Some(e) => {
                return Err(e);
            },
            None => {},
        }
        let r = Rec::Task;
        Ok(
            Task {
                id: text_of_field(r, j, "id"),
                context_id: text_of_field(r, j, "contextId"),
                kind: text_of_field(r, j, "kind"),
                status: match value_of(r, j, "status") {
                    Some(s) => read_status(s),
                    None => read_status(&Json::Null),
                },
                history: read_messages(r, j, "history"),
                artifacts: read_artifacts(r, j, "artifacts"),
                metadata: option_json_of_field(r, j, "metadata"),
            },
        )
    }
}

/// The value of optional texts.
pub open spec fn option_texts(v: Option<Vec<String>>) -> Option<Seq<Seq<char>>> {
    match v {
        Some(t) => Some(texts(t@)),
        None => None,
    }
}

fn copy_option_texts(v: &Option<Vec<String>>) -> (r: Option<Vec<String>>)
    ensures
        option_texts(r) == option_texts(*v),
{
    match v {
        Some(t) => Some(copy_texts(t)),
        None => None,
    }
}

/// How a client wants its message handled.
#[derive(Debug, PartialEq, Eq)]
pub struct MessageSendConfiguration {
    pub accepted_output_modes: Option<Vec<String>>,
    pub history_length: Option<u32>,
    pub blocking: Option<bool>,
}

/// The value of a [`MessageSendConfiguration`].
pub struct MessageSendConfigurationView {
    pub accepted_output_modes: Option<Seq<Seq<char>>>,
    pub history_length: Option<u32>,
    pub blocking: Option<bool>,
}

impl View for MessageSendConfiguration {
    type V = MessageSendConfigurationView;

    open spec fn view(&self) -> MessageSendConfigurationView {
        MessageSendConfigurationView {
            accepted_output_modes: option_texts(self.accepted_output_modes),
            history_length: self.history_length,
            blocking: self.blocking,
        }
    }
}

impl MessageSendConfiguration {
    /// Another one of the same value.
    pub fn copy(&self) -> (r: MessageSendConfiguration)
        ensures
            r@ == self@,
    {
        MessageSendConfiguration {
            accepted_output_modes: copy_option_texts(&self.accepted_output_modes),
            history_length: self.history_length,
            blocking: self.blocking,
        }
    }
}

impl Clone for MessageSendConfiguration {
    fn clone(&self) -> (r: Self)
        ensures
            r@ == self@,
    {
        self.copy()
    }
}

/// The value of an optional configuration.
pub open spec fn option_configuration(c: Option<MessageSendConfiguration>) -> Option<
    MessageSendConfigurationView,
> {
    match c {
        Some(x) => Some(x@),
        None => None,
    }
}

fn copy_option_configuration(c: &Option<MessageSendConfiguration>) -> (r: Option<
    MessageSendConfiguration,
>)
    ensures
        option_configuration(r) == option_configuration(*c),
{
    match c {
        Some(x) => Some(x.copy()),
        None => None,
    }
}

/// The parameters of `message/send`.
#[derive(Debug, PartialEq, Eq)]
pub struct MessageSendParams {
    pub message: Message,
    pub configuration: Option<MessageSendConfiguration>,
    pub metadata: Option<Json>,
}

/// The value of a [`MessageSendParams`].
pub struct MessageSendParamsView {
    pub message: MessageView,
    pub configuration: Option<MessageSendConfigurationView>,
    pub metadata: Option<JsonView>,
}

impl View for MessageSendParams {
    type V = MessageSendParamsView;

    open spec fn view(&self) -> MessageSendParamsView {
        MessageSendParamsView {
            message: self.message@,
            configuration: option_configuration(self.configuration),
            metadata: option_json(self.metadata),
        }
    }
}

impl MessageSendParams {
    /// Another one of the same value.
    pub fn copy(&self) -> (r: MessageSendParams)
        ensures
            r@ == self@,
    {
        MessageSendParams {
            message: self.message.copy(),
            configuration: copy_option_configuration(&self.configuration),
            metadata: copy_option_json(&self.metadata),
        }
    }
}

impl Clone for MessageSendParams {
    fn clone(&self) -> (r: Self)
        ensures
            r@ == self@,
    {
        self.copy()
    }
}

/// The parameters of `tasks/get`.
#[derive(Debug, PartialEq, Eq)]
pub struct TaskQueryParams {
    pub id: String,
    pub history_length: Option<u32>,
    pub metadata: Option<Json>,
}

/// The value of a [`TaskQueryParams`].
pub struct TaskQueryParamsView {
    pub id: Seq<char>,
    pub history_length: Option<u32>,
    pub metadata: Option<JsonView>,
}

impl View for TaskQueryParams {
    type V = TaskQueryParamsView;

    open spec fn view(&self) -> TaskQueryParamsView {
        TaskQueryParamsView {
            id: self.id@,
            history_length: self.history_length,
            metadata: option_json(self.metadata),
        }
    }
}

impl TaskQueryParams {
    /// Another one of the same value.
    pub fn copy(&self) -> (r: TaskQueryParams)
        ensures
            r@ == self@,
    {
        TaskQueryParams {
            id: self.id.clone(),
            history_length: self.history_length,
            metadata: copy_option_json(&self.metadata),
        }
    }
}

impl Clone for TaskQueryParams {
    fn clone(&self) -> (r: Self)
        ensures
            r@ == self@,
    {
        self.copy()
    }
}

/// The parameters of `tasks/cancel`.
#[derive(Debug, PartialEq, Eq)]
pub struct TaskIdParams {
    pub id: String,
    pub metadata: Option<Json>,
}

/// The value of a [`TaskIdParams`].
pub struct TaskIdParamsView {
    pub id: Seq<char>,
    pub metadata: Option<JsonView>,
}

impl View for TaskIdParams {
    type V = TaskIdParamsView;

    open spec fn view(&self) -> TaskIdParamsView {
        TaskIdParamsView {
            id: self.id@,
            metadata: option_json(self.metadata),
        }
    }
}

impl TaskIdParams {
    /// Another one of the same value.
    pub fn copy(&self) -> (r: TaskIdParams)
        ensures
            r@ == self@,
    {
        TaskIdParams {
            id: self.id.clone(),
            metadata: copy_option_json(&self.metadata),
        }
    }
}

impl Clone for TaskIdParams {
    fn clone(&self) -> (r: Self)
        ensures
            r@ == self@,
    {
        self.copy()
    }
}

/// The output modes that a document lists.
pub open spec fn modes_in(v: JsonView) -> Option<Seq<Seq<char>>> {
    let r = Rec::SendConfiguration;
    match option_json_at(r, v, "acceptedOutputModes"@) {
        Some(_) => Some(
            items_at(r, v, "acceptedOutputModes"@).map_values(|x: JsonView| text_in(x)),
        ),
        None => None,
    }
}

/// The configuration that a document holds.
pub open spec fn configuration_in(v: JsonView) -> MessageSendConfigurationView {
    let r = Rec::SendConfiguration;
    MessageSendConfigurationView {
        accepted_output_modes: modes_in(v),
        history_length: option_u32_at(r, v, "historyLength"@),
        blocking: option_bool_at(r, v, "blocking"@),
    }
}

/// The parameters of `message/send` that a document holds.
pub open spec fn send_params_in(v: JsonView) -> MessageSendParamsView {
    let r = Rec::SendParams;
    MessageSendParamsView {
        message: message_in(
            match field_value(r, v, "message"@) {
                Some(m) => m,
                None => JsonView::Null,
            },
        ),
        configuration: match option_json_at(r, v, "configuration"@) {
            Some(c) => Some(configuration_in(c)),
            None => None,
        },
        metadata: option_json_at(r, v, "metadata"@),
    }
}

/// The parameters of `tasks/get` that a document holds.
pub open spec fn query_params_in(v: JsonView) -> TaskQueryParamsView {
    let r = Rec::QueryParams;
    TaskQueryParamsView {
        id: text_at(r, v, "id"@),
        history_length: option_u32_at(r, v, "historyLength"@),
        metadata: option_json_at(r, v, "metadata"@),
    }
}

/// The parameters of `tasks/cancel` that a document holds.
pub open spec fn id_params_in(v: JsonView) -> TaskIdParamsView {
    let r = Rec::IdParams;
    TaskIdParamsView {
        id: text_at(r, v, "id"@),
        metadata: option_json_at(r, v, "metadata"@),
    }
}

fn read_configuration(j: &Json) -> (c: MessageSendConfiguration)
    ensures
        c@ == configuration_in(j@),
{
    let r = Rec::SendConfiguration;
    MessageSendConfiguration {
        accepted_output_modes: option_texts_of_field(r, j, "acceptedOutputModes"),
        history_length: option_u32_of_field(r, j, "historyLength"),
        blocking: option_bool_of_field(r, j, "blocking"),
    }
}

/// Parameters of a method.
pub trait Params: Sized + View {
    /// The record that holds them.
    spec fn record() -> Rec;

    /// The parameters that a document of the right shape holds.
    spec fn held_in(v: JsonView) -> Self::V;

    /// Reads the parameters from a document.
    fn from_json(j: &Json) -> (r: Result<Self, String>)
        ensures
            match r {
                Ok(p) => shape_error(Shape::Record(Self::record()), j@) is None && p@
                    == Self::held_in(j@),
                Err(e) => shape_error(Shape::Record(Self::record()), j@) == Some(e@),
            },
    ;
}

impl Params for MessageSendParams {
    open spec fn record() -> Rec {
        Rec::SendParams
    }

    open spec fn held_in(v: JsonView) -> MessageSendParamsView {
        send_params_in(v)
    }

    fn from_json(j: &Json) -> (r: Result<Self, String>) {
        let r = Rec::SendParams;
        match check(Shape::Record(r), j) {
            Some(e) => {
                return Err(e);
            },
            None => {},
        }
        Ok(
            MessageSendParams {
                message: match value_of(r, j, "message") {
                    Some(m) => read_message(m),
                    None => read_message(&Json::Null),
                },
                configuration: match value_of(r, j, "configuration") {
                    None => None,
                    Some(Json::Null) => None,
                    Some(c) => Some(read_configuration(c)),
                },
                metadata: option_json_of_field(r, j, "metadata"),
            },
        )
    }
}

impl Params for TaskQueryParams {
    open spec fn record() -> Rec {
        Rec::QueryParams
    }

    open spec fn held_in(v: JsonView) -> TaskQueryParamsView {
        query_params_in(v)
    }

    fn from_json(j: &Json) -> (r: Result<Self, String>) {
        let r = Rec::QueryParams;
        match check(Shape::Record(r), j) {
            Some(e) => {
                return Err(e);
            },
            None => {},
        }
        Ok(
            TaskQueryParams {
                id: text_of_field(r, j, "id"),
                history_length: option_u32_of_field(r, j, "historyLength"),
                metadata: option_json_of_field(r, j, "metadata"),
            },
        )
    }
}

impl Params for TaskIdParams {
    open spec fn record() -> Rec {
        Rec::IdParams
    }

    open spec fn held_in(v: JsonView) -> TaskIdParamsView {
        id_params_in(v)
    }

    fn from_json(j: &Json) -> (r: Result<Self, String>) {
        let r = Rec::IdParams;
        match check(Shape::Record(r), j) {
            Some(e) => {
                return Err(e);
            },
            None => {},
        }
        Ok(
            TaskIdParams {
                id: text_of_field(r, j, "id"),
                metadata: option_json_of_field(r, j, "metadata"),
            },
        )
    }
}

/// The texts of the text parts, one line apart.
pub open spec fn joined_text(parts: Seq<PartView>) -> Seq<char>
    decreases parts.len(),
{
    if parts.len() == 0 {
        Seq::empty()
    } else {
        let init = joined_text(parts.drop_last());
        match parts.last() {
            PartView::Text { text, .. } => if init.len() == 0 {
                text
            } else {
                init.push('\n') + text
            },
            PartView::Unknown => init,
        }
    }
}

/// Joins the texts of the text parts.
pub fn concat_text(parts: &[Part]) -> (r: String)
    ensures
        r@ == joined_text(parts_view(parts@)),
{
    let mut out: String = String::new();
    let n: usize = parts.len();
    assert(parts_view(parts@).take(0) =~= Seq::empty());
    assert(out@ =~= Seq::empty());
    for i in 0..n
        invariant
            n == parts@.len(),
            out@ == joined_text(parts_view(parts@).take(i as int)),
    {
        let ghost now = parts_view(parts@).take(i + 1);
        assert(now.drop_last() =~= parts_view(parts@).take(i as int));
        assert(now.last() == parts@[i as int]@);
        match &parts[i] {
            Part::Text { text, .. } => {
                if !out.as_str().is_empty() {
                    out.push('\n');
                    out.append(text.as_str());
                } else {
                    out.append(text.as_str());
                    assert(out@ =~= text@);
                }
            },
            Part::Unknown => {},
        }
    }
    assert(parts_view(parts@).take(n as int) =~= parts_view(parts@));
    out
}

/// The lengths and first letters of the names, which tell them apart.
proof fn lemma_names()
    ensures
        "artifactId"@.len() == 10 && "artifactId"@[0] == 'a' && "artifactId"@[2] == 't',
        "artifacts"@.len() == 9 && "artifacts"@[0] == 'a' && "artifacts"@[2] == 't',
        "contextId"@.len() == 9 && "contextId"@[0] == 'c' && "contextId"@[2] == 'n',
        "description"@.len() == 11 && "description"@[0] == 'd' && "description"@[2] == 's',
        "history"@.len() == 7 && "history"@[0] == 'h' && "history"@[2] == 's',
        "id"@.len() == 2,
        "kind"@.len() == 4 && "kind"@[0] == 'k' && "kind"@[2] == 'n',
        "message"@.len() == 7 && "message"@[0] == 'm' && "message"@[2] == 's',
        "messageId"@.len() == 9 && "messageId"@[0] == 'm' && "messageId"@[2] == 's',
        "metadata"@.len() == 8 && "metadata"@[0] == 'm' && "metadata"@[2] == 't',
        "name"@.len() == 4 && "name"@[0] == 'n' && "name"@[2] == 'm',
        "parts"@.len() == 5 && "parts"@[0] == 'p' && "parts"@[2] == 'r',
        "role"@.len() == 4 && "role"@[0] == 'r' && "role"@[2] == 'l',
        "state"@.len() == 5 && "state"@[0] == 's' && "state"@[2] == 'a',
        "status"@.len() == 6 && "status"@[0] == 's' && "status"@[2] == 'a',
        "taskId"@.len() == 6 && "taskId"@[0] == 't' && "taskId"@[2] == 's',
        "text"@.len() == 4 && "text"@[0] == 't' && "text"@[2] == 'x',
        "timestamp"@.len() == 9 && "timestamp"@[0] == 't' && "timestamp"@[2] == 'm',
        "unknown"@.len() == 7 && "unknown"@[0] == 'u' && "unknown"@[2] == 'k',
{
    reveal_strlit("artifactId");
    reveal_strlit("artifacts");
    reveal_strlit("contextId");
    reveal_strlit("description");
    reveal_strlit("history");
    reveal_strlit("id");
    reveal_strlit("kind");
    reveal_strlit("message");
    reveal_strlit("messageId");
    reveal_strlit("metadata");
    reveal_strlit("name");
    reveal_strlit("parts");
    reveal_strlit("role");
    reveal_strlit("state");
    reveal_strlit("status");
    reveal_strlit("taskId");
    reveal_strlit("text");
    reveal_strlit("timestamp");
    reveal_strlit("unknown");
}

proof fn lemma_message_fields()
    ensures
        field_index(fields(Rec::Message), "kind"@) == 0,
        field_index(fields(Rec::Message), "messageId"@) == 1,
        field_index(fields(Rec::Message), "role"@) == 2,
        field_index(fields(Rec::Message), "parts"@) == 3,
        field_index(fields(Rec::Message), "taskId"@) == 4,
        field_index(fields(Rec::Message), "contextId"@) == 5,
        field_index(fields(Rec::Message), "metadata"@) == 6,
{
    lemma_names();
    let fs = fields(Rec::Message);
    lemma_field_index(fs, "kind"@, 0);
    lemma_field_index(fs, "messageId"@, 1);
    lemma_field_index(fs, "role"@, 2);
    lemma_field_index(fs, "parts"@, 3);
    lemma_field_index(fs, "taskId"@, 4);
    lemma_field_index(fs, "contextId"@, 5);
    lemma_field_index(fs, "metadata"@, 6);
}

proof fn lemma_artifact_fields()
    ensures
        field_index(fields(Rec::Artifact), "artifactId"@) == 0,
        field_index(fields(Rec::Artifact), "name"@) == 1,
        field_index(fields(Rec::Artifact), "description"@) == 2,
        field_index(fields(Rec::Artifact), "parts"@) == 3,
        field_index(fields(Rec::Artifact), "metadata"@) == 4,
{
    lemma_names();
    let fs = fields(Rec::Artifact);
    lemma_field_index(fs, "artifactId"@, 0);
    lemma_field_index(fs, "name"@, 1);
    lemma_field_index(fs, "description"@, 2);
    lemma_field_index(fs, "parts"@, 3);
    lemma_field_index(fs, "metadata"@, 4);
}

proof fn lemma_status_fields()
    ensures
        field_index(fields(Rec::Status), "state"@) == 0,
        field_index(fields(Rec::Status), "timestamp"@) == 1,
        field_index(fields(Rec::Status), "message"@) == 2,
{
    lemma_names();
    let fs = fields(Rec::Status);
    lemma_field_index(fs, "state"@, 0);
    lemma_field_index(fs, "timestamp"@, 1);
    lemma_field_index(fs, "message"@, 2);
}

proof fn lemma_task_fields()
    ensures
        field_index(fields(Rec::Task), "id"@) == 0,
        field_index(fields(Rec::Task), "contextId"@) == 1,
        field_index(fields(Rec::Task), "kind"@) == 2,
        field_index(fields(Rec::Task), "status"@) == 3,
        field_index(fields(Rec::Task), "history"@) == 4,
        field_index(fields(Rec::Task), "artifacts"@) == 5,
        field_index(fields(Rec::Task), "metadata"@) == 6,
{
    lemma_names();
    let fs = fields(Rec::Task);
    lemma_field_index(fs, "id"@, 0);
    lemma_field_index(fs, "contextId"@, 1);
    lemma_field_index(fs, "kind"@, 2);
    lemma_field_index(fs, "status"@, 3);
    lemma_field_index(fs, "history"@, 4);
    lemma_field_index(fs, "artifacts"@, 5);
    lemma_field_index(fs, "metadata"@, 6);
}

/// Whether a part is written and read back as it is: null for metadata is read
/// as none.
pub open spec fn plain_part(p: PartView) -> bool {
    match p {
        PartView::Text { metadata, .. } => metadata != Some(JsonView::Null),
        PartView::Unknown => true,
    }
}

/// Whether a message is written and read back as it is.
pub open spec fn plain_message(m: MessageView) -> bool {
    &&& m.metadata != Some(JsonView::Null)
    &&& forall|i: int| 0 <= i < m.parts.len() ==> plain_part(#[trigger] m.parts[i])
}

/// Whether an artifact is written and read back as it is.
pub open spec fn plain_artifact(a: ArtifactView) -> bool {
    &&& a.metadata != Some(JsonView::Null)
    &&& forall|i: int| 0 <= i < a.parts.len() ==> plain_part(#[trigger] a.parts[i])
}

/// Whether a task is written and read back as it is.
pub open spec fn plain_task(t: TaskView) -> bool {
    &&& t.metadata != Some(JsonView::Null)
    &&& (t.status.message matches Some(m) ==> plain_message(m))
    &&& forall|i: int| 0 <= i < t.history.len() ==> plain_message(#[trigger] t.history[i])
    &&& forall|i: int| 0 <= i < t.artifacts.len() ==> plain_artifact(#[trigger] t.artifacts[i])
}

/// A part is read back from its document as it was written.
pub proof fn part_round_trip(p: PartView)
    requires
        plain_part(p),
    ensures
        part_error(part_json(p)) is None,
        part_in(part_json(p)) == p,
{
    broadcast use lemma_member_push;

    lemma_names();
    let o = part_json(p)->Object_0;
    assert(member(MembersView::empty(), "kind"@) is None);
    assert(member(MembersView::empty(), "text"@) is None);
    assert(member(MembersView::empty(), "metadata"@) is None);
}

proof fn lemma_parts_round_trip(parts: Seq<PartView>)
    requires
        forall|i: int| 0 <= i < parts.len() ==> plain_part(#[trigger] parts[i]),
    ensures
        shape_error(Shape::Parts, parts_json(parts)) is None,
        parts_in(parts_json(parts)->Array_0) == parts,
{
    let a = parts_json(parts)->Array_0;
    assert forall|k: int| 0 <= k < a.len() implies shape_error(Shape::Part, #[trigger] a[k]) is None by {
        part_round_trip(parts[k]);
    }
    lemma_list_fine(Shape::Parts, a, 0);
    assert forall|k: int| 0 <= k < a.len() implies parts_in(a)[k] == parts[k] by {
        part_round_trip(parts[k]);
    }
    assert(parts_in(a) =~= parts);
}

/// A message is read back from its document as it was written.
pub proof fn message_round_trip(m: MessageView)
    requires
        plain_message(m),
    ensures
        shape_error(Shape::Record(Rec::Message), message_json(m)) is None,
        message_in(message_json(m)) == m,
{
    broadcast use {lemma_member_push, lemma_members_push};

    lemma_names();
    lemma_message_fields();
    lemma_parts_round_trip(m.parts);
    let o = message_json(m)->Object_0;
    let none = MembersView::empty();
    assert(members_error(Rec::Message, none, 0) is None);
    assert(members_error(Rec::Message, o, 0) is None);
    assert(member(o, "kind"@) == Some(JsonView::Text(m.kind)));
    assert(member(o, "messageId"@) == Some(JsonView::Text(m.message_id)));
    assert(member(o, "role"@) == Some(JsonView::Text(m.role)));
    assert(member(o, "parts"@) == Some(parts_json(m.parts)));
    lemma_nothing_absent(fields(Rec::Message), o);
}

proof fn lemma_messages_round_trip(v: Seq<MessageView>)
    requires
        forall|i: int| 0 <= i < v.len() ==> plain_message(#[trigger] v[i]),
    ensures
        shape_error(Shape::Messages, messages_json(v)) is None,
        messages_in(messages_json(v)->Array_0) == v,
{
    let a = messages_json(v)->Array_0;
    assert forall|k: int| 0 <= k < a.len() implies shape_error(
        Shape::Record(Rec::Message),
        #[trigger] a[k],
    ) is None by {
        message_round_trip(v[k]);
    }
    lemma_list_fine(Shape::Messages, a, 0);
    assert forall|k: int| 0 <= k < a.len() implies messages_in(a)[k] == v[k] by {
        message_round_trip(v[k]);
    }
    assert(messages_in(a) =~= v);
}

/// An artifact is read back from its document as it was written.
pub proof fn artifact_round_trip(a: ArtifactView)
    requires
        plain_artifact(a),
    ensures
        shape_error(Shape::Record(Rec::Artifact), artifact_json(a)) is None,
        artifact_in(artifact_json(a)) == a,
{
    broadcast use {lemma_member_push, lemma_members_push};

    lemma_names();
    lemma_artifact_fields();
    lemma_parts_round_trip(a.parts);
    let o = artifact_json(a)->Object_0;
    assert(members_error(Rec::Artifact, MembersView::empty(), 0) is None);
    assert(members_error(Rec::Artifact, o, 0) is None);
    assert(member(o, "artifactId"@) == Some(JsonView::Text(a.artifact_id)));
    assert(member(o, "parts"@) == Some(parts_json(a.parts)));
    lemma_nothing_absent(fields(Rec::Artifact), o);
}

proof fn lemma_artifacts_round_trip(v: Seq<ArtifactView>)
    requires
        forall|i: int| 0 <= i < v.len() ==> plain_artifact(#[trigger] v[i]),
    ensures
        shape_error(Shape::Artifacts, artifacts_json(v)) is None,
        artifacts_in(artifacts_json(v)->Array_0) == v,
{
    let a = artifacts_json(v)->Array_0;
    assert forall|k: int| 0 <= k < a.len() implies shape_error(
        Shape::Record(Rec::Artifact),
        #[trigger] a[k],
    ) is None by {
        artifact_round_trip(v[k]);
    }
    lemma_list_fine(Shape::Artifacts, a, 0);
    assert forall|k: int| 0 <= k < a.len() implies artifacts_in(a)[k] == v[k] by {
        artifact_round_trip(v[k]);
    }
    assert(artifacts_in(a) =~= v);
}

/// A state is read back from its name.
pub proof fn state_round_trip(s: TaskState)
    ensures
        shape_error(Shape::State, JsonView::Text(state_name(s))) is None,
        state_in(JsonView::Text(state_name(s))) == s,
{
    reveal_strlit("submitted");
    reveal_strlit("working");
    reveal_strlit("input-required");
    reveal_strlit("completed");
    reveal_strlit("canceled");
    reveal_strlit("failed");
    reveal_strlit("rejected");
    reveal_strlit("auth-required");
    reveal_strlit("unknown");
    assert("submitted"@[0] == 's' && "completed"@[0] == 'c');
    assert("working"@[0] == 'w' && "unknown"@[0] == 'u');
    assert("canceled"@[0] == 'c' && "rejected"@[0] == 'r');
    assert("submitted"@.len() == 9);
    assert("working"@.len() == 7);
    assert("input-required"@.len() == 14);
    assert("completed"@.len() == 9);
    assert("canceled"@.len() == 8);
    assert("failed"@.len() == 6);
    assert("rejected"@.len() == 8);
    assert("auth-required"@.len() == 13);
    assert("unknown"@.len() == 7);
    assert(state_index("submitted"@) == 0);
    assert(state_index("working"@) == 1);
    assert(state_index("input-required"@) == 2);
    assert(state_index("completed"@) == 3);
    assert(state_index("canceled"@) == 4);
    assert(state_index("failed"@) == 5);
    assert(state_index("rejected"@) == 6);
    assert(state_index("auth-required"@) == 7);
    assert(state_index("unknown"@) == 8);
}

proof fn lemma_status_round_trip(s: TaskStatusView)
    requires
        s.message matches Some(m) ==> plain_message(m),
    ensures
        shape_error(Shape::Record(Rec::Status), status_json(s)) is None,
        status_in(status_json(s)) == s,
{
    broadcast use {lemma_member_push, lemma_members_push};

    lemma_names();
    lemma_status_fields();
    state_round_trip(s.state);
    if let Some(m) = s.message {
        message_round_trip(m);
    }
    let o = status_json(s)->Object_0;
    assert(members_error(Rec::Status, MembersView::empty(), 0) is None);
    assert(members_error(Rec::Status, o, 0) is None);
    assert(member(o, "state"@) == Some(JsonView::Text(state_name(s.state))));
    lemma_nothing_absent(fields(Rec::Status), o);
}

/// A task is read back from its document as it was written.
pub proof fn task_round_trip(t: TaskView)
    requires
        plain_task(t),
    ensures
        task_reading(task_json(t)) == Ok::<TaskView, Seq<char>>(t),
{
    broadcast use {lemma_member_push, lemma_members_push};

    lemma_names();
    lemma_task_fields();
    lemma_status_round_trip(t.status);
    lemma_messages_round_trip(t.history);
    lemma_artifacts_round_trip(t.artifacts);
    let o = task_json(t)->Object_0;
    assert(members_error(Rec::Task, MembersView::empty(), 0) is None);
    assert(members_error(Rec::Task, o, 0) is None);
    assert(member(o, "id"@) == Some(JsonView::Text(t.id)));
    assert(member(o, "contextId"@) == Some(JsonView::Text(t.context_id)));
    assert(member(o, "kind"@) == Some(JsonView::Text(t.kind)));
    assert(member(o, "status"@) == Some(status_json(t.status)));
    lemma_nothing_absent(fields(Rec::Task), o);
    assert(member(o, "history"@) == some_messages(t.history));
    assert(member(o, "artifacts"@) == some_artifacts(t.artifacts));
    assert(member(o, "metadata"@) == t.metadata);
    let r = task_in(task_json(t));
    assert(r.history =~= t.history);
    assert(r.artifacts =~= t.artifacts);
}

/// A part of a kind other than text is left out of the text of a message.
pub proof fn unknown_parts_add_no_text(parts: Seq<PartView>)
    ensures
        joined_text(parts.push(PartView::Unknown)) == joined_text(parts),
{
    assert(parts.push(PartView::Unknown).drop_last() =~= parts);
}

/// Whether a message carries no metadata.
pub open spec fn bare_message(m: MessageView) -> bool {
    &&& m.metadata is None
    &&& forall|i: int| 0 <= i < m.parts.len() ==> bare_part(#[trigger] m.parts[i])
}

/// Whether a part carries no metadata.
pub open spec fn bare_part(p: PartView) -> bool {
    match p {
        PartView::Text { metadata, .. } => metadata is None,
        PartView::Unknown => true,
    }
}

/// Whether an artifact carries no metadata.
pub open spec fn bare_artifact(a: ArtifactView) -> bool {
    &&& a.metadata is None
    &&& forall|i: int| 0 <= i < a.parts.len() ==> bare_part(#[trigger] a.parts[i])
}

/// Whether a task carries no metadata anywhere.
pub open spec fn bare_task(t: TaskView) -> bool {
    &&& t.metadata is None
    &&& (t.status.message matches Some(m) ==> bare_message(m))
    &&& forall|i: int| 0 <= i < t.history.len() ==> bare_message(#[trigger] t.history[i])
    &&& forall|i: int| 0 <= i < t.artifacts.len() ==> bare_artifact(#[trigger] t.artifacts[i])
}

proof fn lemma_empty_storable(levels: nat)
    requires
        levels > 0,
    ensures
        storable(JsonView::Object(MembersView::empty()), levels),
{
}

proof fn lemma_part_storable(p: PartView)
    requires
        bare_part(p),
    ensures
        storable(part_json(p), 1),
{
    broadcast use lemma_member_push;

    lemma_names();
    lemma_empty_storable(1);
    let none = MembersView::empty();
    match p {
        PartView::Text { text, .. } => {
            lemma_storable_push(none, "kind"@, JsonView::Text("text"@), 1);
            lemma_storable_push(
                none.push(("kind"@, JsonView::Text("text"@))),
                "text"@,
                JsonView::Text(text),
                1,
            );
        },
        PartView::Unknown => {
            lemma_storable_push(none, "kind"@, JsonView::Text("unknown"@), 1);
        },
    }
}

proof fn lemma_parts_storable(parts: Seq<PartView>)
    requires
        forall|i: int| 0 <= i < parts.len() ==> bare_part(#[trigger] parts[i]),
    ensures
        storable(parts_json(parts), 2),
{
    let a = parts_json(parts)->Array_0;
    assert forall|i: int| 0 <= i < a.len() implies storable(#[trigger] a[i], 1) by {
        lemma_part_storable(parts[i]);
    }
}

proof fn lemma_some_text_storable(o: MembersView, key: Seq<char>, t: Option<Seq<char>>, levels: nat)
    requires
        levels > 0,
        storable(JsonView::Object(o), levels),
        member(o, key) is None,
    ensures
        storable(JsonView::Object(push_some_text(o, key, t)), levels),
{
    if let Some(s) = t {
        lemma_storable_push(o, key, JsonView::Text(s), levels);
    }
}

proof fn lemma_message_storable(m: MessageView)
    requires
        bare_message(m),
    ensures
        storable(message_json(m), 3),
{
    broadcast use lemma_member_push;

    lemma_names();
    lemma_empty_storable(3);
    lemma_parts_storable(m.parts);
    let none = MembersView::empty();
    let a = none.push(("kind"@, JsonView::Text(m.kind)));
    let b = a.push(("messageId"@, JsonView::Text(m.message_id)));
    let c = b.push(("role"@, JsonView::Text(m.role)));
    let d = c.push(("parts"@, parts_json(m.parts)));
    let e = push_some_text(d, "taskId"@, m.task_id);
    lemma_storable_push(none, "kind"@, JsonView::Text(m.kind), 3);
    lemma_storable_push(a, "messageId"@, JsonView::Text(m.message_id), 3);
    lemma_storable_push(b, "role"@, JsonView::Text(m.role), 3);
    lemma_storable_push(c, "parts"@, parts_json(m.parts), 3);
    lemma_some_text_storable(d, "taskId"@, m.task_id, 3);
    lemma_some_text_storable(e, "contextId"@, m.context_id, 3);
}

proof fn lemma_artifact_storable(x: ArtifactView)
    requires
        bare_artifact(x),
    ensures
        storable(artifact_json(x), 3),
{
    broadcast use lemma_member_push;

    lemma_names();
    lemma_empty_storable(3);
    lemma_parts_storable(x.parts);
    let none = MembersView::empty();
    let a = none.push(("artifactId"@, JsonView::Text(x.artifact_id)));
    let b = push_some_text(a, "name"@, x.name);
    let c = push_some_text(b, "description"@, x.description);
    lemma_storable_push(none, "artifactId"@, JsonView::Text(x.artifact_id), 3);
    lemma_some_text_storable(a, "name"@, x.name, 3);
    lemma_some_text_storable(b, "description"@, x.description, 3);
    lemma_storable_push(c, "parts"@, parts_json(x.parts), 3);
}

proof fn lemma_status_storable(s: TaskStatusView)
    requires
        s.message matches Some(m) ==> bare_message(m),
    ensures
        storable(status_json(s), 4),
{
    broadcast use lemma_member_push;

    lemma_names();
    lemma_empty_storable(4);
    let none = MembersView::empty();
    let state = JsonView::Text(state_name(s.state));
    let a = none.push(("state"@, state));
    let b = push_some_text(a, "timestamp"@, s.timestamp);
    lemma_storable_push(none, "state"@, state, 4);
    lemma_some_text_storable(a, "timestamp"@, s.timestamp, 4);
    if let Some(m) = s.message {
        lemma_message_storable(m);
        lemma_storable_push(b, "message"@, message_json(m), 4);
    }
}

/// What is written of a task without metadata is read back as it was.
pub proof fn bare_task_is_storable(t: TaskView)
    requires
        bare_task(t),
    ensures
        storable(task_json(t), 127),
        plain_task(t),
{
    broadcast use lemma_member_push;

    lemma_names();
    lemma_empty_storable(5);
    lemma_status_storable(t.status);
    let none = MembersView::empty();
    let a = none.push(("id"@, JsonView::Text(t.id)));
    let b = a.push(("contextId"@, JsonView::Text(t.context_id)));
    let c = b.push(("kind"@, JsonView::Text(t.kind)));
    let d = c.push(("status"@, status_json(t.status)));
    let e = push_some(d, "history"@, some_messages(t.history));
    lemma_storable_push(none, "id"@, JsonView::Text(t.id), 5);
    lemma_storable_push(a, "contextId"@, JsonView::Text(t.context_id), 5);
    lemma_storable_push(b, "kind"@, JsonView::Text(t.kind), 5);
    lemma_storable_push(c, "status"@, status_json(t.status), 5);
    if t.history.len() > 0 {
        let items = messages_json(t.history)->Array_0;
        assert forall|i: int| 0 <= i < items.len() implies storable(#[trigger] items[i], 3) by {
            lemma_message_storable(t.history[i]);
        }
        lemma_storable_push(d, "history"@, messages_json(t.history), 5);
    }
    if t.artifacts.len() > 0 {
        let items = artifacts_json(t.artifacts)->Array_0;
        assert forall|i: int| 0 <= i < items.len() implies storable(#[trigger] items[i], 3) by {
            lemma_artifact_storable(t.artifacts[i]);
        }
        lemma_storable_push(e, "artifacts"@, artifacts_json(t.artifacts), 5);
    }
    lemma_storable_deeper(task_json(t), 5, 127);
    assert forall|i: int| 0 <= i < t.history.len() implies plain_message(#[trigger] t.history[i]) by {
        lemma_bare_is_plain(t.history[i].parts);
    }
    assert forall|i: int| 0 <= i < t.artifacts.len() implies plain_artifact(
        #[trigger] t.artifacts[i],
    ) by {
        lemma_bare_is_plain(t.artifacts[i].parts);
    }
    if let Some(m) = t.status.message {
        lemma_bare_is_plain(m.parts);
    }
}

proof fn lemma_bare_is_plain(parts: Seq<PartView>)
    requires
        forall|i: int| 0 <= i < parts.len() ==> bare_part(#[trigger] parts[i]),
    ensures
        forall|i: int| 0 <= i < parts.len() ==> plain_part(#[trigger] parts[i]),
{
    assert forall|i: int| 0 <= i < parts.len() implies plain_part(#[trigger] parts[i]) by {
        assert(bare_part(parts[i]));
    }
}

} // verus!
