//! Reading records out of JSON documents.
//!
//! A record is read from an object, whose unknown members are ignored, or from
//! an array that holds its fields in order. [`shape_error`] says which documents
//! are a record of a kind, and what is wrong with the others; what the fields
//! hold is looked up by [`field_value`].
//!
//! Bytes are read as a record by [`read_record`]. No field may stand there twice,
//! and of what is ignored it asks only that it is JSON.

use vstd::prelude::*;

use crate::effects::copy_bytes;
use crate::json::{
    bytes_of_json, find_member, items_view, json_of_bytes, lemma_array_view, lemma_object_view,
    member, members_view, option_json, parse_json, read_as, reading_view, write_json, Json, JsonView,
    MembersView, Number, NumberView,
};
use crate::spans::{
    enclose, enclosed, is_one_value, join_member, list_view, member_bytes, one_value, pairs_of,
    raw_items, raw_members, split_items, split_members,
};
use crate::text::{
    concat2, concat3, concat4, decimal, decimal_text, option_text, signed_decimal,
    signed_decimal_text, text_eq, texts,
};

verus! {

/// What a field holds.
#[derive(Debug, Clone, Copy, PartialEq, Eq)]
pub enum Shape {
    Text,
    Bool,
    U32,
    U64,
    Byte,
    Any,
    /// The name of a task's state.
    State,
    /// One part of a message.
    Part,
    Texts,
    Bytes,
    Parts,
    Messages,
    Artifacts,
    AgentMessages,
    Record(Rec),
}

/// A field of a record.
pub struct Field {
    pub name: &'static str,
    pub shape: Shape,
    /// `null` stands for no value, and the field may be left out.
    pub optional: bool,
    /// The field may be left out, at the end of an array too.
    pub default: bool,
}

/// The value of a [`Field`].
pub struct FieldView {
    pub name: Seq<char>,
    pub shape: Shape,
    pub optional: bool,
    pub default: bool,
}

impl View for Field {
    type V = FieldView;

    open spec fn view(&self) -> FieldView {
        FieldView {
            name: self.name@,
            shape: self.shape,
            optional: self.optional,
            default: self.default,
        }
    }
}

/// The values of fields.
pub open spec fn fields_view(v: Seq<Field>) -> Seq<FieldView> {
    Seq::new(v.len(), |i: int| v[i]@)
}

/// A field of those properties.
pub open spec fn field_view(name: Seq<char>, shape: Shape, optional: bool, default: bool) -> FieldView {
    FieldView { name, shape, optional, default }
}

fn field(name: &'static str, shape: Shape, optional: bool, default: bool) -> (r: Field)
    ensures
        r@ == field_view(name@, shape, optional, default),
{
    Field { name, shape, optional, default }
}

/// The records that the crate reads from JSON.
#[derive(Debug, Clone, Copy, PartialEq, Eq)]
pub enum Rec {
    Request,
    SendParams,
    SendConfiguration,
    QueryParams,
    IdParams,
    Message,
    Task,
    Status,
    Artifact,
    StartSession,
    SendMessage,
    AgentMessage,
    Token,
    CachedToken,
    HotEnvelope,
    Meta,
}

/// The name of a record, as errors give it.
pub open spec fn rec_name(r: Rec) -> Seq<char> {
    match r {
        Rec::Request => "struct JsonRpcRequest"@,
        Rec::SendParams => "struct MessageSendParams"@,
        Rec::SendConfiguration => "struct MessageSendConfiguration"@,
        Rec::QueryParams => "struct TaskQueryParams"@,
        Rec::IdParams => "struct TaskIdParams"@,
        Rec::Message => "struct Message"@,
        Rec::Task => "struct Task"@,
        Rec::Status => "struct TaskStatus"@,
        Rec::Artifact => "struct Artifact"@,
        Rec::StartSession => "struct StartSessionResponse"@,
        Rec::SendMessage => "struct SendMessageResponse"@,
        Rec::AgentMessage => "struct AgentforceMessage"@,
        Rec::Token => "struct TokenResponse"@,
        Rec::CachedToken => "struct CachedToken"@,
        Rec::HotEnvelope => "struct HotEnvelope"@,
        Rec::Meta => "struct TaskMeta"@,
    }
}

fn name_of(r: Rec) -> (s: &'static str)
    ensures
        s@ == rec_name(r),
{
    match r {
        Rec::Request => "struct JsonRpcRequest",
        Rec::SendParams => "struct MessageSendParams",
        Rec::SendConfiguration => "struct MessageSendConfiguration",
        Rec::QueryParams => "struct TaskQueryParams",
        Rec::IdParams => "struct TaskIdParams",
        Rec::Message => "struct Message",
        Rec::Task => "struct Task",
        Rec::Status => "struct TaskStatus",
        Rec::Artifact => "struct Artifact",
        Rec::StartSession => "struct StartSessionResponse",
        Rec::SendMessage => "struct SendMessageResponse",
        Rec::AgentMessage => "struct AgentforceMessage",
        Rec::Token => "struct TokenResponse",
        Rec::CachedToken => "struct CachedToken",
        Rec::HotEnvelope => "struct HotEnvelope",
        Rec::Meta => "struct TaskMeta",
    }
}

/// How deep the records and lists inside a record nest.
pub open spec fn rec_rank(r: Rec) -> nat {
    match r {
        Rec::Request => 2,
        Rec::SendParams => 4,
        Rec::SendConfiguration => 2,
        Rec::QueryParams => 2,
        Rec::IdParams => 2,
        Rec::Message => 3,
        Rec::Task => 5,
        Rec::Status => 4,
        Rec::Artifact => 3,
        Rec::StartSession => 3,
        Rec::SendMessage => 3,
        Rec::AgentMessage => 1,
        Rec::Token => 2,
        Rec::CachedToken => 2,
        Rec::HotEnvelope => 2,
        Rec::Meta => 2,
    }
}

/// The fields of a record, in order.
pub open spec fn fields(r: Rec) -> Seq<FieldView> {
    match r {
        Rec::Request => seq![
            field_view("jsonrpc"@, Shape::Text, false, false),
            field_view("id"@, Shape::Any, true, true),
            field_view("method"@, Shape::Text, false, false),
            field_view("params"@, Shape::Any, true, true),
        ],
        Rec::SendParams => seq![
            field_view("message"@, Shape::Record(Rec::Message), false, false),
            field_view("configuration"@, Shape::Record(Rec::SendConfiguration), true, true),
            field_view("metadata"@, Shape::Any, true, true),
        ],
        Rec::SendConfiguration => seq![
            field_view("acceptedOutputModes"@, Shape::Texts, true, true),
            field_view("historyLength"@, Shape::U32, true, true),
            field_view("blocking"@, Shape::Bool, true, true),
        ],
        Rec::QueryParams => seq![
            field_view("id"@, Shape::Text, false, false),
            field_view("historyLength"@, Shape::U32, true, true),
            field_view("metadata"@, Shape::Any, true, true),
        ],
        Rec::IdParams => seq![
            field_view("id"@, Shape::Text, false, false),
            field_view("metadata"@, Shape::Any, true, true),
        ],
        Rec::Message => seq![
            field_view("kind"@, Shape::Text, false, false),
            field_view("messageId"@, Shape::Text, false, false),
            field_view("role"@, Shape::Text, false, false),
            field_view("parts"@, Shape::Parts, false, false),
            field_view("taskId"@, Shape::Text, true, true),
            field_view("contextId"@, Shape::Text, true, true),
            field_view("metadata"@, Shape::Any, true, true),
        ],
        Rec::Task => seq![
            field_view("id"@, Shape::Text, false, false),
            field_view("contextId"@, Shape::Text, false, false),
            field_view("kind"@, Shape::Text, false, false),
            field_view("status"@, Shape::Record(Rec::Status), false, false),
            field_view("history"@, Shape::Messages, false, true),
            field_view("artifacts"@, Shape::Artifacts, false, true),
            field_view("metadata"@, Shape::Any, true, true),
        ],
        Rec::Status => seq![
            field_view("state"@, Shape::State, false, false),
            field_view("timestamp"@, Shape::Text, true, false),
            field_view("message"@, Shape::Record(Rec::Message), true, false),
        ],
        Rec::Artifact => seq![
            field_view("artifactId"@, Shape::Text, false, false),
            field_view("name"@, Shape::Text, true, true),
            field_view("description"@, Shape::Text, true, true),
            field_view("parts"@, Shape::Parts, false, false),
            field_view("metadata"@, Shape::Any, true, true),
        ],
        Rec::StartSession => seq![
            field_view("sessionId"@, Shape::Text, false, false),
            field_view("messages"@, Shape::AgentMessages, false, true),
        ],
        Rec::SendMessage => seq![
            field_view("messages"@, Shape::AgentMessages, false, true),
        ],
        Rec::AgentMessage => seq![
            field_view("id"@, Shape::Text, true, true),
            field_view("type"@, Shape::Text, true, true),
            field_view("message"@, Shape::Text, true, true),
        ],
        Rec::Token => seq![
            field_view("access_token"@, Shape::Text, false, false),
            field_view("expires_in"@, Shape::U64, false, true),
        ],
        Rec::CachedToken => seq![
            field_view("access_token"@, Shape::Text, false, false),
            field_view("expires_at_unix"@, Shape::U64, false, false),
        ],
        Rec::HotEnvelope => seq![
            field_view("payload"@, Shape::Bytes, false, false),
            field_view("expires_at_unix"@, Shape::U64, false, false),
        ],
        Rec::Meta => seq![
            field_view("sequenceId"@, Shape::U32, false, false),
            field_view("lastUpdatedAt"@, Shape::U64, false, false),
        ],
    }
}

fn fields_of(r: Rec) -> (v: Vec<Field>)
    ensures
        fields_view(v@) == fields(r),
{
    match r {
        Rec::Request => {
            let v: Vec<Field> = vec![
                field("jsonrpc", Shape::Text, false, false),
                field("id", Shape::Any, true, true),
                field("method", Shape::Text, false, false),
                field("params", Shape::Any, true, true),
            ];
            assert(fields_view(v@) =~= fields(r));
            v
        },
        Rec::SendParams => {
            let v: Vec<Field> = vec![
                field("message", Shape::Record(Rec::Message), false, false),
                field("configuration", Shape::Record(Rec::SendConfiguration), true, true),
                field("metadata", Shape::Any, true, true),
            ];
            assert(fields_view(v@) =~= fields(r));
            v
        },
        Rec::SendConfiguration => {
            let v: Vec<Field> = vec![
                field("acceptedOutputModes", Shape::Texts, true, true),
                field("historyLength", Shape::U32, true, true),
                field("blocking", Shape::Bool, true, true),
            ];
            assert(fields_view(v@) =~= fields(r));
            v
        },
        Rec::QueryParams => {
            let v: Vec<Field> = vec![
                field("id", Shape::Text, false, false),
                field("historyLength", Shape::U32, true, true),
                field("metadata", Shape::Any, true, true),
            ];
            assert(fields_view(v@) =~= fields(r));
            v
        },
        Rec::IdParams => {
            let v: Vec<Field> = vec![
                field("id", Shape::Text, false, false),
                field("metadata", Shape::Any, true, true),
            ];
            assert(fields_view(v@) =~= fields(r));
            v
        },
        Rec::Message => {
            let v: Vec<Field> = vec![
                field("kind", Shape::Text, false, false),
                field("messageId", Shape::Text, false, false),
                field("role", Shape::Text, false, false),
                field("parts", Shape::Parts, false, false),
                field("taskId", Shape::Text, true, true),
                field("contextId", Shape::Text, true, true),
                field("metadata", Shape::Any, true, true),
            ];
            assert(fields_view(v@) =~= fields(r));
            v
        },
        Rec::Task => {
            let v: Vec<Field> = vec![
                field("id", Shape::Text, false, false),
                field("contextId", Shape::Text, false, false),
                field("kind", Shape::Text, false, false),
                field("status", Shape::Record(Rec::Status), false, false),
                field("history", Shape::Messages, false, true),
                field("artifacts", Shape::Artifacts, false, true),
                field("metadata", Shape::Any, true, true),
            ];
            assert(fields_view(v@) =~= fields(r));
            v
        },
        Rec::Status => {
            let v: Vec<Field> = vec![
                field("state", Shape::State, false, false),
                field("timestamp", Shape::Text, true, false),
                field("message", Shape::Record(Rec::Message), true, false),
            ];
            assert(fields_view(v@) =~= fields(r));
            v
        },
        Rec::Artifact => {
            let v: Vec<Field> = vec![
                field("artifactId", Shape::Text, false, false),
                field("name", Shape::Text, true, true),
                field("description", Shape::Text, true, true),
                field("parts", Shape::Parts, false, false),
                field("metadata", Shape::Any, true, true),
            ];
            assert(fields_view(v@) =~= fields(r));
            v
        },
        Rec::StartSession => {
            let v: Vec<Field> = vec![
                field("sessionId", Shape::Text, false, false),
                field("messages", Shape::AgentMessages, false, true),
            ];
            assert(fields_view(v@) =~= fields(r));
            v
        },
        Rec::SendMessage => {
            let v: Vec<Field> = vec![
                field("messages", Shape::AgentMessages, false, true),
            ];
            assert(fields_view(v@) =~= fields(r));
            v
        },
        Rec::AgentMessage => {
            let v: Vec<Field> = vec![
                field("id", Shape::Text, true, true),
                field("type", Shape::Text, true, true),
                field("message", Shape::Text, true, true),
            ];
            assert(fields_view(v@) =~= fields(r));
            v
        },
        Rec::Token => {
            let v: Vec<Field> = vec![
                field("access_token", Shape::Text, false, false),
                field("expires_in", Shape::U64, false, true),
            ];
            assert(fields_view(v@) =~= fields(r));
            v
        },
        Rec::CachedToken => {
            let v: Vec<Field> = vec![
                field("access_token", Shape::Text, false, false),
                field("expires_at_unix", Shape::U64, false, false),
            ];
            assert(fields_view(v@) =~= fields(r));
            v
        },
        Rec::HotEnvelope => {
            let v: Vec<Field> = vec![
                field("payload", Shape::Bytes, false, false),
                field("expires_at_unix", Shape::U64, false, false),
            ];
            assert(fields_view(v@) =~= fields(r));
            v
        },
        Rec::Meta => {
            let v: Vec<Field> = vec![
                field("sequenceId", Shape::U32, false, false),
                field("lastUpdatedAt", Shape::U64, false, false),
            ];
            assert(fields_view(v@) =~= fields(r));
            v
        },
    }
}

/// How deep the records and lists inside a shape nest.
pub open spec fn rank(s: Shape) -> nat {
    match s {
        Shape::Part => 1,
        Shape::Texts => 1,
        Shape::Bytes => 1,
        Shape::Parts => 2,
        Shape::Messages => 4,
        Shape::Artifacts => 4,
        Shape::AgentMessages => 2,
        Shape::Record(r) => rec_rank(r),
        _ => 0,
    }
}

/// The fields of a record nest less deep than the record.
pub proof fn lemma_field_rank(r: Rec, i: int)
    requires
        0 <= i < fields(r).len(),
    ensures
        rank(fields(r)[i].shape) < rec_rank(r),
{
}

/// The shape of a list's items.
pub open spec fn item_shape(s: Shape) -> Option<Shape> {
    match s {
        Shape::Texts => Some(Shape::Text),
        Shape::Bytes => Some(Shape::Byte),
        Shape::Parts => Some(Shape::Part),
        Shape::Messages => Some(Shape::Record(Rec::Message)),
        Shape::Artifacts => Some(Shape::Record(Rec::Artifact)),
        Shape::AgentMessages => Some(Shape::Record(Rec::AgentMessage)),
        _ => None,
    }
}

fn item_shape_of(s: Shape) -> (r: Option<Shape>)
    ensures
        r == item_shape(s),
{
    match s {
        Shape::Texts => Some(Shape::Text),
        Shape::Bytes => Some(Shape::Byte),
        Shape::Parts => Some(Shape::Part),
        Shape::Messages => Some(Shape::Record(Rec::Message)),
        Shape::Artifacts => Some(Shape::Record(Rec::Artifact)),
        Shape::AgentMessages => Some(Shape::Record(Rec::AgentMessage)),
        _ => None,
    }
}

/// The position of the field of that name; how many fields there are where
/// none has it.
pub open spec fn field_index(fs: Seq<FieldView>, name: Seq<char>) -> nat
    decreases fs.len(),
{
    if fs.len() == 0 || fs[0].name == name {
        0
    } else {
        1 + field_index(fs.drop_first(), name)
    }
}

/// Where the first field of a name stands is its position.
pub proof fn lemma_field_index(fs: Seq<FieldView>, name: Seq<char>, i: int)
    requires
        0 <= i <= fs.len(),
        forall|k: int| 0 <= k < i ==> (#[trigger] fs[k]).name != name,
        i < fs.len() ==> fs[i].name == name,
    ensures
        field_index(fs, name) == i,
    decreases i,
{
    if i > 0 {
        assert(fs[0].name != name);
        let rest = fs.drop_first();
        assert forall|k: int| 0 <= k < i - 1 implies (#[trigger] rest[k]).name != name by {
            assert(rest[k] == fs[k + 1]);
        }
        lemma_field_index(rest, name, i - 1);
    }
}

proof fn lemma_field_index_bound(fs: Seq<FieldView>, name: Seq<char>)
    ensures
        field_index(fs, name) <= fs.len(),
        field_index(fs, name) < fs.len() ==> fs[field_index(fs, name) as int].name == name,
    decreases fs.len(),
{
    if fs.len() > 0 && fs[0].name != name {
        lemma_field_index_bound(fs.drop_first(), name);
    }
}

fn field_position(fs: &Vec<Field>, name: &str) -> (r: usize)
    ensures
        r == field_index(fields_view(fs@), name@),
        r <= fs@.len(),
{
    let n: usize = fs.len();
    for i in 0..n
        invariant
            n == fs@.len(),
            forall|k: int| 0 <= k < i ==> (#[trigger] fields_view(fs@)[k]).name != name@,
    {
        if text_eq(fs[i].name, name) {
            proof {
                lemma_field_index(fields_view(fs@), name@, i as int);
            }
            return i;
        }
    }
    proof {
        lemma_field_index(fields_view(fs@), name@, n as int);
    }
    n
}

/// A string in quotes, with escapes, as Rust's debugging output shows it.
pub uninterp spec fn debug_text(s: Seq<char>) -> Seq<char>;

/// `<str as std::fmt::Debug>`: the string in double quotes, with its special
/// characters escaped.
#[verifier::external_body]
fn debug_of(s: &str) -> (r: String)
    ensures
        r@ == debug_text(s@),
{
    format!("{s:?}")
}

/// A document in the words of an error.
pub open spec fn found_text(v: JsonView) -> Seq<char> {
    match v {
        JsonView::Null => "null"@,
        JsonView::Bool(true) => "boolean `true`"@,
        JsonView::Bool(false) => "boolean `false`"@,
        JsonView::Number(NumberView::PosInt(n)) => "integer `"@ + decimal(n as nat) + "`"@,
        JsonView::Number(NumberView::NegInt(n)) => "integer `"@ + signed_decimal(n as int) + "`"@,
        JsonView::Number(NumberView::Float(t)) => "floating point `"@ + t + "`"@,
        JsonView::Text(s) => "string "@ + debug_text(s),
        JsonView::Array(_) => "sequence"@,
        JsonView::Object(_) => "map"@,
    }
}

fn found(j: &Json) -> (r: String)
    ensures
        r@ == found_text(j@),
{
    match j {
        Json::Null => "null".to_owned(),
        Json::Bool(b) => if *b {
            "boolean `true`".to_owned()
        } else {
            "boolean `false`".to_owned()
        },
        Json::Number(Number::PosInt(n)) => concat3("integer `", decimal_text(*n).as_str(), "`"),
        Json::Number(Number::NegInt(n)) => concat3(
            "integer `",
            signed_decimal_text(*n).as_str(),
            "`",
        ),
        Json::Number(Number::Float(t)) => concat3("floating point `", t.as_str(), "`"),
        Json::Text(s) => concat2("string ", debug_of(s.as_str()).as_str()),
        Json::Array(_) => "sequence".to_owned(),
        Json::Object(_) => "map".to_owned(),
    }
}

/// The error of a document of the wrong type.
pub open spec fn wrong_type(v: JsonView, expected: Seq<char>) -> Seq<char> {
    "invalid type: "@ + found_text(v) + ", expected "@ + expected
}

fn wrong_type_text(j: &Json, expected: &str) -> (r: String)
    ensures
        r@ == wrong_type(j@, expected@),
{
    concat4("invalid type: ", found(j).as_str(), ", expected ", expected)
}

/// The error of a document of the right type with a value out of range.
pub open spec fn wrong_value(v: JsonView, expected: Seq<char>) -> Seq<char> {
    "invalid value: "@ + found_text(v) + ", expected "@ + expected
}

fn wrong_value_text(j: &Json, expected: &str) -> (r: String)
    ensures
        r@ == wrong_value(j@, expected@),
{
    concat4("invalid value: ", found(j).as_str(), ", expected ", expected)
}

/// The error of a field that is left out.
pub open spec fn missing_field(name: Seq<char>) -> Seq<char> {
    "missing field `"@ + name + "`"@
}

/// The error of an array of the wrong length.
pub open spec fn wrong_length(n: nat, expected: Seq<char>) -> Seq<char> {
    "invalid length "@ + decimal(n) + ", expected "@ + expected
}

fn wrong_length_text(n: usize, expected: &str) -> (r: String)
    ensures
        r@ == wrong_length(n as nat, expected@),
{
    concat4("invalid length ", decimal_text(n as u64).as_str(), ", expected ", expected)
}

/// How many elements an array of a record holds, in words.
pub open spec fn elements_text(name: Seq<char>, n: nat) -> Seq<char> {
    if n == 1 {
        name + " with 1 element"@
    } else {
        name + " with "@ + decimal(n) + " elements"@
    }
}

fn elements(name: &str, n: usize) -> (r: String)
    ensures
        r@ == elements_text(name@, n as nat),
{
    if n == 1 {
        concat2(name, " with 1 element")
    } else {
        concat4(name, " with ", decimal_text(n as u64).as_str(), " elements")
    }
}

/// What is wrong with a number of at most `max`.
pub open spec fn number_error(v: JsonView, max: nat, expected: Seq<char>) -> Option<Seq<char>> {
    match v {
        JsonView::Number(NumberView::PosInt(n)) => if n <= max {
            None
        } else {
            Some(wrong_value(v, expected))
        },
        JsonView::Number(NumberView::NegInt(n)) => if 0 <= n <= max {
            None
        } else {
            Some(wrong_value(v, expected))
        },
        _ => Some(wrong_type(v, expected)),
    }
}

fn check_number(j: &Json, max: u64, expected: &str) -> (r: Option<String>)
    ensures
        option_text(r) == number_error(j@, max as nat, expected@),
{
    match j {
        Json::Number(Number::PosInt(n)) => if *n <= max {
            None
        } else {
            Some(wrong_value_text(j, expected))
        },
        Json::Number(Number::NegInt(n)) => if 0 <= *n && *n as u64 <= max {
            None
        } else {
            Some(wrong_value_text(j, expected))
        },
        _ => Some(wrong_type_text(j, expected)),
    }
}

/// The position of a state's name; how many there are where none fits.
pub open spec fn state_index(s: Seq<char>) -> int {
    if s == "submitted"@ {
        0
    } else if s == "working"@ {
        1
    } else if s == "input-required"@ {
        2
    } else if s == "completed"@ {
        3
    } else if s == "canceled"@ {
        4
    } else if s == "failed"@ {
        5
    } else if s == "rejected"@ {
        6
    } else if s == "auth-required"@ {
        7
    } else if s == "unknown"@ {
        8
    } else {
        9
    }
}

pub(crate) fn state_position(s: &str) -> (r: usize)
    ensures
        r == state_index(s@),
        r <= 9,
{
    if text_eq(s, "submitted") {
        0
    } else if text_eq(s, "working") {
        1
    } else if text_eq(s, "input-required") {
        2
    } else if text_eq(s, "completed") {
        3
    } else if text_eq(s, "canceled") {
        4
    } else if text_eq(s, "failed") {
        5
    } else if text_eq(s, "rejected") {
        6
    } else if text_eq(s, "auth-required") {
        7
    } else if text_eq(s, "unknown") {
        8
    } else {
        9
    }
}

/// The error of an unknown state.
pub open spec fn unknown_state(s: Seq<char>) -> Seq<char> {
    "unknown variant `"@ + s
        + "`, expected one of `submitted`, `working`, `input-required`, `completed`, `canceled`, `failed`, `rejected`, `auth-required`, `unknown`"@
}

fn unknown_state_text(s: &str) -> (r: String)
    ensures
        r@ == unknown_state(s@),
{
    concat3(
        "unknown variant `",
        s,
        "`, expected one of `submitted`, `working`, `input-required`, `completed`, `canceled`, `failed`, `rejected`, `auth-required`, `unknown`",
    )
}

/// The name of the state that a document gives: a string, or an object whose
/// only member has that key and no value.
pub open spec fn state_text(v: JsonView) -> Seq<char> {
    match v {
        JsonView::Text(s) => s,
        JsonView::Object(o) => if o.len() > 0 {
            o[0].0
        } else {
            Seq::empty()
        },
        _ => Seq::empty(),
    }
}

/// What keeps a document from being a state.
pub open spec fn state_error(v: JsonView) -> Option<Seq<char>> {
    match v {
        JsonView::Text(s) => if state_index(s) < 9 {
            None
        } else {
            Some(unknown_state(s))
        },
        JsonView::Object(o) => if o.len() != 1 {
            Some(wrong_value(v, "map with a single key"@))
        } else if state_index(o[0].0) == 9 {
            Some(unknown_state(o[0].0))
        } else if !(o[0].1 is Null) {
            Some(wrong_type(o[0].1, "unit"@))
        } else {
            None
        },
        _ => Some(wrong_type(v, "string or map"@)),
    }
}

fn check_state(j: &Json) -> (r: Option<String>)
    ensures
        option_text(r) == state_error(j@),
{
    match j {
        Json::Text(s) => if state_position(s.as_str()) < 9 {
            None
        } else {
            Some(unknown_state_text(s.as_str()))
        },
        Json::Object(o) => {
            proof {
                lemma_object_view(*o);
            }
            if o.len() != 1 {
                Some(wrong_value_text(j, "map with a single key"))
            } else {
                assert(members_view(o@)[0] == (o@[0].0@, o@[0].1@));
                if state_position(o[0].0.as_str()) == 9 {
                    Some(unknown_state_text(o[0].0.as_str()))
                } else {
                    match &o[0].1 {
                        Json::Null => None,
                        other => Some(wrong_type_text(other, "unit")),
                    }
                }
            }
        },
        _ => Some(wrong_type_text(j, "string or map")),
    }
}

/// What keeps the fields of a text part from being read: the text, then the
/// metadata, out of an array behind the part's kind.
pub open spec fn text_part_array_error(a: Seq<JsonView>) -> Option<Seq<char>> {
    if a.len() == 1 {
        Some(wrong_length(0, elements_text("struct variant Part::Text"@, 2)))
    } else if !(a[1] is Text) {
        Some(wrong_type(a[1], "a string"@))
    } else if a.len() > 3 {
        Some(wrong_length((a.len() - 1) as nat, "2 elements in sequence"@))
    } else {
        None
    }
}

/// What keeps a document from being a part: it has a `kind`, a string, and one
/// of kind `text` has a `text`, a string. Of other kinds nothing is asked.
pub open spec fn part_error(v: JsonView) -> Option<Seq<char>> {
    match v {
        JsonView::Object(o) => match member(o, "kind"@) {
            None => Some(missing_field("kind"@)),
            Some(JsonView::Text(k)) => if k == "text"@ {
                match member(o, "text"@) {
                    None => Some(missing_field("text"@)),
                    Some(JsonView::Text(_)) => None,
                    Some(other) => Some(wrong_type(other, "a string"@)),
                }
            } else {
                None
            },
            Some(other) => Some(wrong_type(other, "variant identifier"@)),
        },
        JsonView::Array(a) => if a.len() == 0 {
            Some(missing_field("kind"@))
        } else {
            match a[0] {
                JsonView::Text(k) => if k == "text"@ {
                    text_part_array_error(a)
                } else {
                    None
                },
                other => Some(wrong_type(other, "variant identifier"@)),
            }
        },
        _ => Some(wrong_type(v, "internally tagged enum Part"@)),
    }
}

fn missing_field_text(name: &str) -> (r: String)
    ensures
        r@ == missing_field(name@),
{
    concat3("missing field `", name, "`")
}

fn check_part(j: &Json) -> (r: Option<String>)
    ensures
        option_text(r) == part_error(j@),
{
    match j {
        Json::Object(o) => {
            proof {
                lemma_object_view(*o);
            }
            match find_member(o, "kind") {
                None => Some(missing_field_text("kind")),
                Some(Json::Text(k)) => if text_eq(k.as_str(), "text") {
                    match find_member(o, "text") {
                        None => Some(missing_field_text("text")),
                        Some(Json::Text(_)) => None,
                        Some(other) => Some(wrong_type_text(other, "a string")),
                    }
                } else {
                    None
                },
                Some(other) => Some(wrong_type_text(other, "variant identifier")),
            }
        },
        Json::Array(a) => {
            proof {
                lemma_array_view(*a);
            }
            if a.len() == 0 {
                return Some(missing_field_text("kind"));
            }
            assert(items_view(a@)[0] == a@[0]@);
            match &a[0] {
                Json::Text(k) => if !text_eq(k.as_str(), "text") {
                    None
                } else if a.len() == 1 {
                    Some(wrong_length_text(0, elements("struct variant Part::Text", 2).as_str()))
                } else {
                    assert(items_view(a@)[1] == a@[1]@);
                    match &a[1] {
                        Json::Text(_) => if a.len() > 3 {
                            Some(wrong_length_text(a.len() - 1, "2 elements in sequence"))
                        } else {
                            None
                        },
                        other => Some(wrong_type_text(other, "a string")),
                    }
                },
                other => Some(wrong_type_text(other, "variant identifier")),
            }
        },
        _ => Some(wrong_type_text(j, "internally tagged enum Part")),
    }
}

/// What keeps a document from having a shape, in words; `None` where it has
/// the shape.
pub open spec fn shape_error(s: Shape, v: JsonView) -> Option<Seq<char>>
    decreases rank(s), 2nat, 0nat,
{
    match s {
        Shape::Text => if v is Text {
            None
        } else {
            Some(wrong_type(v, "a string"@))
        },
        Shape::Bool => if v is Bool {
            None
        } else {
            Some(wrong_type(v, "a boolean"@))
        },
        Shape::U32 => number_error(v, u32::MAX as nat, "u32"@),
        Shape::U64 => number_error(v, u64::MAX as nat, "u64"@),
        Shape::Byte => number_error(v, u8::MAX as nat, "u8"@),
        Shape::Any => None,
        Shape::State => state_error(v),
        Shape::Part => part_error(v),
        Shape::Record(r) => match v {
            JsonView::Object(o) => match members_error(r, o, 0) {
                Some(e) => Some(e),
                None => absent_error(fields(r), o),
            },
            JsonView::Array(a) => if r is AgentMessage {
                Some(wrong_type(v, rec_name(r)))
            } else {
                match positions_error(r, a, 0) {
                    Some(e) => Some(e),
                    None => length_error(r, a.len()),
                }
            },
            _ => Some(wrong_type(v, rec_name(r))),
        },
        _ => match v {
            JsonView::Array(a) => list_error(s, a, 0),
            _ => Some(wrong_type(v, "a sequence"@)),
        },
    }
}

/// What is wrong with the first bad item of a list from `i` on.
pub open spec fn list_error(s: Shape, a: Seq<JsonView>, i: nat) -> Option<Seq<char>>
    decreases rank(s), 1nat, (if i < a.len() { a.len() - i } else { 0 }),
{
    if i >= a.len() || !(item_shape(s) is Some) {
        None
    } else {
        match shape_error(item_shape(s)->0, a[i as int]) {
            Some(e) => Some(e),
            None => list_error(s, a, i + 1),
        }
    }
}

/// What is wrong with the value of a field.
pub open spec fn value_error(r: Rec, k: nat, v: JsonView) -> Option<Seq<char>>
    decreases rec_rank(r), 0nat, 0nat,
{
    if k >= fields(r).len() || (fields(r)[k as int].optional && v is Null) {
        None
    } else {
        proof {
            lemma_field_rank(r, k as int);
        }
        shape_error(fields(r)[k as int].shape, v)
    }
}

/// What is wrong with the first bad member of an object from `i` on.
pub open spec fn members_error(r: Rec, o: MembersView, i: nat) -> Option<Seq<char>>
    decreases rec_rank(r), 1nat, (if i < o.len() { o.len() - i } else { 0 }),
{
    if i >= o.len() {
        None
    } else {
        match value_error(r, field_index(fields(r), o[i as int].0), o[i as int].1) {
            Some(e) => Some(e),
            None => members_error(r, o, i + 1),
        }
    }
}

/// What is wrong with the first bad element of an array from `i` on.
pub open spec fn positions_error(r: Rec, a: Seq<JsonView>, i: nat) -> Option<Seq<char>>
    decreases rec_rank(r), 1nat, (if i < a.len() { a.len() - i } else { 0 }),
{
    if i >= a.len() {
        None
    } else {
        match value_error(r, i, a[i as int]) {
            Some(e) => Some(e),
            None => positions_error(r, a, i + 1),
        }
    }
}

/// The error of the first field that an object must have and lacks.
pub open spec fn absent_error(fs: Seq<FieldView>, o: MembersView) -> Option<Seq<char>>
    decreases fs.len(),
{
    if fs.len() == 0 {
        None
    } else if !fs[0].optional && !fs[0].default && member(o, fs[0].name) is None {
        Some(missing_field(fs[0].name))
    } else {
        absent_error(fs.drop_first(), o)
    }
}

/// The first position from `k` on that an array may not lack.
pub open spec fn first_needed(fs: Seq<FieldView>, k: nat) -> nat
    decreases (if k < fs.len() { fs.len() - k } else { 0 }),
{
    if k >= fs.len() || !fs[k as int].default {
        k
    } else {
        first_needed(fs, k + 1)
    }
}

/// What is wrong with the length of an array that holds a record.
pub open spec fn length_error(r: Rec, n: nat) -> Option<Seq<char>> {
    let fs = fields(r);
    if n > fs.len() {
        Some(wrong_length(n, "fewer elements in array"@))
    } else if first_needed(fs, n) < fs.len() {
        Some(wrong_length(first_needed(fs, n), elements_text(rec_name(r), fs.len())))
    } else {
        None
    }
}

/// Tells what keeps a document from having a shape.
pub fn check(s: Shape, j: &Json) -> (r: Option<String>)
    ensures
        option_text(r) == shape_error(s, j@),
    decreases rank(s), 2nat, 0nat,
{
    match s {
        Shape::Text => match j {
            Json::Text(_) => None,
            _ => Some(wrong_type_text(j, "a string")),
        },
        Shape::Bool => match j {
            Json::Bool(_) => None,
            _ => Some(wrong_type_text(j, "a boolean")),
        },
        Shape::U32 => check_number(j, 0xffff_ffff, "u32"),
        Shape::U64 => check_number(j, 0xffff_ffff_ffff_ffff, "u64"),
        Shape::Byte => check_number(j, 0xff, "u8"),
        Shape::Any => None,
        Shape::State => check_state(j),
        Shape::Part => check_part(j),
        Shape::Record(r) => match j {
            Json::Object(o) => {
                proof {
                    lemma_object_view(*o);
                }
                match check_members(r, o) {
                    Some(e) => Some(e),
                    None => check_absent(r, o),
                }
            },
            Json::Array(a) => {
                proof {
                    lemma_array_view(*a);
                }
                match r {
                    Rec::AgentMessage => Some(wrong_type_text(j, name_of(r))),
                    _ => match check_positions(r, a) {
                        Some(e) => Some(e),
                        None => check_length(r, a.len()),
                    },
                }
            },
            _ => Some(wrong_type_text(j, name_of(r))),
        },
        _ => match j {
            Json::Array(a) => {
                proof {
                    lemma_array_view(*a);
                }
                check_list(s, a)
            },
            _ => Some(wrong_type_text(j, "a sequence")),
        },
    }
}

fn check_list(s: Shape, a: &Vec<Json>) -> (r: Option<String>)
    ensures
        option_text(r) == list_error(s, items_view(a@), 0),
    decreases rank(s), 1nat, 0nat,
{
    match item_shape_of(s) {
        None => None,
        Some(item) => {
            let n: usize = a.len();
            for i in 0..n
                invariant
                    n == a@.len(),
                    item_shape(s) == Some(item),
                    rank(item) < rank(s),
                    list_error(s, items_view(a@), 0) == list_error(s, items_view(a@), i as nat),
            {
                assert(items_view(a@)[i as int] == a@[i as int]@);
                match check(item, &a[i]) {
                    Some(e) => {
                        return Some(e);
                    },
                    None => {},
                }
            }
            None
        },
    }
}

fn check_value(r: Rec, fs: &Vec<Field>, k: usize, j: &Json) -> (e: Option<String>)
    requires
        fields_view(fs@) == fields(r),
    ensures
        option_text(e) == value_error(r, k as nat, j@),
    decreases rec_rank(r), 0nat, 0nat,
{
    if k >= fs.len() {
        return None;
    }
    assert(fields(r)[k as int] == fs@[k as int]@);
    if fs[k].optional {
        match j {
            Json::Null => {
                return None;
            },
            _ => {},
        }
    }
    proof {
        lemma_field_rank(r, k as int);
    }
    check(fs[k].shape, j)
}

fn check_members(r: Rec, o: &Vec<(String, Json)>) -> (e: Option<String>)
    ensures
        option_text(e) == members_error(r, members_view(o@), 0),
    decreases rec_rank(r), 1nat, 0nat,
{
    let fs: Vec<Field> = fields_of(r);
    let n: usize = o.len();
    for i in 0..n
        invariant
            n == o@.len(),
            fields_view(fs@) == fields(r),
            members_error(r, members_view(o@), 0) == members_error(r, members_view(o@), i as nat),
    {
        assert(members_view(o@)[i as int] == (o@[i as int].0@, o@[i as int].1@));
        let k: usize = field_position(&fs, o[i].0.as_str());
        match check_value(r, &fs, k, &o[i].1) {
            Some(e) => {
                return Some(e);
            },
            None => {},
        }
    }
    None
}

fn check_positions(r: Rec, a: &Vec<Json>) -> (e: Option<String>)
    ensures
        option_text(e) == positions_error(r, items_view(a@), 0),
    decreases rec_rank(r), 1nat, 0nat,
{
    let fs: Vec<Field> = fields_of(r);
    let n: usize = a.len();
    for i in 0..n
        invariant
            n == a@.len(),
            fields_view(fs@) == fields(r),
            positions_error(r, items_view(a@), 0) == positions_error(r, items_view(a@), i as nat),
    {
        assert(items_view(a@)[i as int] == a@[i as int]@);
        match check_value(r, &fs, i, &a[i]) {
            Some(e) => {
                return Some(e);
            },
            None => {},
        }
    }
    None
}

fn check_absent(r: Rec, o: &Vec<(String, Json)>) -> (e: Option<String>)
    ensures
        option_text(e) == absent_error(fields(r), members_view(o@)),
{
    let fs: Vec<Field> = fields_of(r);
    let n: usize = fs.len();
    assert(fields(r).skip(0) =~= fields(r));
    for i in 0..n
        invariant
            n == fs@.len(),
            fields_view(fs@) == fields(r),
            absent_error(fields(r), members_view(o@)) == absent_error(
                fields(r).skip(i as int),
                members_view(o@),
            ),
    {
        assert(fields(r)[i as int] == fs@[i as int]@);
        assert(fields(r).skip(i as int).drop_first() =~= fields(r).skip(i + 1));
        if !fs[i].optional && !fs[i].default {
            match find_member(o, fs[i].name) {
                None => {
                    return Some(missing_field_text(fs[i].name));
                },
                Some(_) => {},
            }
        }
    }
    None
}

fn check_length(r: Rec, n: usize) -> (e: Option<String>)
    ensures
        option_text(e) == length_error(r, n as nat),
{
    let fs: Vec<Field> = fields_of(r);
    let count: usize = fs.len();
    if n > count {
        return Some(wrong_length_text(n, "fewer elements in array"));
    }
    let mut k: usize = n;
    while k < count && fs[k].default
        invariant
            n <= k <= count,
            count == fs@.len(),
            fields_view(fs@) == fields(r),
            first_needed(fields(r), n as nat) == first_needed(fields(r), k as nat),
        decreases count - k,
    {
        assert(fields(r)[k as int] == fs@[k as int]@);
        k = k + 1;
    }
    if k < count {
        assert(fields(r)[k as int] == fs@[k as int]@);
        Some(wrong_length_text(k, elements(name_of(r), count).as_str()))
    } else {
        None
    }
}

/// The error of a field that stands there twice.
pub open spec fn repeated_field(name: Seq<char>) -> Seq<char> {
    "duplicate field `"@ + name + "`"@
}

/// The text that the bytes of a key hold.
pub open spec fn key_text(bytes: Seq<u8>) -> Option<Seq<char>> {
    match json_of_bytes(bytes) {
        Ok(JsonView::Text(s)) => Some(s),
        _ => None,
    }
}

/// The texts of the keys.
pub open spec fn keys_of(ms: Seq<(Seq<u8>, Seq<u8>)>) -> Seq<Option<Seq<char>>> {
    Seq::new(ms.len(), |i: int| key_text(ms[i].0))
}

/// The names of fields.
pub open spec fn names_of(fs: Seq<FieldView>) -> Seq<Seq<char>> {
    Seq::new(fs.len(), |i: int| fs[i].name)
}

/// The first of those names that two of the first `n` keys have, by the later of
/// the two.
pub open spec fn first_repeat(
    names: Seq<Seq<char>>,
    keys: Seq<Option<Seq<char>>>,
    n: nat,
) -> Option<Seq<char>>
    decreases n,
{
    if n == 0 || n > keys.len() {
        None
    } else {
        match first_repeat(names, keys, (n - 1) as nat) {
            Some(name) => Some(name),
            None => match keys[n - 1] {
                Some(key) => if names.contains(key) && keys.take(n - 1).contains(Some(key)) {
                    Some(key)
                } else {
                    None
                },
                None => None,
            },
        }
    }
}

/// The value of the first member of that key.
pub open spec fn raw_member(ms: Seq<(Seq<u8>, Seq<u8>)>, key: Seq<char>) -> Option<Seq<u8>>
    decreases ms.len(),
{
    if ms.len() == 0 {
        None
    } else if key_text(ms[0].0) == Some(key) {
        Some(ms[0].1)
    } else {
        raw_member(ms.drop_first(), key)
    }
}

/// The field that two members of a part give: its kind, or of a text its text or its
/// metadata.
pub open spec fn part_repeat(ms: Seq<(Seq<u8>, Seq<u8>)>) -> Option<Seq<char>> {
    match first_repeat(seq!["kind"@], keys_of(ms), ms.len()) {
        Some(name) => Some(name),
        None => match raw_member(ms, "kind"@) {
            Some(kind) => if key_text(kind) == Some("text"@) {
                first_repeat(seq!["text"@, "metadata"@], keys_of(ms), ms.len())
            } else {
                None
            },
            None => None,
        },
    }
}

/// The bytes of a shape without the members that it ignores, or the error of a
/// field that stands there twice. Bytes that are no record or list of the kind are
/// left as they are.
pub open spec fn known_part(s: Shape, bytes: Seq<u8>) -> Result<Seq<u8>, Seq<char>>
    decreases rank(s), 2nat, 0nat,
{
    match s {
        Shape::Record(r) => match raw_members(bytes) {
            Some(ms) => match first_repeat(names_of(fields(r)), keys_of(ms), ms.len()) {
                Some(name) => Err(repeated_field(name)),
                None => match known_members(r, ms, ms.len()) {
                    Ok(parts) => Ok(enclosed(0x7b, parts, 0x7d)),
                    Err(e) => Err(e),
                },
            },
            None => match raw_items(bytes) {
                Some(items) => match known_positions(r, items, items.len()) {
                    Ok(parts) => Ok(enclosed(0x5b, parts, 0x5d)),
                    Err(e) => Err(e),
                },
                None => Ok(bytes),
            },
        },
        Shape::Part => match raw_members(bytes) {
            Some(ms) => match part_repeat(ms) {
                Some(name) => Err(repeated_field(name)),
                None => Ok(bytes),
            },
            None => Ok(bytes),
        },
        Shape::State => match raw_members(bytes) {
            Some(ms) => if ms.len() > 1 {
                Err("invalid value: map, expected map with a single key"@)
            } else {
                Ok(bytes)
            },
            None => Ok(bytes),
        },
        Shape::Texts => Ok(bytes),
        Shape::Bytes => Ok(bytes),
        _ => if item_shape(s) is Some {
            match raw_items(bytes) {
                Some(items) => match known_items(s, items, items.len()) {
                    Ok(parts) => Ok(enclosed(0x5b, parts, 0x5d)),
                    Err(e) => Err(e),
                },
                None => Ok(bytes),
            }
        } else {
            Ok(bytes)
        },
    }
}

/// The first `n` items of a list, each without what is ignored.
pub open spec fn known_items(s: Shape, items: Seq<Seq<u8>>, n: nat) -> Result<
    Seq<Seq<u8>>,
    Seq<char>,
>
    decreases rank(s), 1nat, n,
{
    if n == 0 || n > items.len() || !(item_shape(s) is Some) {
        Ok(Seq::empty())
    } else {
        match known_items(s, items, (n - 1) as nat) {
            Err(e) => Err(e),
            Ok(parts) => match known_part(item_shape(s)->0, items[n - 1]) {
                Err(e) => Err(e),
                Ok(part) => Ok(parts.push(part)),
            },
        }
    }
}

/// The value of a field without what is ignored; that of no field as it is.
pub open spec fn known_value(r: Rec, k: nat, bytes: Seq<u8>) -> Result<Seq<u8>, Seq<char>>
    decreases rec_rank(r), 0nat, 0nat,
{
    if k >= fields(r).len() {
        Ok(bytes)
    } else {
        proof {
            lemma_field_rank(r, k as int);
        }
        known_part(fields(r)[k as int].shape, bytes)
    }
}

/// The first `n` elements of an array that holds a record, each without what is
/// ignored.
pub open spec fn known_positions(r: Rec, items: Seq<Seq<u8>>, n: nat) -> Result<
    Seq<Seq<u8>>,
    Seq<char>,
>
    decreases rec_rank(r), 1nat, n,
{
    if n == 0 || n > items.len() {
        Ok(Seq::empty())
    } else {
        match known_positions(r, items, (n - 1) as nat) {
            Err(e) => Err(e),
            Ok(parts) => match known_value(r, (n - 1) as nat, items[n - 1]) {
                Err(e) => Err(e),
                Ok(part) => Ok(parts.push(part)),
            },
        }
    }
}

/// Whether a record ignores the member of a key: it has no field of that name, and
/// keeps no others.
pub open spec fn ignores(r: Rec, key: Option<Seq<char>>) -> bool {
    key matches Some(name) && !(r is AgentMessage) && field_index(fields(r), name)
        >= fields(r).len()
}

/// The position of the field of a key; how many fields there are where none has it.
pub open spec fn key_index(r: Rec, key: Option<Seq<char>>) -> nat {
    match key {
        Some(name) => field_index(fields(r), name),
        None => fields(r).len(),
    }
}

/// The first `n` members of a record, each without what is ignored.
pub open spec fn known_members(r: Rec, ms: Seq<(Seq<u8>, Seq<u8>)>, n: nat) -> Result<
    Seq<Seq<u8>>,
    Seq<char>,
>
    decreases rec_rank(r), 1nat, n,
{
    if n == 0 || n > ms.len() {
        Ok(Seq::empty())
    } else {
        match known_members(r, ms, (n - 1) as nat) {
            Err(e) => Err(e),
            Ok(parts) => if ignores(r, key_text(ms[n - 1].0)) {
                Ok(parts)
            } else {
                match known_value(r, key_index(r, key_text(ms[n - 1].0)), ms[n - 1].1) {
                    Err(e) => Err(e),
                    Ok(value) => Ok(parts.push(member_bytes(ms[n - 1].0, value))),
                }
            },
        }
    }
}

/// What reading bytes as a record gives: the document with the record's fields, or
/// the reason in words. No field of the record may stand there twice, and what the
/// record ignores has only to be JSON. Bytes that the document of them is written in
/// repeat nothing.
pub open spec fn record_of_bytes(r: Rec, bytes: Seq<u8>) -> Result<JsonView, Seq<char>> {
    let whole = json_of_bytes(bytes);
    if (whole matches Ok(v) && bytes_of_json(v) == bytes) || !one_value(bytes) {
        whole
    } else {
        match known_part(Shape::Record(r), bytes) {
            Err(e) => Err(e),
            Ok(known) => match json_of_bytes(known) {
                Ok(v) => Ok(v),
                Err(_) => whole,
            },
        }
    }
}

/// The bytes of a document that is read back as it was are read as a record too.
pub proof fn written_record_is_read(r: Rec, v: JsonView)
    requires
        json_of_bytes(bytes_of_json(v)) == read_as(v),
    ensures
        record_of_bytes(r, bytes_of_json(v)) == read_as(v),
{
}

/// A record is refused where one of its fields stands there twice. (Bytes in which
/// a document is written repeat nothing.)
pub proof fn repeated_field_is_refused(
    r: Rec,
    bytes: Seq<u8>,
    ms: Seq<(Seq<u8>, Seq<u8>)>,
    name: Seq<char>,
    i: int,
    j: int,
)
    requires
        !(json_of_bytes(bytes) matches Ok(v) && bytes_of_json(v) == bytes),
        one_value(bytes),
        raw_members(bytes) == Some(ms),
        names_of(fields(r)).contains(name),
        0 <= i < j < ms.len(),
        key_text(ms[i].0) == Some(name),
        key_text(ms[j].0) == Some(name),
    ensures
        record_of_bytes(r, bytes) matches Err(e) && exists|n: Seq<char>|
            names_of(fields(r)).contains(n) && e == #[trigger] repeated_field(n),
{
    let names = names_of(fields(r));
    let keys = keys_of(ms);
    assert(keys.take(j)[i] == Some(name));
    assert(keys[j] == Some(name));
    assert(first_repeat(names, keys, (j + 1) as nat) is Some);
    lemma_repeat_stays(names, keys, (j + 1) as nat, ms.len());
    lemma_repeat_is_a_name(names, keys, ms.len());
}

proof fn lemma_repeat_is_a_name(names: Seq<Seq<char>>, keys: Seq<Option<Seq<char>>>, n: nat)
    ensures
        first_repeat(names, keys, n) matches Some(name) ==> names.contains(name),
    decreases n,
{
    if 0 < n <= keys.len() {
        lemma_repeat_is_a_name(names, keys, (n - 1) as nat);
    }
}

fn read_key(bytes: &[u8]) -> (r: Option<String>)
    ensures
        option_text(r) == key_text(bytes@),
{
    match parse_json(bytes) {
        Ok(Json::Text(s)) => Some(s),
        _ => None,
    }
}

fn read_keys(ms: &Vec<(Vec<u8>, Vec<u8>)>) -> (r: Vec<Option<String>>)
    ensures
        option_texts(r@) == keys_of(pairs_of(ms@)),
        r@.len() == ms@.len(),
{
    let mut out: Vec<Option<String>> = Vec::new();
    let n: usize = ms.len();
    for i in 0..n
        invariant
            n == ms@.len(),
            out@.len() == i,
            forall|k: int|
                0 <= k < i ==> option_text(#[trigger] out@[k]) == key_text(pairs_of(ms@)[k].0),
    {
        out.push(read_key(ms[i].0.as_slice()));
    }
    assert(option_texts(out@) =~= keys_of(pairs_of(ms@)));
    out
}

/// The values of optional texts.
pub open spec fn option_texts(v: Seq<Option<String>>) -> Seq<Option<Seq<char>>> {
    Seq::new(v.len(), |i: int| option_text(v[i]))
}

/// The texts of names.
pub open spec fn name_texts(v: Seq<&'static str>) -> Seq<Seq<char>> {
    Seq::new(v.len(), |i: int| v[i]@)
}

fn find_repeat(names: &Vec<&'static str>, keys: &Vec<Option<String>>) -> (r: Option<String>)
    ensures
        option_text(r) == first_repeat(
            name_texts(names@),
            option_texts(keys@),
            keys@.len(),
        ),
{
    let n: usize = keys.len();
    let ghost ns = name_texts(names@);
    let ghost ks = option_texts(keys@);
    for i in 0..n
        invariant
            n == keys@.len(),
            ns == name_texts(names@),
            ks == option_texts(keys@),
            first_repeat(ns, ks, i as nat) is None,
    {
        assert(ks[i as int] == option_text(keys@[i as int]));
        match &keys[i] {
            Some(key) => {
                let known: bool = has_name(names, key.as_str());
                let before: bool = has_key(keys, i, key.as_str());
                if known && before {
                    proof {
                        lemma_repeat_stays(ns, ks, i as nat + 1, n as nat);
                    }
                    return Some(key.clone());
                }
            },
            None => {},
        }
    }
    None
}

proof fn lemma_repeat_stays(
    names: Seq<Seq<char>>,
    keys: Seq<Option<Seq<char>>>,
    i: nat,
    n: nat,
)
    requires
        i <= n <= keys.len(),
        first_repeat(names, keys, i) is Some,
    ensures
        first_repeat(names, keys, n) == first_repeat(names, keys, i),
    decreases n - i,
{
    if i < n {
        lemma_repeat_stays(names, keys, i, (n - 1) as nat);
    }
}

fn has_name(names: &Vec<&'static str>, key: &str) -> (r: bool)
    ensures
        r == name_texts(names@).contains(key@),
{
    let n: usize = names.len();
    for i in 0..n
        invariant
            n == names@.len(),
            forall|k: int| 0 <= k < i ==> #[trigger] name_texts(names@)[k] != key@,
    {
        if text_eq(names[i], key) {
            assert(name_texts(names@)[i as int] == key@);
            return true;
        }
    }
    false
}

fn has_key(keys: &Vec<Option<String>>, n: usize, key: &str) -> (r: bool)
    requires
        n <= keys@.len(),
    ensures
        r == option_texts(keys@).take(n as int).contains(Some(key@)),
{
    let ghost ks = option_texts(keys@).take(n as int);
    for i in 0..n
        invariant
            n <= keys@.len(),
            ks == option_texts(keys@).take(n as int),
            forall|k: int| 0 <= k < i ==> #[trigger] ks[k] != Some(key@),
    {
        assert(ks[i as int] == option_text(keys@[i as int]));
        match &keys[i] {
            Some(other) => if text_eq(other.as_str(), key) {
                return true;
            },
            None => {},
        }
    }
    false
}

fn find_raw_member(ms: &Vec<(Vec<u8>, Vec<u8>)>, keys: &Vec<Option<String>>, key: &str) -> (r:
    Option<usize>)
    requires
        option_texts(keys@) == keys_of(pairs_of(ms@)),
        keys@.len() == ms@.len(),
    ensures
        match r {
            Some(i) => i < ms@.len() && raw_member(pairs_of(ms@), key@) == Some(ms@[i as int].1@),
            None => raw_member(pairs_of(ms@), key@) is None,
        },
{
    let ghost all = pairs_of(ms@);
    let n: usize = ms.len();
    assert(all.skip(0) =~= all);
    for i in 0..n
        invariant
            n == ms@.len(),
            keys@.len() == n,
            all == pairs_of(ms@),
            option_texts(keys@) == keys_of(all),
            raw_member(all, key@) == raw_member(all.skip(i as int), key@),
    {
        let ghost from = all.skip(i as int);
        assert(from[0] == all[i as int]);
        assert(from.drop_first() =~= all.skip(i + 1));
        assert(option_texts(keys@)[i as int] == keys_of(all)[i as int]);
        match &keys[i] {
            Some(other) => if text_eq(other.as_str(), key) {
                return Some(i);
            },
            None => {},
        }
    }
    None
}

fn find_part_repeat(ms: &Vec<(Vec<u8>, Vec<u8>)>) -> (r: Option<String>)
    ensures
        option_text(r) == part_repeat(pairs_of(ms@)),
{
    let keys: Vec<Option<String>> = read_keys(ms);
    let kind: Vec<&'static str> = vec!["kind"];
    assert(name_texts(kind@) =~= seq!["kind"@]);
    match find_repeat(&kind, &keys) {
        Some(name) => {
            return Some(name);
        },
        None => {},
    }
    match find_raw_member(ms, &keys, "kind") {
        Some(i) => match read_key(ms[i].1.as_slice()) {
            Some(k) => if text_eq(k.as_str(), "text") {
                let names: Vec<&'static str> = vec!["text", "metadata"];
                assert(name_texts(names@) =~= seq!["text"@, "metadata"@]);
                find_repeat(&names, &keys)
            } else {
                None
            },
            None => None,
        },
        None => None,
    }
}

fn repeated_field_text(name: &str) -> (r: String)
    ensures
        r@ == repeated_field(name@),
{
    concat3("duplicate field `", name, "`")
}

/// The value of bytes or an error.
pub open spec fn part_result(r: Result<Vec<u8>, String>) -> Result<Seq<u8>, Seq<char>> {
    match r {
        Ok(b) => Ok(b@),
        Err(e) => Err(e@),
    }
}

/// The value of several byte strings or an error.
pub open spec fn parts_result(r: Result<Vec<Vec<u8>>, String>) -> Result<
    Seq<Seq<u8>>,
    Seq<char>,
> {
    match r {
        Ok(v) => Ok(list_view(v@)),
        Err(e) => Err(e@),
    }
}

fn keep_known(s: Shape, bytes: &[u8]) -> (r: Result<Vec<u8>, String>)
    ensures
        part_result(r) == known_part(s, bytes@),
    decreases rank(s), 2nat, 0nat,
{
    match s {
        Shape::Record(rec) => match split_members(bytes) {
            Some(ms) => {
                let fs: Vec<Field> = fields_of(rec);
                let names: Vec<&'static str> = field_names(&fs);
                let keys: Vec<Option<String>> = read_keys(&ms);
                match find_repeat(&names, &keys) {
                    Some(name) => Err(repeated_field_text(name.as_str())),
                    None => match keep_members(rec, &fs, &ms, &keys) {
                        Ok(parts) => Ok(enclose(0x7b, &parts, 0x7d)),
                        Err(e) => Err(e),
                    },
                }
            },
            None => match split_items(bytes) {
                Some(items) => match keep_positions(rec, &items) {
                    Ok(parts) => Ok(enclose(0x5b, &parts, 0x5d)),
                    Err(e) => Err(e),
                },
                None => Ok(copy_bytes(bytes)),
            },
        },
        Shape::Part => match split_members(bytes) {
            Some(ms) => match find_part_repeat(&ms) {
                Some(name) => Err(repeated_field_text(name.as_str())),
                None => Ok(copy_bytes(bytes)),
            },
            None => Ok(copy_bytes(bytes)),
        },
        Shape::State => match split_members(bytes) {
            Some(ms) => if ms.len() > 1 {
                Err("invalid value: map, expected map with a single key".to_owned())
            } else {
                Ok(copy_bytes(bytes))
            },
            None => Ok(copy_bytes(bytes)),
        },
        Shape::Texts => Ok(copy_bytes(bytes)),
        Shape::Bytes => Ok(copy_bytes(bytes)),
        _ => match item_shape_of(s) {
            Some(item) => match split_items(bytes) {
                Some(items) => match keep_items(s, item, &items) {
                    Ok(parts) => Ok(enclose(0x5b, &parts, 0x5d)),
                    Err(e) => Err(e),
                },
                None => Ok(copy_bytes(bytes)),
            },
            None => Ok(copy_bytes(bytes)),
        },
    }
}

fn field_names(fs: &Vec<Field>) -> (r: Vec<&'static str>)
    ensures
        name_texts(r@) == names_of(fields_view(fs@)),
{
    let mut out: Vec<&'static str> = Vec::new();
    let n: usize = fs.len();
    for i in 0..n
        invariant
            n == fs@.len(),
            out@.len() == i,
            forall|k: int| 0 <= k < i ==> (#[trigger] out@[k])@ == fs@[k].name@,
    {
        out.push(fs[i].name);
    }
    assert(name_texts(out@) =~= names_of(fields_view(fs@)));
    out
}

fn keep_items(s: Shape, item: Shape, items: &Vec<Vec<u8>>) -> (r: Result<Vec<Vec<u8>>, String>)
    requires
        item_shape(s) == Some(item),
        rank(item) < rank(s),
    ensures
        parts_result(r) == known_items(s, list_view(items@), items@.len()),
    decreases rank(s), 1nat, 0nat,
{
    let mut out: Vec<Vec<u8>> = Vec::new();
    let n: usize = items.len();
    let ghost all = list_view(items@);
    assert(list_view(out@) =~= Seq::empty());
    for i in 0..n
        invariant
            n == items@.len(),
            all == list_view(items@),
            item_shape(s) == Some(item),
            rank(item) < rank(s),
            known_items(s, all, i as nat) == Ok::<_, Seq<char>>(list_view(out@)),
    {
        assert(all[i as int] == items@[i as int]@);
        let ghost before = list_view(out@);
        match keep_known(item, items[i].as_slice()) {
            Err(e) => {
                proof {
                    lemma_items_stay(s, all, i as nat + 1, n as nat);
                }
                return Err(e);
            },
            Ok(part) => {
                out.push(part);
                assert(list_view(out@) =~= before.push(part@));
            },
        }
    }
    Ok(out)
}

proof fn lemma_items_stay(s: Shape, items: Seq<Seq<u8>>, i: nat, n: nat)
    requires
        i <= n <= items.len(),
        known_items(s, items, i) is Err,
    ensures
        known_items(s, items, n) == known_items(s, items, i),
    decreases n - i,
{
    if i < n {
        lemma_items_stay(s, items, i, (n - 1) as nat);
    }
}

fn keep_value(rec: Rec, fs: &Vec<Field>, k: usize, bytes: &[u8]) -> (r: Result<Vec<u8>, String>)
    requires
        fields_view(fs@) == fields(rec),
    ensures
        part_result(r) == known_value(rec, k as nat, bytes@),
    decreases rec_rank(rec), 0nat, 0nat,
{
    if k >= fs.len() {
        return Ok(copy_bytes(bytes));
    }
    assert(fields(rec)[k as int] == fs@[k as int]@);
    proof {
        lemma_field_rank(rec, k as int);
    }
    keep_known(fs[k].shape, bytes)
}

fn keep_positions(rec: Rec, items: &Vec<Vec<u8>>) -> (r: Result<Vec<Vec<u8>>, String>)
    ensures
        parts_result(r) == known_positions(rec, list_view(items@), items@.len()),
    decreases rec_rank(rec), 1nat, 0nat,
{
    let fs: Vec<Field> = fields_of(rec);
    let mut out: Vec<Vec<u8>> = Vec::new();
    let n: usize = items.len();
    let ghost all = list_view(items@);
    assert(list_view(out@) =~= Seq::empty());
    for i in 0..n
        invariant
            n == items@.len(),
            all == list_view(items@),
            fields_view(fs@) == fields(rec),
            known_positions(rec, all, i as nat) == Ok::<_, Seq<char>>(list_view(out@)),
    {
        assert(all[i as int] == items@[i as int]@);
        let ghost before = list_view(out@);
        match keep_value(rec, &fs, i, items[i].as_slice()) {
            Err(e) => {
                proof {
                    lemma_positions_stay(rec, all, i as nat + 1, n as nat);
                }
                return Err(e);
            },
            Ok(part) => {
                out.push(part);
                assert(list_view(out@) =~= before.push(part@));
            },
        }
    }
    Ok(out)
}

proof fn lemma_positions_stay(r: Rec, items: Seq<Seq<u8>>, i: nat, n: nat)
    requires
        i <= n <= items.len(),
        known_positions(r, items, i) is Err,
    ensures
        known_positions(r, items, n) == known_positions(r, items, i),
    decreases n - i,
{
    if i < n {
        lemma_positions_stay(r, items, i, (n - 1) as nat);
    }
}

fn keep_members(
    rec: Rec,
    fs: &Vec<Field>,
    ms: &Vec<(Vec<u8>, Vec<u8>)>,
    keys: &Vec<Option<String>>,
) -> (r: Result<Vec<Vec<u8>>, String>)
    requires
        fields_view(fs@) == fields(rec),
        option_texts(keys@) == keys_of(pairs_of(ms@)),
        keys@.len() == ms@.len(),
    ensures
        parts_result(r) == known_members(rec, pairs_of(ms@), ms@.len()),
    decreases rec_rank(rec), 1nat, 0nat,
{
    let mut out: Vec<Vec<u8>> = Vec::new();
    let n: usize = ms.len();
    let ghost all = pairs_of(ms@);
    assert(list_view(out@) =~= Seq::empty());
    let others: bool = match rec {
        Rec::AgentMessage => true,
        _ => false,
    };
    for i in 0..n
        invariant
            n == ms@.len(),
            keys@.len() == n,
            all == pairs_of(ms@),
            others == (rec is AgentMessage),
            fields_view(fs@) == fields(rec),
            option_texts(keys@) == keys_of(all),
            known_members(rec, all, i as nat) == Ok::<_, Seq<char>>(list_view(out@)),
    {
        assert(all[i as int] == (ms@[i as int].0@, ms@[i as int].1@));
        assert(option_texts(keys@)[i as int] == keys_of(all)[i as int]);
        let ghost before = list_view(out@);
        let k: usize = match &keys[i] {
            Some(name) => field_position(fs, name.as_str()),
            None => fs.len(),
        };
        let named: bool = match &keys[i] {
            Some(_) => true,
            None => false,
        };
        if !(named && !others && k >= fs.len()) {
            match keep_value(rec, fs, k, ms[i].1.as_slice()) {
                Err(e) => {
                    proof {
                        lemma_members_stay(rec, all, i as nat + 1, n as nat);
                    }
                    return Err(e);
                },
                Ok(value) => {
                    let part: Vec<u8> = join_member(ms[i].0.as_slice(), value.as_slice());
                    let ghost piece = part@;
                    out.push(part);
                    assert(list_view(out@) =~= before.push(piece));
                },
            }
        }
    }
    Ok(out)
}

proof fn lemma_members_stay(r: Rec, ms: Seq<(Seq<u8>, Seq<u8>)>, i: nat, n: nat)
    requires
        i <= n <= ms.len(),
        known_members(r, ms, i) is Err,
    ensures
        known_members(r, ms, n) == known_members(r, ms, i),
    decreases n - i,
{
    if i < n {
        lemma_members_stay(r, ms, i, (n - 1) as nat);
    }
}

fn same_bytes(a: &[u8], b: &[u8]) -> (r: bool)
    ensures
        r == (a@ == b@),
{
    if a.len() != b.len() {
        return false;
    }
    let n: usize = a.len();
    for i in 0..n
        invariant
            n == a@.len(),
            n == b@.len(),
            forall|k: int| 0 <= k < i ==> a@[k] == b@[k],
    {
        if a[i] != b[i] {
            return false;
        }
    }
    assert(a@ =~= b@);
    true
}

/// Reads bytes as a record. A reason that the record's shape gives says what is wrong
/// and not where.
pub fn read_record(r: Rec, bytes: &[u8]) -> (doc: Result<Json, String>)
    ensures
        reading_view(doc) == record_of_bytes(r, bytes@),
{
    let whole: Result<Json, String> = parse_json(bytes);
    let plain: bool = match &whole {
        Ok(j) => same_bytes(write_json(j).as_slice(), bytes),
        Err(_) => false,
    };
    if plain || !is_one_value(bytes) {
        return whole;
    }
    match keep_known(Shape::Record(r), bytes) {
        Err(e) => Err(e),
        Ok(known) => match parse_json(known.as_slice()) {
            Ok(j) => Ok(j),
            Err(_) => whole,
        },
    }
}

/// The value that a document gives to a field of a record.
pub open spec fn field_value(r: Rec, v: JsonView, name: Seq<char>) -> Option<JsonView> {
    match v {
        JsonView::Object(o) => member(o, name),
        JsonView::Array(a) => if field_index(fields(r), name) < a.len() {
            Some(a[field_index(fields(r), name) as int])
        } else {
            None
        },
        _ => None,
    }
}

/// The text of a field; empty where it holds none.
pub open spec fn text_at(r: Rec, v: JsonView, name: Seq<char>) -> Seq<char> {
    match field_value(r, v, name) {
        Some(JsonView::Text(s)) => s,
        _ => Seq::empty(),
    }
}

/// The text of an optional field.
pub open spec fn option_text_at(r: Rec, v: JsonView, name: Seq<char>) -> Option<Seq<char>> {
    match field_value(r, v, name) {
        Some(JsonView::Text(s)) => Some(s),
        _ => None,
    }
}

/// The document of an optional field, where `null` is none.
pub open spec fn option_json_at(r: Rec, v: JsonView, name: Seq<char>) -> Option<JsonView> {
    match field_value(r, v, name) {
        Some(JsonView::Null) => None,
        other => other,
    }
}

/// The truth value of an optional field.
pub open spec fn option_bool_at(r: Rec, v: JsonView, name: Seq<char>) -> Option<bool> {
    match field_value(r, v, name) {
        Some(JsonView::Bool(b)) => Some(b),
        _ => None,
    }
}

/// The number that a document holds; zero where it holds none.
pub open spec fn number_in(v: JsonView) -> u64 {
    match v {
        JsonView::Number(NumberView::PosInt(n)) => n,
        JsonView::Number(NumberView::NegInt(n)) => if n >= 0 {
            n as u64
        } else {
            0
        },
        _ => 0,
    }
}

/// The number of a field, or `default` where it is left out.
pub open spec fn number_at(r: Rec, v: JsonView, name: Seq<char>, default: u64) -> u64 {
    match field_value(r, v, name) {
        Some(n) => number_in(n),
        None => default,
    }
}

/// The number of an optional field.
pub open spec fn option_u32_at(r: Rec, v: JsonView, name: Seq<char>) -> Option<u32> {
    match field_value(r, v, name) {
        None => None,
        Some(JsonView::Null) => None,
        Some(n) => Some(number_in(n) as u32),
    }
}

/// The items of a field; none where it holds no list.
pub open spec fn items_at(r: Rec, v: JsonView, name: Seq<char>) -> Seq<JsonView> {
    match field_value(r, v, name) {
        Some(JsonView::Array(a)) => a,
        _ => Seq::empty(),
    }
}

/// The bytes of a field.
pub open spec fn bytes_at(r: Rec, v: JsonView, name: Seq<char>) -> Seq<u8> {
    items_at(r, v, name).map_values(|j: JsonView| number_in(j) as u8)
}

/// The text that a document holds; empty where it holds none.
pub open spec fn text_in(v: JsonView) -> Seq<char> {
    match v {
        JsonView::Text(s) => s,
        _ => Seq::empty(),
    }
}

/// Looks a field of a record up.
pub fn value_of<'a>(r: Rec, j: &'a Json, name: &str) -> (v: Option<&'a Json>)
    ensures
        match v {
            Some(x) => field_value(r, j@, name@) == Some(x@),
            None => field_value(r, j@, name@) is None,
        },
{
    match j {
        Json::Object(o) => {
            proof {
                lemma_object_view(*o);
            }
            find_member(o, name)
        },
        Json::Array(a) => {
            proof {
                lemma_array_view(*a);
            }
            let k: usize = field_position(&fields_of(r), name);
            if k < a.len() {
                assert(items_view(a@)[k as int] == a@[k as int]@);
                Some(&a[k])
            } else {
                None
            }
        },
        _ => None,
    }
}

/// Reads the text of a field.
pub fn text_of_field(r: Rec, j: &Json, name: &str) -> (s: String)
    ensures
        s@ == text_at(r, j@, name@),
{
    match value_of(r, j, name) {
        Some(Json::Text(s)) => s.clone(),
        _ => {
            let s: String = String::new();
            assert(s@ =~= Seq::empty());
            s
        },
    }
}

/// Reads the text of an optional field.
pub fn option_text_of_field(r: Rec, j: &Json, name: &str) -> (s: Option<String>)
    ensures
        option_text(s) == option_text_at(r, j@, name@),
{
    match value_of(r, j, name) {
        Some(Json::Text(s)) => Some(s.clone()),
        _ => None,
    }
}

/// Reads the document of an optional field.
pub fn option_json_of_field(r: Rec, j: &Json, name: &str) -> (s: Option<Json>)
    ensures
        option_json(s) == option_json_at(r, j@, name@),
{
    match value_of(r, j, name) {
        Some(Json::Null) => None,
        Some(x) => Some(x.copy()),
        None => None,
    }
}

/// Reads the truth value of an optional field.
pub fn option_bool_of_field(r: Rec, j: &Json, name: &str) -> (s: Option<bool>)
    ensures
        s == option_bool_at(r, j@, name@),
{
    match value_of(r, j, name) {
        Some(Json::Bool(b)) => Some(*b),
        _ => None,
    }
}

fn number_of_json(j: &Json) -> (r: u64)
    ensures
        r == number_in(j@),
{
    match j {
        Json::Number(Number::PosInt(n)) => *n,
        Json::Number(Number::NegInt(n)) => if *n >= 0 {
            *n as u64
        } else {
            0
        },
        _ => 0,
    }
}

/// Reads the number of a field.
pub fn number_of_field(r: Rec, j: &Json, name: &str, default: u64) -> (n: u64)
    ensures
        n == number_at(r, j@, name@, default),
{
    match value_of(r, j, name) {
        Some(x) => number_of_json(x),
        None => default,
    }
}

/// Reads the number of an optional field.
pub fn option_u32_of_field(r: Rec, j: &Json, name: &str) -> (n: Option<u32>)
    ensures
        n == option_u32_at(r, j@, name@),
{
    match value_of(r, j, name) {
        None => None,
        Some(Json::Null) => None,
        Some(x) => Some(number_of_json(x) as u32),
    }
}

/// Finds the items of a field.
pub fn items_of_field<'a>(r: Rec, j: &'a Json, name: &str) -> (v: Option<&'a Vec<Json>>)
    ensures
        match v {
            Some(a) => items_at(r, j@, name@) == items_view(a@),
            None => items_at(r, j@, name@) == Seq::<JsonView>::empty(),
        },
{
    match value_of(r, j, name) {
        Some(Json::Array(a)) => {
            proof {
                lemma_array_view(*a);
            }
            Some(a)
        },
        _ => None,
    }
}

/// Reads the bytes of a field.
pub fn bytes_of_field(r: Rec, j: &Json, name: &str) -> (b: Vec<u8>)
    ensures
        b@ == bytes_at(r, j@, name@),
{
    let mut out: Vec<u8> = Vec::new();
    match items_of_field(r, j, name) {
        Some(a) => {
            let n: usize = a.len();
            for i in 0..n
                invariant
                    n == a@.len(),
                    out@.len() == i,
                    forall|k: int| 0 <= k < i ==> out@[k] == number_in(#[trigger] a@[k]@) as u8,
            {
                out.push(number_of_json(&a[i]) as u8);
            }
        },
        None => {},
    }
    assert(out@ =~= bytes_at(r, j@, name@));
    out
}

/// Reads the texts of an optional field.
pub fn option_texts_of_field(r: Rec, j: &Json, name: &str) -> (v: Option<Vec<String>>)
    ensures
        match v {
            Some(t) => option_json_at(r, j@, name@) is Some && texts(t@) == items_at(
                r,
                j@,
                name@,
            ).map_values(|x: JsonView| text_in(x)),
            None => option_json_at(r, j@, name@) is None,
        },
{
    match value_of(r, j, name) {
        None => {
            return None;
        },
        Some(Json::Null) => {
            return None;
        },
        _ => {},
    }
    let mut out: Vec<String> = Vec::new();
    match items_of_field(r, j, name) {
        Some(a) => {
            let n: usize = a.len();
            for i in 0..n
                invariant
                    n == a@.len(),
                    out@.len() == i,
                    forall|k: int| 0 <= k < i ==> out@[k]@ == text_in(#[trigger] a@[k]@),
            {
                match &a[i] {
                    Json::Text(s) => {
                        out.push(s.clone());
                    },
                    _ => {
                        let s: String = String::new();
                        assert(s@ =~= Seq::empty());
                        out.push(s);
                    },
                }
            }
        },
        None => {},
    }
    assert(texts(out@) =~= items_at(r, j@, name@).map_values(|x: JsonView| text_in(x)));
    Some(out)
}

/// A list is fine where each of its items is.
pub proof fn lemma_list_fine(s: Shape, a: Seq<JsonView>, i: nat)
    requires
        item_shape(s) is Some,
        forall|k: int| 0 <= k < a.len() ==> shape_error(item_shape(s)->0, #[trigger] a[k]) is None,
    ensures
        list_error(s, a, i) is None,
    decreases (if i < a.len() { a.len() - i } else { 0 }),
{
    if i < a.len() {
        assert(shape_error(item_shape(s)->0, a[i as int]) is None);
        lemma_list_fine(s, a, i + 1);
    }
}

proof fn lemma_members_fine(r: Rec, o: MembersView, i: nat)
    ensures
        members_error(r, o, i) is None <==> (forall|k: int|
            i <= k < o.len() ==> value_error(
                r,
                field_index(fields(r), (#[trigger] o[k]).0),
                o[k].1,
            ) is None),
    decreases (if i < o.len() { o.len() - i } else { 0 }),
{
    if i < o.len() {
        lemma_members_fine(r, o, i + 1);
        assert(o[i as int] == o[i as int]);
    }
}

/// The members of an object are fine after one is added where they were before
/// and the new one is.
pub broadcast proof fn lemma_members_push(r: Rec, o: MembersView, key: Seq<char>, value: JsonView)
    ensures
        (#[trigger] members_error(r, o.push((key, value)), 0) is None) <==> (members_error(r, o, 0) is None
            && value_error(r, field_index(fields(r), key), value) is None),
{
    let p = o.push((key, value));
    lemma_members_fine(r, o, 0);
    lemma_members_fine(r, p, 0);
    if members_error(r, p, 0) is None {
        assert forall|k: int| 0 <= k < o.len() implies value_error(
            r,
            field_index(fields(r), (#[trigger] o[k]).0),
            o[k].1,
        ) is None by {
            assert(p[k] == o[k]);
        }
        assert(p[o.len() as int] == (key, value));
    } else if members_error(r, o, 0) is None && value_error(r, field_index(fields(r), key), value) is None {
        assert forall|k: int| 0 <= k < p.len() implies value_error(
            r,
            field_index(fields(r), (#[trigger] p[k]).0),
            p[k].1,
        ) is None by {
            if k < o.len() {
                assert(p[k] == o[k]);
            }
        }
    }
}

/// Nothing is missing where every field that is needed is there.
pub proof fn lemma_nothing_absent(fs: Seq<FieldView>, o: MembersView)
    requires
        forall|k: int|
            0 <= k < fs.len() ==> (#[trigger] fs[k]).optional || fs[k].default || member(
                o,
                fs[k].name,
            ) is Some,
    ensures
        absent_error(fs, o) is None,
    decreases fs.len(),
{
    if fs.len() > 0 {
        assert(fs[0] == fs[0]);
        let rest = fs.drop_first();
        assert forall|k: int| 0 <= k < rest.len() implies (#[trigger] rest[k]).optional
            || rest[k].default || member(o, rest[k].name) is Some by {
            assert(rest[k] == fs[k + 1]);
        }
        lemma_nothing_absent(rest, o);
    }
}

} // verus!
