//! The JSON-RPC 2.0 envelope, and the error codes of the A2A protocol.

use vstd::prelude::*;

use crate::decode::{
    check, option_json_at, option_json_of_field, shape_error, text_at, text_of_field, Rec, Shape,
};
use crate::json::{
    bytes_of_json, copy_option_json, int_json, integer_json, json_member, json_of_bytes, member,
    option_json, parse_json, reading_view, write_json, Json, JsonView, Members, MembersView,
};
use crate::text::text_eq;

verus! {

/// The version of the JSON-RPC protocol.
pub const JSONRPC_VERSION: &'static str = "2.0";

/// The task is not known.
pub const TASK_NOT_FOUND: i32 = -32001;

/// The task has come to an end.
pub const TASK_NOT_CANCELABLE: i32 = -32002;

/// The agent does not send push notifications.
pub const PUSH_NOTIFICATION_NOT_SUPPORTED: i32 = -32003;

/// The agent does not do that.
pub const UNSUPPORTED_OPERATION: i32 = -32004;

/// The agent does not take such content.
pub const CONTENT_TYPE_NOT_SUPPORTED: i32 = -32005;

/// The agent answered out of turn.
pub const INVALID_AGENT_RESPONSE: i32 = -32006;

/// The body is not JSON.
pub const PARSE_ERROR: i32 = -32700;

/// The body is not a request.
pub const INVALID_REQUEST: i32 = -32600;

/// There is no such method.
pub const METHOD_NOT_FOUND: i32 = -32601;

/// The parameters do not fit the method.
pub const INVALID_PARAMS: i32 = -32602;

/// Something else went wrong.
pub const INTERNAL_ERROR: i32 = -32603;

/// A request. Its id may be a string, a number or null, and is echoed as it is.
#[derive(Debug, PartialEq, Eq)]
pub struct JsonRpcRequest {
    pub jsonrpc: String,
    pub id: Option<Json>,
    pub method: String,
    pub params: Option<Json>,
}

/// The value of a [`JsonRpcRequest`].
pub struct JsonRpcRequestView {
    pub jsonrpc: Seq<char>,
    pub id: Option<JsonView>,
    pub method: Seq<char>,
    pub params: Option<JsonView>,
}

impl View for JsonRpcRequest {
    type V = JsonRpcRequestView;

    open spec fn view(&self) -> JsonRpcRequestView {
        JsonRpcRequestView {
            jsonrpc: self.jsonrpc@,
            id: option_json(self.id),
            method: self.method@,
            params: option_json(self.params),
        }
    }
}

impl JsonRpcRequest {
    /// Another one of the same value.
    pub fn copy(&self) -> (r: JsonRpcRequest)
        ensures
            r@ == self@,
    {
        JsonRpcRequest {
            jsonrpc: self.jsonrpc.clone(),
            id: copy_option_json(&self.id),
            method: self.method.clone(),
            params: copy_option_json(&self.params),
        }
    }
}

impl Clone for JsonRpcRequest {
    fn clone(&self) -> (r: Self)
        ensures
            r@ == self@,
    {
        self.copy()
    }
}

/// The response to a request that succeeded.
#[derive(Debug, PartialEq, Eq)]
pub struct JsonRpcSuccess {
    pub jsonrpc: &'static str,
    pub id: Json,
    pub result: Json,
}

/// The value of a [`JsonRpcSuccess`].
pub struct JsonRpcSuccessView {
    pub jsonrpc: Seq<char>,
    pub id: JsonView,
    pub result: JsonView,
}

impl View for JsonRpcSuccess {
    type V = JsonRpcSuccessView;

    open spec fn view(&self) -> JsonRpcSuccessView {
        JsonRpcSuccessView {
            jsonrpc: self.jsonrpc@,
            id: self.id@,
            result: self.result@,
        }
    }
}

impl JsonRpcSuccess {
    /// Another one of the same value.
    pub fn copy(&self) -> (r: JsonRpcSuccess)
        ensures
            r@ == self@,
    {
        JsonRpcSuccess {
            jsonrpc: self.jsonrpc,
            id: self.id.copy(),
            result: self.result.copy(),
        }
    }
}

impl Clone for JsonRpcSuccess {
    fn clone(&self) -> (r: Self)
        ensures
            r@ == self@,
    {
        self.copy()
    }
}

/// What went wrong.
#[derive(Debug, PartialEq, Eq)]
pub struct JsonRpcErrorObject {
    pub code: i32,
    pub message: String,
    pub data: Option<Json>,
}

/// The value of a [`JsonRpcErrorObject`].
pub struct JsonRpcErrorObjectView {
    pub code: i32,
    pub message: Seq<char>,
    pub data: Option<JsonView>,
}

impl View for JsonRpcErrorObject {
    type V = JsonRpcErrorObjectView;

    open spec fn view(&self) -> JsonRpcErrorObjectView {
        JsonRpcErrorObjectView {
            code: self.code,
            message: self.message@,
            data: option_json(self.data),
        }
    }
}

impl JsonRpcErrorObject {
    /// Another one of the same value.
    pub fn copy(&self) -> (r: JsonRpcErrorObject)
        ensures
            r@ == self@,
    {
        JsonRpcErrorObject {
            code: self.code,
            message: self.message.clone(),
            data: copy_option_json(&self.data),
        }
    }
}

impl Clone for JsonRpcErrorObject {
    fn clone(&self) -> (r: Self)
        ensures
            r@ == self@,
    {
        self.copy()
    }
}

/// The response to a request that failed.
#[derive(Debug, PartialEq, Eq)]
pub struct JsonRpcError {
    pub jsonrpc: &'static str,
    pub id: Json,
    pub error: JsonRpcErrorObject,
}

/// The value of a [`JsonRpcError`].
pub struct JsonRpcErrorView {
    pub jsonrpc: Seq<char>,
    pub id: JsonView,
    pub error: JsonRpcErrorObjectView,
}

impl View for JsonRpcError {
    type V = JsonRpcErrorView;

    open spec fn view(&self) -> JsonRpcErrorView {
        JsonRpcErrorView {
            jsonrpc: self.jsonrpc@,
            id: self.id@,
            error: self.error@,
        }
    }
}

impl JsonRpcError {
    /// Another one of the same value.
    pub fn copy(&self) -> (r: JsonRpcError)
        ensures
            r@ == self@,
    {
        JsonRpcError {
            jsonrpc: self.jsonrpc,
            id: self.id.copy(),
            error: self.error.copy(),
        }
    }
}

impl Clone for JsonRpcError {
    fn clone(&self) -> (r: Self)
        ensures
            r@ == self@,
    {
        self.copy()
    }
}

/// What a request comes to.
pub open spec fn result_view(r: Result<JsonRpcSuccess, JsonRpcError>) -> Result<
    JsonRpcSuccessView,
    JsonRpcErrorView,
> {
    match r {
        Ok(s) => Ok(s@),
        Err(e) => Err(e@),
    }
}

/// The id that a response carries: the request's, or null where it has none.
pub open spec fn echoed(id: Option<JsonView>) -> JsonView {
    match id {
        Some(v) => v,
        None => JsonView::Null,
    }
}

fn echo(id: Option<Json>) -> (r: Json)
    ensures
        r@ == echoed(option_json(id)),
{
    match id {
        Some(v) => v,
        None => Json::Null,
    }
}

/// The success with that result.
pub open spec fn success_of(id: Option<JsonView>, result: JsonView) -> JsonRpcSuccessView {
    JsonRpcSuccessView { jsonrpc: "2.0"@, id: echoed(id), result }
}

/// The error with that code and message.
pub open spec fn error_of(id: Option<JsonView>, code: i32, message: Seq<char>) -> JsonRpcErrorView {
    JsonRpcErrorView {
        jsonrpc: "2.0"@,
        id: echoed(id),
        error: JsonRpcErrorObjectView { code, message, data: None },
    }
}

/// The error with data added.
pub open spec fn error_with(e: JsonRpcErrorView, data: JsonView) -> JsonRpcErrorView {
    JsonRpcErrorView {
        error: JsonRpcErrorObjectView { data: Some(data), ..e.error },
        ..e
    }
}

/// The document of a success.
pub open spec fn success_json(s: JsonRpcSuccessView) -> JsonView {
    JsonView::Object(
        seq![("jsonrpc"@, JsonView::Text(s.jsonrpc)), ("id"@, s.id), ("result"@, s.result)],
    )
}

/// The document of an error object, whose data is left out where there is none.
pub open spec fn error_object_json(e: JsonRpcErrorObjectView) -> JsonView {
    let base = seq![("code"@, int_json(e.code as int)), ("message"@, JsonView::Text(e.message))];
    JsonView::Object(
        match e.data {
            Some(d) => base.push(("data"@, d)),
            None => base,
        },
    )
}

/// The document of an error.
pub open spec fn error_json(e: JsonRpcErrorView) -> JsonView {
    JsonView::Object(
        seq![
            ("jsonrpc"@, JsonView::Text(e.jsonrpc)),
            ("id"@, e.id),
            ("error"@, error_object_json(e.error)),
        ],
    )
}

impl JsonRpcSuccess {
    /// The success with that result.
    pub fn new(id: Option<Json>, result: Json) -> (r: JsonRpcSuccess)
        ensures
            r@ == success_of(option_json(id), result@),
    {
        JsonRpcSuccess { jsonrpc: JSONRPC_VERSION, id: echo(id), result }
    }

    /// The document of the response.
    pub fn to_json(&self) -> (r: Json)
        ensures
            r@ == success_json(self@),
    {
        let mut m: Members = Members::new();
        m.put_text("jsonrpc", self.jsonrpc);
        m.put("id", self.id.copy());
        m.put("result", self.result.copy());
        assert(m@ =~= success_json(self@)->Object_0);
        m.object()
    }

    /// The bytes of the response.
    pub fn into_bytes(self) -> (r: Vec<u8>)
        ensures
            r@ == bytes_of_json(success_json(self@)),
    {
        write_json(&self.to_json())
    }
}

impl JsonRpcError {
    /// The error with that code and message.
    pub fn new(id: Option<Json>, code: i32, message: String) -> (r: JsonRpcError)
        ensures
            r@ == error_of(option_json(id), code, message@),
    {
        JsonRpcError {
            jsonrpc: JSONRPC_VERSION,
            id: echo(id),
            error: JsonRpcErrorObject { code, message, data: None },
        }
    }

    /// The error with data added.
    pub fn with_data(self, data: Json) -> (r: JsonRpcError)
        ensures
            r@ == error_with(self@, data@),
    {
        JsonRpcError {
            jsonrpc: self.jsonrpc,
            id: self.id,
            error: JsonRpcErrorObject {
                code: self.error.code,
                message: self.error.message,
                data: Some(data),
            },
        }
    }

    /// The document of the response.
    pub fn to_json(&self) -> (r: Json)
        ensures
            r@ == error_json(self@),
    {
        let mut o: Members = Members::new();
        o.put("code", integer_json(self.error.code as i64));
        o.put_text("message", self.error.message.as_str());
        let ghost base = o@;
        assert(base =~= seq![
            ("code"@, int_json(self.error.code as int)),
            ("message"@, JsonView::Text(self.error.message@)),
        ]);
        match &self.error.data {
            Some(d) => {
                o.put("data", d.copy());
            },
            None => {},
        }
        let error: Json = o.object();
        let mut m: Members = Members::new();
        m.put_text("jsonrpc", self.jsonrpc);
        m.put("id", self.id.copy());
        m.put("error", error);
        assert(m@ =~= error_json(self@)->Object_0);
        m.object()
    }

    /// The bytes of the response.
    pub fn into_bytes(self) -> (r: Vec<u8>)
        ensures
            r@ == bytes_of_json(error_json(self@)),
    {
        write_json(&self.to_json())
    }
}

/// The data that carries a reason.
pub open spec fn reason_json(reason: Seq<char>) -> JsonView {
    JsonView::Object(seq![("reason"@, JsonView::Text(reason))])
}

/// The data that carries a reason.
pub fn reason_data(reason: &str) -> (r: Json)
    ensures
        r@ == reason_json(reason@),
{
    let mut m: Members = Members::new();
    m.put_text("reason", reason);
    assert(m@ =~= reason_json(reason@)->Object_0);
    m.object()
}

/// The request that a document holds.
pub open spec fn request_in(v: JsonView) -> JsonRpcRequestView {
    JsonRpcRequestView {
        jsonrpc: text_at(Rec::Request, v, "jsonrpc"@),
        id: option_json_at(Rec::Request, v, "id"@),
        method: text_at(Rec::Request, v, "method"@),
        params: option_json_at(Rec::Request, v, "params"@),
    }
}

/// What a body comes to, once it has been read as JSON: a parse error where it
/// could not be, an invalid request where the document is no request, speaks
/// another version or names no method, and the request otherwise.
pub open spec fn parsed_request(doc: Result<JsonView, Seq<char>>) -> Result<
    JsonRpcRequestView,
    JsonRpcErrorView,
> {
    match doc {
        Err(e) => Err(error_with(error_of(None, PARSE_ERROR, "Parse error"@), reason_json(e))),
        Ok(v) => match shape_error(Shape::Record(Rec::Request), v) {
            Some(e) => Err(
                error_with(
                    error_of(json_member(v, "id"@), INVALID_REQUEST, "Invalid Request"@),
                    reason_json(e),
                ),
            ),
            None => {
                let request = request_in(v);
                if request.jsonrpc != "2.0"@ {
                    Err(
                        error_of(
                            request.id,
                            INVALID_REQUEST,
                            "Invalid Request: jsonrpc must be \"2.0\""@,
                        ),
                    )
                } else if request.method.len() == 0 {
                    Err(
                        error_of(
                            request.id,
                            INVALID_REQUEST,
                            "Invalid Request: method is required"@,
                        ),
                    )
                } else {
                    Ok(request)
                }
            },
        },
    }
}

/// The value of a parsed request.
pub open spec fn parsed_view(r: Result<JsonRpcRequest, JsonRpcError>) -> Result<
    JsonRpcRequestView,
    JsonRpcErrorView,
> {
    match r {
        Ok(q) => Ok(q@),
        Err(e) => Err(e@),
    }
}

/// Takes a request out of a body that has been read as JSON.
pub fn request_of(doc: Result<Json, String>) -> (r: Result<JsonRpcRequest, JsonRpcError>)
    ensures
        parsed_view(r) == parsed_request(reading_view(doc)),
{
    let raw: Json = match doc {
        Ok(j) => j,
        Err(e) => {
            return Err(
                JsonRpcError::new(None, PARSE_ERROR, "Parse error".to_owned()).with_data(
                    reason_data(e.as_str()),
                ),
            );
        },
    };
    match check(Shape::Record(Rec::Request), &raw) {
        Some(e) => {
            let id: Option<Json> = match raw.get("id") {
                Some(v) => Some(v.copy()),
                None => None,
            };
            return Err(
                JsonRpcError::new(id, INVALID_REQUEST, "Invalid Request".to_owned()).with_data(
                    reason_data(e.as_str()),
                ),
            );
        },
        None => {},
    }
    let request = JsonRpcRequest {
        jsonrpc: text_of_field(Rec::Request, &raw, "jsonrpc"),
        id: option_json_of_field(Rec::Request, &raw, "id"),
        method: text_of_field(Rec::Request, &raw, "method"),
        params: option_json_of_field(Rec::Request, &raw, "params"),
    };
    if !text_eq(request.jsonrpc.as_str(), JSONRPC_VERSION) {
        return Err(
            JsonRpcError::new(
                request.id,
                INVALID_REQUEST,
                "Invalid Request: jsonrpc must be \"2.0\"".to_owned(),
            ),
        );
    }
    if request.method.as_str().is_empty() {
        return Err(
            JsonRpcError::new(
                request.id,
                INVALID_REQUEST,
                "Invalid Request: method is required".to_owned(),
            ),
        );
    }
    Ok(request)
}

/// Takes a request out of a body. Where it holds none, gives the response to
/// send back.
pub fn parse_request(body: &[u8]) -> (r: Result<JsonRpcRequest, JsonRpcError>)
    ensures
        parsed_view(r) == parsed_request(json_of_bytes(body@)),
{
    request_of(parse_json(body))
}

proof fn lemma_envelope_keys()
    ensures
        "jsonrpc"@ != "id"@,
        "jsonrpc"@ != "result"@,
        "jsonrpc"@ != "error"@,
        "id"@ != "result"@,
        "id"@ != "error"@,
        "result"@ != "error"@,
{
    reveal_strlit("jsonrpc");
    reveal_strlit("id");
    reveal_strlit("result");
    reveal_strlit("error");
    assert("jsonrpc"@.len() == 7);
    assert("id"@.len() == 2);
    assert("result"@.len() == 6);
    assert("error"@.len() == 5);
}

/// What a key has among three members.
proof fn lemma_three(o: MembersView, key: Seq<char>)
    requires
        o.len() == 3,
    ensures
        member(o, key) == (if o[0].0 == key {
            Some(o[0].1)
        } else if o[1].0 == key {
            Some(o[1].1)
        } else if o[2].0 == key {
            Some(o[2].1)
        } else {
            None
        }),
{
    reveal_with_fuel(member, 4);
    let a = o.drop_first();
    let b = a.drop_first();
    assert(a[0] == o[1]);
    assert(b[0] == o[2]);
}

/// A success carries the version, the request's id and a result, and never an
/// error.
pub proof fn success_is_no_error(id: Option<JsonView>, result: JsonView)
    ensures
        json_member(success_json(success_of(id, result)), "jsonrpc"@) == Some(
            JsonView::Text("2.0"@),
        ),
        json_member(success_json(success_of(id, result)), "id"@) == Some(echoed(id)),
        json_member(success_json(success_of(id, result)), "result"@) == Some(result),
        json_member(success_json(success_of(id, result)), "error"@) is None,
{
    let o = success_json(success_of(id, result))->Object_0;
    lemma_envelope_keys();
    lemma_three(o, "jsonrpc"@);
    lemma_three(o, "id"@);
    lemma_three(o, "result"@);
    lemma_three(o, "error"@);
}

/// An error carries the version, its id and an error object, and never a
/// result.
pub proof fn error_is_no_success(e: JsonRpcErrorView)
    ensures
        json_member(error_json(e), "jsonrpc"@) == Some(JsonView::Text(e.jsonrpc)),
        json_member(error_json(e), "id"@) == Some(e.id),
        json_member(error_json(e), "error"@) == Some(error_object_json(e.error)),
        json_member(error_json(e), "result"@) is None,
{
    let o = error_json(e)->Object_0;
    lemma_envelope_keys();
    lemma_three(o, "jsonrpc"@);
    lemma_three(o, "id"@);
    lemma_three(o, "result"@);
    lemma_three(o, "error"@);
}

/// Where the body is an object that is refused, the refusal carries the id
/// that the object gives.
pub proof fn refusal_echoes_the_id(o: MembersView)
    requires
        parsed_request(Ok(JsonView::Object(o))) is Err,
    ensures
        parsed_request(Ok(JsonView::Object(o)))->Err_0.id == echoed(member(o, "id"@)),
{
    reveal_strlit("id");
}

} // verus!
