//! The methods of the protocol: `message/send`, `tasks/get` and `tasks/cancel`.
//! Any other is answered with an error.

use vstd::prelude::*;

use crate::a2a::mapping::{
    agent_response, agent_response_with_id, build_task, finished_task, needs_id, response_needs_id,
    response_parts, user_message, user_turn,
};
use crate::a2a::types::{
    bare_message, bare_part, bare_task, bare_task_is_storable, cancelable, concat_text, joined_text,
    messages_view, plain_task, state_name, task_json, task_reading, task_result, task_round_trip,
    terminal, Artifact, Message, MessageSendParams, MessageSendParamsView, MessageView, Params,
    Task, TaskIdParams, TaskIdParamsView, TaskQueryParams, TaskQueryParamsView, TaskState,
    TaskStatus, TaskStatusView, TaskView,
};
use crate::agentforce::client::{
    end_session_run, send_message_run, start_session_run, AgentforceClient, AgentforceClientView,
    ClientError, ClientErrorView, SendMessageResponse, SendMessageResponseView,
};
use crate::cache::saturating_sum;
use crate::decode::{read_record, record_of_bytes, shape_error, Rec, Shape};
use crate::effects::{fresh, fresh_run, ActionView, AnswerView, Progress, Record, Run};
use crate::json::{
    bytes_of_json, copy_option_json, json_of_bytes, number_json, option_json, read_as,
    reading_view, storable, write_json, Json, JsonView, Members, NumberView,
};
use crate::jsonrpc::{
    error_of, error_with, reason_data, reason_json, result_view, success_of, JsonRpcError,
    JsonRpcErrorView, JsonRpcRequest, JsonRpcRequestView, JsonRpcSuccess, JsonRpcSuccessView,
    CONTENT_TYPE_NOT_SUPPORTED, INTERNAL_ERROR, INVALID_PARAMS, METHOD_NOT_FOUND,
    TASK_NOT_CANCELABLE, TASK_NOT_FOUND,
};
use crate::store::task_store::{
    advanced, get_meta_run, hot_bytes, hot_entry, kept, put_meta_run, read_hot_run, task_entry_key,
    write_hot_run, HotEntry, TaskMeta, TaskStore,
};
use crate::text::{blank, concat2, concat4, decimal, decimal_text, is_blank, text_eq};

verus! {

/// What a method returns.
pub type Outcome = Result<JsonRpcSuccessView, JsonRpcErrorView>;

/// The parameters of a request, or the error where it has none that fit.
pub open spec fn params_of<T: Params>(request: JsonRpcRequestView) -> Result<T::V, JsonRpcErrorView> {
    match request.params {
        None => Err(error_of(request.id, INVALID_PARAMS, "params is required"@)),
        Some(p) => match shape_error(Shape::Record(T::record()), p) {
            Some(e) => Err(error_of(request.id, INVALID_PARAMS, "Invalid params: "@ + e)),
            None => Ok(T::held_in(p)),
        },
    }
}

/// Takes the parameters out of a request.
pub fn require_params<T: Params>(request: &JsonRpcRequest) -> (r: Result<T, JsonRpcError>)
    ensures
        match r {
            Ok(p) => params_of::<T>(request@) == Ok::<T::V, JsonRpcErrorView>(p@),
            Err(e) => params_of::<T>(request@) == Err::<T::V, JsonRpcErrorView>(e@),
        },
{
    match &request.params {
        None => Err(
            JsonRpcError::new(
                copy_option_json(&request.id),
                INVALID_PARAMS,
                "params is required".to_owned(),
            ),
        ),
        Some(p) => match T::from_json(p) {
            Ok(v) => Ok(v),
            Err(e) => Err(
                JsonRpcError::new(
                    copy_option_json(&request.id),
                    INVALID_PARAMS,
                    concat2("Invalid params: ", e.as_str()),
                ),
            ),
        },
    }
}

/// The data of an error status.
pub open spec fn status_data(status: u32, operation: Seq<char>) -> JsonView {
    JsonView::Object(
        seq![
            ("reason"@, JsonView::Text("agentforce_http_error"@)),
            ("status"@, JsonView::Number(NumberView::PosInt(status as u64))),
            ("operation"@, JsonView::Text(operation)),
        ],
    )
}

/// The data of a missing field.
pub open spec fn field_data(field: Seq<char>) -> JsonView {
    JsonView::Object(
        seq![
            ("reason"@, JsonView::Text("agentforce_missing_field"@)),
            ("field"@, JsonView::Text(field)),
        ],
    )
}

/// The response to a request for which Agentforce failed.
pub open spec fn client_failure(id: Option<JsonView>, e: ClientErrorView) -> JsonRpcErrorView {
    match e {
        ClientErrorView::AuthRejected => error_with(
            error_of(id, INTERNAL_ERROR, "Agentforce authentication rejected"@),
            reason_json("agentforce_auth_rejected"@),
        ),
        ClientErrorView::HttpStatus { operation, status, .. } => error_with(
            error_of(
                id,
                INTERNAL_ERROR,
                "Agentforce "@ + operation + " returned HTTP "@ + decimal(status as nat),
            ),
            status_data(status, operation),
        ),
        ClientErrorView::Auth(_) => error_with(
            error_of(id, INTERNAL_ERROR, "Agentforce token endpoint failure"@),
            reason_json("agentforce_token_failure"@),
        ),
        ClientErrorView::Transport { .. } => error_with(
            error_of(id, INTERNAL_ERROR, "Agentforce transport error"@),
            reason_json("agentforce_transport_error"@),
        ),
        ClientErrorView::BadJson(_) => error_with(
            error_of(id, INTERNAL_ERROR, "Agentforce response was not valid JSON"@),
            reason_json("agentforce_bad_json"@),
        ),
        ClientErrorView::MissingField(field) => error_with(
            error_of(id, INTERNAL_ERROR, "Agentforce response missing field: "@ + field),
            field_data(field),
        ),
    }
}

/// The response to a request for which Agentforce failed.
pub fn client_error_to_rpc(id: Option<Json>, err: &ClientError) -> (r: JsonRpcError)
    ensures
        r@ == client_failure(option_json(id), err@),
{
    match err {
        ClientError::AuthRejected => JsonRpcError::new(
            id,
            INTERNAL_ERROR,
            "Agentforce authentication rejected".to_owned(),
        ).with_data(reason_data("agentforce_auth_rejected")),
        ClientError::HttpStatus { operation, status, .. } => {
            let mut m: Members = Members::new();
            m.put_text("reason", "agentforce_http_error");
            m.put("status", number_json(*status as u64));
            m.put_text("operation", operation);
            assert(m@ =~= status_data(*status, operation@)->Object_0);
            JsonRpcError::new(
                id,
                INTERNAL_ERROR,
                concat4(
                    "Agentforce ",
                    operation,
                    " returned HTTP ",
                    decimal_text(*status as u64).as_str(),
                ),
            ).with_data(m.object())
        },
        ClientError::Auth(_) => JsonRpcError::new(
            id,
            INTERNAL_ERROR,
            "Agentforce token endpoint failure".to_owned(),
        ).with_data(reason_data("agentforce_token_failure")),
        ClientError::Transport { .. } => JsonRpcError::new(
            id,
            INTERNAL_ERROR,
            "Agentforce transport error".to_owned(),
        ).with_data(reason_data("agentforce_transport_error")),
        ClientError::BadJson(_) => JsonRpcError::new(
            id,
            INTERNAL_ERROR,
            "Agentforce response was not valid JSON".to_owned(),
        ).with_data(reason_data("agentforce_bad_json")),
        ClientError::MissingField(field) => {
            let mut m: Members = Members::new();
            m.put_text("reason", "agentforce_missing_field");
            m.put_text("field", field);
            assert(m@ =~= field_data(field@)->Object_0);
            JsonRpcError::new(
                id,
                INTERNAL_ERROR,
                concat2("Agentforce response missing field: ", field),
            ).with_data(m.object())
        },
    }
}

/// The methods, with the client and the store that they work with.
#[derive(Debug, PartialEq, Eq)]
pub struct Dispatcher {
    pub client: AgentforceClient,
    pub store: TaskStore,
}

/// The value of a [`Dispatcher`].
pub struct DispatcherView {
    pub client: AgentforceClientView,
    /// How long a stored task lasts.
    pub ttl: u32,
}

impl View for Dispatcher {
    type V = DispatcherView;

    open spec fn view(&self) -> DispatcherView {
        DispatcherView { client: self.client@, ttl: self.store.hot_ttl_seconds }
    }
}

/// The session that a message belongs to: the task that it names, or else a new
/// session under the message's id.
pub open spec fn session_run(
    d: DispatcherView,
    message: MessageView,
    now: u64,
    h: Seq<AnswerView>,
) -> Run<Result<Seq<char>, ClientErrorView>> {
    if message.task_id matches Some(id) && id.len() > 0 {
        Run::Done(Ok(message.task_id->0), h)
    } else {
        match start_session_run(d.client, message.message_id, now, h) {
            Run::Do(a) => Run::Do(a),
            Run::Done(Err(e), h1) => Run::Done(Err(e), h1),
            Run::Done(Ok(s), h1) => Run::Done(Ok(s.session_id), h1),
        }
    }
}

/// The numbers from which a task goes on: those that are stored, or else those
/// of a fresh task.
pub open spec fn meta_or_initial(meta: Option<TaskMeta>, now: u64) -> TaskMeta {
    match meta {
        Some(m) => m,
        None => TaskMeta { sequence_id: 1, last_updated_at_unix: now },
    }
}

/// Taking the number of a task's next message, which is stored before the
/// message is sent.
pub open spec fn sequence_run(d: DispatcherView, task_id: Seq<char>, now: u64, h: Seq<AnswerView>) -> Run<
    u32,
> {
    match get_meta_run(task_id, now, h) {
        Run::Do(a) => Run::Do(a),
        Run::Done(stored, h1) => {
            let meta = advanced(meta_or_initial(stored, now), now);
            match put_meta_run(task_id, meta, now, d.ttl, h1) {
                Run::Do(a) => Run::Do(a),
                Run::Done(_, h2) => Run::Done(meta.sequence_id, h2),
            }
        },
    }
}

/// Taking an identifier for the agent's message, where the answer needs one.
pub open spec fn answer_id_run(response: SendMessageResponseView, h: Seq<AnswerView>) -> Run<
    Seq<char>,
> {
    if needs_id(response.messages) {
        fresh_run(h)
    } else {
        Run::Done(Seq::empty(), h)
    }
}

/// The task of one exchange.
pub open spec fn exchange_task(
    message: MessageView,
    task_id: Seq<char>,
    response: SendMessageResponseView,
    other: Seq<char>,
    timestamp: Seq<char>,
) -> TaskView {
    let answer = agent_response(response.messages, task_id, other);
    finished_task(
        task_id,
        user_turn(joined_text(message.parts), task_id, message.message_id),
        answer.0,
        answer.1,
        timestamp,
    )
}

/// Whether a task that is stored is read as it was, until its time is over.
pub open spec fn task_kept(t: TaskView, written_at: u64, ttl: u32) -> bool {
    &&& json_of_bytes(bytes_of_json(task_json(t))) == read_as(task_json(t))
    &&& kept(bytes_of_json(task_json(t)), written_at, ttl)
}

/// Whether a result is a completed task that is read as it was, until its time is
/// over.
pub open spec fn result_kept(value: JsonView, written_at: u64, ttl: u32) -> bool {
    exists|t: TaskView| #[trigger]
        task_kept(t, written_at, ttl) && bare_task(t) && plain_task(t) && t.status.state is Completed
            && task_json(t) == value
}

/// Whether a result, where it is a task without metadata and data, is read as it
/// was, until its time is over.
pub open spec fn bare_result_kept(value: JsonView, written_at: u64, ttl: u32) -> bool {
    forall|t: TaskView| #[trigger]
        bare_task(t) && task_json(t) == value ==> task_kept(t, written_at, ttl)
}

/// Storing a task and returning it.
pub open spec fn store_run(
    d: DispatcherView,
    id: Option<JsonView>,
    task_id: Seq<char>,
    task: TaskView,
    now: u64,
    h: Seq<AnswerView>,
) -> Run<Outcome> {
    match write_hot_run(task_entry_key(task_id), bytes_of_json(task_json(task)), now, d.ttl, h) {
        Run::Do(a) => Run::Do(a),
        Run::Done(_, h1) => Run::Done(Ok(success_of(id, task_json(task))), h1),
    }
}

/// Sending the user's text and turning the answer into a task.
pub open spec fn exchange_run(
    d: DispatcherView,
    id: Option<JsonView>,
    message: MessageView,
    task_id: Seq<char>,
    now: u64,
    timestamp: Seq<char>,
    h: Seq<AnswerView>,
) -> Run<Outcome> {
    match sequence_run(d, task_id, now, h) {
        Run::Do(a) => Run::Do(a),
        Run::Done(number, h1) => match send_message_run(
            d.client,
            task_id,
            joined_text(message.parts),
            number,
            now,
            h1,
        ) {
            Run::Do(a) => Run::Do(a),
            Run::Done(Err(e), h2) => Run::Done(Err(client_failure(id, e)), h2),
            Run::Done(Ok(response), h2) => match answer_id_run(response, h2) {
                Run::Do(a) => Run::Do(a),
                Run::Done(other, h3) => store_run(
                    d,
                    id,
                    task_id,
                    exchange_task(message, task_id, response, other, timestamp),
                    now,
                    h3,
                ),
            },
        },
    }
}

/// The refusal of a message without text.
pub open spec fn no_text(id: Option<JsonView>) -> JsonRpcErrorView {
    error_of(
        id,
        CONTENT_TYPE_NOT_SUPPORTED,
        "Incompatible content types: only text parts are supported in v1"@,
    )
}

/// `message/send`: a message without text is refused; any other goes to its
/// session, and the exchange comes back as a task.
pub open spec fn message_send_run(
    d: DispatcherView,
    request: JsonRpcRequestView,
    now: u64,
    timestamp: Seq<char>,
    h: Seq<AnswerView>,
) -> Run<Outcome> {
    match params_of::<MessageSendParams>(request) {
        Err(e) => Run::Done(Err(e), h),
        Ok(params) => if blank(joined_text(params.message.parts)) {
            Run::Done(Err(no_text(request.id)), h)
        } else {
            match session_run(d, params.message, now, h) {
                Run::Do(a) => Run::Do(a),
                Run::Done(Err(e), h1) => Run::Done(Err(client_failure(request.id, e)), h1),
                Run::Done(Ok(task_id), h1) => exchange_run(
                    d,
                    request.id,
                    params.message,
                    task_id,
                    now,
                    timestamp,
                    h1,
                ),
            }
        },
    }
}

/// The data that names a task.
pub open spec fn task_data(task_id: Seq<char>) -> JsonView {
    JsonView::Object(seq![("taskId"@, JsonView::Text(task_id))])
}

/// The refusal for a task that is not stored.
pub open spec fn not_found(id: Option<JsonView>, task_id: Seq<char>) -> JsonRpcErrorView {
    error_with(error_of(id, TASK_NOT_FOUND, "Task not found"@), task_data(task_id))
}

/// The refusal for a stored task that cannot be read.
pub open spec fn unreadable(id: Option<JsonView>, e: Seq<char>) -> JsonRpcErrorView {
    error_of(id, INTERNAL_ERROR, "Persisted Task could not be parsed: "@ + e)
}

/// The task that stored bytes hold, once they have been read as JSON.
pub open spec fn stored_task(doc: Result<JsonView, Seq<char>>) -> Result<TaskView, Seq<char>> {
    match doc {
        Err(e) => Err(e),
        Ok(v) => task_reading(v),
    }
}

/// Reading a stored task.
pub open spec fn load_run(id: Option<JsonView>, task_id: Seq<char>, now: u64, h: Seq<AnswerView>) -> Run<
    Result<TaskView, JsonRpcErrorView>,
> {
    match read_hot_run(task_entry_key(task_id), now, h) {
        Run::Do(a) => Run::Do(a),
        Run::Done(None, h1) => Run::Done(Err(not_found(id, task_id)), h1),
        Run::Done(Some(bytes), h1) => match stored_task(record_of_bytes(Rec::Task, bytes)) {
            Err(e) => Run::Done(Err(unreadable(id, e)), h1),
            Ok(t) => Run::Done(Ok(t), h1),
        },
    }
}

/// The most recent `n` messages of a history, or all of them where no number is
/// given.
pub open spec fn recent(history: Seq<MessageView>, n: Option<u32>) -> Seq<MessageView> {
    match n {
        Some(k) => if history.len() > k {
            history.skip(history.len() - k)
        } else {
            history
        },
        None => history,
    }
}

/// `tasks/get`: the stored task, with its history cut to the asked length.
pub open spec fn tasks_get_run(request: JsonRpcRequestView, now: u64, h: Seq<AnswerView>) -> Run<
    Outcome,
> {
    match params_of::<TaskQueryParams>(request) {
        Err(e) => Run::Done(Err(e), h),
        Ok(params) => match load_run(request.id, params.id, now, h) {
            Run::Do(a) => Run::Do(a),
            Run::Done(Err(e), h1) => Run::Done(Err(e), h1),
            Run::Done(Ok(t), h1) => Run::Done(
                Ok(
                    success_of(
                        request.id,
                        task_json(
                            TaskView { history: recent(t.history, params.history_length), ..t },
                        ),
                    ),
                ),
                h1,
            ),
        },
    }
}

/// The data of a task that has come to its end.
pub open spec fn ended_data(task_id: Seq<char>, state: TaskState) -> JsonView {
    JsonView::Object(
        seq![
            ("taskId"@, JsonView::Text(task_id)),
            ("state"@, JsonView::Text(state_name(state))),
        ],
    )
}

/// The refusal to cancel a task that has come to its end.
pub open spec fn not_cancelable(id: Option<JsonView>, task_id: Seq<char>, state: TaskState) -> JsonRpcErrorView {
    error_with(
        error_of(
            id,
            TASK_NOT_CANCELABLE,
            "Task is in a terminal state and cannot be canceled"@,
        ),
        ended_data(task_id, state),
    )
}

/// A task that was canceled at a moment.
pub open spec fn canceled(t: TaskView, timestamp: Seq<char>) -> TaskView {
    TaskView {
        status: TaskStatusView {
            state: TaskState::Canceled,
            timestamp: Some(timestamp),
            message: None,
        },
        ..t
    }
}

/// `tasks/cancel`: the session is ended, whether or not Agentforce goes along,
/// and the task is stored and returned as canceled. That goes for a task that has
/// been answered too, as its session is still open; one that was canceled, that
/// failed or that was rejected is left alone.
pub open spec fn tasks_cancel_run(
    d: DispatcherView,
    request: JsonRpcRequestView,
    now: u64,
    timestamp: Seq<char>,
    h: Seq<AnswerView>,
) -> Run<Outcome> {
    match params_of::<TaskIdParams>(request) {
        Err(e) => Run::Done(Err(e), h),
        Ok(params) => match load_run(request.id, params.id, now, h) {
            Run::Do(a) => Run::Do(a),
            Run::Done(Err(e), h1) => Run::Done(Err(e), h1),
            Run::Done(Ok(t), h1) => if !cancelable(t.status.state) {
                Run::Done(Err(not_cancelable(request.id, params.id, t.status.state)), h1)
            } else {
                match end_session_run(d.client, params.id, now, h1) {
                    Run::Do(a) => Run::Do(a),
                    Run::Done(_, h2) => store_run(
                        d,
                        request.id,
                        params.id,
                        canceled(t, timestamp),
                        now,
                        h2,
                    ),
                }
            },
        },
    }
}

/// The refusal of an unknown method.
pub open spec fn unknown_method(id: Option<JsonView>, method: Seq<char>) -> JsonRpcErrorView {
    error_of(id, METHOD_NOT_FOUND, "Method not found: "@ + method)
}

/// What a request comes to, by its method.
pub open spec fn dispatch_run(
    d: DispatcherView,
    request: JsonRpcRequestView,
    now: u64,
    timestamp: Seq<char>,
    h: Seq<AnswerView>,
) -> Run<Outcome> {
    if request.method == "message/send"@ {
        message_send_run(d, request, now, timestamp, h)
    } else if request.method == "tasks/get"@ {
        tasks_get_run(request, now, h)
    } else if request.method == "tasks/cancel"@ {
        tasks_cancel_run(d, request, now, timestamp, h)
    } else {
        Run::Done(Err(unknown_method(request.id, request.method)), h)
    }
}

/// The value of a session's id.
pub open spec fn session_id_result(r: Result<String, ClientError>) -> Result<
    Seq<char>,
    ClientErrorView,
> {
    match r {
        Ok(s) => Ok(s@),
        Err(e) => Err(e@),
    }
}

/// The value of a task that was loaded.
pub open spec fn load_result(r: Result<Task, JsonRpcError>) -> Result<TaskView, JsonRpcErrorView> {
    match r {
        Ok(t) => Ok(t@),
        Err(e) => Err(e@),
    }
}

/// Takes the task out of stored bytes that have been read as JSON.
pub fn task_of_stored(doc: Result<Json, String>) -> (r: Result<Task, String>)
    ensures
        task_result(r) == stored_task(reading_view(doc)),
{
    match doc {
        Err(e) => Err(e),
        Ok(j) => Task::from_json(&j),
    }
}

/// Cuts a history to its most recent messages.
pub fn recent_messages(history: Vec<Message>, n: Option<u32>) -> (r: Vec<Message>)
    ensures
        messages_view(r@) == recent(messages_view(history@), n),
{
    match n {
        Some(k) => {
            let keep: usize = k as usize;
            if history.len() > keep {
                let mut all: Vec<Message> = history;
                let drop: usize = all.len() - keep;
                let tail: Vec<Message> = all.split_off(drop);
                assert(messages_view(tail@) =~= recent(messages_view(history@), n));
                tail
            } else {
                history
            }
        },
        None => history,
    }
}

impl Dispatcher {
    fn session(&self, record: &mut Record, message: &Message, now_unix: u64) -> (r: Progress<
        Result<String, ClientError>,
    >)
        ensures
            match r {
                Progress::Do(a) => session_run(self@, message@, now_unix, old(record)@) == Run::<
                    Result<Seq<char>, ClientErrorView>,
                >::Do(a@),
                Progress::Done(v) => session_run(self@, message@, now_unix, old(record)@)
                    == Run::Done(session_id_result(v), final(record)@),
            },
    {
        match &message.task_id {
            Some(id) => if !id.as_str().is_empty() {
                return Progress::Done(Ok(id.clone()));
            },
            None => {},
        }
        match self.client.start_session(record, message.message_id.as_str(), now_unix) {
            Progress::Do(a) => Progress::Do(a),
            Progress::Done(Err(e)) => Progress::Done(Err(e)),
            Progress::Done(Ok(s)) => Progress::Done(Ok(s.session_id)),
        }
    }

    fn sequence(&self, record: &mut Record, task_id: &str, now_unix: u64) -> (r: Progress<u32>)
        ensures
            match r {
                Progress::Do(a) => sequence_run(self@, task_id@, now_unix, old(record)@) == Run::<
                    u32,
                >::Do(a@),
                Progress::Done(v) => sequence_run(self@, task_id@, now_unix, old(record)@)
                    == Run::Done(v, final(record)@),
            },
    {
        let stored: Option<TaskMeta> = match self.store.get_meta(record, task_id, now_unix) {
            Progress::Do(a) => {
                return Progress::Do(a);
            },
            Progress::Done(m) => m,
        };
        let mut meta: TaskMeta = match stored {
            Some(m) => m,
            None => TaskMeta::initial(now_unix),
        };
        let number: u32 = meta.next_sequence(now_unix);
        match self.store.put_meta(record, task_id, &meta, now_unix) {
            Progress::Do(a) => Progress::Do(a),
            Progress::Done(_) => Progress::Done(number),
        }
    }

    fn store_task(
        &self,
        record: &mut Record,
        id: Option<Json>,
        task_id: &str,
        task: &Task,
        now_unix: u64,
    ) -> (r: Progress<Result<JsonRpcSuccess, JsonRpcError>>)
        ensures
            match r {
                Progress::Do(a) => store_run(
                    self@,
                    option_json(id),
                    task_id@,
                    task@,
                    now_unix,
                    old(record)@,
                ) == Run::<Outcome>::Do(a@),
                Progress::Done(v) => store_run(
                    self@,
                    option_json(id),
                    task_id@,
                    task@,
                    now_unix,
                    old(record)@,
                ) == Run::Done(result_view(v), final(record)@),
            },
            bare_result_kept(task_json(task@), now_unix, self@.ttl),
    {
        proof {
            assert forall|t: TaskView| #[trigger] bare_task(t) && task_json(t) == task_json(
                task@,
            ) implies storable(task_json(task@), 127) by {
                bare_task_is_storable(t);
            }
        }
        let value: Json = task.to_json();
        let bytes: Vec<u8> = write_json(&value);
        match self.store.put_task(record, task_id, bytes.as_slice(), now_unix) {
            Progress::Do(a) => Progress::Do(a),
            Progress::Done(_) => Progress::Done(Ok(JsonRpcSuccess::new(id, value))),
        }
    }

    fn exchange(
        &self,
        record: &mut Record,
        id: Option<Json>,
        message: &Message,
        task_id: &str,
        now_unix: u64,
        timestamp_iso: String,
    ) -> (r: Progress<Result<JsonRpcSuccess, JsonRpcError>>)
        ensures
            match r {
                Progress::Do(a) => exchange_run(
                    self@,
                    option_json(id),
                    message@,
                    task_id@,
                    now_unix,
                    timestamp_iso@,
                    old(record)@,
                ) == Run::<Outcome>::Do(a@),
                Progress::Done(v) => exchange_run(
                    self@,
                    option_json(id),
                    message@,
                    task_id@,
                    now_unix,
                    timestamp_iso@,
                    old(record)@,
                ) == Run::Done(result_view(v), final(record)@),
            },
            r matches Progress::Done(Ok(s)) ==> result_kept(s@.result, now_unix, self@.ttl),
    {
        let text: String = concat_text(message.parts.as_slice());
        let number: u32 = match self.sequence(record, task_id, now_unix) {
            Progress::Do(a) => {
                return Progress::Do(a);
            },
            Progress::Done(n) => n,
        };
        let response: SendMessageResponse = match self.client.send_message(
            record,
            task_id,
            text.as_str(),
            number,
            now_unix,
        ) {
            Progress::Do(a) => {
                return Progress::Do(a);
            },
            Progress::Done(Err(e)) => {
                return Progress::Done(Err(client_error_to_rpc(id, &e)));
            },
            Progress::Done(Ok(response)) => response,
        };
        let other: String = if response_needs_id(&response) {
            match fresh(record) {
                Progress::Do(a) => {
                    return Progress::Do(a);
                },
                Progress::Done(s) => s,
            }
        } else {
            let none: String = String::new();
            assert(none@ =~= Seq::empty());
            none
        };
        proof {
            let task = exchange_task(message@, task_id@, response@, other@, timestamp_iso@);
            task_is_the_session(message@, task_id@, response@, other@, timestamp_iso@);
            bare_task_is_storable(task);
        }
        let user: Message = user_message(text.as_str(), task_id, Some(message.message_id.clone()));
        let answer: (Option<Message>, Option<Artifact>) = agent_response_with_id(
            &response,
            task_id,
            other,
        );
        let task: Task = build_task(task_id.to_owned(), user, answer.0, answer.1, timestamp_iso);
        self.store_task(record, id, task_id, &task, now_unix)
    }

    /// `message/send`.
    pub fn handle_message_send(
        &self,
        record: &mut Record,
        request: &JsonRpcRequest,
        now_unix: u64,
        timestamp_iso: String,
    ) -> (r: Progress<Result<JsonRpcSuccess, JsonRpcError>>)
        ensures
            match r {
                Progress::Do(a) => message_send_run(
                    self@,
                    request@,
                    now_unix,
                    timestamp_iso@,
                    old(record)@,
                ) == Run::<Outcome>::Do(a@),
                Progress::Done(v) => message_send_run(
                    self@,
                    request@,
                    now_unix,
                    timestamp_iso@,
                    old(record)@,
                ) == Run::Done(result_view(v), final(record)@),
            },
            r matches Progress::Done(Ok(s)) ==> result_kept(s@.result, now_unix, self@.ttl),
    {
        let params: MessageSendParams = match require_params::<MessageSendParams>(request) {
            Ok(p) => p,
            Err(e) => {
                return Progress::Done(Err(e));
            },
        };
        let text: String = concat_text(params.message.parts.as_slice());
        if is_blank(text.as_str()) {
            return Progress::Done(
                Err(
                    JsonRpcError::new(
                        copy_option_json(&request.id),
                        CONTENT_TYPE_NOT_SUPPORTED,
                        "Incompatible content types: only text parts are supported in v1".to_owned(),
                    ),
                ),
            );
        }
        let task_id: String = match self.session(record, &params.message, now_unix) {
            Progress::Do(a) => {
                return Progress::Do(a);
            },
            Progress::Done(Err(e)) => {
                return Progress::Done(
                    Err(client_error_to_rpc(copy_option_json(&request.id), &e)),
                );
            },
            Progress::Done(Ok(id)) => id,
        };
        self.exchange(
            record,
            copy_option_json(&request.id),
            &params.message,
            task_id.as_str(),
            now_unix,
            timestamp_iso,
        )
    }

    fn load(&self, record: &mut Record, id: &Option<Json>, task_id: &str, now_unix: u64) -> (r:
        Progress<Result<Task, JsonRpcError>>)
        ensures
            match r {
                Progress::Do(a) => load_run(option_json(*id), task_id@, now_unix, old(record)@)
                    == Run::<Result<TaskView, JsonRpcErrorView>>::Do(a@),
                Progress::Done(v) => load_run(option_json(*id), task_id@, now_unix, old(record)@)
                    == Run::Done(load_result(v), final(record)@),
            },
    {
        let bytes: Vec<u8> = match self.store.get_task(record, task_id, now_unix) {
            Progress::Do(a) => {
                return Progress::Do(a);
            },
            Progress::Done(None) => {
                let mut m: Members = Members::new();
                m.put_text("taskId", task_id);
                assert(m@ =~= task_data(task_id@)->Object_0);
                return Progress::Done(
                    Err(
                        JsonRpcError::new(
                            copy_option_json(id),
                            TASK_NOT_FOUND,
                            "Task not found".to_owned(),
                        ).with_data(m.object()),
                    ),
                );
            },
            Progress::Done(Some(b)) => b,
        };
        match task_of_stored(read_record(Rec::Task, bytes.as_slice())) {
            Ok(t) => Progress::Done(Ok(t)),
            Err(e) => Progress::Done(
                Err(
                    JsonRpcError::new(
                        copy_option_json(id),
                        INTERNAL_ERROR,
                        concat2("Persisted Task could not be parsed: ", e.as_str()),
                    ),
                ),
            ),
        }
    }

    /// `tasks/get`.
    pub fn handle_tasks_get(&self, record: &mut Record, request: &JsonRpcRequest, now_unix: u64) -> (r:
        Progress<Result<JsonRpcSuccess, JsonRpcError>>)
        ensures
            match r {
                Progress::Do(a) => tasks_get_run(request@, now_unix, old(record)@) == Run::<
                    Outcome,
                >::Do(a@),
                Progress::Done(v) => tasks_get_run(request@, now_unix, old(record)@) == Run::Done(
                    result_view(v),
                    final(record)@,
                ),
            },
    {
        let params: TaskQueryParams = match require_params::<TaskQueryParams>(request) {
            Ok(p) => p,
            Err(e) => {
                return Progress::Done(Err(e));
            },
        };
        let loaded: Task = match self.load(record, &request.id, params.id.as_str(), now_unix) {
            Progress::Do(a) => {
                return Progress::Do(a);
            },
            Progress::Done(Err(e)) => {
                return Progress::Done(Err(e));
            },
            Progress::Done(Ok(t)) => t,
        };
        let task = Task {
            id: loaded.id,
            context_id: loaded.context_id,
            kind: loaded.kind,
            status: loaded.status,
            history: recent_messages(loaded.history, params.history_length),
            artifacts: loaded.artifacts,
            metadata: loaded.metadata,
        };
        Progress::Done(Ok(JsonRpcSuccess::new(copy_option_json(&request.id), task.to_json())))
    }

    /// `tasks/cancel`.
    pub fn handle_tasks_cancel(
        &self,
        record: &mut Record,
        request: &JsonRpcRequest,
        now_unix: u64,
        timestamp_iso: String,
    ) -> (r: Progress<Result<JsonRpcSuccess, JsonRpcError>>)
        ensures
            match r {
                Progress::Do(a) => tasks_cancel_run(
                    self@,
                    request@,
                    now_unix,
                    timestamp_iso@,
                    old(record)@,
                ) == Run::<Outcome>::Do(a@),
                Progress::Done(v) => tasks_cancel_run(
                    self@,
                    request@,
                    now_unix,
                    timestamp_iso@,
                    old(record)@,
                ) == Run::Done(result_view(v), final(record)@),
            },
            r matches Progress::Done(Ok(s)) ==> bare_result_kept(
                s@.result,
                now_unix,
                self@.ttl,
            ),
    {
        let params: TaskIdParams = match require_params::<TaskIdParams>(request) {
            Ok(p) => p,
            Err(e) => {
                return Progress::Done(Err(e));
            },
        };
        let mut task: Task = match self.load(record, &request.id, params.id.as_str(), now_unix) {
            Progress::Do(a) => {
                return Progress::Do(a);
            },
            Progress::Done(Err(e)) => {
                return Progress::Done(Err(e));
            },
            Progress::Done(Ok(t)) => t,
        };
        if !task.status.state.is_cancelable() {
            let mut m: Members = Members::new();
            m.put_text("taskId", params.id.as_str());
            m.put("state", task.status.state.to_json());
            assert(m@ =~= ended_data(params.id@, task.status.state)->Object_0);
            return Progress::Done(
                Err(
                    JsonRpcError::new(
                        copy_option_json(&request.id),
                        TASK_NOT_CANCELABLE,
                        "Task is in a terminal state and cannot be canceled".to_owned(),
                    ).with_data(m.object()),
                ),
            );
        }
        match self.client.end_session(record, params.id.as_str(), now_unix) {
            Progress::Do(a) => {
                return Progress::Do(a);
            },
            Progress::Done(_) => {},
        }
        task.status = TaskStatus {
            state: TaskState::Canceled,
            timestamp: Some(timestamp_iso),
            message: None,
        };
        self.store_task(
            record,
            copy_option_json(&request.id),
            params.id.as_str(),
            &task,
            now_unix,
        )
    }

    /// Answers a request by its method.
    pub fn dispatch(
        &self,
        record: &mut Record,
        request: &JsonRpcRequest,
        now_unix: u64,
        timestamp_iso: String,
    ) -> (r: Progress<Result<JsonRpcSuccess, JsonRpcError>>)
        ensures
            match r {
                Progress::Do(a) => dispatch_run(
                    self@,
                    request@,
                    now_unix,
                    timestamp_iso@,
                    old(record)@,
                ) == Run::<Outcome>::Do(a@),
                Progress::Done(v) => dispatch_run(
                    self@,
                    request@,
                    now_unix,
                    timestamp_iso@,
                    old(record)@,
                ) == Run::Done(result_view(v), final(record)@),
            },
            request@.method == "message/send"@ ==> (r matches Progress::Done(Ok(s))
                ==> result_kept(s@.result, now_unix, self@.ttl)),
            request@.method == "tasks/cancel"@ ==> (r matches Progress::Done(Ok(s))
                ==> bare_result_kept(s@.result, now_unix, self@.ttl)),
    {
        let method: &str = request.method.as_str();
        proof {
            lemma_methods_differ();
        }
        if text_eq(method, "message/send") {
            self.handle_message_send(record, request, now_unix, timestamp_iso)
        } else if text_eq(method, "tasks/get") {
            self.handle_tasks_get(record, request, now_unix)
        } else if text_eq(method, "tasks/cancel") {
            self.handle_tasks_cancel(record, request, now_unix, timestamp_iso)
        } else {
            Progress::Done(
                Err(
                    JsonRpcError::new(
                        copy_option_json(&request.id),
                        METHOD_NOT_FOUND,
                        concat2("Method not found: ", method),
                    ),
                ),
            )
        }
    }
}

proof fn lemma_methods_differ()
    ensures
        "message/send"@ != "tasks/get"@,
        "message/send"@ != "tasks/cancel"@,
        "tasks/get"@ != "tasks/cancel"@,
{
    reveal_strlit("message/send");
    reveal_strlit("tasks/get");
    reveal_strlit("tasks/cancel");
    assert("message/send"@[0] != "tasks/get"@[0]);
    assert("message/send"@[0] != "tasks/cancel"@[0]);
    assert("tasks/get"@.len() != "tasks/cancel"@.len());
}

/// A response carries the version of the protocol and the id of its request.
pub open spec fn answers_request(request: JsonRpcRequestView, out: Outcome) -> bool {
    match out {
        Ok(s) => s.jsonrpc == "2.0"@ && s.id == crate::jsonrpc::echoed(request.id),
        Err(e) => e.jsonrpc == "2.0"@ && e.id == crate::jsonrpc::echoed(request.id),
    }
}

/// Whatever comes of a request, its response carries its id.
pub proof fn every_response_echoes_the_id(
    d: DispatcherView,
    request: JsonRpcRequestView,
    now: u64,
    timestamp: Seq<char>,
    h: Seq<AnswerView>,
)
    ensures
        dispatch_run(d, request, now, timestamp, h) matches Run::Done(out, _) ==> answers_request(
            request,
            out,
        ),
{
}

/// A method other than the three is answered at once: nothing is asked of the
/// outside.
pub proof fn unknown_method_is_refused(
    d: DispatcherView,
    request: JsonRpcRequestView,
    now: u64,
    timestamp: Seq<char>,
    h: Seq<AnswerView>,
)
    requires
        request.method != "message/send"@,
        request.method != "tasks/get"@,
        request.method != "tasks/cancel"@,
    ensures
        dispatch_run(d, request, now, timestamp, h) == Run::Done(
            Err::<JsonRpcSuccessView, _>(unknown_method(request.id, request.method)),
            h,
        ),
        unknown_method(request.id, request.method).error.code == METHOD_NOT_FOUND,
{
}

/// A message without text is refused at once: no session is started for it.
pub proof fn message_without_text_is_refused(
    d: DispatcherView,
    request: JsonRpcRequestView,
    params: MessageSendParamsView,
    now: u64,
    timestamp: Seq<char>,
    h: Seq<AnswerView>,
)
    requires
        params_of::<MessageSendParams>(request) == Ok::<_, JsonRpcErrorView>(params),
        blank(joined_text(params.message.parts)),
    ensures
        message_send_run(d, request, now, timestamp, h) == Run::Done(
            Err::<JsonRpcSuccessView, _>(no_text(request.id)),
            h,
        ),
{
}

/// A message that names its task goes to that task: no session is started for
/// it, and the first thing done is to look up the task's numbers.
pub proof fn named_task_is_continued(
    d: DispatcherView,
    request: JsonRpcRequestView,
    params: MessageSendParamsView,
    now: u64,
    timestamp: Seq<char>,
    h: Seq<AnswerView>,
)
    requires
        params_of::<MessageSendParams>(request) == Ok::<_, JsonRpcErrorView>(params),
        !blank(joined_text(params.message.parts)),
        params.message.task_id matches Some(id) && id.len() > 0,
    ensures
        message_send_run(d, request, now, timestamp, h) == exchange_run(
            d,
            request.id,
            params.message,
            params.message.task_id->0,
            now,
            timestamp,
            h,
        ),
        message_send_run(d, request, now, timestamp, Seq::empty()) == Run::<Outcome>::Do(
            ActionView::CacheGet {
                key: crate::store::task_store::meta_entry_key(params.message.task_id->0),
            },
        ),
{
}

/// The task of an exchange is the session's: its id and its context are the
/// session's id, and it is completed.
pub proof fn task_is_the_session(
    message: MessageView,
    task_id: Seq<char>,
    response: SendMessageResponseView,
    other: Seq<char>,
    timestamp: Seq<char>,
)
    ensures
        exchange_task(message, task_id, response, other, timestamp).id == task_id,
        exchange_task(message, task_id, response, other, timestamp).context_id == task_id,
        exchange_task(message, task_id, response, other, timestamp).status.state is Completed,
        terminal(exchange_task(message, task_id, response, other, timestamp).status.state),
        bare_task(exchange_task(message, task_id, response, other, timestamp)),
{
    let t = exchange_task(message, task_id, response, other, timestamp);
    lemma_response_parts_bare(response.messages);
    assert forall|i: int| 0 <= i < t.history.len() implies bare_message(#[trigger] t.history[i]) by {
        if i == 0 {
            assert(t.history[0].parts =~= seq![crate::a2a::types::text_part(
                joined_text(message.parts),
            )]);
        }
    }
}

proof fn lemma_response_parts_bare(messages: Seq<crate::agentforce::client::AgentforceMessageView>)
    ensures
        forall|i: int|
            0 <= i < response_parts(messages).len() ==> bare_part(
                #[trigger] response_parts(messages)[i],
            ),
    decreases messages.len(),
{
    if messages.len() > 0 {
        lemma_response_parts_bare(messages.drop_last());
        let init = response_parts(messages.drop_last());
        assert forall|i: int| 0 <= i < response_parts(messages).len() implies bare_part(
            #[trigger] response_parts(messages)[i],
        ) by {
            if i < init.len() {
                assert(bare_part(init[i]));
                assert(response_parts(messages)[i] == init[i]);
            }
        }
    }
}

/// A task that was stored is loaded as it was, until its time is over: `tasks/get`
/// gives it back, with as much of its history as is asked for.
pub proof fn stored_task_is_got(
    request: JsonRpcRequestView,
    params: TaskQueryParamsView,
    t: TaskView,
    written_at: u64,
    ttl: u32,
    now: u64,
)
    requires
        params_of::<TaskQueryParams>(request) == Ok::<_, JsonRpcErrorView>(params),
        plain_task(t),
        task_kept(t, written_at, ttl),
        now < saturating_sum(written_at, ttl as u64),
    ensures
        ({
            let entry = hot_bytes(bytes_of_json(task_json(t)), written_at, ttl);
            let h = seq![AnswerView::Cached(Some(entry))];
            let shown = TaskView { history: recent(t.history, params.history_length), ..t };
            &&& load_run(request.id, params.id, now, h) == Run::Done(
                Ok::<_, JsonRpcErrorView>(t),
                Seq::empty(),
            )
            &&& tasks_get_run(request, now, h) == Run::Done(
                Ok::<_, JsonRpcErrorView>(success_of(request.id, task_json(shown))),
                Seq::empty(),
            )
            &&& params.history_length is None ==> shown == t
        }),
{
    let payload = bytes_of_json(task_json(t));
    let entry = hot_bytes(payload, written_at, ttl);
    assert(hot_entry(Some(entry), now) == HotEntry::Found(payload));
    task_round_trip(t);
    assert(seq![AnswerView::Cached(Some(entry))].drop_first() =~= Seq::empty());
}

/// `tasks/get` reads the cache and drops an entry that has expired; it sends
/// nothing.
pub proof fn getting_a_task_sends_nothing(request: JsonRpcRequestView, now: u64, h: Seq<AnswerView>)
    ensures
        tasks_get_run(request, now, h) matches Run::Do(a) ==> a is CacheGet || a is CacheDelete,
{
}

/// A task that is not stored is not found, for `tasks/get` and for
/// `tasks/cancel`, and nothing else is done.
pub proof fn missing_task_is_not_found(
    d: DispatcherView,
    request: JsonRpcRequestView,
    now: u64,
    timestamp: Seq<char>,
)
    ensures
        params_of::<TaskQueryParams>(request) matches Ok(p) ==> tasks_get_run(
            request,
            now,
            seq![AnswerView::Cached(None)],
        ) == Run::Done(Err::<JsonRpcSuccessView, _>(not_found(request.id, p.id)), Seq::empty()),
        params_of::<TaskIdParams>(request) matches Ok(p) ==> tasks_cancel_run(
            d,
            request,
            now,
            timestamp,
            seq![AnswerView::Cached(None)],
        ) == Run::Done(Err::<JsonRpcSuccessView, _>(not_found(request.id, p.id)), Seq::empty()),
{
    assert(seq![AnswerView::Cached(None)].drop_first() =~= Seq::empty());
}

/// A task that was canceled, that failed or that was rejected is not canceled,
/// and no session is ended for it.
pub proof fn ended_task_is_not_canceled(
    d: DispatcherView,
    request: JsonRpcRequestView,
    params: TaskIdParamsView,
    t: TaskView,
    now: u64,
    timestamp: Seq<char>,
    h: Seq<AnswerView>,
    h1: Seq<AnswerView>,
)
    requires
        params_of::<TaskIdParams>(request) == Ok::<_, JsonRpcErrorView>(params),
        load_run(request.id, params.id, now, h) == Run::Done(Ok::<_, JsonRpcErrorView>(t), h1),
        t.status.state is Canceled || t.status.state is Failed || t.status.state is Rejected,
    ensures
        tasks_cancel_run(d, request, now, timestamp, h) == Run::Done(
            Err::<JsonRpcSuccessView, _>(not_cancelable(request.id, params.id, t.status.state)),
            h1,
        ),
{
}

/// Any other task is canceled whether or not Agentforce ends the session, and a
/// canceled task is not canceled again.
pub proof fn canceling_does_not_wait_for_agentforce(
    d: DispatcherView,
    request: JsonRpcRequestView,
    params: TaskIdParamsView,
    t: TaskView,
    now: u64,
    timestamp: Seq<char>,
    h: Seq<AnswerView>,
    h1: Seq<AnswerView>,
    ended: Result<(), ClientErrorView>,
    h2: Seq<AnswerView>,
)
    requires
        params_of::<TaskIdParams>(request) == Ok::<_, JsonRpcErrorView>(params),
        load_run(request.id, params.id, now, h) == Run::Done(Ok::<_, JsonRpcErrorView>(t), h1),
        !(t.status.state is Canceled || t.status.state is Failed || t.status.state is Rejected),
        end_session_run(d.client, params.id, now, h1) == Run::Done(ended, h2),
    ensures
        tasks_cancel_run(d, request, now, timestamp, h) == store_run(
            d,
            request.id,
            params.id,
            canceled(t, timestamp),
            now,
            h2,
        ),
        canceled(t, timestamp).status.state is Canceled,
        !cancelable(canceled(t, timestamp).status.state),
{
}

/// A stored task that has not been canceled, has not failed and was not rejected is
/// canceled until its time is over, the one that `message/send` returned among them:
/// its session is ended, and then it is stored and returned as canceled. Nothing
/// else of it changes.
pub proof fn stored_task_is_canceled(
    d: DispatcherView,
    request: JsonRpcRequestView,
    params: TaskIdParamsView,
    t: TaskView,
    written_at: u64,
    ttl: u32,
    now: u64,
    timestamp: Seq<char>,
    rest: Seq<AnswerView>,
)
    requires
        params_of::<TaskIdParams>(request) == Ok::<_, JsonRpcErrorView>(params),
        plain_task(t),
        task_kept(t, written_at, ttl),
        !(t.status.state is Canceled || t.status.state is Failed || t.status.state is Rejected),
        now < saturating_sum(written_at, ttl as u64),
    ensures
        ({
            let entry = hot_bytes(bytes_of_json(task_json(t)), written_at, ttl);
            let h = seq![AnswerView::Cached(Some(entry))] + rest;
            tasks_cancel_run(d, request, now, timestamp, h) == match end_session_run(
                d.client,
                params.id,
                now,
                rest,
            ) {
                Run::Do(a) => Run::<Outcome>::Do(a),
                Run::Done(_, h2) => store_run(
                    d,
                    request.id,
                    params.id,
                    canceled(t, timestamp),
                    now,
                    h2,
                ),
            }
        }),
        canceled(t, timestamp).status.state is Canceled,
        canceled(t, timestamp).id == t.id,
        canceled(t, timestamp).history == t.history,
        canceled(t, timestamp).artifacts == t.artifacts,
        plain_task(canceled(t, timestamp)),
        bare_task(t) ==> bare_task(canceled(t, timestamp)),
{
    let payload = bytes_of_json(task_json(t));
    let entry = hot_bytes(payload, written_at, ttl);
    let h = seq![AnswerView::Cached(Some(entry))] + rest;
    assert(hot_entry(Some(entry), now) == HotEntry::Found(payload));
    task_round_trip(t);
    assert(h.drop_first() =~= rest);
}

/// The task that `message/send` returned is still there once it has been canceled:
/// until its time is over `tasks/get` gives it back, in the state `canceled` and
/// with its history.
pub proof fn canceled_task_is_got(
    request: JsonRpcRequestView,
    params: TaskQueryParamsView,
    t: TaskView,
    timestamp: Seq<char>,
    written_at: u64,
    ttl: u32,
    now: u64,
)
    requires
        params_of::<TaskQueryParams>(request) == Ok::<_, JsonRpcErrorView>(params),
        bare_task(t),
        bare_result_kept(task_json(canceled(t, timestamp)), written_at, ttl),
        now < saturating_sum(written_at, ttl as u64),
    ensures
        ({
            let c = canceled(t, timestamp);
            let entry = hot_bytes(bytes_of_json(task_json(c)), written_at, ttl);
            let shown = TaskView { history: recent(t.history, params.history_length), ..c };
            &&& tasks_get_run(request, now, seq![AnswerView::Cached(Some(entry))]) == Run::Done(
                Ok::<_, JsonRpcErrorView>(success_of(request.id, task_json(shown))),
                Seq::empty(),
            )
            &&& shown.status.state is Canceled
        }),
{
    let c = canceled(t, timestamp);
    assert(bare_task(c));
    bare_task_is_storable(c);
    stored_task_is_got(request, params, c, written_at, ttl, now);
}

/// A history that is cut keeps its most recent messages: as many as were asked
/// for, and all of them where there are no more.
pub proof fn cut_history_is_the_end(history: Seq<MessageView>, n: u32)
    ensures
        recent(history, None) == history,
        recent(history, Some(n)).len() == (if history.len() <= n {
            history.len()
        } else {
            n as nat
        }),
        forall|i: int|
            0 <= i < recent(history, Some(n)).len() ==> #[trigger] recent(history, Some(n))[i]
                == history[history.len() - recent(history, Some(n)).len() + i],
{
}

} // verus!
