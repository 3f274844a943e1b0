//! From Agentforce to A2A.

use vstd::prelude::*;

use crate::a2a::types::{
    message_of, parts_view, task_of, text_part, Artifact, ArtifactView, Message, MessageView, Part,
    PartView, Task, TaskState, TaskStatus, TaskStatusView, TaskView,
};
use crate::agentforce::client::{AgentforceMessage, AgentforceMessageView, SendMessageResponse};
use crate::encoding::{fresh_id, uuid_shaped};
use crate::json::{
    find_member, lemma_object_view, member, members_view, Json, JsonView, MembersView,
};
use crate::text::{concat2, option_text, texts};

verus! {

/// A message of a conversation: the task is named twice, as task and as context.
pub open spec fn turn(
    role: Seq<char>,
    message_id: Seq<char>,
    parts: Seq<PartView>,
    task_id: Seq<char>,
) -> MessageView {
    MessageView {
        task_id: Some(task_id),
        context_id: Some(task_id),
        ..message_of(role, message_id, parts)
    }
}

/// The user's message.
pub open spec fn user_turn(text: Seq<char>, task_id: Seq<char>, message_id: Seq<char>) -> MessageView {
    turn("user"@, message_id, seq![text_part(text)], task_id)
}

fn turn_of(role: &str, message_id: String, parts: Vec<Part>, task_id: &str) -> (r: Message)
    ensures
        r@ == turn(role@, message_id@, parts_view(parts@), task_id@),
{
    let mut m: Message = Message::new(role, message_id, parts);
    m.task_id = Some(task_id.to_owned());
    m.context_id = Some(task_id.to_owned());
    m
}

/// Builds the user's message. Where it has no id, it is given a random one.
pub fn user_message(text: &str, task_id: &str, message_id: Option<String>) -> (r: Message)
    ensures
        match message_id {
            Some(id) => r@ == user_turn(text@, task_id@, id@),
            None => uuid_shaped(r.message_id@) && r@ == user_turn(
                text@,
                task_id@,
                r.message_id@,
            ),
        },
{
    let id: String = match message_id {
        Some(id) => id,
        None => fresh_id(),
    };
    let parts: Vec<Part> = vec![Part::text(text.to_owned())];
    assert(parts_view(parts@) =~= seq![text_part(text@)]);
    turn_of("user", id, parts, task_id)
}

/// The text of a value: itself where it is one, or that of its member `text`.
/// Empty text counts as none.
pub open spec fn nested_text(v: JsonView) -> Option<Seq<char>> {
    match v {
        JsonView::Text(s) => if s.len() > 0 {
            Some(s)
        } else {
            None
        },
        JsonView::Object(o) => match member(o, "text"@) {
            Some(JsonView::Text(s)) => if s.len() > 0 {
                Some(s)
            } else {
                None
            },
            _ => None,
        },
        _ => None,
    }
}

/// The text under a key.
pub open spec fn text_under(extra: MembersView, key: Seq<char>) -> Option<Seq<char>> {
    match member(extra, key) {
        Some(v) => nested_text(v),
        None => None,
    }
}

/// The text of a message: that of `message`, or else the first that stands under
/// `result`, `text` or `value`.
pub open spec fn message_text(m: AgentforceMessageView) -> Option<Seq<char>> {
    if m.message matches Some(t) && t.len() > 0 {
        m.message
    } else if text_under(m.extra, "result"@) is Some {
        text_under(m.extra, "result"@)
    } else if text_under(m.extra, "text"@) is Some {
        text_under(m.extra, "text"@)
    } else {
        text_under(m.extra, "value"@)
    }
}

fn nested_text_of(v: &Json) -> (r: Option<String>)
    ensures
        option_text(r) == nested_text(v@),
{
    match v {
        Json::Text(s) => if s.as_str().is_empty() {
            None
        } else {
            Some(s.clone())
        },
        Json::Object(o) => {
            proof {
                lemma_object_view(*o);
            }
            match find_member(o, "text") {
                Some(Json::Text(s)) => if s.as_str().is_empty() {
                    None
                } else {
                    Some(s.clone())
                },
                _ => None,
            }
        },
        _ => None,
    }
}

fn text_under_key(extra: &Vec<(String, Json)>, key: &str) -> (r: Option<String>)
    ensures
        option_text(r) == text_under(members_view(extra@), key@),
{
    match find_member(extra, key) {
        Some(v) => nested_text_of(v),
        None => None,
    }
}

/// Finds the text of a message.
pub fn extract_message_text(m: &AgentforceMessage) -> (r: Option<String>)
    ensures
        option_text(r) == message_text(m@),
{
    match &m.message {
        Some(t) => if !t.as_str().is_empty() {
            return Some(t.clone());
        },
        None => {},
    }
    match text_under_key(&m.extra, "result") {
        Some(t) => {
            return Some(t);
        },
        None => {},
    }
    match text_under_key(&m.extra, "text") {
        Some(t) => {
            return Some(t);
        },
        None => {},
    }
    text_under_key(&m.extra, "value")
}

/// The texts of the messages that have one, in order, as parts.
pub open spec fn response_parts(messages: Seq<AgentforceMessageView>) -> Seq<PartView>
    decreases messages.len(),
{
    if messages.len() == 0 {
        Seq::empty()
    } else {
        let init = response_parts(messages.drop_last());
        match message_text(messages.last()) {
            Some(t) => init.push(text_part(t)),
            None => init,
        }
    }
}

/// The id of the first message, where it has one.
pub open spec fn response_id(messages: Seq<AgentforceMessageView>) -> Option<Seq<char>> {
    if messages.len() == 0 {
        None
    } else {
        messages[0].id
    }
}

/// The agent's message.
pub open spec fn agent_turn(
    messages: Seq<AgentforceMessageView>,
    task_id: Seq<char>,
    message_id: Seq<char>,
) -> MessageView {
    turn("agent"@, message_id, response_parts(messages), task_id)
}

/// The artifact of the agent's message: the same parts, under an id of its own.
pub open spec fn agent_artifact(
    messages: Seq<AgentforceMessageView>,
    message_id: Seq<char>,
) -> ArtifactView {
    ArtifactView {
        artifact_id: "agent-response-"@ + message_id,
        name: Some("agent-response"@),
        description: None,
        parts: response_parts(messages),
        metadata: None,
    }
}

/// Whether an answer needs an id that it does not bring: it has text, and its
/// first message has no id.
pub open spec fn needs_id(messages: Seq<AgentforceMessageView>) -> bool {
    response_parts(messages).len() > 0 && response_id(messages) is None
}

/// What an answer comes to: the agent's message and artifact under the answer's
/// id, or else under `other`; nothing where the answer has no text.
pub open spec fn agent_response(
    messages: Seq<AgentforceMessageView>,
    task_id: Seq<char>,
    other: Seq<char>,
) -> (Option<MessageView>, Option<ArtifactView>) {
    let id = match response_id(messages) {
        Some(id) => id,
        None => other,
    };
    if response_parts(messages).len() == 0 {
        (None, None)
    } else {
        (Some(agent_turn(messages, task_id, id)), Some(agent_artifact(messages, id)))
    }
}

/// The values of an optional message and artifact.
pub open spec fn response_view(r: (Option<Message>, Option<Artifact>)) -> (
    Option<MessageView>,
    Option<ArtifactView>,
) {
    (
        match r.0 {
            Some(m) => Some(m@),
            None => None,
        },
        match r.1 {
            Some(a) => Some(a@),
            None => None,
        },
    )
}

fn parts_of(response: &SendMessageResponse) -> (r: Vec<Part>)
    ensures
        parts_view(r@) == response_parts(response@.messages),
{
    let ghost all = response@.messages;
    let mut out: Vec<Part> = Vec::new();
    let n: usize = response.messages.len();
    assert(parts_view(out@) =~= response_parts(all.take(0)));
    for i in 0..n
        invariant
            n == response.messages@.len(),
            all == response@.messages,
            parts_view(out@) == response_parts(all.take(i as int)),
    {
        let ghost before = parts_view(out@);
        assert(all.take(i + 1).drop_last() =~= all.take(i as int));
        assert(all.take(i + 1).last() == response.messages@[i as int]@);
        match extract_message_text(&response.messages[i]) {
            Some(t) => {
                let ghost text = t@;
                out.push(Part::text(t));
                assert(parts_view(out@) =~= before.push(text_part(text)));
            },
            None => {},
        }
    }
    assert(all.take(n as int) =~= all);
    out
}

/// Tells whether an answer needs an id that it does not bring.
pub fn response_needs_id(response: &SendMessageResponse) -> (r: bool)
    ensures
        r == needs_id(response@.messages),
{
    let parts: Vec<Part> = parts_of(response);
    assert(parts_view(parts@).len() == parts@.len());
    if parts.len() == 0 {
        return false;
    }
    if response.messages.len() == 0 {
        return true;
    }
    assert(response@.messages[0] == response.messages@[0]@);
    response.messages[0].id.is_none()
}

/// Builds the agent's message and artifact. Where the answer brings no id,
/// `other` is taken.
pub fn agent_response_with_id(response: &SendMessageResponse, task_id: &str, other: String) -> (r: (
    Option<Message>,
    Option<Artifact>,
))
    ensures
        response_view(r) == agent_response(response@.messages, task_id@, other@),
{
    let parts: Vec<Part> = parts_of(response);
    assert(parts_view(parts@).len() == parts@.len());
    if parts.len() == 0 {
        return (None, None);
    }
    let id: String = if response.messages.len() == 0 {
        other
    } else {
        assert(response@.messages[0] == response.messages@[0]@);
        match &response.messages[0].id {
            Some(id) => id.clone(),
            None => other,
        }
    };
    let artifact = Artifact {
        artifact_id: concat2("agent-response-", id.as_str()),
        name: Some("agent-response".to_owned()),
        description: None,
        parts: parts_of(response),
        metadata: None,
    };
    let message: Message = turn_of("agent", id, parts, task_id);
    (Some(message), Some(artifact))
}

/// Builds the agent's message and artifact. Where the answer brings no id, they
/// are given a random one.
pub fn agent_response_to_a2a(response: &SendMessageResponse, task_id: &str) -> (r: (
    Option<Message>,
    Option<Artifact>,
))
    ensures
        r.0 is None <==> response_parts(response@.messages).len() == 0,
        r.0 is None ==> r.1 is None,
        r.0 matches Some(m) ==> {
            &&& response_view(r) == agent_response(response@.messages, task_id@, m.message_id@)
            &&& needs_id(response@.messages) ==> uuid_shaped(m.message_id@)
        },
{
    if response_needs_id(response) {
        agent_response_with_id(response, task_id, fresh_id())
    } else {
        agent_response_with_id(response, task_id, String::new())
    }
}

/// The task of one exchange: completed, with both turns in its history.
pub open spec fn finished_task(
    task_id: Seq<char>,
    user: MessageView,
    agent: Option<MessageView>,
    artifact: Option<ArtifactView>,
    timestamp: Seq<char>,
) -> TaskView {
    TaskView {
        history: match agent {
            Some(m) => seq![user, m],
            None => seq![user],
        },
        artifacts: match artifact {
            Some(a) => seq![a],
            None => Seq::empty(),
        },
        ..task_of(
            task_id,
            TaskStatusView {
                state: TaskState::Completed,
                timestamp: Some(timestamp),
                message: None,
            },
        )
    }
}

/// Builds the task of one exchange.
pub fn build_task(
    task_id: String,
    user_msg: Message,
    agent_msg: Option<Message>,
    artifact: Option<Artifact>,
    timestamp: String,
) -> (r: Task)
    ensures
        r@ == finished_task(
            task_id@,
            user_msg@,
            response_view((agent_msg, artifact)).0,
            response_view((agent_msg, artifact)).1,
            timestamp@,
        ),
{
    let ghost target = finished_task(
        task_id@,
        user_msg@,
        response_view((agent_msg, artifact)).0,
        response_view((agent_msg, artifact)).1,
        timestamp@,
    );
    let mut task: Task = Task::new(
        task_id,
        TaskStatus { state: TaskState::Completed, timestamp: Some(timestamp), message: None },
    );
    assert(task@.history.len() == 0 && task@.artifacts.len() == 0);
    task.history.push(user_msg);
    match agent_msg {
        Some(m) => {
            task.history.push(m);
        },
        None => {},
    }
    match artifact {
        Some(a) => {
            task.artifacts.push(a);
        },
        None => {},
    }
    assert(task@.history =~= target.history);
    assert(task@.artifacts =~= target.artifacts);
    task
}

/// A finished task, its context, and the task and context of both its turns are
/// one and the same.
pub proof fn task_is_its_own_context(
    task_id: Seq<char>,
    text: Seq<char>,
    message_id: Seq<char>,
    messages: Seq<AgentforceMessageView>,
    other: Seq<char>,
    timestamp: Seq<char>,
)
    ensures
        ({
            let answer = agent_response(messages, task_id, other);
            let t = finished_task(
                task_id,
                user_turn(text, task_id, message_id),
                answer.0,
                answer.1,
                timestamp,
            );
            &&& t.id == task_id
            &&& t.context_id == task_id
            &&& t.status.state is Completed
            &&& forall|i: int|
                0 <= i < t.history.len() ==> (#[trigger] t.history[i]).task_id == Some(task_id)
                    && t.history[i].context_id == Some(task_id)
            &&& t.history.len() > 0
            &&& t.history[0].role == "user"@
            &&& t.history.len() > 1 ==> t.history[1].role == "agent"@
        }),
{
}

/// The agent's message and its artifact hold the same parts, and there is one
/// exactly where there is the other.
pub proof fn message_and_artifact_agree(
    messages: Seq<AgentforceMessageView>,
    task_id: Seq<char>,
    other: Seq<char>,
)
    ensures
        ({
            let answer = agent_response(messages, task_id, other);
            &&& answer.0 is Some == answer.1 is Some
            &&& answer.0 is Some ==> answer.0->0.parts == answer.1->0.parts
            &&& answer.0 is Some ==> answer.1->0.artifact_id == "agent-response-"@
                + answer.0->0.message_id
        }),
{
}

} // verus!
