//! What the outside is asked for, and what it answers, is what the values say.

use vstd::prelude::*;

use crate::effects::{Action, ActionView, Answer, AnswerView, HttpReply, HttpReplyView, HttpRequest};
use crate::gateway::Response;

verus! {

/// A request is its service, its verb, its path, its headers in order, its body and the
/// time it is given; a response its status, its headers in order and its body.
pub proof fn requests_are_what_they_say(r: HttpRequest, s: Response)
    ensures
        r@.upstream == r.upstream,
        r@.method == r.method,
        r.path is None ==> r@.path is None,
        r.path is Some ==> r@.path == Some(r.path->0@),
        r@.headers.len() == r.headers@.len(),
        forall|i: int|
            0 <= i < r.headers@.len() ==> #[trigger] r@.headers[i] == (
                r.headers@[i].0@,
                r.headers@[i].1@,
            ),
        r.body is None ==> r@.body is None,
        r.body is Some ==> r@.body == Some(r.body->0@),
        r@.timeout_ms == r.timeout_ms,
        s@.status == s.status,
        s@.body == s.body@,
        s@.headers.len() == s.headers@.len(),
        forall|i: int|
            0 <= i < s.headers@.len() ==> #[trigger] s@.headers[i] == (
                s.headers@[i].0@,
                s.headers@[i].1@,
            ),
{
}

/// An action and an answer say what is done and what came of it.
pub proof fn actions_are_what_they_say(a: Action, b: Answer, r: HttpReply)
    ensures
        a@ == (match a {
            Action::CacheGet { key } => ActionView::CacheGet { key: key@ },
            Action::CacheSave { key, bytes } => ActionView::CacheSave { key: key@, bytes: bytes@ },
            Action::CacheDelete { key } => ActionView::CacheDelete { key: key@ },
            Action::Send(request) => ActionView::Send(request@),
            Action::FreshId => ActionView::FreshId,
            Action::ReadClock => ActionView::ReadClock,
            Action::ReadBody => ActionView::ReadBody,
        }),
        b matches Answer::Cached(None) ==> b@ == AnswerView::Cached(None),
        b matches Answer::Cached(Some(bytes)) ==> b@ == AnswerView::Cached(Some(bytes@)),
        b matches Answer::Reply(reply) ==> b@ == AnswerView::Reply(reply@),
        b matches Answer::Fresh(id) ==> b@ == AnswerView::Fresh(id@),
        b matches Answer::Clock(n) ==> b@ == AnswerView::Clock(n),
        b matches Answer::Body(bytes) ==> b@ == AnswerView::Body(bytes@),
        r matches HttpReply::Failed(e) ==> r@ == HttpReplyView::Failed(e@),
        r matches HttpReply::Answered { status, body } ==> r@ == (HttpReplyView::Answered {
            status,
            body: body@,
        }),
{
}

} // verus!
