//! What the crate asks of the gateway, and the record of what came back.
//!
//! An operation that needs the outside world (an HTTP call, the shared cache,
//! the clock) is an ordinary function that reads the answers to its requests
//! from a [`Record`]. Where the record ends too early, the function stops with
//! [`Progress::Do`] and the next [`Action`] to perform. The caller performs it,
//! adds the [`Answer`] to the record and calls the function again, until it
//! comes to [`Progress::Done`]. What the function does with each answer is
//! thereby stated and proved for every answer there can be.

use vstd::prelude::*;

verus! {

/// The verb of an HTTP request.
#[derive(Debug, Clone, Copy, PartialEq, Eq)]
pub enum Method {
    Get,
    Post,
    Put,
    Delete,
}

/// The service that a request goes to.
#[derive(Debug, Clone, Copy, PartialEq, Eq)]
pub enum Upstream {
    /// The Salesforce domain, which issues tokens.
    MyDomain,
    /// The Agentforce API.
    AgentforceApi,
    /// The host of the agent card.
    AgentCardUrl,
    /// The Anypoint platform, which issues tokens.
    AnypointToken,
    /// The Anypoint object store.
    ObjectStore,
    /// Anypoint Exchange.
    Exchange,
}

/// An HTTP request.
#[derive(Debug, PartialEq, Eq)]
pub struct HttpRequest {
    pub upstream: Upstream,
    pub method: Method,
    /// Where it differs from the path that the service is registered with.
    pub path: Option<String>,
    pub headers: Vec<(String, String)>,
    pub body: Option<Vec<u8>>,
    /// How long to wait for the reply, in milliseconds, where it is not left to
    /// the gateway.
    pub timeout_ms: Option<u64>,
}

/// The value of an [`HttpRequest`].
pub struct HttpRequestView {
    pub upstream: Upstream,
    pub method: Method,
    pub path: Option<Seq<char>>,
    pub headers: Seq<(Seq<char>, Seq<char>)>,
    pub body: Option<Seq<u8>>,
    pub timeout_ms: Option<u64>,
}

/// What came of an HTTP request.
#[derive(Debug, PartialEq, Eq)]
pub enum HttpReply {
    /// There was no answer; the reason in words.
    Failed(String),
    Answered { status: u32, body: Vec<u8> },
}

/// The value of an [`HttpReply`].
pub enum HttpReplyView {
    Failed(Seq<char>),
    Answered { status: u32, body: Seq<u8> },
}

/// Something that the gateway does for the crate.
#[derive(Debug, PartialEq, Eq)]
pub enum Action {
    /// Read an entry of the shared cache.
    CacheGet { key: String },
    /// Write an entry of the shared cache.
    CacheSave { key: String, bytes: Vec<u8> },
    /// Drop an entry of the shared cache.
    CacheDelete { key: String },
    /// Send a request and wait for the reply.
    Send(HttpRequest),
    /// Make a fresh identifier.
    FreshId,
    /// Read the clock, in seconds since the start of 1970.
    ReadClock,
    /// Read the body of the inbound request.
    ReadBody,
}

/// The value of an [`Action`].
pub enum ActionView {
    CacheGet { key: Seq<char> },
    CacheSave { key: Seq<char>, bytes: Seq<u8> },
    CacheDelete { key: Seq<char> },
    Send(HttpRequestView),
    FreshId,
    ReadClock,
    ReadBody,
}

/// What came of an [`Action`].
#[derive(Debug, PartialEq, Eq)]
pub enum Answer {
    /// The entry that was read, where there is one.
    Cached(Option<Vec<u8>>),
    /// The entry was written or dropped.
    Acknowledged,
    Reply(HttpReply),
    Fresh(String),
    Clock(u64),
    Body(Vec<u8>),
}

/// The value of an [`Answer`].
pub enum AnswerView {
    Cached(Option<Seq<u8>>),
    Acknowledged,
    Reply(HttpReplyView),
    Fresh(Seq<char>),
    Clock(u64),
    Body(Seq<u8>),
}

/// How far an operation has come.
#[derive(Debug, PartialEq, Eq)]
pub enum Progress<R> {
    /// The action whose answer the operation needs next.
    Do(Action),
    /// What the operation returns.
    Done(R),
}

/// How far an operation comes with given answers.
pub enum Run<V> {
    /// It needs this action performed.
    Do(ActionView),
    /// It is done, with the answers that it has not used.
    Done(V, Seq<AnswerView>),
}

/// The value of optional bytes.
pub open spec fn option_bytes(b: Option<Vec<u8>>) -> Option<Seq<u8>> {
    match b {
        Some(v) => Some(v@),
        None => None,
    }
}

/// The values of pairs of strings.
pub open spec fn pairs_view(v: Seq<(String, String)>) -> Seq<(Seq<char>, Seq<char>)> {
    Seq::new(v.len(), |i: int| (v[i].0@, v[i].1@))
}

impl View for HttpRequest {
    type V = HttpRequestView;

    open spec fn view(&self) -> HttpRequestView {
        HttpRequestView {
            upstream: self.upstream,
            method: self.method,
            path: crate::text::option_text(self.path),
            headers: pairs_view(self.headers@),
            body: option_bytes(self.body),
            timeout_ms: self.timeout_ms,
        }
    }
}

impl View for HttpReply {
    type V = HttpReplyView;

    open spec fn view(&self) -> HttpReplyView {
        match self {
            HttpReply::Failed(e) => HttpReplyView::Failed(e@),
            HttpReply::Answered { status, body } => HttpReplyView::Answered {
                status: *status,
                body: body@,
            },
        }
    }
}

impl View for Action {
    type V = ActionView;

    open spec fn view(&self) -> ActionView {
        match self {
            Action::CacheGet { key } => ActionView::CacheGet { key: key@ },
            Action::CacheSave { key, bytes } => ActionView::CacheSave {
                key: key@,
                bytes: bytes@,
            },
            Action::CacheDelete { key } => ActionView::CacheDelete { key: key@ },
            Action::Send(request) => ActionView::Send(request@),
            Action::FreshId => ActionView::FreshId,
            Action::ReadClock => ActionView::ReadClock,
            Action::ReadBody => ActionView::ReadBody,
        }
    }
}

impl View for Answer {
    type V = AnswerView;

    open spec fn view(&self) -> AnswerView {
        match self {
            Answer::Cached(b) => AnswerView::Cached(option_bytes(*b)),
            Answer::Acknowledged => AnswerView::Acknowledged,
            Answer::Reply(r) => AnswerView::Reply(r@),
            Answer::Fresh(s) => AnswerView::Fresh(s@),
            Answer::Clock(n) => AnswerView::Clock(*n),
            Answer::Body(b) => AnswerView::Body(b@),
        }
    }
}

/// The answers to the actions performed so far, and how many of them have been
/// used.
pub struct Record<'a> {
    answers: &'a Vec<Answer>,
    used: usize,
}

impl<'a> View for Record<'a> {
    type V = Seq<AnswerView>;

    /// The answers that have not been used.
    closed spec fn view(&self) -> Seq<AnswerView> {
        if self.used <= self.answers@.len() {
            answers_view(self.answers@.skip(self.used as int))
        } else {
            Seq::empty()
        }
    }
}

/// The values of answers.
pub open spec fn answers_view(a: Seq<Answer>) -> Seq<AnswerView> {
    Seq::new(a.len(), |i: int| a[i]@)
}

impl<'a> Record<'a> {
    /// A record of which nothing has been used.
    pub fn new(answers: &'a Vec<Answer>) -> (r: Record<'a>)
        ensures
            r@ == answers_view(answers@),
    {
        let r = Record { answers, used: 0 };
        assert(answers@.skip(0) =~= answers@);
        r
    }

    /// The next answer, where there is one.
    fn take(&mut self) -> (r: Option<&'a Answer>)
        ensures
            match r {
                Some(a) => {
                    &&& old(self)@.len() > 0
                    &&& a@ == old(self)@[0]
                    &&& final(self)@ == old(self)@.drop_first()
                },
                None => old(self)@.len() == 0 && final(self)@ == old(self)@,
            },
    {
        let ghost before = self@;
        if self.used < self.answers.len() {
            let a: &'a Answer = &self.answers[self.used];
            assert(before[0] == self.answers@[self.used as int]@);
            self.used = self.used + 1;
            assert(self@ =~= before.drop_first());
            Some(a)
        } else {
            None
        }
    }
}

/// The entry that an answer gives; none where it answers something else.
pub open spec fn entry_of(a: AnswerView) -> Option<Seq<u8>> {
    match a {
        AnswerView::Cached(b) => b,
        _ => None,
    }
}

/// The reply that an answer gives; a failure where it answers something else.
pub open spec fn reply_of(a: AnswerView) -> HttpReplyView {
    match a {
        AnswerView::Reply(r) => r,
        _ => HttpReplyView::Failed("no reply"@),
    }
}

/// The identifier that an answer gives; empty where it answers something else.
pub open spec fn fresh_of(a: AnswerView) -> Seq<char> {
    match a {
        AnswerView::Fresh(s) => s,
        _ => Seq::empty(),
    }
}

/// The time that an answer gives; zero where it answers something else.
pub open spec fn clock_of(a: AnswerView) -> u64 {
    match a {
        AnswerView::Clock(n) => n,
        _ => 0,
    }
}

/// The body that an answer gives; empty where it answers something else.
pub open spec fn body_of(a: AnswerView) -> Seq<u8> {
    match a {
        AnswerView::Body(b) => b,
        _ => Seq::empty(),
    }
}

/// Reading a cache entry.
pub open spec fn cache_get_run(key: Seq<char>, h: Seq<AnswerView>) -> Run<Option<Seq<u8>>> {
    if h.len() == 0 {
        Run::Do(ActionView::CacheGet { key })
    } else {
        Run::Done(entry_of(h[0]), h.drop_first())
    }
}

/// Writing a cache entry.
pub open spec fn cache_save_run(key: Seq<char>, bytes: Seq<u8>, h: Seq<AnswerView>) -> Run<()> {
    if h.len() == 0 {
        Run::Do(ActionView::CacheSave { key, bytes })
    } else {
        Run::Done((), h.drop_first())
    }
}

/// Dropping a cache entry.
pub open spec fn cache_delete_run(key: Seq<char>, h: Seq<AnswerView>) -> Run<()> {
    if h.len() == 0 {
        Run::Do(ActionView::CacheDelete { key })
    } else {
        Run::Done((), h.drop_first())
    }
}

/// Sending a request.
pub open spec fn send_run(request: HttpRequestView, h: Seq<AnswerView>) -> Run<HttpReplyView> {
    if h.len() == 0 {
        Run::Do(ActionView::Send(request))
    } else {
        Run::Done(reply_of(h[0]), h.drop_first())
    }
}

/// Making an identifier.
pub open spec fn fresh_run(h: Seq<AnswerView>) -> Run<Seq<char>> {
    if h.len() == 0 {
        Run::Do(ActionView::FreshId)
    } else {
        Run::Done(fresh_of(h[0]), h.drop_first())
    }
}

/// Reading the clock.
pub open spec fn clock_run(h: Seq<AnswerView>) -> Run<u64> {
    if h.len() == 0 {
        Run::Do(ActionView::ReadClock)
    } else {
        Run::Done(clock_of(h[0]), h.drop_first())
    }
}

/// Reading the inbound body.
pub open spec fn body_run(h: Seq<AnswerView>) -> Run<Seq<u8>> {
    if h.len() == 0 {
        Run::Do(ActionView::ReadBody)
    } else {
        Run::Done(body_of(h[0]), h.drop_first())
    }
}

/// Another vector of the same bytes.
pub fn copy_bytes(b: &[u8]) -> (r: Vec<u8>)
    ensures
        r@ == b@,
{
    let mut out: Vec<u8> = Vec::new();
    out.extend_from_slice(b);
    assert(out@ =~= b@);
    out
}

/// Reads a cache entry.
pub fn cache_get(record: &mut Record, key: &str) -> (r: Progress<Option<Vec<u8>>>)
    ensures
        match r {
            Progress::Do(a) => cache_get_run(key@, old(record)@) == Run::<Option<Seq<u8>>>::Do(a@),
            Progress::Done(v) => cache_get_run(key@, old(record)@) == Run::Done(
                option_bytes(v),
                final(record)@,
            ),
        },
{
    match record.take() {
        None => Progress::Do(Action::CacheGet { key: key.to_owned() }),
        Some(Answer::Cached(Some(b))) => Progress::Done(Some(copy_bytes(b.as_slice()))),
        Some(_) => Progress::Done(None),
    }
}

/// Writes a cache entry.
pub fn cache_save(record: &mut Record, key: &str, bytes: Vec<u8>) -> (r: Progress<()>)
    ensures
        match r {
            Progress::Do(a) => cache_save_run(key@, bytes@, old(record)@) == Run::<()>::Do(a@),
            Progress::Done(v) => cache_save_run(key@, bytes@, old(record)@) == Run::Done(
                (),
                final(record)@,
            ),
        },
{
    match record.take() {
        None => Progress::Do(Action::CacheSave { key: key.to_owned(), bytes }),
        Some(_) => Progress::Done(()),
    }
}

/// Drops a cache entry.
pub fn cache_delete(record: &mut Record, key: &str) -> (r: Progress<()>)
    ensures
        match r {
            Progress::Do(a) => cache_delete_run(key@, old(record)@) == Run::<()>::Do(a@),
            Progress::Done(v) => cache_delete_run(key@, old(record)@) == Run::Done(
                (),
                final(record)@,
            ),
        },
{
    match record.take() {
        None => Progress::Do(Action::CacheDelete { key: key.to_owned() }),
        Some(_) => Progress::Done(()),
    }
}

/// Another reply of the same value.
pub fn copy_reply(reply: &HttpReply) -> (r: HttpReply)
    ensures
        r@ == reply@,
{
    match reply {
        HttpReply::Failed(e) => HttpReply::Failed(e.clone()),
        HttpReply::Answered { status, body } => HttpReply::Answered {
            status: *status,
            body: copy_bytes(body.as_slice()),
        },
    }
}

/// Sends a request.
pub fn send(record: &mut Record, request: HttpRequest) -> (r: Progress<HttpReply>)
    ensures
        match r {
            Progress::Do(a) => send_run(request@, old(record)@) == Run::<HttpReplyView>::Do(a@),
            Progress::Done(v) => send_run(request@, old(record)@) == Run::Done(v@, final(record)@),
        },
{
    match record.take() {
        None => Progress::Do(Action::Send(request)),
        Some(Answer::Reply(reply)) => Progress::Done(copy_reply(reply)),
        Some(_) => Progress::Done(HttpReply::Failed("no reply".to_owned())),
    }
}

/// Makes an identifier.
pub fn fresh(record: &mut Record) -> (r: Progress<String>)
    ensures
        match r {
            Progress::Do(a) => fresh_run(old(record)@) == Run::<Seq<char>>::Do(a@),
            Progress::Done(v) => fresh_run(old(record)@) == Run::Done(v@, final(record)@),
        },
{
    match record.take() {
        None => Progress::Do(Action::FreshId),
        Some(Answer::Fresh(s)) => Progress::Done(s.clone()),
        Some(_) => {
            let s: String = String::new();
            assert(s@ =~= Seq::empty());
            Progress::Done(s)
        },
    }
}

/// Reads the clock.
pub fn clock(record: &mut Record) -> (r: Progress<u64>)
    ensures
        match r {
            Progress::Do(a) => clock_run(old(record)@) == Run::<u64>::Do(a@),
            Progress::Done(v) => clock_run(old(record)@) == Run::Done(v, final(record)@),
        },
{
    match record.take() {
        None => Progress::Do(Action::ReadClock),
        Some(Answer::Clock(n)) => Progress::Done(*n),
        Some(_) => Progress::Done(0),
    }
}

/// Reads the inbound body.
pub fn read_body(record: &mut Record) -> (r: Progress<Vec<u8>>)
    ensures
        match r {
            Progress::Do(a) => body_run(old(record)@) == Run::<Seq<u8>>::Do(a@),
            Progress::Done(v) => body_run(old(record)@) == Run::Done(v@, final(record)@),
        },
{
    match record.take() {
        None => Progress::Do(Action::ReadBody),
        Some(Answer::Body(b)) => Progress::Done(copy_bytes(b.as_slice())),
        Some(_) => {
            let b: Vec<u8> = Vec::new();
            assert(b@ =~= Seq::empty());
            Progress::Done(b)
        },
    }
}

/// Whether a status is a success.
pub open spec fn success(status: u32) -> bool {
    200 <= status < 300
}

/// Tells whether a status is a success.
pub fn is_success(status: u32) -> (r: bool)
    ensures
        r == success(status),
{
    200 <= status && status < 300
}

/// The headers of those names and values.
pub fn header(name: &str, value: &str) -> (r: (String, String))
    ensures
        r.0@ == name@,
        r.1@ == value@,
{
    (name.to_owned(), value.to_owned())
}

} // verus!
