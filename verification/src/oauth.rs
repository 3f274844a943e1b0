//! Access tokens by the client-credentials grant of OAuth 2.0.
//!
//! The same exchange serves Salesforce and the Anypoint platform: a form is
//! posted, the answer carries a token, and the token is kept in the shared cache
//! until shortly before its end.

use vstd::prelude::*;
use vstd::utf8::encode_utf8;

use crate::cache::{
    cached_token_is_used_until_its_margin, fresh_token, saturating_sum, token_json, token_lasting,
    usable_token, CachedToken,
};
use crate::decode::{
    check, number_at, number_of_field, read_record, record_of_bytes, shape_error, text_at,
    text_of_field, Rec, Shape,
};
use crate::effects::{
    cache_delete, cache_delete_run, cache_get, cache_get_run, cache_save, cache_save_run,
    copy_bytes, header, is_success, pairs_view, send, send_run, success, ActionView, AnswerView,
    HttpReply, HttpReplyView, HttpRequest, HttpRequestView, Method, Progress, Record, Run, Upstream,
};
use crate::encoding::{form3, form_encode};
use crate::json::{bytes_of_json, reading_view, Json, JsonView};
use crate::text::option_text;

verus! {

/// How long a token lasts where the answer does not say, in seconds.
pub const DEFAULT_EXPIRES_IN_SECS: u64 = 1800;

/// The answer to a token request.
#[derive(Debug, PartialEq, Eq)]
pub struct TokenResponse {
    pub access_token: String,
    pub expires_in: u64,
}

/// The value of a [`TokenResponse`].
pub struct TokenResponseView {
    pub access_token: Seq<char>,
    pub expires_in: u64,
}

impl View for TokenResponse {
    type V = TokenResponseView;

    open spec fn view(&self) -> TokenResponseView {
        TokenResponseView {
            access_token: self.access_token@,
            expires_in: self.expires_in,
        }
    }
}

impl TokenResponse {
    /// Another one of the same value.
    pub fn copy(&self) -> (r: TokenResponse)
        ensures
            r@ == self@,
    {
        TokenResponse {
            access_token: self.access_token.clone(),
            expires_in: self.expires_in,
        }
    }
}

impl Clone for TokenResponse {
    fn clone(&self) -> (r: Self)
        ensures
            r@ == self@,
    {
        self.copy()
    }
}

/// The answer that a body holds, once it has been read as JSON.
pub open spec fn token_response(doc: Result<JsonView, Seq<char>>) -> Result<
    TokenResponseView,
    Seq<char>,
> {
    match doc {
        Err(e) => Err(e),
        Ok(v) => match shape_error(Shape::Record(Rec::Token), v) {
            Some(e) => Err(e),
            None => Ok(
                TokenResponseView {
                    access_token: text_at(Rec::Token, v, "access_token"@),
                    expires_in: number_at(Rec::Token, v, "expires_in"@, DEFAULT_EXPIRES_IN_SECS),
                },
            ),
        },
    }
}

/// The value of an answer that was read.
pub open spec fn token_response_result(r: Result<TokenResponse, String>) -> Result<
    TokenResponseView,
    Seq<char>,
> {
    match r {
        Ok(t) => Ok(t@),
        Err(e) => Err(e@),
    }
}

impl TokenResponse {
    /// Takes the answer out of a body that has been read as JSON.
    pub fn of(doc: Result<Json, String>) -> (r: Result<TokenResponse, String>)
        ensures
            token_response_result(r) == token_response(reading_view(doc)),
    {
        let j: Json = match doc {
            Ok(j) => j,
            Err(e) => {
                return Err(e);
            },
        };
        match check(Shape::Record(Rec::Token), &j) {
            Some(e) => Err(e),
            None => Ok(
                TokenResponse {
                    access_token: text_of_field(Rec::Token, &j, "access_token"),
                    expires_in: number_of_field(
                        Rec::Token,
                        &j,
                        "expires_in",
                        DEFAULT_EXPIRES_IN_SECS,
                    ),
                },
            ),
        }
    }

    /// Takes the answer out of a body.
    pub fn parse(body: &[u8]) -> (r: Result<TokenResponse, String>)
        ensures
            token_response_result(r) == token_response(record_of_bytes(Rec::Token, body@)),
    {
        TokenResponse::of(read_record(Rec::Token, body))
    }
}

/// What came of a token request.
#[derive(Debug, PartialEq, Eq)]
pub enum Grant {
    Issued(TokenResponse),
    /// There was no answer.
    Transport(String),
    /// The answer was a refusal.
    Status { status: u32, body: Vec<u8> },
    /// The answer could not be read.
    BadJson(String),
    /// The answer carries an empty token.
    Empty,
}

/// The value of a [`Grant`].
pub enum GrantView {
    Issued(TokenResponseView),
    Transport(Seq<char>),
    Status { status: u32, body: Seq<u8> },
    BadJson(Seq<char>),
    Empty,
}

impl View for Grant {
    type V = GrantView;

    open spec fn view(&self) -> GrantView {
        match self {
            Grant::Issued(t) => GrantView::Issued(t@),
            Grant::Transport(e) => GrantView::Transport(e@),
            Grant::Status { status, body } => GrantView::Status { status: *status, body: body@ },
            Grant::BadJson(e) => GrantView::BadJson(e@),
            Grant::Empty => GrantView::Empty,
        }
    }
}

/// What came of a token request, by the reply to it.
pub open spec fn grant_of(reply: HttpReplyView) -> GrantView {
    match reply {
        HttpReplyView::Failed(e) => GrantView::Transport(e),
        HttpReplyView::Answered { status, body } => if !success(status) {
            GrantView::Status { status, body }
        } else {
            match token_response(record_of_bytes(Rec::Token, body)) {
                Err(e) => GrantView::BadJson(e),
                Ok(t) => if t.access_token.len() == 0 {
                    GrantView::Empty
                } else {
                    GrantView::Issued(t)
                },
            }
        },
    }
}

/// Tells what came of a token request.
pub fn granted(reply: HttpReply) -> (r: Grant)
    ensures
        r@ == grant_of(reply@),
{
    match reply {
        HttpReply::Failed(e) => Grant::Transport(e),
        HttpReply::Answered { status, body } => if !is_success(status) {
            Grant::Status { status, body }
        } else {
            match TokenResponse::parse(body.as_slice()) {
                Err(e) => Grant::BadJson(e),
                Ok(t) => if t.access_token.as_str().is_empty() {
                    Grant::Empty
                } else {
                    Grant::Issued(t)
                },
            }
        },
    }
}

/// The form of a token request.
pub open spec fn grant_form(client_id: Seq<char>, client_secret: Seq<char>) -> Seq<char> {
    form3(
        ("grant_type"@, "client_credentials"@),
        ("client_id"@, client_id),
        ("client_secret"@, client_secret),
    )
}

/// A token request.
pub open spec fn grant_request(
    upstream: Upstream,
    path: Option<Seq<char>>,
    client_id: Seq<char>,
    client_secret: Seq<char>,
    timeout_ms: Option<u64>,
) -> HttpRequestView {
    HttpRequestView {
        upstream,
        method: Method::Post,
        path,
        headers: seq![
            ("content-type"@, "application/x-www-form-urlencoded"@),
            ("accept"@, "application/json"@),
        ],
        body: Some(encode_utf8(grant_form(client_id, client_secret))),
        timeout_ms,
    }
}

/// Builds a token request.
pub fn token_request(
    upstream: Upstream,
    path: Option<String>,
    client_id: &str,
    client_secret: &str,
    timeout_ms: Option<u64>,
) -> (r: HttpRequest)
    ensures
        r@ == grant_request(upstream, option_text(path), client_id@, client_secret@, timeout_ms),
{
    let form: String = form_encode(
        ("grant_type", "client_credentials"),
        ("client_id", client_id),
        ("client_secret", client_secret),
    );
    let headers: Vec<(String, String)> = vec![
        header("content-type", "application/x-www-form-urlencoded"),
        header("accept", "application/json"),
    ];
    assert(pairs_view(headers@) =~= seq![
        ("content-type"@, "application/x-www-form-urlencoded"@),
        ("accept"@, "application/json"@),
    ]);
    HttpRequest {
        upstream,
        method: Method::Post,
        path,
        headers,
        body: Some(copy_bytes(form.as_str().as_bytes())),
        timeout_ms,
    }
}

/// The bytes of the cache entry of a token that was issued at `now`.
pub open spec fn token_entry(t: TokenResponseView, now: u64) -> Seq<u8> {
    bytes_of_json(token_json(token_lasting(t.access_token, now, t.expires_in)))
}

/// Whether the entry of a token gives the token back until its margin begins.
pub open spec fn token_kept(t: TokenResponseView, saved_at: u64) -> bool {
    forall|now: u64, margin: u32| #[trigger]
        usable_token(Some(token_entry(t, saved_at)), now, margin) == (if now + margin
            < saturating_sum(saved_at, t.expires_in) {
            Some(t.access_token)
        } else {
            None
        })
}

/// Whether an action that saves something saves a token that the cache gives
/// back until its margin begins.
pub open spec fn saves_kept_token(a: ActionView, now: u64) -> bool {
    a matches ActionView::CacheSave { bytes, .. } ==> exists|t: TokenResponseView| #[trigger]
        token_kept(t, now) && bytes == token_entry(t, now)
}

/// Requesting a token and putting it in the cache.
pub open spec fn issue_run(
    key: Seq<char>,
    request: HttpRequestView,
    now: u64,
    h: Seq<AnswerView>,
) -> Run<Result<Seq<char>, GrantView>> {
    match send_run(request, h) {
        Run::Do(a) => Run::Do(a),
        Run::Done(reply, h1) => match grant_of(reply) {
            GrantView::Issued(t) => match cache_save_run(key, token_entry(t, now), h1) {
                Run::Do(a) => Run::Do(a),
                Run::Done(_, h2) => Run::Done(Ok(t.access_token), h2),
            },
            g => Run::Done(Err(g), h1),
        },
    }
}

/// Getting a token: from the cache, where an entry there can still be used, and
/// else by a request. Where it is to be refreshed, the entry is dropped first
/// and not looked at.
pub open spec fn token_run(
    key: Seq<char>,
    request: HttpRequestView,
    now: u64,
    margin: u32,
    refresh: bool,
    h: Seq<AnswerView>,
) -> Run<Result<Seq<char>, GrantView>> {
    if refresh {
        match cache_delete_run(key, h) {
            Run::Do(a) => Run::Do(a),
            Run::Done(_, h1) => issue_run(key, request, now, h1),
        }
    } else {
        match cache_get_run(key, h) {
            Run::Do(a) => Run::Do(a),
            Run::Done(entry, h1) => match usable_token(entry, now, margin) {
                Some(t) => Run::Done(Ok(t), h1),
                None => issue_run(key, request, now, h1),
            },
        }
    }
}

/// The value of a token that was got.
pub open spec fn token_result(r: Result<String, Grant>) -> Result<Seq<char>, GrantView> {
    match r {
        Ok(t) => Ok(t@),
        Err(g) => Err(g@),
    }
}

fn issue(record: &mut Record, key: &str, request: HttpRequest, now: u64) -> (r: Progress<
    Result<String, Grant>,
>)
    ensures
        match r {
            Progress::Do(a) => issue_run(key@, request@, now, old(record)@) == Run::<
                Result<Seq<char>, GrantView>,
            >::Do(a@),
            Progress::Done(v) => issue_run(key@, request@, now, old(record)@) == Run::Done(
                token_result(v),
                final(record)@,
            ),
        },
        r matches Progress::Do(a) ==> saves_kept_token(a@, now),
{
    let reply: HttpReply = match send(record, request) {
        Progress::Do(a) => {
            return Progress::Do(a);
        },
        Progress::Done(reply) => reply,
    };
    match granted(reply) {
        Grant::Issued(t) => {
            let entry: CachedToken = CachedToken::new(t.access_token.clone(), now, t.expires_in);
            let bytes: Vec<u8> = entry.to_bytes();
            proof {
                assert forall|later: u64, margin: u32| #[trigger]
                    usable_token(Some(token_entry(t@, now)), later, margin) == (if later + margin
                        < saturating_sum(now, t@.expires_in) {
                        Some(t@.access_token)
                    } else {
                        None
                    }) by {
                    cached_token_is_used_until_its_margin(
                        t@.access_token,
                        now,
                        t@.expires_in,
                        bytes@,
                        later,
                        margin,
                    );
                }
                assert(token_kept(t@, now));
            }
            match cache_save(record, key, bytes) {
                Progress::Do(a) => Progress::Do(a),
                Progress::Done(_) => Progress::Done(Ok(t.access_token)),
            }
        },
        g => Progress::Done(Err(g)),
    }
}

/// Gets a token.
pub fn obtain_token(
    record: &mut Record,
    key: &str,
    request: HttpRequest,
    now: u64,
    margin: u32,
    refresh: bool,
) -> (r: Progress<Result<String, Grant>>)
    ensures
        match r {
            Progress::Do(a) => token_run(key@, request@, now, margin, refresh, old(record)@)
                == Run::<Result<Seq<char>, GrantView>>::Do(a@),
            Progress::Done(v) => token_run(key@, request@, now, margin, refresh, old(record)@)
                == Run::Done(token_result(v), final(record)@),
        },
        r matches Progress::Do(a) ==> saves_kept_token(a@, now),
{
    if refresh {
        match cache_delete(record, key) {
            Progress::Do(a) => {
                return Progress::Do(a);
            },
            Progress::Done(_) => {},
        }
    } else {
        let entry: Option<Vec<u8>> = match cache_get(record, key) {
            Progress::Do(a) => {
                return Progress::Do(a);
            },
            Progress::Done(entry) => entry,
        };
        match fresh_token(&entry, now, margin) {
            Some(t) => {
                return Progress::Done(Ok(t));
            },
            None => {},
        }
    }
    issue(record, key, request, now)
}

/// While the cache holds a token that can be used, none is requested.
pub proof fn usable_token_needs_no_request(
    key: Seq<char>,
    request: HttpRequestView,
    now: u64,
    margin: u32,
    entry: Seq<u8>,
    rest: Seq<AnswerView>,
)
    requires
        usable_token(Some(entry), now, margin) is Some,
    ensures
        token_run(
            key,
            request,
            now,
            margin,
            false,
            seq![AnswerView::Cached(Some(entry))] + rest,
        ) == Run::Done(
            Ok::<Seq<char>, GrantView>(usable_token(Some(entry), now, margin)->0),
            rest,
        ),
{
    let h = seq![AnswerView::Cached(Some(entry))] + rest;
    assert(h.drop_first() =~= rest);
}

/// To refresh a token is to drop its cache entry first, and then to request a
/// new one whatever the cache holds.
pub proof fn refreshing_drops_the_entry(
    key: Seq<char>,
    request: HttpRequestView,
    now: u64,
    margin: u32,
    dropped: AnswerView,
)
    ensures
        token_run(key, request, now, margin, true, Seq::empty()) == Run::<
            Result<Seq<char>, GrantView>,
        >::Do(crate::effects::ActionView::CacheDelete { key }),
        token_run(key, request, now, margin, true, seq![dropped]) == Run::<
            Result<Seq<char>, GrantView>,
        >::Do(crate::effects::ActionView::Send(request)),
{
    assert(seq![dropped].drop_first() =~= Seq::empty());
}

} // verus!
