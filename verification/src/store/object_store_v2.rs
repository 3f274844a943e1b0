//! The Anypoint object store.
//!
//!   * token: `POST` to the token address
//!   * values: `GET`, `PUT` and `DELETE` of
//!     `/api/v1/organizations/{org}/environments/{env}/data/{store}/keys/{key}`
//!   * the store itself: `POST` to
//!     `/api/v1/organizations/{org}/environments/{env}/stores`
//!
//! A read that fails counts as no value, and a write that fails is let go.

use vstd::prelude::*;
use vstd::string::StringExecFns;

use crate::cache::{token_cache_key, token_key, ANYPOINT_TOKEN_PREFIX};
use crate::effects::{
    cache_get, cache_get_run, cache_save, cache_save_run, copy_bytes, header, is_success,
    pairs_view, send, send_run, success, AnswerView, HttpReply, HttpReplyView, HttpRequest,
    HttpRequestView, Method, Progress, Record, Run, Upstream,
};
use crate::encoding::{url_encode, url_encoded, url_encoded_is_one_segment};
use crate::json::{bytes_of_json, number_json, write_json, Json, JsonView, Members, NumberView};
use crate::oauth::{grant_request, obtain_token, token_request, token_run, Grant, GrantView};
use crate::text::{concat2, concat4, decimal, decimal_text};

verus! {

/// What is needed to reach the object store.
#[derive(Debug, PartialEq, Eq)]
pub struct OS2Config {
    pub anypoint_client_id: String,
    pub anypoint_client_secret: String,
    pub anypoint_org_id: String,
    pub anypoint_env_id: String,
    pub object_store_id: String,
    /// The address that issues the tokens, which the cache key goes by.
    pub anypoint_token_url_for_cache_key: String,
    pub cache_safety_margin_seconds: u32,
    /// How long to wait for a read or a write.
    pub timeout_ms: u64,
    /// Whether the store is created on first use.
    pub auto_create_store: bool,
    /// Whether nothing is read or written at all.
    pub disable_object_store: bool,
    /// How long values last in a store that is created.
    pub object_store_ttl_seconds: u32,
}

/// The value of an [`OS2Config`].
pub struct OS2ConfigView {
    pub anypoint_client_id: Seq<char>,
    pub anypoint_client_secret: Seq<char>,
    pub anypoint_org_id: Seq<char>,
    pub anypoint_env_id: Seq<char>,
    pub object_store_id: Seq<char>,
    pub anypoint_token_url_for_cache_key: Seq<char>,
    pub cache_safety_margin_seconds: u32,
    pub timeout_ms: u64,
    pub auto_create_store: bool,
    pub disable_object_store: bool,
    pub object_store_ttl_seconds: u32,
}

impl View for OS2Config {
    type V = OS2ConfigView;

    open spec fn view(&self) -> OS2ConfigView {
        OS2ConfigView {
            anypoint_client_id: self.anypoint_client_id@,
            anypoint_client_secret: self.anypoint_client_secret@,
            anypoint_org_id: self.anypoint_org_id@,
            anypoint_env_id: self.anypoint_env_id@,
            object_store_id: self.object_store_id@,
            anypoint_token_url_for_cache_key: self.anypoint_token_url_for_cache_key@,
            cache_safety_margin_seconds: self.cache_safety_margin_seconds,
            timeout_ms: self.timeout_ms,
            auto_create_store: self.auto_create_store,
            disable_object_store: self.disable_object_store,
            object_store_ttl_seconds: self.object_store_ttl_seconds,
        }
    }
}

impl OS2Config {
    /// Another one of the same value.
    pub fn copy(&self) -> (r: OS2Config)
        ensures
            r@ == self@,
    {
        OS2Config {
            anypoint_client_id: self.anypoint_client_id.clone(),
            anypoint_client_secret: self.anypoint_client_secret.clone(),
            anypoint_org_id: self.anypoint_org_id.clone(),
            anypoint_env_id: self.anypoint_env_id.clone(),
            object_store_id: self.object_store_id.clone(),
            anypoint_token_url_for_cache_key: self.anypoint_token_url_for_cache_key.clone(),
            cache_safety_margin_seconds: self.cache_safety_margin_seconds,
            timeout_ms: self.timeout_ms,
            auto_create_store: self.auto_create_store,
            disable_object_store: self.disable_object_store,
            object_store_ttl_seconds: self.object_store_ttl_seconds,
        }
    }
}

impl Clone for OS2Config {
    fn clone(&self) -> (r: Self)
        ensures
            r@ == self@,
    {
        self.copy()
    }
}

/// Why there is no token for the object store.
#[derive(Debug, PartialEq, Eq)]
pub enum OS2Error {
    Transport { endpoint: &'static str, source: String },
    HttpStatus { operation: &'static str, status: u32 },
    BadTokenJson(String),
    MissingAccessToken,
}

/// The value of an [`OS2Error`].
pub enum OS2ErrorView {
    Transport { endpoint: Seq<char>, source: Seq<char> },
    HttpStatus { operation: Seq<char>, status: u32 },
    BadTokenJson(Seq<char>),
    MissingAccessToken,
}

impl View for OS2Error {
    type V = OS2ErrorView;

    open spec fn view(&self) -> OS2ErrorView {
        match self {
            OS2Error::Transport { endpoint, source } => OS2ErrorView::Transport {
                endpoint: endpoint@,
                source: source@,
            },
            OS2Error::HttpStatus { operation, status } => OS2ErrorView::HttpStatus {
                operation: operation@,
                status: *status,
            },
            OS2Error::BadTokenJson(e) => OS2ErrorView::BadTokenJson(e@),
            OS2Error::MissingAccessToken => OS2ErrorView::MissingAccessToken,
        }
    }
}

/// The error in words.
pub open spec fn os2_error_text(e: OS2ErrorView) -> Seq<char> {
    match e {
        OS2ErrorView::Transport { endpoint, source } => "transport error talking to "@ + endpoint
            + ": "@ + source,
        OS2ErrorView::HttpStatus { operation, status } => "OS v2 returned HTTP "@ + decimal(
            status as nat,
        ) + " on "@ + operation,
        OS2ErrorView::BadTokenJson(s) => "OS v2 token endpoint response was not valid JSON: "@ + s,
        OS2ErrorView::MissingAccessToken => {
            "OS v2 token endpoint response missing access_token"@
        },
    }
}

impl OS2Error {
    /// The error in words.
    pub fn message(&self) -> (r: String)
        ensures
            r@ == os2_error_text(self@),
    {
        match self {
            OS2Error::Transport { endpoint, source } => concat4(
                "transport error talking to ",
                endpoint,
                ": ",
                source.as_str(),
            ),
            OS2Error::HttpStatus { operation, status } => concat4(
                "OS v2 returned HTTP ",
                decimal_text(*status as u64).as_str(),
                " on ",
                operation,
            ),
            OS2Error::BadTokenJson(s) => concat2(
                "OS v2 token endpoint response was not valid JSON: ",
                s.as_str(),
            ),
            OS2Error::MissingAccessToken => {
                "OS v2 token endpoint response missing access_token".to_owned()
            },
        }
    }
}

/// What came of a read.
#[derive(Debug, PartialEq, Eq)]
pub enum GetOutcome {
    Found(Vec<u8>),
    NotFound,
    /// The store could not be read.
    Degraded,
}

/// The value of a [`GetOutcome`].
pub enum GetOutcomeView {
    Found(Seq<u8>),
    NotFound,
    Degraded,
}

impl View for GetOutcome {
    type V = GetOutcomeView;

    open spec fn view(&self) -> GetOutcomeView {
        match self {
            GetOutcome::Found(b) => GetOutcomeView::Found(b@),
            GetOutcome::NotFound => GetOutcomeView::NotFound,
            GetOutcome::Degraded => GetOutcomeView::Degraded,
        }
    }
}

/// The object store.
#[derive(Debug, PartialEq, Eq)]
pub struct ObjectStoreV2 {
    pub cfg: OS2Config,
}

impl View for ObjectStoreV2 {
    type V = OS2ConfigView;

    open spec fn view(&self) -> OS2ConfigView {
        self.cfg@
    }
}

/// The cache key of the token.
pub open spec fn store_token_key(c: OS2ConfigView) -> Seq<char> {
    token_key("anypoint-os2"@, c.anypoint_client_id, c.anypoint_token_url_for_cache_key)
}

/// The cache key of the note that the store exists.
pub open spec fn sentinel_key(c: OS2ConfigView) -> Seq<char> {
    "os2_store_ready:"@ + c.anypoint_org_id + ":"@ + c.anypoint_env_id + ":"@ + c.object_store_id
}

/// The path of an environment.
pub open spec fn environment_path(c: OS2ConfigView) -> Seq<char> {
    "/api/v1/organizations/"@ + url_encoded(c.anypoint_org_id) + "/environments/"@ + url_encoded(
        c.anypoint_env_id,
    )
}

/// The path at which stores are created.
pub open spec fn admin_path(c: OS2ConfigView) -> Seq<char> {
    environment_path(c) + "/stores"@
}

/// The path of a value.
pub open spec fn value_path(c: OS2ConfigView, key: Seq<char>) -> Seq<char> {
    environment_path(c) + "/data/"@ + url_encoded(c.object_store_id) + "/keys/"@ + url_encoded(key)
}

/// The request for a token.
pub open spec fn store_token_request(c: OS2ConfigView) -> HttpRequestView {
    grant_request(
        Upstream::AnypointToken,
        None,
        c.anypoint_client_id,
        c.anypoint_client_secret,
        None,
    )
}

/// The error that a failed token request comes to.
pub open spec fn os2_error(g: GrantView) -> OS2ErrorView {
    match g {
        GrantView::Transport(source) => OS2ErrorView::Transport {
            endpoint: "anypoint-oauth2"@,
            source,
        },
        GrantView::Status { status, .. } => OS2ErrorView::HttpStatus {
            operation: "anypoint-oauth2"@,
            status,
        },
        GrantView::BadJson(e) => OS2ErrorView::BadTokenJson(e),
        _ => OS2ErrorView::MissingAccessToken,
    }
}

fn os2_error_of(g: Grant) -> (r: OS2Error)
    ensures
        r@ == os2_error(g@),
{
    match g {
        Grant::Transport(source) => OS2Error::Transport { endpoint: "anypoint-oauth2", source },
        Grant::Status { status, .. } => OS2Error::HttpStatus {
            operation: "anypoint-oauth2",
            status,
        },
        Grant::BadJson(e) => OS2Error::BadTokenJson(e),
        _ => OS2Error::MissingAccessToken,
    }
}

/// Getting a token for the object store.
pub open spec fn store_token_run(c: OS2ConfigView, now: u64, refresh: bool, h: Seq<AnswerView>) -> Run<
    Result<Seq<char>, OS2ErrorView>,
> {
    match token_run(
        store_token_key(c),
        store_token_request(c),
        now,
        c.cache_safety_margin_seconds,
        refresh,
        h,
    ) {
        Run::Do(a) => Run::Do(a),
        Run::Done(Ok(t), h1) => Run::Done(Ok(t), h1),
        Run::Done(Err(g), h1) => Run::Done(Err(os2_error(g)), h1),
    }
}

/// The value of a token that was got.
pub open spec fn store_token_result(r: Result<String, OS2Error>) -> Result<
    Seq<char>,
    OS2ErrorView,
> {
    match r {
        Ok(t) => Ok(t@),
        Err(e) => Err(e@),
    }
}

/// The header that carries a token.
pub open spec fn bearer(token: Seq<char>) -> (Seq<char>, Seq<char>) {
    ("authorization"@, "Bearer "@ + token)
}

/// The body of a request to create the store.
pub open spec fn create_json(c: OS2ConfigView) -> JsonView {
    JsonView::Object(
        seq![
            ("objectStoreId"@, JsonView::Text(c.object_store_id)),
            ("persistent"@, JsonView::Bool(true)),
            (
                "ttl"@,
                JsonView::Number(NumberView::PosInt(c.object_store_ttl_seconds as u64)),
            ),
        ],
    )
}

/// The request to create the store.
pub open spec fn create_request(c: OS2ConfigView, token: Seq<char>) -> HttpRequestView {
    HttpRequestView {
        upstream: Upstream::ObjectStore,
        method: Method::Post,
        path: Some(admin_path(c)),
        headers: seq![
            bearer(token),
            ("content-type"@, "application/json"@),
            ("accept"@, "application/json"@),
        ],
        body: Some(bytes_of_json(create_json(c))),
        timeout_ms: None,
    }
}

/// The request to read a value.
pub open spec fn get_request(c: OS2ConfigView, key: Seq<char>, token: Seq<char>) -> HttpRequestView {
    HttpRequestView {
        upstream: Upstream::ObjectStore,
        method: Method::Get,
        path: Some(value_path(c, key)),
        headers: seq![bearer(token), ("accept"@, "application/json"@)],
        body: None,
        timeout_ms: Some(c.timeout_ms),
    }
}

/// The request to write a value.
pub open spec fn put_request(
    c: OS2ConfigView,
    key: Seq<char>,
    value: Seq<u8>,
    token: Seq<char>,
) -> HttpRequestView {
    HttpRequestView {
        upstream: Upstream::ObjectStore,
        method: Method::Put,
        path: Some(value_path(c, key)),
        headers: seq![bearer(token), ("content-type"@, "application/json"@)],
        body: Some(value),
        timeout_ms: Some(c.timeout_ms),
    }
}

/// The request to drop a value.
pub open spec fn delete_request(c: OS2ConfigView, key: Seq<char>, token: Seq<char>) -> HttpRequestView {
    HttpRequestView {
        upstream: Upstream::ObjectStore,
        method: Method::Delete,
        path: Some(value_path(c, key)),
        headers: seq![bearer(token)],
        body: None,
        timeout_ms: Some(c.timeout_ms),
    }
}

/// Whether a reply means that the store exists: it was created, or was there
/// before.
pub open spec fn store_exists(reply: HttpReplyView) -> bool {
    reply matches HttpReplyView::Answered { status, .. } && (success(status) || status == 409)
}

/// Making sure that the store exists. Once that is known, it is noted in the
/// cache and not asked again; a failure is not noted.
pub open spec fn ensure_store_run(c: OS2ConfigView, now: u64, h: Seq<AnswerView>) -> Run<()> {
    if c.disable_object_store || !c.auto_create_store {
        Run::Done((), h)
    } else {
        match cache_get_run(sentinel_key(c), h) {
            Run::Do(a) => Run::Do(a),
            Run::Done(Some(_), h1) => Run::Done((), h1),
            Run::Done(None, h1) => match store_token_run(c, now, false, h1) {
                Run::Do(a) => Run::Do(a),
                Run::Done(Err(_), h2) => Run::Done((), h2),
                Run::Done(Ok(token), h2) => match send_run(create_request(c, token), h2) {
                    Run::Do(a) => Run::Do(a),
                    Run::Done(reply, h3) => if store_exists(reply) {
                        cache_save_run(sentinel_key(c), seq![1u8], h3)
                    } else {
                        Run::Done((), h3)
                    },
                },
            },
        }
    }
}

/// What a reply to a read comes to.
pub open spec fn read_outcome(reply: HttpReplyView) -> GetOutcomeView {
    match reply {
        HttpReplyView::Failed(_) => GetOutcomeView::Degraded,
        HttpReplyView::Answered { status, body } => if status == 200 {
            GetOutcomeView::Found(body)
        } else if status == 404 {
            GetOutcomeView::NotFound
        } else {
            GetOutcomeView::Degraded
        },
    }
}

/// Reading a value.
pub open spec fn get_run(c: OS2ConfigView, key: Seq<char>, now: u64, h: Seq<AnswerView>) -> Run<
    GetOutcomeView,
> {
    if c.disable_object_store {
        Run::Done(GetOutcomeView::NotFound, h)
    } else {
        match ensure_store_run(c, now, h) {
            Run::Do(a) => Run::Do(a),
            Run::Done(_, h1) => match store_token_run(c, now, false, h1) {
                Run::Do(a) => Run::Do(a),
                Run::Done(Err(_), h2) => Run::Done(GetOutcomeView::Degraded, h2),
                Run::Done(Ok(token), h2) => match send_run(get_request(c, key, token), h2) {
                    Run::Do(a) => Run::Do(a),
                    Run::Done(reply, h3) => Run::Done(read_outcome(reply), h3),
                },
            },
        }
    }
}

/// Writing a value. Whatever comes back is let go.
pub open spec fn put_run(
    c: OS2ConfigView,
    key: Seq<char>,
    value: Seq<u8>,
    now: u64,
    h: Seq<AnswerView>,
) -> Run<()> {
    if c.disable_object_store {
        Run::Done((), h)
    } else {
        match ensure_store_run(c, now, h) {
            Run::Do(a) => Run::Do(a),
            Run::Done(_, h1) => match store_token_run(c, now, false, h1) {
                Run::Do(a) => Run::Do(a),
                Run::Done(Err(_), h2) => Run::Done((), h2),
                Run::Done(Ok(token), h2) => match send_run(put_request(c, key, value, token), h2) {
                    Run::Do(a) => Run::Do(a),
                    Run::Done(_, h3) => Run::Done((), h3),
                },
            },
        }
    }
}

/// Dropping a value. Whatever comes back is let go, and no store is created for
/// it.
pub open spec fn delete_run(c: OS2ConfigView, key: Seq<char>, now: u64, h: Seq<AnswerView>) -> Run<
    (),
> {
    if c.disable_object_store {
        Run::Done((), h)
    } else {
        match store_token_run(c, now, false, h) {
            Run::Do(a) => Run::Do(a),
            Run::Done(Err(_), h1) => Run::Done((), h1),
            Run::Done(Ok(token), h1) => match send_run(delete_request(c, key, token), h1) {
                Run::Do(a) => Run::Do(a),
                Run::Done(_, h2) => Run::Done((), h2),
            },
        }
    }
}

fn bearer_header(token: &str) -> (r: (String, String))
    ensures
        (r.0@, r.1@) == bearer(token@),
{
    header("authorization", concat2("Bearer ", token).as_str())
}

impl ObjectStoreV2 {
    /// The store with that configuration.
    pub fn new(cfg: OS2Config) -> (r: ObjectStoreV2)
        ensures
            r@ == cfg@,
    {
        ObjectStoreV2 { cfg }
    }

    /// The cache key of the token.
    pub fn token_cache_key(&self) -> (r: String)
        ensures
            r@ == store_token_key(self@),
    {
        token_cache_key(
            ANYPOINT_TOKEN_PREFIX,
            self.cfg.anypoint_client_id.as_str(),
            self.cfg.anypoint_token_url_for_cache_key.as_str(),
        )
    }

    /// The cache key of the note that the store exists.
    pub fn ensure_store_cache_key(&self) -> (r: String)
        ensures
            r@ == sentinel_key(self@),
    {
        let mut s: String = concat2("os2_store_ready:", self.cfg.anypoint_org_id.as_str());
        s.append(":");
        s.append(self.cfg.anypoint_env_id.as_str());
        s.append(":");
        s.append(self.cfg.object_store_id.as_str());
        s
    }

    fn environment_path(&self) -> (r: String)
        ensures
            r@ == environment_path(self@),
    {
        concat4(
            "/api/v1/organizations/",
            url_encode(self.cfg.anypoint_org_id.as_str()).as_str(),
            "/environments/",
            url_encode(self.cfg.anypoint_env_id.as_str()).as_str(),
        )
    }

    /// The path at which stores are created.
    pub fn store_admin_path(&self) -> (r: String)
        ensures
            r@ == admin_path(self@),
    {
        concat2(self.environment_path().as_str(), "/stores")
    }

    /// The path of a value. The segments are encoded, so that none of them
    /// breaks the path.
    pub fn key_path(&self, key: &str) -> (r: String)
        ensures
            r@ == value_path(self@, key@),
    {
        let mut s: String = self.environment_path();
        s.append("/data/");
        s.append(url_encode(self.cfg.object_store_id.as_str()).as_str());
        s.append("/keys/");
        s.append(url_encode(key).as_str());
        s
    }

    /// Gets a token for the store.
    pub fn get_token(&self, record: &mut Record, now_unix: u64, force_refresh: bool) -> (r: Progress<
        Result<String, OS2Error>,
    >)
        ensures
            match r {
                Progress::Do(a) => store_token_run(self@, now_unix, force_refresh, old(record)@)
                    == Run::<Result<Seq<char>, OS2ErrorView>>::Do(a@),
                Progress::Done(v) => store_token_run(self@, now_unix, force_refresh, old(record)@)
                    == Run::Done(store_token_result(v), final(record)@),
            },
    {
        let request: HttpRequest = token_request(
            Upstream::AnypointToken,
            None,
            self.cfg.anypoint_client_id.as_str(),
            self.cfg.anypoint_client_secret.as_str(),
            None,
        );
        match obtain_token(
            record,
            self.token_cache_key().as_str(),
            request,
            now_unix,
            self.cfg.cache_safety_margin_seconds,
            force_refresh,
        ) {
            Progress::Do(a) => Progress::Do(a),
            Progress::Done(Ok(t)) => Progress::Done(Ok(t)),
            Progress::Done(Err(g)) => Progress::Done(Err(os2_error_of(g))),
        }
    }

    fn create_request(&self, token: &str) -> (r: HttpRequest)
        ensures
            r@ == create_request(self@, token@),
    {
        let mut m: Members = Members::new();
        m.put_text("objectStoreId", self.cfg.object_store_id.as_str());
        m.put("persistent", Json::Bool(true));
        m.put("ttl", number_json(self.cfg.object_store_ttl_seconds as u64));
        assert(m@ =~= create_json(self@)->Object_0);
        let headers: Vec<(String, String)> = vec![
            bearer_header(token),
            header("content-type", "application/json"),
            header("accept", "application/json"),
        ];
        assert(pairs_view(headers@) =~= create_request(self@, token@).headers);
        HttpRequest {
            upstream: Upstream::ObjectStore,
            method: Method::Post,
            path: Some(self.store_admin_path()),
            headers,
            body: Some(write_json(&m.object())),
            timeout_ms: None,
        }
    }

    /// Makes sure that the store exists.
    pub fn ensure_store(&self, record: &mut Record, now_unix: u64) -> (r: Progress<()>)
        ensures
            match r {
                Progress::Do(a) => ensure_store_run(self@, now_unix, old(record)@)
                    == Run::<()>::Do(a@),
                Progress::Done(v) => ensure_store_run(self@, now_unix, old(record)@) == Run::Done(
                    (),
                    final(record)@,
                ),
            },
    {
        if self.cfg.disable_object_store || !self.cfg.auto_create_store {
            return Progress::Done(());
        }
        let sentinel: String = self.ensure_store_cache_key();
        match cache_get(record, sentinel.as_str()) {
            Progress::Do(a) => {
                return Progress::Do(a);
            },
            Progress::Done(Some(_)) => {
                return Progress::Done(());
            },
            Progress::Done(None) => {},
        }
        let token: String = match self.get_token(record, now_unix, false) {
            Progress::Do(a) => {
                return Progress::Do(a);
            },
            Progress::Done(Err(_)) => {
                return Progress::Done(());
            },
            Progress::Done(Ok(t)) => t,
        };
        let reply: HttpReply = match send(record, self.create_request(token.as_str())) {
            Progress::Do(a) => {
                return Progress::Do(a);
            },
            Progress::Done(reply) => reply,
        };
        let exists: bool = match reply {
            HttpReply::Failed(_) => false,
            HttpReply::Answered { status, .. } => is_success(status) || status == 409,
        };
        if exists {
            let note: Vec<u8> = vec![1u8];
            assert(note@ =~= seq![1u8]);
            cache_save(record, sentinel.as_str(), note)
        } else {
            Progress::Done(())
        }
    }

    /// Reads a value.
    pub fn get(&self, record: &mut Record, key: &str, now_unix: u64) -> (r: Progress<GetOutcome>)
        ensures
            match r {
                Progress::Do(a) => get_run(self@, key@, now_unix, old(record)@) == Run::<
                    GetOutcomeView,
                >::Do(a@),
                Progress::Done(v) => get_run(self@, key@, now_unix, old(record)@) == Run::Done(
                    v@,
                    final(record)@,
                ),
            },
    {
        if self.cfg.disable_object_store {
            return Progress::Done(GetOutcome::NotFound);
        }
        match self.ensure_store(record, now_unix) {
            Progress::Do(a) => {
                return Progress::Do(a);
            },
            Progress::Done(_) => {},
        }
        let token: String = match self.get_token(record, now_unix, false) {
            Progress::Do(a) => {
                return Progress::Do(a);
            },
            Progress::Done(Err(_)) => {
                return Progress::Done(GetOutcome::Degraded);
            },
            Progress::Done(Ok(t)) => t,
        };
        let headers: Vec<(String, String)> = vec![
            bearer_header(token.as_str()),
            header("accept", "application/json"),
        ];
        assert(pairs_view(headers@) =~= get_request(self@, key@, token@).headers);
        let request = HttpRequest {
            upstream: Upstream::ObjectStore,
            method: Method::Get,
            path: Some(self.key_path(key)),
            headers,
            body: None,
            timeout_ms: Some(self.cfg.timeout_ms),
        };
        match send(record, request) {
            Progress::Do(a) => Progress::Do(a),
            Progress::Done(HttpReply::Failed(_)) => Progress::Done(GetOutcome::Degraded),
            Progress::Done(HttpReply::Answered { status, body }) => if status == 200 {
                Progress::Done(GetOutcome::Found(body))
            } else if status == 404 {
                Progress::Done(GetOutcome::NotFound)
            } else {
                Progress::Done(GetOutcome::Degraded)
            },
        }
    }

    /// Writes a value, as far as it goes.
    pub fn put(&self, record: &mut Record, key: &str, value: &[u8], now_unix: u64) -> (r: Progress<
        (),
    >)
        ensures
            match r {
                Progress::Do(a) => put_run(self@, key@, value@, now_unix, old(record)@)
                    == Run::<()>::Do(a@),
                Progress::Done(v) => put_run(self@, key@, value@, now_unix, old(record)@)
                    == Run::Done((), final(record)@),
            },
    {
        if self.cfg.disable_object_store {
            return Progress::Done(());
        }
        match self.ensure_store(record, now_unix) {
            Progress::Do(a) => {
                return Progress::Do(a);
            },
            Progress::Done(_) => {},
        }
        let token: String = match self.get_token(record, now_unix, false) {
            Progress::Do(a) => {
                return Progress::Do(a);
            },
            Progress::Done(Err(_)) => {
                return Progress::Done(());
            },
            Progress::Done(Ok(t)) => t,
        };
        let headers: Vec<(String, String)> = vec![
            bearer_header(token.as_str()),
            header("content-type", "application/json"),
        ];
        assert(pairs_view(headers@) =~= put_request(self@, key@, value@, token@).headers);
        let request = HttpRequest {
            upstream: Upstream::ObjectStore,
            method: Method::Put,
            path: Some(self.key_path(key)),
            headers,
            body: Some(copy_bytes(value)),
            timeout_ms: Some(self.cfg.timeout_ms),
        };
        match send(record, request) {
            Progress::Do(a) => Progress::Do(a),
            Progress::Done(_) => Progress::Done(()),
        }
    }

    /// Drops a value, as far as it goes.
    pub fn delete(&self, record: &mut Record, key: &str, now_unix: u64) -> (r: Progress<()>)
        ensures
            match r {
                Progress::Do(a) => delete_run(self@, key@, now_unix, old(record)@)
                    == Run::<()>::Do(a@),
                Progress::Done(v) => delete_run(self@, key@, now_unix, old(record)@) == Run::Done(
                    (),
                    final(record)@,
                ),
            },
    {
        if self.cfg.disable_object_store {
            return Progress::Done(());
        }
        let token: String = match self.get_token(record, now_unix, false) {
            Progress::Do(a) => {
                return Progress::Do(a);
            },
            Progress::Done(Err(_)) => {
                return Progress::Done(());
            },
            Progress::Done(Ok(t)) => t,
        };
        let headers: Vec<(String, String)> = vec![bearer_header(token.as_str())];
        assert(pairs_view(headers@) =~= delete_request(self@, key@, token@).headers);
        let request = HttpRequest {
            upstream: Upstream::ObjectStore,
            method: Method::Delete,
            path: Some(self.key_path(key)),
            headers,
            body: None,
            timeout_ms: Some(self.cfg.timeout_ms),
        };
        match send(record, request) {
            Progress::Do(a) => Progress::Do(a),
            Progress::Done(_) => Progress::Done(()),
        }
    }
}

/// With the store disabled nothing is asked of the outside: reads find nothing,
/// and writes come to nothing.
pub proof fn disabled_store_does_nothing(
    c: OS2ConfigView,
    key: Seq<char>,
    value: Seq<u8>,
    now: u64,
    h: Seq<AnswerView>,
)
    requires
        c.disable_object_store,
    ensures
        ensure_store_run(c, now, h) == Run::Done((), h),
        get_run(c, key, now, h) == Run::Done(GetOutcomeView::NotFound, h),
        put_run(c, key, value, now, h) == Run::Done((), h),
        delete_run(c, key, now, h) == Run::Done((), h),
{
}

/// Where it is noted that the store exists, it is not created again; and where
/// the store is not to be created, that is not even looked up.
pub proof fn known_store_is_not_created(
    c: OS2ConfigView,
    now: u64,
    note: Seq<u8>,
    rest: Seq<AnswerView>,
)
    ensures
        !c.disable_object_store && c.auto_create_store ==> ensure_store_run(
            c,
            now,
            seq![AnswerView::Cached(Some(note))] + rest,
        ) == Run::Done((), rest),
        !c.auto_create_store ==> ensure_store_run(c, now, rest) == Run::Done((), rest),
{
    assert((seq![AnswerView::Cached(Some(note))] + rest).drop_first() =~= rest);
}

/// A read that fails, whether for want of an answer or by its status, counts as
/// degraded: only 200 brings a value, and only 404 says that there is none.
pub proof fn failed_read_is_degraded(status: u32, body: Seq<u8>, e: Seq<char>)
    requires
        status != 200,
        status != 404,
    ensures
        read_outcome(HttpReplyView::Failed(e)) is Degraded,
        read_outcome(HttpReplyView::Answered { status, body }) is Degraded,
{
}

/// What stands in the path of a value for the organization, the environment,
/// the store and the key is one segment each, whatever characters they hold.
pub proof fn value_path_keeps_its_segments(c: OS2ConfigView, key: Seq<char>)
    ensures
        !url_encoded(c.anypoint_org_id).contains('/'),
        !url_encoded(c.anypoint_env_id).contains('/'),
        !url_encoded(c.object_store_id).contains('/'),
        !url_encoded(key).contains('/'),
{
    url_encoded_is_one_segment(c.anypoint_org_id);
    url_encoded_is_one_segment(c.anypoint_env_id);
    url_encoded_is_one_segment(c.object_store_id);
    url_encoded_is_one_segment(key);
}

} // verus!
