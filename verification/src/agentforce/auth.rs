//! Access tokens for Agentforce, from the Salesforce domain.

use vstd::prelude::*;

use crate::cache::{token_cache_key, token_key, AGENTFORCE_TOKEN_PREFIX};
use crate::effects::{AnswerView, HttpRequest, HttpRequestView, Progress, Record, Run, Upstream};
use crate::encoding::{lossy_text, text_lossy};
use crate::oauth::{grant_request, obtain_token, token_request, token_run, Grant, GrantView};
use crate::text::{
    concat2, concat4, copy_option, decimal, decimal_text, option_text, truncate, truncated,
};

verus! {

/// Why there is no token.
#[derive(Debug, PartialEq, Eq)]
pub enum AuthError {
    Transport(String),
    HttpStatus { status: u32, body: String },
    BadJson(String),
    MissingAccessToken,
}

/// The value of an [`AuthError`].
pub enum AuthErrorView {
    Transport(Seq<char>),
    HttpStatus { status: u32, body: Seq<char> },
    BadJson(Seq<char>),
    MissingAccessToken,
}

impl View for AuthError {
    type V = AuthErrorView;

    open spec fn view(&self) -> AuthErrorView {
        match self {
            AuthError::Transport(e) => AuthErrorView::Transport(e@),
            AuthError::HttpStatus { status, body } => AuthErrorView::HttpStatus {
                status: *status,
                body: body@,
            },
            AuthError::BadJson(e) => AuthErrorView::BadJson(e@),
            AuthError::MissingAccessToken => AuthErrorView::MissingAccessToken,
        }
    }
}

/// The error in words.
pub open spec fn auth_error_text(e: AuthErrorView) -> Seq<char> {
    match e {
        AuthErrorView::Transport(s) => "transport error talking to Salesforce: "@ + s,
        AuthErrorView::HttpStatus { status, body } => "Salesforce token endpoint returned HTTP "@
            + decimal(status as nat) + ": "@ + body,
        AuthErrorView::BadJson(s) => "Salesforce token response was not valid JSON: "@ + s,
        AuthErrorView::MissingAccessToken => "Salesforce token response missing access_token"@,
    }
}

impl AuthError {
    /// The error in words.
    pub fn message(&self) -> (r: String)
        ensures
            r@ == auth_error_text(self@),
    {
        match self {
            AuthError::Transport(s) => concat2(
                "transport error talking to Salesforce: ",
                s.as_str(),
            ),
            AuthError::HttpStatus { status, body } => concat4(
                "Salesforce token endpoint returned HTTP ",
                decimal_text(*status as u64).as_str(),
                ": ",
                body.as_str(),
            ),
            AuthError::BadJson(s) => concat2(
                "Salesforce token response was not valid JSON: ",
                s.as_str(),
            ),
            AuthError::MissingAccessToken => {
                "Salesforce token response missing access_token".to_owned()
            },
        }
    }
}

/// What is needed to get a token.
#[derive(Debug, PartialEq, Eq)]
pub struct AgentforceAuthConfig {
    pub consumer_key: String,
    pub consumer_secret: String,
    /// A token to use in place of any other.
    pub access_token_override: Option<String>,
    /// The address that issues the tokens, which the cache key goes by.
    pub my_domain_url_for_cache_key: String,
    pub cache_safety_margin_seconds: u32,
}

/// The value of an [`AgentforceAuthConfig`].
pub struct AgentforceAuthConfigView {
    pub consumer_key: Seq<char>,
    pub consumer_secret: Seq<char>,
    pub access_token_override: Option<Seq<char>>,
    pub my_domain_url_for_cache_key: Seq<char>,
    pub cache_safety_margin_seconds: u32,
}

impl View for AgentforceAuthConfig {
    type V = AgentforceAuthConfigView;

    open spec fn view(&self) -> AgentforceAuthConfigView {
        AgentforceAuthConfigView {
            consumer_key: self.consumer_key@,
            consumer_secret: self.consumer_secret@,
            access_token_override: option_text(self.access_token_override),
            my_domain_url_for_cache_key: self.my_domain_url_for_cache_key@,
            cache_safety_margin_seconds: self.cache_safety_margin_seconds,
        }
    }
}

impl AgentforceAuthConfig {
    /// Another one of the same value.
    pub fn copy(&self) -> (r: AgentforceAuthConfig)
        ensures
            r@ == self@,
    {
        AgentforceAuthConfig {
            consumer_key: self.consumer_key.clone(),
            consumer_secret: self.consumer_secret.clone(),
            access_token_override: copy_option(&self.access_token_override),
            my_domain_url_for_cache_key: self.my_domain_url_for_cache_key.clone(),
            cache_safety_margin_seconds: self.cache_safety_margin_seconds,
        }
    }
}

impl Clone for AgentforceAuthConfig {
    fn clone(&self) -> (r: Self)
        ensures
            r@ == self@,
    {
        self.copy()
    }
}

/// The source of tokens for Agentforce.
#[derive(Debug, PartialEq, Eq)]
pub struct AgentforceAuth {
    pub cfg: AgentforceAuthConfig,
}

impl View for AgentforceAuth {
    type V = AgentforceAuthConfigView;

    open spec fn view(&self) -> AgentforceAuthConfigView {
        self.cfg@
    }
}

/// The error that a failed token request comes to.
pub open spec fn auth_error(g: GrantView) -> AuthErrorView {
    match g {
        GrantView::Transport(e) => AuthErrorView::Transport(e),
        GrantView::Status { status, body } => AuthErrorView::HttpStatus {
            status,
            body: truncated(lossy_text(body), 256),
        },
        GrantView::BadJson(e) => AuthErrorView::BadJson(e),
        _ => AuthErrorView::MissingAccessToken,
    }
}

fn auth_error_of(g: Grant) -> (r: AuthError)
    ensures
        r@ == auth_error(g@),
{
    match g {
        Grant::Transport(e) => AuthError::Transport(e),
        Grant::Status { status, body } => AuthError::HttpStatus {
            status,
            body: truncate(text_lossy(body.as_slice()).as_str(), 256),
        },
        Grant::BadJson(e) => AuthError::BadJson(e),
        _ => AuthError::MissingAccessToken,
    }
}

/// The cache key of the token.
pub open spec fn auth_key(c: AgentforceAuthConfigView) -> Seq<char> {
    token_key("agentforce-tokens"@, c.consumer_key, c.my_domain_url_for_cache_key)
}

/// The request for a token.
pub open spec fn auth_request(c: AgentforceAuthConfigView) -> HttpRequestView {
    grant_request(
        Upstream::MyDomain,
        Some("/services/oauth2/token"@),
        c.consumer_key,
        c.consumer_secret,
        None,
    )
}

/// Getting a token: the one that is configured, where there is one, and else
/// one from the cache or from Salesforce.
pub open spec fn auth_run(
    c: AgentforceAuthConfigView,
    now: u64,
    refresh: bool,
    h: Seq<AnswerView>,
) -> Run<Result<Seq<char>, AuthErrorView>> {
    match c.access_token_override {
        Some(t) => Run::Done(Ok(t), h),
        None => match token_run(
            auth_key(c),
            auth_request(c),
            now,
            c.cache_safety_margin_seconds,
            refresh,
            h,
        ) {
            Run::Do(a) => Run::Do(a),
            Run::Done(Ok(t), h1) => Run::Done(Ok(t), h1),
            Run::Done(Err(g), h1) => Run::Done(Err(auth_error(g)), h1),
        },
    }
}

/// The value of a token that was got.
pub open spec fn auth_result(r: Result<String, AuthError>) -> Result<Seq<char>, AuthErrorView> {
    match r {
        Ok(t) => Ok(t@),
        Err(e) => Err(e@),
    }
}

impl AgentforceAuth {
    /// The source with that configuration.
    pub fn new(cfg: AgentforceAuthConfig) -> (r: AgentforceAuth)
        ensures
            r@ == cfg@,
    {
        AgentforceAuth { cfg }
    }

    /// Gets a token.
    pub fn get_token(&self, record: &mut Record, now_unix: u64, force_refresh: bool) -> (r:
        Progress<Result<String, AuthError>>)
        ensures
            match r {
                Progress::Do(a) => auth_run(self@, now_unix, force_refresh, old(record)@) == Run::<
                    Result<Seq<char>, AuthErrorView>,
                >::Do(a@),
                Progress::Done(v) => auth_run(self@, now_unix, force_refresh, old(record)@)
                    == Run::Done(auth_result(v), final(record)@),
            },
    {
        match &self.cfg.access_token_override {
            Some(t) => {
                return Progress::Done(Ok(t.clone()));
            },
            None => {},
        }
        let key: String = token_cache_key(
            AGENTFORCE_TOKEN_PREFIX,
            self.cfg.consumer_key.as_str(),
            self.cfg.my_domain_url_for_cache_key.as_str(),
        );
        let request: HttpRequest = token_request(
            Upstream::MyDomain,
            Some("/services/oauth2/token".to_owned()),
            self.cfg.consumer_key.as_str(),
            self.cfg.consumer_secret.as_str(),
            None,
        );
        match obtain_token(
            record,
            key.as_str(),
            request,
            now_unix,
            self.cfg.cache_safety_margin_seconds,
            force_refresh,
        ) {
            Progress::Do(a) => Progress::Do(a),
            Progress::Done(Ok(t)) => Progress::Done(Ok(t)),
            Progress::Done(Err(g)) => Progress::Done(Err(auth_error_of(g))),
        }
    }
}

/// A configured token is used at once, whether or not a refresh is asked for,
/// and nothing is requested.
pub proof fn configured_token_is_used(
    c: AgentforceAuthConfigView,
    now: u64,
    refresh: bool,
    h: Seq<AnswerView>,
)
    requires
        c.access_token_override is Some,
    ensures
        auth_run(c, now, refresh, h) == Run::Done(
            Ok::<Seq<char>, AuthErrorView>(c.access_token_override->0),
            h,
        ),
{
}

} // verus!
