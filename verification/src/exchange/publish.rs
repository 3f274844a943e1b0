//! Publishing the agent card as a new version of an asset.
//!
//! The configured version is posted first. Where Exchange has it already, the
//! versions that it has are listed, and the next free patch is posted instead.

use vstd::prelude::*;
use vstd::string::{StrSliceExecFns, StringExecFns};

use crate::cache::{token_cache_key, token_key};
use crate::config::{filled, PolicyConfig, PolicyConfigView};
use crate::effects::{
    header, is_success, pairs_view, reply_of, send, send_run, success, AnswerView, HttpReply,
    HttpReplyView, HttpRequest, HttpRequestView, Method, Progress, Record, Run, Upstream,
};
use crate::encoding::{
    hex, hex_text, lossy_text, sha256, sha256_of, text_lossy, url_encode, url_encoded,
};
use crate::exchange::multipart::{
    closing, file_part, form_content_type, text_part, File, MultipartBuilder,
};
use crate::json::{
    items_view, json_member, json_of_bytes, lemma_array_view, parse_json, reading_view, Json,
    JsonView,
};
use crate::oauth::{grant_request, obtain_token, token_request, token_run, Grant, GrantView};
use crate::text::{
    blank, concat2, concat3, concat4, decimal, decimal_text, first_chars, is_blank, parse_u32,
    parsed_u32, split, split_on, texts, truncate, truncated,
};

verus! {

/// The prefix of the cache keys of Anypoint tokens for Exchange.
pub const EXCHANGE_TOKEN_PREFIX: &'static str = "anypoint-exchange";

/// How long to wait for Exchange, in milliseconds.
pub const PUBLISH_TIMEOUT_MS: u64 = 10_000;

/// How long to wait for a token, in milliseconds.
pub const TOKEN_TIMEOUT_MS: u64 = 5_000;

/// Why a card was not published.
#[derive(Debug, PartialEq, Eq)]
pub enum PublishError {
    TokenTransport(String),
    TokenHttpStatus { status: u32, body: String },
    TokenBadJson(String),
    TokenMissingAccessToken,
    PublishTransport(String),
    PublishHttpStatus { status: u32, body: String },
    BadCard,
}

/// The value of a [`PublishError`].
pub enum PublishErrorView {
    TokenTransport(Seq<char>),
    TokenHttpStatus { status: u32, body: Seq<char> },
    TokenBadJson(Seq<char>),
    TokenMissingAccessToken,
    PublishTransport(Seq<char>),
    PublishHttpStatus { status: u32, body: Seq<char> },
    BadCard,
}

impl View for PublishError {
    type V = PublishErrorView;

    open spec fn view(&self) -> PublishErrorView {
        match self {
            PublishError::TokenTransport(e) => PublishErrorView::TokenTransport(e@),
            PublishError::TokenHttpStatus { status, body } => PublishErrorView::TokenHttpStatus {
                status: *status,
                body: body@,
            },
            PublishError::TokenBadJson(e) => PublishErrorView::TokenBadJson(e@),
            PublishError::TokenMissingAccessToken => PublishErrorView::TokenMissingAccessToken,
            PublishError::PublishTransport(e) => PublishErrorView::PublishTransport(e@),
            PublishError::PublishHttpStatus { status, body } => {
                PublishErrorView::PublishHttpStatus { status: *status, body: body@ }
            },
            PublishError::BadCard => PublishErrorView::BadCard,
        }
    }
}

/// The error in words.
pub open spec fn publish_error_text(e: PublishErrorView) -> Seq<char> {
    match e {
        PublishErrorView::TokenTransport(s) => "token transport error: "@ + s,
        PublishErrorView::TokenHttpStatus { status, body } => "token endpoint returned HTTP "@
            + decimal(status as nat) + ": "@ + body,
        PublishErrorView::TokenBadJson(s) => "token response was not valid JSON: "@ + s,
        PublishErrorView::TokenMissingAccessToken => "token response missing access_token"@,
        PublishErrorView::PublishTransport(s) => "publish transport error: "@ + s,
        PublishErrorView::PublishHttpStatus { status, body } => "publish returned HTTP "@ + decimal(
            status as nat,
        ) + ": "@ + body,
        PublishErrorView::BadCard => "agent-card bytes were not a JSON object"@,
    }
}

impl PublishError {
    /// The error in words.
    pub fn message(&self) -> (r: String)
        ensures
            r@ == publish_error_text(self@),
    {
        match self {
            PublishError::TokenTransport(s) => concat2("token transport error: ", s.as_str()),
            PublishError::TokenHttpStatus { status, body } => concat4(
                "token endpoint returned HTTP ",
                decimal_text(*status as u64).as_str(),
                ": ",
                body.as_str(),
            ),
            PublishError::TokenBadJson(s) => concat2(
                "token response was not valid JSON: ",
                s.as_str(),
            ),
            PublishError::TokenMissingAccessToken => {
                "token response missing access_token".to_owned()
            },
            PublishError::PublishTransport(s) => concat2("publish transport error: ", s.as_str()),
            PublishError::PublishHttpStatus { status, body } => concat4(
                "publish returned HTTP ",
                decimal_text(*status as u64).as_str(),
                ": ",
                body.as_str(),
            ),
            PublishError::BadCard => "agent-card bytes were not a JSON object".to_owned(),
        }
    }
}

/// The asset to publish to, and who publishes.
#[derive(Debug, PartialEq, Eq)]
pub struct ExchangePublishConfig {
    pub anypoint_client_id: String,
    pub anypoint_client_secret: String,
    pub anypoint_org_id: String,
    pub group_id: String,
    pub asset_id: String,
}

/// The value of an [`ExchangePublishConfig`].
pub struct ExchangePublishConfigView {
    pub anypoint_client_id: Seq<char>,
    pub anypoint_client_secret: Seq<char>,
    pub anypoint_org_id: Seq<char>,
    pub group_id: Seq<char>,
    pub asset_id: Seq<char>,
}

impl View for ExchangePublishConfig {
    type V = ExchangePublishConfigView;

    open spec fn view(&self) -> ExchangePublishConfigView {
        ExchangePublishConfigView {
            anypoint_client_id: self.anypoint_client_id@,
            anypoint_client_secret: self.anypoint_client_secret@,
            anypoint_org_id: self.anypoint_org_id@,
            group_id: self.group_id@,
            asset_id: self.asset_id@,
        }
    }
}

impl ExchangePublishConfig {
    /// Another one of the same value.
    pub fn copy(&self) -> (r: ExchangePublishConfig)
        ensures
            r@ == self@,
    {
        ExchangePublishConfig {
            anypoint_client_id: self.anypoint_client_id.clone(),
            anypoint_client_secret: self.anypoint_client_secret.clone(),
            anypoint_org_id: self.anypoint_org_id.clone(),
            group_id: self.group_id.clone(),
            asset_id: self.asset_id.clone(),
        }
    }
}

impl Clone for ExchangePublishConfig {
    fn clone(&self) -> (r: Self)
        ensures
            r@ == self@,
    {
        self.copy()
    }
}

/// What publishing goes by.
pub struct PublishContext<'a> {
    pub cfg: &'a PolicyConfig,
    pub publish_cfg: &'a ExchangePublishConfig,
    /// The host that issues the tokens, which the cache key goes by.
    pub anypoint_token_authority: &'a str,
    pub now_unix: u64,
}

/// The value of a [`PublishContext`].
pub struct PublishContextView {
    pub cfg: PolicyConfigView,
    pub publish_cfg: ExchangePublishConfigView,
    pub anypoint_token_authority: Seq<char>,
    pub now_unix: u64,
}

impl<'a> View for PublishContext<'a> {
    type V = PublishContextView;

    open spec fn view(&self) -> PublishContextView {
        PublishContextView {
            cfg: self.cfg@,
            publish_cfg: self.publish_cfg@,
            anypoint_token_authority: self.anypoint_token_authority@,
            now_unix: self.now_unix,
        }
    }
}

/// The error that a failed token request comes to.
pub open spec fn token_error(g: GrantView) -> PublishErrorView {
    match g {
        GrantView::Transport(e) => PublishErrorView::TokenTransport(e),
        GrantView::Status { status, body } => PublishErrorView::TokenHttpStatus {
            status,
            body: truncated(lossy_text(body), 256),
        },
        GrantView::BadJson(e) => PublishErrorView::TokenBadJson(e),
        _ => PublishErrorView::TokenMissingAccessToken,
    }
}

fn token_error_of(g: Grant) -> (r: PublishError)
    ensures
        r@ == token_error(g@),
{
    match g {
        Grant::Transport(e) => PublishError::TokenTransport(e),
        Grant::Status { status, body } => PublishError::TokenHttpStatus {
            status,
            body: truncate(text_lossy(body.as_slice()).as_str(), 256),
        },
        Grant::BadJson(e) => PublishError::TokenBadJson(e),
        _ => PublishError::TokenMissingAccessToken,
    }
}

/// Getting a token for Exchange.
pub open spec fn publish_token_run(ctx: PublishContextView, h: Seq<AnswerView>) -> Run<
    Result<Seq<char>, PublishErrorView>,
> {
    match token_run(
        token_key(
            "anypoint-exchange"@,
            ctx.publish_cfg.anypoint_client_id,
            ctx.anypoint_token_authority,
        ),
        grant_request(
            Upstream::AnypointToken,
            None,
            ctx.publish_cfg.anypoint_client_id,
            ctx.publish_cfg.anypoint_client_secret,
            Some(TOKEN_TIMEOUT_MS),
        ),
        ctx.now_unix,
        ctx.cfg.cache_safety_margin_seconds,
        false,
        h,
    ) {
        Run::Do(a) => Run::Do(a),
        Run::Done(Ok(t), h1) => Run::Done(Ok(t), h1),
        Run::Done(Err(g), h1) => Run::Done(Err(token_error(g)), h1),
    }
}

/// The value of a text, or why there is none.
pub open spec fn text_result(r: Result<String, PublishError>) -> Result<Seq<char>, PublishErrorView> {
    match r {
        Ok(t) => Ok(t@),
        Err(e) => Err(e@),
    }
}

/// Gets a token for Exchange.
pub fn get_token(record: &mut Record, ctx: &PublishContext) -> (r: Progress<
    Result<String, PublishError>,
>)
    ensures
        match r {
            Progress::Do(a) => publish_token_run(ctx@, old(record)@) == Run::<
                Result<Seq<char>, PublishErrorView>,
            >::Do(a@),
            Progress::Done(v) => publish_token_run(ctx@, old(record)@) == Run::Done(
                text_result(v),
                final(record)@,
            ),
        },
{
    let key: String = token_cache_key(
        EXCHANGE_TOKEN_PREFIX,
        ctx.publish_cfg.anypoint_client_id.as_str(),
        ctx.anypoint_token_authority,
    );
    let request: HttpRequest = token_request(
        Upstream::AnypointToken,
        None,
        ctx.publish_cfg.anypoint_client_id.as_str(),
        ctx.publish_cfg.anypoint_client_secret.as_str(),
        Some(TOKEN_TIMEOUT_MS),
    );
    match obtain_token(
        record,
        key.as_str(),
        request,
        ctx.now_unix,
        ctx.cfg.cache_safety_margin_seconds,
        false,
    ) {
        Progress::Do(a) => Progress::Do(a),
        Progress::Done(Ok(t)) => Progress::Done(Ok(t)),
        Progress::Done(Err(g)) => Progress::Done(Err(token_error_of(g))),
    }
}

/// The first eight digits of the digest of bytes.
pub open spec fn short_digest(bytes: Seq<u8>) -> Seq<char> {
    hex(sha256_of(bytes)).take(8)
}

/// The first eight digits of the digest of bytes.
pub fn sha256_short(bytes: &[u8]) -> (r: String)
    ensures
        r@ == short_digest(bytes@),
        r@.len() == 8,
{
    let digits: String = hex_text(sha256(bytes).as_slice());
    first_chars(digits.as_str(), 8)
}

/// The three numbers of a version: digits, with a full stop between them, and
/// nothing else.
pub open spec fn semver(s: Seq<char>) -> Option<(u32, u32, u32)> {
    let parts = split_on(s, '.');
    if parts.len() != 3 {
        None
    } else {
        match (parsed_u32(parts[0]), parsed_u32(parts[1]), parsed_u32(parts[2])) {
            (Some(major), Some(minor), Some(patch)) => Some((major, minor, patch)),
            _ => None,
        }
    }
}

/// Reads the three numbers of a version. Anything more or less is no version, and
/// neither is a number with a sign.
pub fn parse_semver(s: &str) -> (r: Option<(u32, u32, u32)>)
    ensures
        r == semver(s@),
{
    let parts: Vec<String> = split(s, '.');
    assert(texts(parts@).len() == parts@.len());
    if parts.len() != 3 {
        return None;
    }
    assert(texts(parts@)[0] == parts@[0]@);
    assert(texts(parts@)[1] == parts@[1]@);
    assert(texts(parts@)[2] == parts@[2]@);
    match (
        parse_u32(parts[0].as_str()),
        parse_u32(parts[1].as_str()),
        parse_u32(parts[2].as_str()),
    ) {
        (Some(major), Some(minor), Some(patch)) => Some((major, minor, patch)),
        _ => None,
    }
}

/// The patch that a listed version names, where it is of that minor version.
pub open spec fn listed_patch(node: JsonView, major: u32, minor: u32) -> Option<u32> {
    match json_member(node, "version"@) {
        Some(JsonView::Text(s)) => match semver(s) {
            Some((m, n, p)) => if m == major && n == minor {
                Some(p)
            } else {
                None
            },
            None => None,
        },
        _ => None,
    }
}

/// The larger of a patch and the one that a listed version names.
pub open spec fn lifted(node: JsonView, major: u32, minor: u32, max: u32) -> u32 {
    match listed_patch(node, major, minor) {
        Some(p) => if p > max {
            p
        } else {
            max
        },
        None => max,
    }
}

/// The largest of a patch and those that listed versions name.
pub open spec fn lifted_all(nodes: Seq<JsonView>, major: u32, minor: u32, max: u32) -> u32
    decreases nodes.len(),
{
    if nodes.len() == 0 {
        max
    } else {
        lifted(nodes.last(), major, minor, lifted_all(nodes.drop_last(), major, minor, max))
    }
}

/// The items of a member that is an array.
pub open spec fn listed(v: JsonView, key: Seq<char>) -> Seq<JsonView> {
    match json_member(v, key) {
        Some(JsonView::Array(a)) => a,
        _ => Seq::empty(),
    }
}

/// The largest patch of a minor version that a listing names, and at least
/// `patch`.
pub open spec fn largest_patch(v: JsonView, major: u32, minor: u32, patch: u32) -> u32 {
    lifted_all(
        listed(v, "otherVersions"@),
        major,
        minor,
        lifted_all(listed(v, "versions"@), major, minor, lifted(v, major, minor, patch)),
    )
}

/// Takes the patch of a listed version into account.
pub fn collect_patches(node: &Json, major: u32, minor: u32, max_patch: &mut u32)
    ensures
        *final(max_patch) == lifted(node@, major, minor, *old(max_patch)),
{
    match node.get("version") {
        Some(Json::Text(s)) => match parse_semver(s.as_str()) {
            Some((m, n, p)) => {
                if m == major && n == minor && p > *max_patch {
                    *max_patch = p;
                }
            },
            None => {},
        },
        _ => {},
    }
}

fn collect_listed(v: &Json, key: &str, major: u32, minor: u32, max: u32) -> (r: u32)
    ensures
        r == lifted_all(listed(v@, key@), major, minor, max),
{
    match v.get(key) {
        Some(Json::Array(a)) => {
            proof {
                lemma_array_view(*a);
            }
            let ghost all = items_view(a@);
            let mut best: u32 = max;
            let n: usize = a.len();
            assert(all.take(0) =~= Seq::empty());
            for i in 0..n
                invariant
                    n == a@.len(),
                    all == items_view(a@),
                    best == lifted_all(all.take(i as int), major, minor, max),
            {
                assert(all.take(i + 1).drop_last() =~= all.take(i as int));
                assert(all.take(i + 1).last() == a@[i as int]@);
                collect_patches(&a[i], major, minor, &mut best);
            }
            assert(all.take(n as int) =~= all);
            best
        },
        _ => max,
    }
}

/// A version of three numbers.
pub open spec fn version_text(major: u32, minor: u32, patch: nat) -> Seq<char> {
    decimal(major as nat) + "."@ + decimal(minor as nat) + "."@ + decimal(patch)
}

/// The next free version of a stream, by the answer that lists it; the next
/// after the given one where that answer cannot be read.
pub open spec fn next_version(
    doc: Result<JsonView, Seq<char>>,
    major: u32,
    minor: u32,
    patch: u32,
) -> Seq<char> {
    match doc {
        Ok(v) => version_text(major, minor, (largest_patch(v, major, minor, patch) + 1) as nat),
        Err(_) => version_text(major, minor, (patch + 1) as nat),
    }
}

/// The next free version of a stream, by the answer that lists it.
pub fn version_after(doc: Result<Json, String>, major: u32, minor: u32, patch: u32) -> (r: String)
    ensures
        r@ == next_version(reading_view(doc), major, minor, patch),
{
    let mut best: u32 = patch;
    match &doc {
        Ok(v) => {
            collect_patches(v, major, minor, &mut best);
            best = collect_listed(v, "versions", major, minor, best);
            best = collect_listed(v, "otherVersions", major, minor, best);
        },
        Err(_) => {},
    }
    let mut s: String = concat4(
        decimal_text(major as u64).as_str(),
        ".",
        decimal_text(minor as u64).as_str(),
        ".",
    );
    s.append(decimal_text(best as u64 + 1).as_str());
    s
}

/// The path of a version of the asset.
pub open spec fn asset_path(c: ExchangePublishConfigView, version: Seq<char>) -> Seq<char> {
    "/exchange/api/v2/organizations/"@ + url_encoded(c.anypoint_org_id) + "/assets/"@ + url_encoded(
        c.group_id,
    ) + "/"@ + url_encoded(c.asset_id) + "/"@ + url_encoded(version)
}

/// The path that lists the versions of a minor version.
pub open spec fn listing_path(c: ExchangePublishConfigView, stream: Seq<char>) -> Seq<char> {
    "/exchange/api/v2/assets/"@ + url_encoded(c.group_id) + "/"@ + url_encoded(c.asset_id)
        + "/minorVersions/"@ + url_encoded(stream)
        + "?status=development&status=published&status=deprecated&strict=false"@
}

/// The boundary of the body for a card.
pub open spec fn card_boundary(card: Seq<u8>) -> Seq<char> {
    "a2a-policy-"@ + short_digest(card)
}

/// The body that publishes a card.
pub open spec fn card_body(asset_name: Seq<char>, card: Seq<u8>) -> Seq<u8> {
    let b = card_boundary(card);
    text_part(b, "name"@, asset_name) + text_part(b, "type"@, "agent"@) + text_part(
        b,
        "status"@,
        "published"@,
    ) + text_part(b, "properties.protocol"@, "a2a"@) + text_part(
        b,
        "properties.platform"@,
        "agentforce"@,
    ) + file_part(
        b,
        "files.a2a-card.json"@,
        "agent-card.json"@,
        "application/json"@,
        card,
    ) + closing(b)
}

/// The request that publishes a card as a version.
pub open spec fn post_request(
    c: ExchangePublishConfigView,
    bearer: Seq<char>,
    asset_name: Seq<char>,
    version: Seq<char>,
    card: Seq<u8>,
) -> HttpRequestView {
    HttpRequestView {
        upstream: Upstream::Exchange,
        method: Method::Post,
        path: Some(asset_path(c, version)),
        headers: seq![
            ("authorization"@, bearer),
            ("content-type"@, form_content_type(card_boundary(card))),
            ("accept"@, "application/json"@),
            ("x-sync-publication"@, "true"@),
        ],
        body: Some(card_body(asset_name, card)),
        timeout_ms: Some(PUBLISH_TIMEOUT_MS),
    }
}

/// The request that lists the versions of a minor version.
pub open spec fn listing_request(
    c: ExchangePublishConfigView,
    bearer: Seq<char>,
    stream: Seq<char>,
) -> HttpRequestView {
    HttpRequestView {
        upstream: Upstream::Exchange,
        method: Method::Get,
        path: Some(listing_path(c, stream)),
        headers: seq![("authorization"@, bearer), ("accept"@, "application/json"@)],
        body: None,
        timeout_ms: Some(PUBLISH_TIMEOUT_MS),
    }
}

fn version_path(c: &ExchangePublishConfig, version: &str) -> (r: String)
    ensures
        r@ == asset_path(c@, version@),
{
    let mut s: String = concat4(
        "/exchange/api/v2/organizations/",
        url_encode(c.anypoint_org_id.as_str()).as_str(),
        "/assets/",
        url_encode(c.group_id.as_str()).as_str(),
    );
    s.append("/");
    s.append(url_encode(c.asset_id.as_str()).as_str());
    s.append("/");
    s.append(url_encode(version).as_str());
    s
}

fn stream_path(c: &ExchangePublishConfig, stream: &str) -> (r: String)
    ensures
        r@ == listing_path(c@, stream@),
{
    let mut s: String = concat4(
        "/exchange/api/v2/assets/",
        url_encode(c.group_id.as_str()).as_str(),
        "/",
        url_encode(c.asset_id.as_str()).as_str(),
    );
    s.append("/minorVersions/");
    s.append(url_encode(stream).as_str());
    s.append("?status=development&status=published&status=deprecated&strict=false");
    s
}

fn publish_request(
    c: &ExchangePublishConfig,
    bearer: &str,
    asset_name: &str,
    version: &str,
    card: &[u8],
) -> (r: HttpRequest)
    ensures
        r@ == post_request(c@, bearer@, asset_name@, version@, card@),
{
    let boundary: String = concat2("a2a-policy-", sha256_short(card).as_str());
    let mut mp: MultipartBuilder = MultipartBuilder::new(boundary);
    mp.add_text("name", asset_name);
    mp.add_text("type", "agent");
    mp.add_text("status", "published");
    mp.add_text("properties.protocol", "a2a");
    mp.add_text("properties.platform", "agentforce");
    mp.add_file(
        "files.a2a-card.json",
        File { filename: "agent-card.json", content_type: "application/json", bytes: card },
    );
    let finished: (String, Vec<u8>) = mp.finish();
    assert(finished.1@ =~= card_body(asset_name@, card@));
    let headers: Vec<(String, String)> = vec![
        header("authorization", bearer),
        header("content-type", finished.0.as_str()),
        header("accept", "application/json"),
        header("x-sync-publication", "true"),
    ];
    assert(pairs_view(headers@) =~= post_request(
        c@,
        bearer@,
        asset_name@,
        version@,
        card@,
    ).headers);
    HttpRequest {
        upstream: Upstream::Exchange,
        method: Method::Post,
        path: Some(version_path(c, version)),
        headers,
        body: Some(finished.1),
        timeout_ms: Some(PUBLISH_TIMEOUT_MS),
    }
}

/// What came of posting a version.
#[derive(Debug, Clone, Copy, PartialEq, Eq)]
pub enum PostOutcome {
    Created,
    AlreadyExists,
}

/// What a reply to a post comes to: 409 means that the version is there already.
pub open spec fn post_outcome(reply: HttpReplyView) -> Result<PostOutcome, PublishErrorView> {
    match reply {
        HttpReplyView::Failed(e) => Err(PublishErrorView::PublishTransport(e)),
        HttpReplyView::Answered { status, body } => if status == 409 {
            Ok(PostOutcome::AlreadyExists)
        } else if success(status) {
            Ok(PostOutcome::Created)
        } else {
            Err(
                PublishErrorView::PublishHttpStatus {
                    status,
                    body: truncated(lossy_text(body), 512),
                },
            )
        },
    }
}

/// Posting a version.
pub open spec fn post_run(
    c: ExchangePublishConfigView,
    bearer: Seq<char>,
    asset_name: Seq<char>,
    version: Seq<char>,
    card: Seq<u8>,
    h: Seq<AnswerView>,
) -> Run<Result<PostOutcome, PublishErrorView>> {
    match send_run(post_request(c, bearer, asset_name, version, card), h) {
        Run::Do(a) => Run::Do(a),
        Run::Done(reply, h1) => Run::Done(post_outcome(reply), h1),
    }
}

/// The value of a post's outcome.
pub open spec fn post_result(r: Result<PostOutcome, PublishError>) -> Result<
    PostOutcome,
    PublishErrorView,
> {
    match r {
        Ok(o) => Ok(o),
        Err(e) => Err(e@),
    }
}

/// Posts a version.
pub fn post_version(
    record: &mut Record,
    c: &ExchangePublishConfig,
    bearer: &str,
    asset_name: &str,
    version: &str,
    card: &[u8],
) -> (r: Progress<Result<PostOutcome, PublishError>>)
    ensures
        match r {
            Progress::Do(a) => post_run(
                c@,
                bearer@,
                asset_name@,
                version@,
                card@,
                old(record)@,
            ) == Run::<Result<PostOutcome, PublishErrorView>>::Do(a@),
            Progress::Done(v) => post_run(
                c@,
                bearer@,
                asset_name@,
                version@,
                card@,
                old(record)@,
            ) == Run::Done(post_result(v), final(record)@),
        },
{
    match send(record, publish_request(c, bearer, asset_name, version, card)) {
        Progress::Do(a) => Progress::Do(a),
        Progress::Done(HttpReply::Failed(e)) => Progress::Done(
            Err(PublishError::PublishTransport(e)),
        ),
        Progress::Done(HttpReply::Answered { status, body }) => if status == 409 {
            Progress::Done(Ok(PostOutcome::AlreadyExists))
        } else if is_success(status) {
            Progress::Done(Ok(PostOutcome::Created))
        } else {
            Progress::Done(
                Err(
                    PublishError::PublishHttpStatus {
                        status,
                        body: truncate(text_lossy(body.as_slice()).as_str(), 512),
                    },
                ),
            )
        },
    }
}

/// The version after those that a reply lists.
pub open spec fn version_listed(
    reply: HttpReplyView,
    major: u32,
    minor: u32,
    patch: u32,
) -> Result<Seq<char>, PublishErrorView> {
    match reply {
        HttpReplyView::Failed(e) => Err(PublishErrorView::PublishTransport(e)),
        HttpReplyView::Answered { status, body } => if !success(status) {
            Err(
                PublishErrorView::PublishHttpStatus {
                    status,
                    body: truncated(lossy_text(body), 256),
                },
            )
        } else {
            Ok(next_version(json_of_bytes(body), major, minor, patch))
        },
    }
}

/// Finding a version that is free: the patch after all that Exchange has, or the
/// base version with a suffix where it is not made of three numbers.
pub open spec fn free_version_run(
    c: ExchangePublishConfigView,
    bearer: Seq<char>,
    base_version: Seq<char>,
    h: Seq<AnswerView>,
) -> Run<Result<Seq<char>, PublishErrorView>> {
    match semver(base_version) {
        None => Run::Done(Ok(base_version + "-1"@), h),
        Some((major, minor, patch)) => match send_run(
            listing_request(
                c,
                bearer,
                decimal(major as nat) + "."@ + decimal(minor as nat),
            ),
            h,
        ) {
            Run::Do(a) => Run::Do(a),
            Run::Done(reply, h1) => Run::Done(version_listed(reply, major, minor, patch), h1),
        },
    }
}

/// Finds a version that is free.
pub fn next_free_patch(
    record: &mut Record,
    c: &ExchangePublishConfig,
    bearer: &str,
    base_version: &str,
) -> (r: Progress<Result<String, PublishError>>)
    ensures
        match r {
            Progress::Do(a) => free_version_run(c@, bearer@, base_version@, old(record)@)
                == Run::<Result<Seq<char>, PublishErrorView>>::Do(a@),
            Progress::Done(v) => free_version_run(c@, bearer@, base_version@, old(record)@)
                == Run::Done(text_result(v), final(record)@),
        },
{
    let (major, minor, patch): (u32, u32, u32) = match parse_semver(base_version) {
        Some(v) => v,
        None => {
            return Progress::Done(Ok(concat2(base_version, "-1")));
        },
    };
    let stream: String = concat3(
        decimal_text(major as u64).as_str(),
        ".",
        decimal_text(minor as u64).as_str(),
    );
    let headers: Vec<(String, String)> = vec![
        header("authorization", bearer),
        header("accept", "application/json"),
    ];
    assert(pairs_view(headers@) =~= listing_request(c@, bearer@, stream@).headers);
    let request = HttpRequest {
        upstream: Upstream::Exchange,
        method: Method::Get,
        path: Some(stream_path(c, stream.as_str())),
        headers,
        body: None,
        timeout_ms: Some(PUBLISH_TIMEOUT_MS),
    };
    match send(record, request) {
        Progress::Do(a) => Progress::Do(a),
        Progress::Done(HttpReply::Failed(e)) => Progress::Done(
            Err(PublishError::PublishTransport(e)),
        ),
        Progress::Done(HttpReply::Answered { status, body }) => if !is_success(status) {
            Progress::Done(
                Err(
                    PublishError::PublishHttpStatus {
                        status,
                        body: truncate(text_lossy(body.as_slice()).as_str(), 256),
                    },
                ),
            )
        } else {
            Progress::Done(Ok(version_after(parse_json(body.as_slice()), major, minor, patch)))
        },
    }
}

/// The name of the asset: that of the card where it has one, or else the
/// asset's id.
pub open spec fn asset_name(card: JsonView, asset_id: Seq<char>) -> Seq<char> {
    match json_member(card, "name"@) {
        Some(JsonView::Text(s)) => if blank(s) {
            asset_id
        } else {
            s
        },
        _ => asset_id,
    }
}

/// The version to begin with: that of the configured card, or else 1.0.0.
pub open spec fn first_version(cfg: PolicyConfigView) -> Seq<char> {
    if filled(cfg.structured_card.version) {
        cfg.structured_card.version->0
    } else {
        "1.0.0"@
    }
}

/// The name under which a card is published, once its bytes have been read as
/// JSON.
pub open spec fn published_name(doc: Result<JsonView, Seq<char>>, asset_id: Seq<char>) -> Result<
    Seq<char>,
    PublishErrorView,
> {
    match doc {
        Err(_) => Err(PublishErrorView::BadCard),
        Ok(v) => if v is Object {
            Ok(asset_name(v, asset_id))
        } else {
            Err(PublishErrorView::BadCard)
        },
    }
}

/// Finds the name under which a card is published.
pub fn name_to_publish(doc: Result<Json, String>, asset_id: &str) -> (r: Result<
    String,
    PublishError,
>)
    ensures
        text_result(r) == published_name(reading_view(doc), asset_id@),
{
    match doc {
        Err(_) => Err(PublishError::BadCard),
        Ok(v) => if !v.is_object() {
            Err(PublishError::BadCard)
        } else {
            match v.get("name") {
                Some(Json::Text(s)) => if is_blank(s.as_str()) {
                    Ok(asset_id.to_owned())
                } else {
                    Ok(s.clone())
                },
                _ => Ok(asset_id.to_owned()),
            }
        },
    }
}

/// Posting the first version, and the next free one where it is there already.
/// Where the versions cannot be listed, or the next one is there already too,
/// it is let go.
pub open spec fn versions_run(
    ctx: PublishContextView,
    bearer: Seq<char>,
    name: Seq<char>,
    card: Seq<u8>,
    h: Seq<AnswerView>,
) -> Run<Result<(), PublishErrorView>> {
    let base = first_version(ctx.cfg);
    match post_run(ctx.publish_cfg, bearer, name, base, card, h) {
        Run::Do(a) => Run::Do(a),
        Run::Done(Err(e), h1) => Run::Done(Err(e), h1),
        Run::Done(Ok(PostOutcome::Created), h1) => Run::Done(Ok(()), h1),
        Run::Done(Ok(PostOutcome::AlreadyExists), h1) => match free_version_run(
            ctx.publish_cfg,
            bearer,
            base,
            h1,
        ) {
            Run::Do(a) => Run::Do(a),
            Run::Done(Err(_), h2) => Run::Done(Ok(()), h2),
            Run::Done(Ok(next), h2) => match post_run(
                ctx.publish_cfg,
                bearer,
                name,
                next,
                card,
                h2,
            ) {
                Run::Do(a) => Run::Do(a),
                Run::Done(Err(e), h3) => Run::Done(Err(e), h3),
                Run::Done(Ok(_), h3) => Run::Done(Ok(()), h3),
            },
        },
    }
}

/// Publishing a card.
pub open spec fn publish_run(ctx: PublishContextView, card: Seq<u8>, h: Seq<AnswerView>) -> Run<
    Result<(), PublishErrorView>,
> {
    match publish_token_run(ctx, h) {
        Run::Do(a) => Run::Do(a),
        Run::Done(Err(e), h1) => Run::Done(Err(e), h1),
        Run::Done(Ok(token), h1) => match published_name(
            json_of_bytes(card),
            ctx.publish_cfg.asset_id,
        ) {
            Err(e) => Run::Done(Err(e), h1),
            Ok(name) => versions_run(ctx, "Bearer "@ + token, name, card, h1),
        },
    }
}

/// The value of a publication's outcome.
pub open spec fn publish_result(r: Result<(), PublishError>) -> Result<(), PublishErrorView> {
    match r {
        Ok(_) => Ok(()),
        Err(e) => Err(e@),
    }
}

/// Publishes a card.
pub fn publish_agent_card(record: &mut Record, ctx: &PublishContext, card_bytes: &[u8]) -> (r:
    Progress<Result<(), PublishError>>)
    ensures
        match r {
            Progress::Do(a) => publish_run(ctx@, card_bytes@, old(record)@) == Run::<
                Result<(), PublishErrorView>,
            >::Do(a@),
            Progress::Done(v) => publish_run(ctx@, card_bytes@, old(record)@) == Run::Done(
                publish_result(v),
                final(record)@,
            ),
        },
{
    let token: String = match get_token(record, ctx) {
        Progress::Do(a) => {
            return Progress::Do(a);
        },
        Progress::Done(Err(e)) => {
            return Progress::Done(Err(e));
        },
        Progress::Done(Ok(t)) => t,
    };
    let name: String = match name_to_publish(
        parse_json(card_bytes),
        ctx.publish_cfg.asset_id.as_str(),
    ) {
        Ok(n) => n,
        Err(e) => {
            return Progress::Done(Err(e));
        },
    };
    let base: String = match &ctx.cfg.structured_card.version {
        Some(v) => if is_blank(v.as_str()) {
            "1.0.0".to_owned()
        } else {
            v.clone()
        },
        None => "1.0.0".to_owned(),
    };
    let bearer: String = concat2("Bearer ", token.as_str());
    match post_version(
        record,
        ctx.publish_cfg,
        bearer.as_str(),
        name.as_str(),
        base.as_str(),
        card_bytes,
    ) {
        Progress::Do(a) => {
            return Progress::Do(a);
        },
        Progress::Done(Err(e)) => {
            return Progress::Done(Err(e));
        },
        Progress::Done(Ok(PostOutcome::Created)) => {
            return Progress::Done(Ok(()));
        },
        Progress::Done(Ok(PostOutcome::AlreadyExists)) => {},
    }
    let next: String = match next_free_patch(
        record,
        ctx.publish_cfg,
        bearer.as_str(),
        base.as_str(),
    ) {
        Progress::Do(a) => {
            return Progress::Do(a);
        },
        Progress::Done(Err(_)) => {
            return Progress::Done(Ok(()));
        },
        Progress::Done(Ok(v)) => v,
    };
    match post_version(
        record,
        ctx.publish_cfg,
        bearer.as_str(),
        name.as_str(),
        next.as_str(),
        card_bytes,
    ) {
        Progress::Do(a) => Progress::Do(a),
        Progress::Done(Err(e)) => Progress::Done(Err(e)),
        Progress::Done(Ok(_)) => Progress::Done(Ok(())),
    }
}

proof fn lemma_lifted_all(nodes: Seq<JsonView>, major: u32, minor: u32, max: u32)
    ensures
        lifted_all(nodes, major, minor, max) >= max,
        forall|i: int|
            0 <= i < nodes.len() ==> (listed_patch(#[trigger] nodes[i], major, minor) matches Some(
                p,
            ) ==> p <= lifted_all(nodes, major, minor, max)),
    decreases nodes.len(),
{
    if nodes.len() > 0 {
        let init = nodes.drop_last();
        lemma_lifted_all(init, major, minor, max);
        assert forall|i: int| 0 <= i < nodes.len() implies (listed_patch(
            #[trigger] nodes[i],
            major,
            minor,
        ) matches Some(p) ==> p <= lifted_all(nodes, major, minor, max)) by {
            if i < init.len() {
                assert(init[i] == nodes[i]);
            }
        }
    }
}

/// The next patch comes after the base version's and after every patch of the
/// same minor version that the listing names.
pub proof fn next_patch_is_free(v: JsonView, major: u32, minor: u32, patch: u32)
    ensures
        largest_patch(v, major, minor, patch) >= patch,
        listed_patch(v, major, minor) matches Some(p) ==> p <= largest_patch(
            v,
            major,
            minor,
            patch,
        ),
        forall|i: int|
            0 <= i < listed(v, "versions"@).len() ==> (listed_patch(
                #[trigger] listed(v, "versions"@)[i],
                major,
                minor,
            ) matches Some(p) ==> p <= largest_patch(v, major, minor, patch)),
        forall|i: int|
            0 <= i < listed(v, "otherVersions"@).len() ==> (listed_patch(
                #[trigger] listed(v, "otherVersions"@)[i],
                major,
                minor,
            ) matches Some(p) ==> p <= largest_patch(v, major, minor, patch)),
{
    let a = lifted(v, major, minor, patch);
    lemma_lifted_all(listed(v, "versions"@), major, minor, a);
    let b = lifted_all(listed(v, "versions"@), major, minor, a);
    lemma_lifted_all(listed(v, "otherVersions"@), major, minor, b);
}

/// A card that is no JSON object is not posted.
pub proof fn malformed_card_is_not_posted(
    ctx: PublishContextView,
    card: Seq<u8>,
    h: Seq<AnswerView>,
    token: Seq<char>,
    h1: Seq<AnswerView>,
)
    requires
        publish_token_run(ctx, h) == Run::Done(Ok::<_, PublishErrorView>(token), h1),
        !(json_of_bytes(card) matches Ok(v) && v is Object),
    ensures
        publish_run(ctx, card, h) == Run::Done(Err::<(), _>(PublishErrorView::BadCard), h1),
{
}

/// A version that Exchange has already is no error: where the versions cannot be
/// listed the card counts as published, and so it does where the next version is
/// posted and not refused.
pub proof fn existing_version_is_no_error(
    ctx: PublishContextView,
    bearer: Seq<char>,
    name: Seq<char>,
    card: Seq<u8>,
    h: Seq<AnswerView>,
)
    requires
        h.len() > 0,
        post_outcome(reply_of(h[0])) == Ok::<_, PublishErrorView>(PostOutcome::AlreadyExists),
    ensures
        semver(first_version(ctx.cfg)) matches Some((major, minor, patch)) ==> {
            &&& h.len() > 1 && version_listed(reply_of(h[1]), major, minor, patch) is Err
                ==> versions_run(ctx, bearer, name, card, h) == Run::Done(
                Ok::<(), PublishErrorView>(()),
                h.skip(2),
            )
            &&& h.len() > 2 && post_outcome(reply_of(h[2])) is Ok ==> (versions_run(
                ctx,
                bearer,
                name,
                card,
                h,
            ) matches Run::Done(Ok(_), _))
        },
        semver(first_version(ctx.cfg)) is None && h.len() > 1 && post_outcome(reply_of(h[1])) is Ok
            ==> versions_run(ctx, bearer, name, card, h) == Run::Done(
            Ok::<(), PublishErrorView>(()),
            h.skip(2),
        ),
{
    let h1 = h.drop_first();
    if h.len() > 1 {
        assert(h1[0] == h[1]);
        assert(h1.drop_first() =~= h.skip(2));
    }
    if h.len() > 2 {
        assert(h1.drop_first()[0] == h[2]);
    }
}

} // verus!
