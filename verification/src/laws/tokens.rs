//! How access tokens are got, kept and renewed.

use vstd::prelude::*;
use vstd::utf8::encode_utf8;

use crate::agentforce::auth::{auth_error, auth_run, AgentforceAuthConfigView, AuthErrorView};
use crate::cache::{seconds_left, token_lasting, usable_token, CachedTokenView};
use crate::decode::{
    fields, lemma_field_index, lemma_members_push, lemma_nothing_absent, members_error,
    record_of_bytes, Rec,
};
use crate::effects::{
    ActionView, AnswerView, HttpReplyView, HttpRequestView, Method, Run, Upstream,
};
use crate::encoding::{form3, hex, lossy_text, sha256_of};
use crate::exchange::publish::{publish_token_run, PublishContextView, PublishErrorView};
use crate::json::{bytes_of_json, lemma_member_push, member, JsonView, MembersView, NumberView};
use crate::oauth::{grant_of, token_response, token_run, GrantView, TokenResponseView};
use crate::store::object_store_v2::{os2_error, store_token_run, OS2ConfigView, OS2ErrorView};
use crate::text::truncated;

verus! {

proof fn lemma_token_names()
    ensures
        "access_token"@ != "expires_in"@,
{
    reveal_strlit("access_token");
    reveal_strlit("expires_in");
    assert("access_token"@.len() == 12);
    assert("expires_in"@.len() == 10);
}

/// What a token endpoint issues is the token it names, for as long as it says, or for
/// half an hour where it says nothing.
pub proof fn issued_token_is_read(t: Seq<char>, n: u64)
    ensures
        token_response(
            Ok(
                JsonView::Object(
                    seq![
                        ("access_token"@, JsonView::Text(t)),
                        ("expires_in"@, JsonView::Number(NumberView::PosInt(n))),
                    ],
                ),
            ),
        ) == Ok::<_, Seq<char>>(TokenResponseView { access_token: t, expires_in: n }),
        token_response(Ok(JsonView::Object(seq![("access_token"@, JsonView::Text(t))]))) == Ok::<
            _,
            Seq<char>,
        >(TokenResponseView { access_token: t, expires_in: 1800 }),
        token_response(Ok(JsonView::Object(MembersView::empty()))) is Err,
        forall|e: Seq<char>| (#[trigger] token_response(Err(e))) == Err::<TokenResponseView, _>(e),
{
    broadcast use {lemma_member_push, lemma_members_push};

    lemma_token_names();
    let r = Rec::Token;
    let none = MembersView::empty();
    let one = none.push(("access_token"@, JsonView::Text(t)));
    let two = one.push(("expires_in"@, JsonView::Number(NumberView::PosInt(n))));
    assert(seq![("access_token"@, JsonView::Text(t))] =~= one);
    assert(seq![
        ("access_token"@, JsonView::Text(t)),
        ("expires_in"@, JsonView::Number(NumberView::PosInt(n))),
    ] =~= two);
    lemma_field_index(fields(r), "access_token"@, 0);
    lemma_field_index(fields(r), "expires_in"@, 1);
    assert(members_error(r, none, 0) is None);
    assert(members_error(r, one, 0) is None);
    assert(members_error(r, two, 0) is None);
    assert(member(none, "access_token"@) is None);
    assert(member(none, "expires_in"@) is None);
    lemma_nothing_absent(fields(r), one);
    lemma_nothing_absent(fields(r), two);
}

/// What comes of asking for a token: only a status from 200 to 299 with a token that is
/// not empty brings one.
pub proof fn grants_are_judged(status: u32, body: Seq<u8>, e: Seq<char>, t: TokenResponseView)
    ensures
        grant_of(HttpReplyView::Failed(e)) == GrantView::Transport(e),
        !(200 <= status <= 299) ==> grant_of(HttpReplyView::Answered { status, body }) == (
        GrantView::Status { status, body }),
        200 <= status <= 299 && token_response(record_of_bytes(Rec::Token, body)) == Err::<
            TokenResponseView,
            _,
        >(e) ==> grant_of(HttpReplyView::Answered { status, body }) == GrantView::BadJson(e),
        200 <= status <= 299 && token_response(record_of_bytes(Rec::Token, body)) == Ok::<
            _,
            Seq<char>,
        >(t) ==> grant_of(HttpReplyView::Answered { status, body }) == (if t.access_token
            == Seq::<char>::empty() {
            GrantView::Empty
        } else {
            GrantView::Issued(t)
        }),
{
    assert(t.access_token.len() == 0 <==> t.access_token =~= Seq::<char>::empty());
}

/// Where the cache has no token of use, one is asked for with the client's own id and
/// secret; it is put in the cache until its end, and it is the token. A refused request
/// leaves the cache alone.
pub proof fn missing_token_is_asked_for(
    key: Seq<char>,
    request: HttpRequestView,
    now: u64,
    margin: u32,
    entry: Option<Seq<u8>>,
    reply: HttpReplyView,
    t: TokenResponseView,
    saved: AnswerView,
    rest: Seq<AnswerView>,
)
    requires
        usable_token(entry, now, margin) is None,
    ensures
        ({
            let found = AnswerView::Cached(entry);
            let answer = AnswerView::Reply(reply);
            &&& token_run(key, request, now, margin, false, Seq::empty()) == Run::<
                Result<Seq<char>, GrantView>,
            >::Do(ActionView::CacheGet { key })
            &&& token_run(key, request, now, margin, false, seq![found]) == Run::<
                Result<Seq<char>, GrantView>,
            >::Do(ActionView::Send(request))
            &&& grant_of(reply) == GrantView::Issued(t) ==> {
                &&& token_run(key, request, now, margin, false, seq![found, answer]) == Run::<
                    Result<Seq<char>, GrantView>,
                >::Do(
                    ActionView::CacheSave {
                        key,
                        bytes: bytes_of_json(
                            JsonView::Object(
                                seq![
                                    ("access_token"@, JsonView::Text(t.access_token)),
                                    (
                                        "expires_at_unix"@,
                                        JsonView::Number(
                                            NumberView::PosInt(
                                                if now + t.expires_in > u64::MAX {
                                                    u64::MAX
                                                } else {
                                                    (now + t.expires_in) as u64
                                                },
                                            ),
                                        ),
                                    ),
                                ],
                            ),
                        ),
                    },
                )
                &&& token_run(
                    key,
                    request,
                    now,
                    margin,
                    false,
                    seq![found, answer, saved] + rest,
                ) == Run::Done(Ok::<_, GrantView>(t.access_token), rest)
            }
            &&& !(grant_of(reply) is Issued) ==> token_run(
                key,
                request,
                now,
                margin,
                false,
                seq![found, answer] + rest,
            ) == Run::Done(Err::<Seq<char>, _>(grant_of(reply)), rest)
        }),
{
    let found = AnswerView::Cached(entry);
    let answer = AnswerView::Reply(reply);
    assert(seq![found].drop_first() =~= Seq::empty());
    assert(seq![found, answer].drop_first() =~= seq![answer]);
    assert(seq![answer].drop_first() =~= Seq::empty());
    assert((seq![found, answer] + rest).drop_first() =~= seq![answer] + rest);
    assert((seq![answer] + rest).drop_first() =~= rest);
    assert((seq![found, answer, saved] + rest).drop_first() =~= seq![answer, saved] + rest);
    assert((seq![answer, saved] + rest).drop_first() =~= seq![saved] + rest);
    assert((seq![saved] + rest).drop_first() =~= rest);
    crate::laws::wire::cache_documents(
        crate::store::task_store::HotEnvelopeView { payload: Seq::empty(), expires_at_unix: 0 },
        token_lasting(t.access_token, now, t.expires_in),
        crate::store::task_store::TaskMeta { sequence_id: 0, last_updated_at_unix: 0 },
    );
}

/// A cached token is of use until the margin before its end begins; what is no token is
/// of none.
pub proof fn cached_token_is_of_use(entry: Seq<u8>, t: CachedTokenView, now: u64, margin: u32)
    ensures
        crate::cache::token_read(record_of_bytes(Rec::CachedToken, entry)) == Some(t)
            ==> usable_token(Some(entry), now, margin) == (if now + margin < t.expires_at_unix {
            Some(t.access_token)
        } else {
            None
        }),
        crate::cache::token_read(record_of_bytes(Rec::CachedToken, entry)) is None ==> usable_token(
            Some(entry),
            now,
            margin,
        ) is None,
        usable_token(None, now, margin) is None,
{
}

/// The form of a grant: the kind of grant, the client's id and its secret, each encoded.
pub proof fn grant_form_is_the_clients(id: Seq<char>, secret: Seq<char>)
    ensures
        crate::oauth::grant_form(id, secret) == form3(
            ("grant_type"@, "client_credentials"@),
            ("client_id"@, id),
            ("client_secret"@, secret),
        ),
{
}

/// The token of Salesforce: kept under the key of the consumer at its domain, asked for
/// at the domain's token endpoint with the consumer's key and secret, and used until the
/// configured margin.
pub proof fn salesforce_token(
    c: AgentforceAuthConfigView,
    now: u64,
    entry: Option<Seq<u8>>,
    rest: Seq<AnswerView>,
)
    requires
        c.access_token_override is None,
    ensures
        auth_run(c, now, false, Seq::empty()) == Run::<Result<Seq<char>, AuthErrorView>>::Do(
            ActionView::CacheGet {
                key: "agentforce-tokens"@ + ":"@ + hex(
                    sha256_of(
                        encode_utf8(c.consumer_key) + encode_utf8("|"@) + encode_utf8(
                            c.my_domain_url_for_cache_key,
                        ),
                    ),
                ),
            },
        ),
        usable_token(entry, now, c.cache_safety_margin_seconds) matches Some(t) ==> auth_run(
            c,
            now,
            false,
            seq![AnswerView::Cached(entry)] + rest,
        ) == Run::Done(Ok::<_, AuthErrorView>(t), rest),
        usable_token(entry, now, c.cache_safety_margin_seconds) is None ==> auth_run(
            c,
            now,
            false,
            seq![AnswerView::Cached(entry)],
        ) == Run::<Result<Seq<char>, AuthErrorView>>::Do(
            ActionView::Send(
                HttpRequestView {
                    upstream: Upstream::MyDomain,
                    method: Method::Post,
                    path: Some("/services/oauth2/token"@),
                    headers: seq![
                        ("content-type"@, "application/x-www-form-urlencoded"@),
                        ("accept"@, "application/json"@),
                    ],
                    body: Some(
                        encode_utf8(
                            form3(
                                ("grant_type"@, "client_credentials"@),
                                ("client_id"@, c.consumer_key),
                                ("client_secret"@, c.consumer_secret),
                            ),
                        ),
                    ),
                    timeout_ms: None,
                },
            ),
        ),
{
    assert((seq![AnswerView::Cached(entry)] + rest).drop_first() =~= rest);
    assert(seq![AnswerView::Cached(entry)].drop_first() =~= Seq::empty());
}

/// A fresh token of Salesforce: the cached one is dropped first, whatever it was.
pub proof fn salesforce_token_is_renewed(
    c: AgentforceAuthConfigView,
    now: u64,
    dropped: AnswerView,
    reply: HttpReplyView,
    t: TokenResponseView,
    saved: AnswerView,
    rest: Seq<AnswerView>,
)
    requires
        c.access_token_override is None,
        grant_of(reply) == GrantView::Issued(t),
    ensures
        auth_run(c, now, true, Seq::empty()) == Run::<Result<Seq<char>, AuthErrorView>>::Do(
            ActionView::CacheDelete {
                key: "agentforce-tokens"@ + ":"@ + hex(
                    sha256_of(
                        encode_utf8(c.consumer_key) + encode_utf8("|"@) + encode_utf8(
                            c.my_domain_url_for_cache_key,
                        ),
                    ),
                ),
            },
        ),
        auth_run(c, now, true, seq![dropped]) matches Run::Do(ActionView::Send(r)) && r.upstream
            is MyDomain && r.path == Some("/services/oauth2/token"@),
        auth_run(c, now, true, seq![dropped, AnswerView::Reply(reply), saved] + rest) == Run::Done(
            Ok::<_, AuthErrorView>(t.access_token),
            rest,
        ),
{
    let answer = AnswerView::Reply(reply);
    assert(seq![dropped].drop_first() =~= Seq::empty());
    assert((seq![dropped, answer, saved] + rest).drop_first() =~= seq![answer, saved] + rest);
    assert((seq![answer, saved] + rest).drop_first() =~= seq![saved] + rest);
    assert((seq![saved] + rest).drop_first() =~= rest);
}

/// What went wrong with a token is told in the words of each side.
pub proof fn token_errors_are_told(status: u32, body: Seq<u8>, e: Seq<char>)
    ensures
        auth_error(GrantView::Transport(e)) == AuthErrorView::Transport(e),
        auth_error(GrantView::Status { status, body }) == (AuthErrorView::HttpStatus {
            status,
            body: truncated(lossy_text(body), 256),
        }),
        auth_error(GrantView::BadJson(e)) == AuthErrorView::BadJson(e),
        auth_error(GrantView::Empty) is MissingAccessToken,
        os2_error(GrantView::Transport(e)) == (OS2ErrorView::Transport {
            endpoint: "anypoint-oauth2"@,
            source: e,
        }),
        os2_error(GrantView::Status { status, body }) == (OS2ErrorView::HttpStatus {
            operation: "anypoint-oauth2"@,
            status,
        }),
        os2_error(GrantView::BadJson(e)) == OS2ErrorView::BadTokenJson(e),
        os2_error(GrantView::Empty) is MissingAccessToken,
{
}

/// The tokens of the platform, for the object store and for Exchange: each kept under a
/// key of its own and asked for with its own id and secret.
pub proof fn platform_tokens(
    c: OS2ConfigView,
    ctx: PublishContextView,
    now: u64,
    entry: Option<Seq<u8>>,
    rest: Seq<AnswerView>,
)
    ensures
        store_token_run(c, now, false, Seq::empty()) == Run::<Result<Seq<char>, OS2ErrorView>>::Do(
            ActionView::CacheGet {
                key: "anypoint-os2"@ + ":"@ + hex(
                    sha256_of(
                        encode_utf8(c.anypoint_client_id) + encode_utf8("|"@) + encode_utf8(
                            c.anypoint_token_url_for_cache_key,
                        ),
                    ),
                ),
            },
        ),
        usable_token(entry, now, c.cache_safety_margin_seconds) matches Some(t) ==> store_token_run(
            c,
            now,
            false,
            seq![AnswerView::Cached(entry)] + rest,
        ) == Run::Done(Ok::<_, OS2ErrorView>(t), rest),
        usable_token(entry, now, c.cache_safety_margin_seconds) is None ==> store_token_run(
            c,
            now,
            false,
            seq![AnswerView::Cached(entry)],
        ) == Run::<Result<Seq<char>, OS2ErrorView>>::Do(
            ActionView::Send(
                HttpRequestView {
                    upstream: Upstream::AnypointToken,
                    method: Method::Post,
                    path: None,
                    headers: seq![
                        ("content-type"@, "application/x-www-form-urlencoded"@),
                        ("accept"@, "application/json"@),
                    ],
                    body: Some(
                        encode_utf8(
                            form3(
                                ("grant_type"@, "client_credentials"@),
                                ("client_id"@, c.anypoint_client_id),
                                ("client_secret"@, c.anypoint_client_secret),
                            ),
                        ),
                    ),
                    timeout_ms: None,
                },
            ),
        ),
        publish_token_run(ctx, Seq::empty()) == Run::<Result<Seq<char>, PublishErrorView>>::Do(
            ActionView::CacheGet {
                key: "anypoint-exchange"@ + ":"@ + hex(
                    sha256_of(
                        encode_utf8(ctx.publish_cfg.anypoint_client_id) + encode_utf8("|"@)
                            + encode_utf8(ctx.anypoint_token_authority),
                    ),
                ),
            },
        ),
        usable_token(entry, ctx.now_unix, ctx.cfg.cache_safety_margin_seconds) matches Some(t)
            ==> publish_token_run(ctx, seq![AnswerView::Cached(entry)] + rest) == Run::Done(
            Ok::<_, PublishErrorView>(t),
            rest,
        ),
        usable_token(entry, ctx.now_unix, ctx.cfg.cache_safety_margin_seconds) is None
            ==> publish_token_run(ctx, seq![AnswerView::Cached(entry)]) == Run::<
            Result<Seq<char>, PublishErrorView>,
        >::Do(
            ActionView::Send(
                HttpRequestView {
                    upstream: Upstream::AnypointToken,
                    method: Method::Post,
                    path: None,
                    headers: seq![
                        ("content-type"@, "application/x-www-form-urlencoded"@),
                        ("accept"@, "application/json"@),
                    ],
                    body: Some(
                        encode_utf8(
                            form3(
                                ("grant_type"@, "client_credentials"@),
                                ("client_id"@, ctx.publish_cfg.anypoint_client_id),
                                ("client_secret"@, ctx.publish_cfg.anypoint_client_secret),
                            ),
                        ),
                    ),
                    timeout_ms: Some(5000),
                },
            ),
        ),
{
    assert((seq![AnswerView::Cached(entry)] + rest).drop_first() =~= rest);
    assert(seq![AnswerView::Cached(entry)].drop_first() =~= Seq::empty());
}

/// What a token has left ends with the token; one that has ended counts for a second.
pub proof fn token_lasts_to_its_end(t: CachedTokenView, now: u64)
    ensures
        now < t.expires_at_unix ==> now + seconds_left(t, now) == t.expires_at_unix,
        now >= t.expires_at_unix ==> seconds_left(t, now) == 1,
{
}

} // verus!
