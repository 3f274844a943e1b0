//! What is published to Exchange, and under which version.

use vstd::prelude::*;
use vstd::utf8::encode_utf8;

use crate::effects::{
    ActionView, AnswerView, HttpReplyView, HttpRequestView, Method, Run, Upstream,
};
use crate::encoding::{hex, lossy_text, sha256_of, url_encoded};
use crate::exchange::multipart::{closing, file_part, text_part};
use crate::exchange::publish::{
    card_body, first_version, largest_patch, lifted, lifted_all, listed, listed_patch, publish_run,
    publish_token_run, semver, token_error, versions_run, PublishContextView, PublishErrorView,
};
use crate::json::{json_member, json_of_bytes, member, JsonView, MembersView};
use crate::laws::text::{decimal_digits_give_the_number, splitting_takes_pieces};
use crate::oauth::GrantView;
use crate::text::{blank, decimal, parsed_u32, split_on, truncated};

verus! {

/// The card goes out under the version that is configured, and under 1.0.0 only where
/// none is; under the name that the card has, and under the id of the asset only where
/// it has none.
pub proof fn card_is_posted_under_its_version(
    ctx: PublishContextView,
    card: Seq<u8>,
    h: Seq<AnswerView>,
    token: Seq<char>,
    o: MembersView,
    version: Seq<char>,
    name: Seq<char>,
)
    requires
        publish_token_run(ctx, h) == Run::Done(Ok::<_, PublishErrorView>(token), Seq::empty()),
        json_of_bytes(card) == Ok::<_, Seq<char>>(JsonView::Object(o)),
        ctx.cfg.structured_card.version == Some(version) && !blank(version) || (
        ctx.cfg.structured_card.version is None || blank(ctx.cfg.structured_card.version->0))
            && version == "1.0.0"@,
        member(o, "name"@) == Some(JsonView::Text(name)) && !blank(name) || !(member(o, "name"@)
            matches Some(JsonView::Text(n)) && !blank(n)) && name == ctx.publish_cfg.asset_id,
    ensures
        ({
            let boundary = "a2a-policy-"@ + hex(sha256_of(card)).take(8);
            publish_run(ctx, card, h) == Run::<Result<(), PublishErrorView>>::Do(
                ActionView::Send(
                    HttpRequestView {
                        upstream: Upstream::Exchange,
                        method: Method::Post,
                        path: Some(
                            "/exchange/api/v2/organizations/"@ + url_encoded(
                                ctx.publish_cfg.anypoint_org_id,
                            ) + "/assets/"@ + url_encoded(ctx.publish_cfg.group_id) + "/"@
                                + url_encoded(ctx.publish_cfg.asset_id) + "/"@ + url_encoded(
                                version,
                            ),
                        ),
                        headers: seq![
                            ("authorization"@, "Bearer "@ + token),
                            ("content-type"@, "multipart/form-data; boundary="@ + boundary),
                            ("accept"@, "application/json"@),
                            ("x-sync-publication"@, "true"@),
                        ],
                        body: Some(
                            text_part(boundary, "name"@, name) + text_part(
                                boundary,
                                "type"@,
                                "agent"@,
                            ) + text_part(boundary, "status"@, "published"@) + text_part(
                                boundary,
                                "properties.protocol"@,
                                "a2a"@,
                            ) + text_part(boundary, "properties.platform"@, "agentforce"@)
                                + file_part(
                                boundary,
                                "files.a2a-card.json"@,
                                "agent-card.json"@,
                                "application/json"@,
                                card,
                            ) + closing(boundary),
                        ),
                        timeout_ms: Some(10000),
                    },
                ),
            )
        }),
{
}

/// A part of a form: the boundary, the name in quotes, an empty line, and the value as
/// it is.
pub proof fn form_parts(
    boundary: Seq<char>,
    name: Seq<char>,
    value: Seq<char>,
    filename: Seq<char>,
    kind: Seq<char>,
    bytes: Seq<u8>,
)
    ensures
        text_part(boundary, name, value) == encode_utf8("--"@ + boundary + "\r\n"@) + encode_utf8(
            "Content-Disposition: form-data; name=\""@ + name + "\"\r\n\r\n"@,
        ) + encode_utf8(value) + encode_utf8("\r\n"@),
        file_part(boundary, name, filename, kind, bytes) == encode_utf8("--"@ + boundary + "\r\n"@)
            + encode_utf8(
            "Content-Disposition: form-data; name=\""@ + name + "\"; filename=\""@ + filename
                + "\"\r\n"@,
        ) + encode_utf8("Content-Type: "@ + kind + "\r\n\r\n"@) + bytes + encode_utf8("\r\n"@),
        closing(boundary) == encode_utf8("--"@ + boundary + "--\r\n"@),
{
}

proof fn lemma_undotted(n: nat)
    ensures
        !decimal(n).contains('.'),
{
    decimal_digits_give_the_number(n);
    assert forall|i: int| 0 <= i < decimal(n).len() implies decimal(n)[i] != '.' by {
        assert(crate::text::is_digit(decimal(n)[i]));
    }
}

/// A version of three numbers is read as those numbers, and nothing else is a version:
/// neither more nor fewer pieces, nor a piece that is no number.
pub proof fn versions_are_three_numbers(major: u32, minor: u32, patch: u32, s: Seq<char>)
    ensures
        semver(
            decimal(major as nat) + seq!['.'] + decimal(minor as nat) + seq!['.'] + decimal(
                patch as nat,
            ),
        ) == Some((major, minor, patch)),
        split_on(s, '.').len() != 3 ==> semver(s) is None,
        forall|i: int|
            0 <= i < split_on(s, '.').len() && parsed_u32(#[trigger] split_on(s, '.')[i]) is None
                ==> semver(s) is None,
        semver(s) matches Some(v) ==> {
            let pieces = split_on(s, '.');
            &&& pieces.len() == 3
            &&& parsed_u32(pieces[0]) == Some(v.0)
            &&& parsed_u32(pieces[1]) == Some(v.1)
            &&& parsed_u32(pieces[2]) == Some(v.2)
        },
{
    let a = decimal(major as nat);
    let b = decimal(minor as nat);
    let c = decimal(patch as nat);
    lemma_undotted(major as nat);
    lemma_undotted(minor as nat);
    lemma_undotted(patch as nat);
    decimal_digits_give_the_number(major as nat);
    decimal_digits_give_the_number(minor as nat);
    decimal_digits_give_the_number(patch as nat);
    let whole = a + seq!['.'] + b + seq!['.'] + c;
    assert(whole =~= a + seq!['.'] + (b + seq!['.'] + c));
    splitting_takes_pieces(a, '.', b + seq!['.'] + c);
    splitting_takes_pieces(b, '.', c);
    splitting_takes_pieces(c, '.', Seq::empty());
    assert(split_on(whole, '.') =~= seq![a, b, c]);
    let pieces = split_on(s, '.');
    if pieces.len() == 3 {
        assert forall|i: int| 0 <= i < pieces.len() && parsed_u32(#[trigger] pieces[i]) is None implies semver(
            s,
        ) is None by {
            assert(i == 0 || i == 1 || i == 2);
        }
    }
}

/// What a listing says of a version counts for the stream of its first two numbers.
pub proof fn listed_versions_count_in_their_stream(
    o: MembersView,
    major: u32,
    minor: u32,
    m: u32,
    n: u32,
    p: u32,
)
    ensures
        member(o, "version"@) == Some(
            JsonView::Text(
                decimal(m as nat) + seq!['.'] + decimal(n as nat) + seq!['.'] + decimal(p as nat),
            ),
        ) ==> listed_patch(JsonView::Object(o), major, minor) == (if m == major && n == minor {
            Some(p)
        } else {
            None
        }),
        member(o, "version"@) is None ==> listed_patch(JsonView::Object(o), major, minor) is None,
{
    versions_are_three_numbers(m, n, p, Seq::empty());
}

proof fn lemma_lifted_all(nodes: Seq<JsonView>, major: u32, minor: u32, max: u32)
    ensures
        lifted_all(nodes, major, minor, max) == max || exists|i: int|
            0 <= i < nodes.len() && listed_patch(#[trigger] nodes[i], major, minor) == Some(
                lifted_all(nodes, major, minor, max),
            ),
        lifted_all(nodes, major, minor, max) >= max,
    decreases nodes.len(),
{
    if nodes.len() > 0 {
        let init = nodes.drop_last();
        lemma_lifted_all(init, major, minor, max);
        let before = lifted_all(init, major, minor, max);
        if lifted_all(nodes, major, minor, max) == before {
            if before != max {
                let i = choose|i: int|
                    0 <= i < init.len() && listed_patch(#[trigger] init[i], major, minor) == Some(
                        before,
                    );
                assert(nodes[i] == init[i]);
            }
        } else {
            assert(listed_patch(nodes[nodes.len() - 1], major, minor) == Some(
                lifted_all(nodes, major, minor, max),
            ));
        }
    }
}

/// The largest patch is the one that was asked for or one that is listed, so that the
/// next one is the lowest that is free above them all.
pub proof fn largest_patch_is_there(v: JsonView, major: u32, minor: u32, patch: u32)
    ensures
        ({
            let top = largest_patch(v, major, minor, patch);
            let versions = listed(v, "versions"@);
            let others = listed(v, "otherVersions"@);
            ||| top == patch
            ||| listed_patch(v, major, minor) == Some(top)
            ||| exists|i: int|
                0 <= i < versions.len() && listed_patch(#[trigger] versions[i], major, minor)
                    == Some(top)
            ||| exists|i: int|
                0 <= i < others.len() && listed_patch(#[trigger] others[i], major, minor) == Some(
                    top,
                )
        }),
        json_member(v, "versions"@) matches Some(JsonView::Array(a)) ==> listed(v, "versions"@) == a,
        json_member(v, "otherVersions"@) matches Some(JsonView::Array(a)) ==> listed(
            v,
            "otherVersions"@,
        ) == a,
{
    let first = lifted(v, major, minor, patch);
    lemma_lifted_all(listed(v, "versions"@), major, minor, first);
    lemma_lifted_all(
        listed(v, "otherVersions"@),
        major,
        minor,
        lifted_all(listed(v, "versions"@), major, minor, first),
    );
}

/// A version that exists already is answered by a look at the stream of its first two
/// numbers, and then by a second post with the next free patch, to the same asset, with
/// the same card. A version that is no version is tried again with `-1` behind it.
pub proof fn existing_version_is_bumped(
    ctx: PublishContextView,
    bearer: Seq<char>,
    name: Seq<char>,
    card: Seq<u8>,
    body: Seq<u8>,
    listing: Seq<u8>,
    v: JsonView,
    major: u32,
    minor: u32,
    patch: u32,
    e: Seq<char>,
)
    requires
        semver(first_version(ctx.cfg)) == Some((major, minor, patch)),
    ensures
        ({
            let exists_already = AnswerView::Reply(HttpReplyView::Answered { status: 409, body });
            let listed_now = AnswerView::Reply(
                HttpReplyView::Answered { status: 200, body: listing },
            );
            let path = |version: Seq<char>|
                "/exchange/api/v2/organizations/"@ + url_encoded(ctx.publish_cfg.anypoint_org_id)
                    + "/assets/"@ + url_encoded(ctx.publish_cfg.group_id) + "/"@ + url_encoded(
                    ctx.publish_cfg.asset_id,
                ) + "/"@ + url_encoded(version);
            let next = |p: nat|
                decimal(major as nat) + "."@ + decimal(minor as nat) + "."@ + decimal(p);
            &&& versions_run(ctx, bearer, name, card, seq![exists_already]) matches Run::Do(
                ActionView::Send(r),
            ) && r == (HttpRequestView {
                upstream: Upstream::Exchange,
                method: Method::Get,
                path: Some(
                    "/exchange/api/v2/assets/"@ + url_encoded(ctx.publish_cfg.group_id) + "/"@
                        + url_encoded(ctx.publish_cfg.asset_id) + "/minorVersions/"@ + url_encoded(
                        decimal(major as nat) + "."@ + decimal(minor as nat),
                    ) + "?status=development&status=published&status=deprecated&strict=false"@,
                ),
                headers: seq![("authorization"@, bearer), ("accept"@, "application/json"@)],
                body: None,
                timeout_ms: Some(10000),
            })
            &&& json_of_bytes(listing) == Ok::<_, Seq<char>>(v) ==> (versions_run(
                ctx,
                bearer,
                name,
                card,
                seq![exists_already, listed_now],
            ) matches Run::Do(ActionView::Send(r)) && r.method is Post && r.upstream is Exchange
                && r.body == Some(card_body(name, card)) && r.path == Some(
                path(next((largest_patch(v, major, minor, patch) + 1) as nat)),
            ))
            &&& json_of_bytes(listing) == Err::<JsonView, _>(e) ==> (versions_run(
                ctx,
                bearer,
                name,
                card,
                seq![exists_already, listed_now],
            ) matches Run::Do(ActionView::Send(r)) && r.method is Post && r.path == Some(
                path(next((patch + 1) as nat)),
            ))
        }),
{
    let exists_already = AnswerView::Reply(HttpReplyView::Answered { status: 409, body });
    let listed_now = AnswerView::Reply(HttpReplyView::Answered { status: 200, body: listing });
    assert(seq![exists_already].drop_first() =~= Seq::empty());
    assert(seq![exists_already, listed_now].drop_first() =~= seq![listed_now]);
    assert(seq![listed_now].drop_first() =~= Seq::empty());
}

/// What comes of the first post: 2xx is success, 409 goes on, anything else is an error
/// that tells the status; and what comes of the second: 2xx and 409 are success.
pub proof fn posts_are_judged_by_status(
    ctx: PublishContextView,
    bearer: Seq<char>,
    name: Seq<char>,
    card: Seq<u8>,
    status: u32,
    body: Seq<u8>,
    e: Seq<char>,
    rest: Seq<AnswerView>,
    listing: Seq<u8>,
    first: Seq<u8>,
)
    ensures
        ({
            let reply = AnswerView::Reply(HttpReplyView::Answered { status, body });
            let failed = AnswerView::Reply(HttpReplyView::Failed(e));
            &&& 200 <= status <= 299 ==> versions_run(ctx, bearer, name, card, seq![reply] + rest)
                == Run::Done(Ok::<(), PublishErrorView>(()), rest)
            &&& !(200 <= status <= 299) && status != 409 ==> versions_run(
                ctx,
                bearer,
                name,
                card,
                seq![reply] + rest,
            ) == Run::Done(
                Err::<(), _>(
                    PublishErrorView::PublishHttpStatus {
                        status,
                        body: truncated(lossy_text(body), 512),
                    },
                ),
                rest,
            )
            &&& versions_run(ctx, bearer, name, card, seq![failed] + rest) == Run::Done(
                Err::<(), _>(PublishErrorView::PublishTransport(e)),
                rest,
            )
        }),
        ({
            let exists_already = AnswerView::Reply(
                HttpReplyView::Answered { status: 409, body: first },
            );
            let listed_now = AnswerView::Reply(
                HttpReplyView::Answered { status: 200, body: listing },
            );
            let reply = AnswerView::Reply(HttpReplyView::Answered { status, body });
            semver(first_version(ctx.cfg)) is Some ==> {
                &&& 200 <= status <= 299 || status == 409 ==> versions_run(
                    ctx,
                    bearer,
                    name,
                    card,
                    seq![exists_already, listed_now, reply] + rest,
                ) == Run::Done(Ok::<(), PublishErrorView>(()), rest)
                &&& !(200 <= status <= 299) && status != 409 ==> versions_run(
                    ctx,
                    bearer,
                    name,
                    card,
                    seq![exists_already, listed_now, reply] + rest,
                ) == Run::Done(
                    Err::<(), _>(
                        PublishErrorView::PublishHttpStatus {
                            status,
                            body: truncated(lossy_text(body), 512),
                        },
                    ),
                    rest,
                )
                &&& !(200 <= status <= 299) ==> versions_run(
                    ctx,
                    bearer,
                    name,
                    card,
                    seq![exists_already, reply] + rest,
                ) == Run::Done(Ok::<(), PublishErrorView>(()), rest)
            }
        }),
{
    let reply = AnswerView::Reply(HttpReplyView::Answered { status, body });
    let failed = AnswerView::Reply(HttpReplyView::Failed(e));
    let exists_already = AnswerView::Reply(HttpReplyView::Answered { status: 409, body: first });
    let listed_now = AnswerView::Reply(HttpReplyView::Answered { status: 200, body: listing });
    assert((seq![reply] + rest).drop_first() =~= rest);
    assert((seq![failed] + rest).drop_first() =~= rest);
    let three = seq![exists_already, listed_now, reply] + rest;
    assert(three.drop_first() =~= seq![listed_now, reply] + rest);
    assert((seq![listed_now, reply] + rest).drop_first() =~= seq![reply] + rest);
    let two = seq![exists_already, reply] + rest;
    assert(two.drop_first() =~= seq![reply] + rest);
}

/// Where the version is none of three numbers, the second post goes to it with `-1`
/// behind.
pub proof fn odd_versions_get_a_suffix(
    ctx: PublishContextView,
    bearer: Seq<char>,
    name: Seq<char>,
    card: Seq<u8>,
    body: Seq<u8>,
)
    requires
        semver(first_version(ctx.cfg)) is None,
    ensures
        versions_run(
            ctx,
            bearer,
            name,
            card,
            seq![AnswerView::Reply(HttpReplyView::Answered { status: 409, body })],
        ) matches Run::Do(ActionView::Send(r)) && r.method is Post && r.path == Some(
            "/exchange/api/v2/organizations/"@ + url_encoded(ctx.publish_cfg.anypoint_org_id)
                + "/assets/"@ + url_encoded(ctx.publish_cfg.group_id) + "/"@ + url_encoded(
                ctx.publish_cfg.asset_id,
            ) + "/"@ + url_encoded(first_version(ctx.cfg) + "-1"@),
        ),
{
    let h = seq![AnswerView::Reply(HttpReplyView::Answered { status: 409, body })];
    assert(h.drop_first() =~= Seq::empty());
}

/// The version that is tried first is the configured one, unless that is blank.
pub proof fn configured_version_comes_first(ctx: PublishContextView, version: Seq<char>)
    ensures
        ctx.cfg.structured_card.version == Some(version) && !blank(version) ==> first_version(
            ctx.cfg,
        ) == version,
        ctx.cfg.structured_card.version is None || blank(ctx.cfg.structured_card.version->0)
            ==> first_version(ctx.cfg) == "1.0.0"@,
{
}

/// A token that cannot be got is told as what went wrong, and nothing is posted.
pub proof fn token_failures_are_told(
    ctx: PublishContextView,
    card: Seq<u8>,
    h: Seq<AnswerView>,
    e: PublishErrorView,
    rest: Seq<AnswerView>,
    text: Seq<char>,
    status: u32,
    body: Seq<u8>,
)
    ensures
        publish_token_run(ctx, h) == Run::Done(Err::<Seq<char>, _>(e), rest) ==> publish_run(
            ctx,
            card,
            h,
        ) == Run::Done(Err::<(), _>(e), rest),
        token_error(GrantView::Transport(text)) == PublishErrorView::TokenTransport(text),
        token_error(GrantView::Status { status, body }) == (PublishErrorView::TokenHttpStatus {
            status,
            body: truncated(lossy_text(body), 256),
        }),
        token_error(GrantView::BadJson(text)) == PublishErrorView::TokenBadJson(text),
        token_error(GrantView::Empty) is TokenMissingAccessToken,
{
}

/// With a token at hand, what is done goes by the card and its name alone: the versions
/// are tried with that token.
pub proof fn token_is_used_throughout(
    ctx: PublishContextView,
    card: Seq<u8>,
    h: Seq<AnswerView>,
    token: Seq<char>,
    h1: Seq<AnswerView>,
    o: MembersView,
    name: Seq<char>,
)
    requires
        publish_token_run(ctx, h) == Run::Done(Ok::<_, PublishErrorView>(token), h1),
        json_of_bytes(card) == Ok::<_, Seq<char>>(JsonView::Object(o)),
        member(o, "name"@) == Some(JsonView::Text(name)) && !blank(name) || !(member(o, "name"@)
            matches Some(JsonView::Text(n)) && !blank(n)) && name == ctx.publish_cfg.asset_id,
    ensures
        publish_run(ctx, card, h) == versions_run(ctx, "Bearer "@ + token, name, card, h1),
{
}

} // verus!
