//! Publishing the agent card.

use agentforce_a2a::cache::CachedToken;
use agentforce_a2a::config::{PolicyConfig, RawConfig};
use agentforce_a2a::effects::{
    Action, Answer, HttpReply, HttpRequest, Method, Progress, Record, Upstream,
};
use agentforce_a2a::exchange::multipart::{File, MultipartBuilder};
use agentforce_a2a::exchange::publish::{
    collect_patches, name_to_publish, next_free_patch, parse_semver, post_version,
    publish_agent_card, sha256_short, version_after, ExchangePublishConfig, PostOutcome,
    PublishContext, PublishError,
};
use agentforce_a2a::json::{parse_json_text, Json};
use agentforce_a2a::oauth::{TokenResponse, DEFAULT_EXPIRES_IN_SECS};

fn json(s: &str) -> Json {
    parse_json_text(s).unwrap()
}

#[test]
fn builds_text_part() {
    let mut mp = MultipartBuilder::new("BOUND".to_string());
    mp.add_text("name", "AgentX");
    let (ct, body) = mp.finish();
    let s = String::from_utf8(body).unwrap();
    assert_eq!(ct, "multipart/form-data; boundary=BOUND");
    assert!(s.contains("--BOUND\r\n"));
    assert!(s.contains("Content-Disposition: form-data; name=\"name\"\r\n\r\nAgentX\r\n"));
    assert!(s.ends_with("--BOUND--\r\n"));
}

#[test]
fn builds_file_part() {
    let mut mp = MultipartBuilder::new("B".to_string());
    mp.add_file(
        "files.agent-metadata.json",
        File {
            filename: "agent-card.json",
            content_type: "application/json",
            bytes: br#"{"name":"x"}"#,
        },
    );
    let (_, body) = mp.finish();
    let s = String::from_utf8(body).unwrap();
    assert!(s.contains(
        "Content-Disposition: form-data; name=\"files.agent-metadata.json\"; filename=\"agent-card.json\""
    ));
    assert!(s.contains("Content-Type: application/json"));
    assert!(s.contains(r#"{"name":"x"}"#));
}

#[test]
fn sha256_short_is_deterministic() {
    let a = sha256_short(br#"{"name":"x"}"#);
    let b = sha256_short(br#"{"name":"x"}"#);
    assert_eq!(a, b);
    assert_eq!(a.len(), 8);
}

#[test]
fn sha256_short_changes_with_content() {
    assert_ne!(sha256_short(b"a"), sha256_short(b"b"));
}

#[test]
fn token_response_parses_with_default_expires_in() {
    let r = TokenResponse::parse(br#"{"access_token":"abc"}"#).unwrap();
    assert_eq!(r.access_token, "abc");
    assert_eq!(r.expires_in, DEFAULT_EXPIRES_IN_SECS);
}

#[test]
fn parse_semver_accepts_plain_triplet() {
    assert_eq!(parse_semver("1.0.0"), Some((1, 0, 0)));
    assert_eq!(parse_semver("12.34.56"), Some((12, 34, 56)));
}

#[test]
fn parse_semver_rejects_non_strict() {
    assert_eq!(parse_semver("1.0"), None);
    assert_eq!(parse_semver("1.0.0-rc1"), None);
    assert_eq!(parse_semver("v1.0.0"), None);
    assert_eq!(parse_semver(""), None);
}

#[test]
fn versions_have_no_signs() {
    assert_eq!(parse_semver("+1.0.0"), None);
    assert_eq!(parse_semver("1.+0.0"), None);
    assert_eq!(parse_semver("1.0.+0"), None);
    assert_eq!(parse_semver("1.0.0+7"), None);
    assert_eq!(parse_semver("-1.0.0"), None);
    let mut max = 0u32;
    collect_patches(&json(r#"{"version": "1.0.+5"}"#), 1, 0, &mut max);
    assert_eq!(max, 0);
}

#[test]
fn collect_patches_finds_max_in_same_minor() {
    let v = json(r#"{"version": "1.0.5"}"#);
    let mut max = 0u32;
    collect_patches(&v, 1, 0, &mut max);
    assert_eq!(max, 5);
}

#[test]
fn collect_patches_ignores_other_minors() {
    let v = json(r#"{"version": "1.1.5"}"#);
    let mut max = 0u32;
    collect_patches(&v, 1, 0, &mut max);
    assert_eq!(max, 0);
}

#[test]
fn short_digest_is_the_head_of_the_digest() {
    assert_eq!(sha256_short(b"a"), "ca978112");
    assert_eq!(sha256_short(br#"{"name":"x"}"#), "0229d37e");
}

#[test]
fn multipart_body_is_exact() {
    let mut mp = MultipartBuilder::new("X".to_string());
    mp.add_text("a", "1");
    mp.add_file("f", File { filename: "n", content_type: "t", bytes: &[0, 255] });
    let (_, body) = mp.finish();
    let mut expected = b"--X\r\nContent-Disposition: form-data; name=\"a\"\r\n\r\n1\r\n--X\r\nContent-Disposition: form-data; name=\"f\"; filename=\"n\"\r\nContent-Type: t\r\n\r\n".to_vec();
    expected.extend_from_slice(&[0, 255]);
    expected.extend_from_slice(b"\r\n--X--\r\n");
    assert_eq!(body, expected);
}

#[test]
fn next_version_follows_all_that_are_listed() {
    let listing = json(
        r#"{"version":"1.2.4","versions":[{"version":"1.2.9"},{"version":"1.3.40"},5],
            "otherVersions":[{"version":"1.2.11"},{"version":"1.2.x"}]}"#,
    );
    assert_eq!(version_after(Ok(listing.clone()), 1, 2, 3), "1.2.12");
    assert_eq!(version_after(Ok(listing.clone()), 1, 3, 3), "1.3.41");
    assert_eq!(version_after(Ok(listing), 2, 0, 0), "2.0.1");
    assert_eq!(version_after(Ok(Json::Null), 0, 0, u32::MAX), "0.0.4294967296");
    assert_eq!(version_after(Err("unreadable".into()), 1, 2, 3), "1.2.4");
}

#[test]
fn asset_is_named_after_the_card() {
    assert_eq!(name_to_publish(Ok(json(r#"{"name":"Card"}"#)), "id"), Ok("Card".to_string()));
    assert_eq!(name_to_publish(Ok(json(r#"{"name":" "}"#)), "id"), Ok("id".to_string()));
    assert_eq!(name_to_publish(Ok(json(r#"{"name":5}"#)), "id"), Ok("id".to_string()));
    assert_eq!(name_to_publish(Ok(json("[]")), "id"), Err(PublishError::BadCard));
    assert_eq!(name_to_publish(Err("x".into()), "id"), Err(PublishError::BadCard));
}

fn publish_config() -> ExchangePublishConfig {
    ExchangePublishConfig {
        anypoint_client_id: "client".into(),
        anypoint_client_secret: "secret".into(),
        anypoint_org_id: "org 1".into(),
        group_id: "group".into(),
        asset_id: "asset".into(),
    }
}

fn policy_config(version: &str) -> PolicyConfig {
    PolicyConfig::from_raw(RawConfig {
        consumer_key: Some("k".into()),
        consumer_secret: Some("s".into()),
        agent_id: Some("a".into()),
        public_base_url: Some("https://gw".into()),
        anypoint_org_id: Some("o".into()),
        anypoint_env_id: Some("e".into()),
        object_store_id: Some("st".into()),
        agent_card_version: Some(version.into()),
        ..Default::default()
    })
    .unwrap()
}

fn reply(status: u32, body: &str) -> Answer {
    Answer::Reply(HttpReply::Answered { status, body: body.as_bytes().to_vec() })
}

fn sent(p: Progress<Result<(), PublishError>>) -> HttpRequest {
    match p {
        Progress::Do(Action::Send(r)) => r,
        other => panic!("{other:?}"),
    }
}

#[test]
fn existing_version_is_followed_by_the_next() {
    let cfg = policy_config("1.0.0");
    let publish_cfg = publish_config();
    let ctx = PublishContext {
        cfg: &cfg,
        publish_cfg: &publish_cfg,
        anypoint_token_authority: "anypoint",
        now_unix: 0,
    };
    let card = br#"{"name":"x"}"#;
    let token = CachedToken::new("tok".into(), 0, 9_999).to_bytes();
    let mut answers = vec![Answer::Cached(Some(token))];

    let first = sent(publish_agent_card(&mut Record::new(&answers), &ctx, card));
    assert_eq!(first.upstream, Upstream::Exchange);
    assert_eq!(first.method, Method::Post);
    assert_eq!(
        first.path.as_deref(),
        Some("/exchange/api/v2/organizations/org%201/assets/group/asset/1.0.0")
    );
    assert_eq!(
        first.headers,
        vec![
            ("authorization".to_string(), "Bearer tok".to_string()),
            (
                "content-type".to_string(),
                "multipart/form-data; boundary=a2a-policy-0229d37e".to_string()
            ),
            ("accept".to_string(), "application/json".to_string()),
            ("x-sync-publication".to_string(), "true".to_string()),
        ]
    );
    assert_eq!(first.timeout_ms, Some(10_000));
    let body = String::from_utf8(first.body.unwrap()).unwrap();
    assert!(body.contains("name=\"name\"\r\n\r\nx\r\n"));
    assert!(body.contains("name=\"properties.platform\"\r\n\r\nagentforce\r\n"));

    answers.push(reply(409, ""));
    let listing = sent(publish_agent_card(&mut Record::new(&answers), &ctx, card));
    assert_eq!(listing.method, Method::Get);
    assert_eq!(
        listing.path.as_deref(),
        Some("/exchange/api/v2/assets/group/asset/minorVersions/1.0?status=development&status=published&status=deprecated&strict=false")
    );
    answers.push(reply(200, r#"{"version":"1.0.7"}"#));
    let second = sent(publish_agent_card(&mut Record::new(&answers), &ctx, card));
    assert_eq!(
        second.path.as_deref(),
        Some("/exchange/api/v2/organizations/org%201/assets/group/asset/1.0.8")
    );
    for (status, outcome) in vec![
        (201, Ok(())),
        (409, Ok(())),
        (
            500,
            Err(PublishError::PublishHttpStatus { status: 500, body: "".into() }),
        ),
    ] {
        answers.push(reply(status, ""));
        assert_eq!(
            publish_agent_card(&mut Record::new(&answers), &ctx, card),
            Progress::Done(outcome)
        );
        answers.pop();
    }
    answers.pop();
    answers.push(reply(404, "none"));
    assert_eq!(
        publish_agent_card(&mut Record::new(&answers), &ctx, card),
        Progress::Done(Ok(()))
    );
}

#[test]
fn malformed_card_stops_after_the_token() {
    let cfg = policy_config("1.0.0");
    let publish_cfg = publish_config();
    let ctx = PublishContext {
        cfg: &cfg,
        publish_cfg: &publish_cfg,
        anypoint_token_authority: "anypoint",
        now_unix: 0,
    };
    let token = CachedToken::new("tok".into(), 0, 9_999).to_bytes();
    let answers = vec![Answer::Cached(Some(token))];
    assert_eq!(
        publish_agent_card(&mut Record::new(&answers), &ctx, b"[]"),
        Progress::Done(Err(PublishError::BadCard))
    );
}

#[test]
fn refused_publications_are_told_in_words() {
    let cfg = policy_config("1.0.0");
    let publish_cfg = publish_config();
    let ctx = PublishContext {
        cfg: &cfg,
        publish_cfg: &publish_cfg,
        anypoint_token_authority: "anypoint",
        now_unix: 0,
    };
    let refuse = |answer: Answer| -> String {
        let answers = vec![Answer::Cached(None), answer];
        match publish_agent_card(&mut Record::new(&answers), &ctx, b"{}") {
            Progress::Done(Err(e)) => e.message(),
            other => panic!("{other:?}"),
        }
    };
    assert_eq!(
        refuse(Answer::Reply(HttpReply::Failed("down".into()))),
        "token transport error: down"
    );
    assert_eq!(
        refuse(reply(400, &"y".repeat(300))),
        format!("token endpoint returned HTTP 400: {}...", "y".repeat(256))
    );
    assert_eq!(
        refuse(reply(200, "{}")),
        "token response was not valid JSON: missing field `access_token`"
    );
    assert_eq!(
        refuse(reply(200, r#"{"access_token":""}"#)),
        "token response missing access_token"
    );
    assert_eq!(
        PublishError::PublishTransport("t".into()).message(),
        "publish transport error: t"
    );
    assert_eq!(
        PublishError::PublishHttpStatus { status: 418, body: "tea".into() }.message(),
        "publish returned HTTP 418: tea"
    );
    assert_eq!(PublishError::BadCard.message(), "agent-card bytes were not a JSON object");
}

#[test]
fn one_version_is_posted() {
    let c = publish_config();
    let post = |answer: Answer| {
        let answers = vec![answer];
        post_version(&mut Record::new(&answers), &c, "Bearer t", "n", "1.0.0", b"{}")
    };
    assert_eq!(post(reply(200, "")), Progress::Done(Ok(PostOutcome::Created)));
    assert_eq!(post(reply(409, "")), Progress::Done(Ok(PostOutcome::AlreadyExists)));
    assert_eq!(
        post(Answer::Reply(HttpReply::Failed("f".into()))),
        Progress::Done(Err(PublishError::PublishTransport("f".into())))
    );
    assert_eq!(
        post(reply(500, &"z".repeat(600))),
        Progress::Done(Err(PublishError::PublishHttpStatus {
            status: 500,
            body: format!("{}...", "z".repeat(512)),
        }))
    );
}

#[test]
fn odd_versions_get_a_suffix() {
    let c = publish_config();
    let none: Vec<Answer> = vec![];
    assert_eq!(
        next_free_patch(&mut Record::new(&none), &c, "Bearer t", "1.0-beta"),
        Progress::Done(Ok("1.0-beta-1".to_string()))
    );
    let unreadable = vec![reply(200, "<html>")];
    assert_eq!(
        next_free_patch(&mut Record::new(&unreadable), &c, "Bearer t", "1.4.2"),
        Progress::Done(Ok("1.4.3".to_string()))
    );
}
