//! The task store and the object store.

use agentforce_a2a::effects::{
    Action, Answer, HttpReply, HttpRequest, Method, Progress, Record, Upstream,
};
use agentforce_a2a::json::parse_json;
use agentforce_a2a::oauth::{granted, Grant, TokenResponse};
use agentforce_a2a::cache::CachedToken;
use agentforce_a2a::store::object_store_v2::{GetOutcome, OS2Config, OS2Error, ObjectStoreV2};
use agentforce_a2a::store::task_store::{HotEnvelope, TaskMeta, TaskStore};

#[test]
fn task_meta_initial_starts_at_one() {
    let m = TaskMeta::initial(100);
    assert_eq!(m.sequence_id, 1);
    assert_eq!(m.last_updated_at_unix, 100);
}

#[test]
fn task_meta_next_sequence_increments_and_stamps() {
    let mut m = TaskMeta::initial(100);
    let n1 = m.next_sequence(110);
    let n2 = m.next_sequence(120);
    assert_eq!(n1, 2);
    assert_eq!(n2, 3);
    assert_eq!(m.last_updated_at_unix, 120);
}

#[test]
fn hot_envelope_serializes_round_trip() {
    let env = HotEnvelope { payload: vec![1, 2, 3], expires_at_unix: 999 };
    let bytes = env.to_bytes();
    let back = HotEnvelope::from_bytes(&bytes).unwrap();
    assert_eq!(back.payload, vec![1, 2, 3]);
    assert_eq!(back.expires_at_unix, 999);
}

fn cfg() -> OS2Config {
    OS2Config {
        anypoint_client_id: "id".into(),
        anypoint_client_secret: "secret".into(),
        anypoint_org_id: "org-1".into(),
        anypoint_env_id: "env/with/slash".into(),
        object_store_id: "tasks".into(),
        anypoint_token_url_for_cache_key: "https://anypoint.mulesoft.com".into(),
        cache_safety_margin_seconds: 60,
        timeout_ms: 1500,
        auto_create_store: true,
        disable_object_store: false,
        object_store_ttl_seconds: 86_400,
    }
}

#[test]
fn key_path_url_encodes_segments() {
    let s = ObjectStoreV2::new(cfg()).key_path("task:abc/def");
    assert!(s.starts_with("/api/v1/organizations/org-1/"));
    assert!(s.contains("environments/env%2Fwith%2Fslash/"));
    assert!(s.ends_with("keys/task%3Aabc%2Fdef"));
    assert_eq!(
        s,
        "/api/v1/organizations/org-1/environments/env%2Fwith%2Fslash/data/tasks/keys/task%3Aabc%2Fdef"
    );
}

#[test]
fn token_response_parses() {
    let body = br#"{"access_token":"abc","expires_in":1800}"#;
    let r = TokenResponse::parse(body).unwrap();
    assert_eq!(r.access_token, "abc");
    assert_eq!(r.expires_in, 1800);
}

#[test]
fn token_response_defaults_expires_in() {
    let body = br#"{"access_token":"abc"}"#;
    let r = TokenResponse::parse(body).unwrap();
    assert_eq!(r.expires_in, 1800);
}

#[test]
fn token_answers_are_judged() {
    assert_eq!(granted(HttpReply::Failed("x".into())), Grant::Transport("x".into()));
    assert_eq!(
        granted(HttpReply::Answered { status: 300, body: vec![7] }),
        Grant::Status { status: 300, body: vec![7] }
    );
    assert_eq!(
        granted(HttpReply::Answered { status: 200, body: b"[".to_vec() }),
        Grant::BadJson("EOF while parsing a list at line 1 column 1".into())
    );
    assert_eq!(
        TokenResponse::of(parse_json(br#"{"access_token":"a","expires_in":"9"}"#)).unwrap_err(),
        "invalid type: string \"9\", expected u64"
    );
}

#[test]
fn sequence_stops_at_its_largest_number() {
    let mut m = TaskMeta { sequence_id: u32::MAX, last_updated_at_unix: 1 };
    assert_eq!(m.next_sequence(2), u32::MAX);
    assert_eq!(
        m,
        TaskMeta { sequence_id: u32::MAX, last_updated_at_unix: 2 }
    );
}

#[test]
fn envelopes_of_another_shape_are_none() {
    assert_eq!(HotEnvelope::from_bytes(br#"{"payload":[256],"expires_at_unix":1}"#), None);
    assert_eq!(HotEnvelope::from_bytes(b"x"), None);
    assert_eq!(TaskMeta::from_bytes(br#"{"sequenceId":-1,"lastUpdatedAt":1}"#), None);
    let m = TaskMeta { sequence_id: 3, last_updated_at_unix: 9 };
    assert_eq!(m.to_bytes(), br#"{"sequenceId":3,"lastUpdatedAt":9}"#.to_vec());
    assert_eq!(TaskMeta::from_bytes(&m.to_bytes()), Some(m));
}

#[test]
fn task_is_kept_until_it_expires() {
    let store = TaskStore::new(60);
    let none: Vec<Answer> = vec![];
    let envelope = HotEnvelope { payload: b"{}".to_vec(), expires_at_unix: 160 };
    assert_eq!(
        store.put_task(&mut Record::new(&none), "t", b"{}", 100),
        Progress::Do(Action::CacheSave { key: "task:t".into(), bytes: envelope.to_bytes() })
    );
    let mut answers = vec![Answer::Cached(Some(envelope.to_bytes()))];
    assert_eq!(
        store.get_task(&mut Record::new(&answers), "t", 159),
        Progress::Done(Some(b"{}".to_vec()))
    );
    assert_eq!(
        store.get_task(&mut Record::new(&answers), "t", 160),
        Progress::Do(Action::CacheDelete { key: "task:t".into() })
    );
    answers.push(Answer::Acknowledged);
    assert_eq!(store.get_task(&mut Record::new(&answers), "t", 160), Progress::Done(None));
    let unreadable = vec![Answer::Cached(Some(b"?".to_vec()))];
    assert_eq!(store.get_task(&mut Record::new(&unreadable), "t", 0), Progress::Done(None));
}

#[test]
fn task_and_counter_are_dropped_together() {
    let store = TaskStore::new(60);
    let mut answers: Vec<Answer> = vec![];
    assert_eq!(
        store.delete_task(&mut Record::new(&answers), "t"),
        Progress::Do(Action::CacheDelete { key: "task:t".into() })
    );
    answers.push(Answer::Acknowledged);
    assert_eq!(
        store.delete_task(&mut Record::new(&answers), "t"),
        Progress::Do(Action::CacheDelete { key: "meta:t".into() })
    );
    answers.push(Answer::Acknowledged);
    assert_eq!(store.delete_task(&mut Record::new(&answers), "t"), Progress::Done(()));
}

#[test]
fn counter_is_kept_beside_the_task() {
    let store = TaskStore::new(u32::MAX);
    let m = TaskMeta { sequence_id: 3, last_updated_at_unix: 9 };
    let none: Vec<Answer> = vec![];
    let envelope = HotEnvelope { payload: m.to_bytes(), expires_at_unix: u64::MAX };
    assert_eq!(
        store.put_meta(&mut Record::new(&none), "t", &m, u64::MAX - 5),
        Progress::Do(Action::CacheSave { key: "meta:t".into(), bytes: envelope.to_bytes() })
    );
    let answers = vec![Answer::Cached(Some(envelope.to_bytes()))];
    assert_eq!(store.get_meta(&mut Record::new(&answers), "t", 7), Progress::Done(Some(m)));
}

fn reply(status: u32, body: &str) -> Answer {
    Answer::Reply(HttpReply::Answered { status, body: body.as_bytes().to_vec() })
}

fn token_entry() -> Answer {
    Answer::Cached(Some(CachedToken::new("tok".into(), 0, 100_000).to_bytes()))
}

#[test]
fn object_store_asks_for_its_own_token() {
    let store = ObjectStoreV2::new(cfg());
    assert!(store.token_cache_key().starts_with("anypoint-os2:"));
    let answers = vec![Answer::Cached(None)];
    assert_eq!(
        store.get_token(&mut Record::new(&answers), 0, false),
        Progress::Do(Action::Send(HttpRequest {
            upstream: Upstream::AnypointToken,
            method: Method::Post,
            path: None,
            headers: vec![
                ("content-type".into(), "application/x-www-form-urlencoded".into()),
                ("accept".into(), "application/json".into()),
            ],
            body: Some(
                b"grant_type=client_credentials&client_id=id&client_secret=secret".to_vec()
            ),
            timeout_ms: None,
        }))
    );
}

#[test]
fn object_store_tokens_are_refused_in_words() {
    let store = ObjectStoreV2::new(cfg());
    let refuse = |answer: Answer| -> OS2Error {
        let answers = vec![Answer::Cached(None), answer];
        match store.get_token(&mut Record::new(&answers), 0, false) {
            Progress::Done(Err(e)) => e,
            other => panic!("{other:?}"),
        }
    };
    assert_eq!(
        refuse(Answer::Reply(HttpReply::Failed("down".into()))).message(),
        "transport error talking to anypoint-oauth2: down"
    );
    assert_eq!(refuse(reply(403, "")).message(), "OS v2 returned HTTP 403 on anypoint-oauth2");
    assert_eq!(
        refuse(reply(200, "1")).message(),
        "OS v2 token endpoint response was not valid JSON: invalid type: integer `1`, expected struct TokenResponse"
    );
    assert_eq!(refuse(reply(200, r#"{"access_token":""}"#)), OS2Error::MissingAccessToken);
    assert_eq!(
        OS2Error::MissingAccessToken.message(),
        "OS v2 token endpoint response missing access_token"
    );
}

#[test]
fn store_is_created_once() {
    let store = ObjectStoreV2::new(cfg());
    let sentinel = "os2_store_ready:org-1:env/with/slash:tasks".to_string();
    assert_eq!(store.ensure_store_cache_key(), sentinel);
    let mut answers = vec![Answer::Cached(None), token_entry()];
    match store.ensure_store(&mut Record::new(&answers), 0) {
        Progress::Do(Action::Send(r)) => {
            assert_eq!(r.upstream, Upstream::ObjectStore);
            assert_eq!(
                r.path.as_deref(),
                Some("/api/v1/organizations/org-1/environments/env%2Fwith%2Fslash/stores")
            );
            assert_eq!(
                r.body,
                Some(br#"{"objectStoreId":"tasks","persistent":true,"ttl":86400}"#.to_vec())
            );
        }
        other => panic!("{other:?}"),
    }
    answers.push(reply(409, ""));
    assert_eq!(
        store.ensure_store(&mut Record::new(&answers), 0),
        Progress::Do(Action::CacheSave { key: sentinel.clone(), bytes: vec![1] })
    );
    answers.pop();
    answers.push(reply(500, ""));
    assert_eq!(store.ensure_store(&mut Record::new(&answers), 0), Progress::Done(()));
    let known = vec![Answer::Cached(Some(vec![1]))];
    assert_eq!(store.ensure_store(&mut Record::new(&known), 0), Progress::Done(()));
}

#[test]
fn reads_fall_back_to_degraded() {
    let store = ObjectStoreV2::new(cfg());
    let mut answers = vec![Answer::Cached(Some(vec![1])), token_entry()];
    match store.get(&mut Record::new(&answers), "k", 0) {
        Progress::Do(Action::Send(r)) => {
            assert_eq!(r.method, Method::Get);
            assert_eq!(r.timeout_ms, Some(1500));
            assert_eq!(
                r.headers,
                vec![
                    ("authorization".to_string(), "Bearer tok".to_string()),
                    ("accept".to_string(), "application/json".to_string()),
                ]
            );
        }
        other => panic!("{other:?}"),
    }
    let outcomes = vec![
        (reply(200, "v"), GetOutcome::Found(b"v".to_vec())),
        (reply(404, "v"), GetOutcome::NotFound),
        (reply(204, "v"), GetOutcome::Degraded),
        (Answer::Reply(HttpReply::Failed("x".into())), GetOutcome::Degraded),
    ];
    for (answer, outcome) in outcomes {
        answers.push(answer);
        assert_eq!(store.get(&mut Record::new(&answers), "k", 0), Progress::Done(outcome));
        answers.pop();
    }
    let tokenless = vec![Answer::Cached(Some(vec![1])), Answer::Cached(None), reply(500, "")];
    assert_eq!(
        store.get(&mut Record::new(&tokenless), "k", 0),
        Progress::Done(GetOutcome::Degraded)
    );
}

#[test]
fn writes_and_deletes_are_let_go() {
    let store = ObjectStoreV2::new(cfg());
    let mut answers = vec![Answer::Cached(Some(vec![1])), token_entry()];
    match store.put(&mut Record::new(&answers), "k", b"value", 0) {
        Progress::Do(Action::Send(r)) => {
            assert_eq!(r.method, Method::Put);
            assert_eq!(r.body, Some(b"value".to_vec()));
        }
        other => panic!("{other:?}"),
    }
    answers.push(Answer::Reply(HttpReply::Failed("x".into())));
    assert_eq!(store.put(&mut Record::new(&answers), "k", b"value", 0), Progress::Done(()));
    let mut answers = vec![token_entry()];
    match store.delete(&mut Record::new(&answers), "k", 0) {
        Progress::Do(Action::Send(r)) => assert_eq!(r.method, Method::Delete),
        other => panic!("{other:?}"),
    }
    answers.push(reply(500, ""));
    assert_eq!(store.delete(&mut Record::new(&answers), "k", 0), Progress::Done(()));
}

#[test]
fn disabled_store_stays_silent() {
    let mut c = cfg();
    c.disable_object_store = true;
    let store = ObjectStoreV2::new(c);
    let none: Vec<Answer> = vec![];
    assert_eq!(
        store.get(&mut Record::new(&none), "k", 0),
        Progress::Done(GetOutcome::NotFound)
    );
    assert_eq!(store.put(&mut Record::new(&none), "k", b"v", 0), Progress::Done(()));
    assert_eq!(store.delete(&mut Record::new(&none), "k", 0), Progress::Done(()));
    assert_eq!(store.ensure_store(&mut Record::new(&none), 0), Progress::Done(()));
}
