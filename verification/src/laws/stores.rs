//! What goes into the stores and what comes out of them.

use vstd::prelude::*;

use crate::effects::{
    ActionView, AnswerView, HttpReplyView, HttpRequestView, Method, Run, Upstream,
};
use crate::encoding::url_encoded;
use crate::json::{bytes_of_json, JsonView, NumberView};
use crate::store::object_store_v2::{
    delete_run, ensure_store_run, get_run, put_run, store_token_run, GetOutcomeView, OS2ConfigView,
    OS2ErrorView,
};
use crate::store::task_store::{
    delete_task_run, envelope_read, get_meta_run, hot_bytes, read_hot_run, HotEnvelopeView,
};

verus! {

/// An entry ends so many seconds after it was written, and at the end of time at the
/// latest.
pub proof fn entry_ends_after_its_time(payload: Seq<u8>, now: u64, ttl: u32)
    ensures
        hot_bytes(payload, now, ttl) == bytes_of_json(
            JsonView::Object(
                seq![
                    (
                        "payload"@,
                        JsonView::Array(
                            Seq::new(
                                payload.len(),
                                |i: int| JsonView::Number(NumberView::PosInt(payload[i] as u64)),
                            ),
                        ),
                    ),
                    (
                        "expires_at_unix"@,
                        JsonView::Number(
                            NumberView::PosInt(
                                if now + ttl > u64::MAX {
                                    u64::MAX
                                } else {
                                    (now + ttl) as u64
                                },
                            ),
                        ),
                    ),
                ],
            ),
        ),
{
    let end = if now + ttl > u64::MAX {
        u64::MAX
    } else {
        (now + ttl) as u64
    };
    crate::laws::wire::cache_documents(
        HotEnvelopeView { payload, expires_at_unix: end },
        crate::cache::CachedTokenView { access_token: Seq::empty(), expires_at_unix: 0 },
        crate::store::task_store::TaskMeta { sequence_id: 0, last_updated_at_unix: 0 },
    );
}

/// What an entry holds is read up to its end; from then on it is dropped, and what is no
/// entry is none.
pub proof fn entries_are_read_up_to_their_end(
    key: Seq<char>,
    entry: Seq<u8>,
    e: HotEnvelopeView,
    now: u64,
    rest: Seq<AnswerView>,
    dropped: AnswerView,
)
    requires
        envelope_read(
            crate::decode::record_of_bytes(crate::decode::Rec::HotEnvelope, entry),
        ) == Some(e),
    ensures
        ({
            let found = AnswerView::Cached(Some(entry));
            &&& read_hot_run(key, now, Seq::empty()) == Run::<Option<Seq<u8>>>::Do(
                ActionView::CacheGet { key },
            )
            &&& now < e.expires_at_unix ==> read_hot_run(key, now, seq![found] + rest) == Run::Done(
                Some(e.payload),
                rest,
            )
            &&& now >= e.expires_at_unix ==> {
                &&& read_hot_run(key, now, seq![found]) == Run::<Option<Seq<u8>>>::Do(
                    ActionView::CacheDelete { key },
                )
                &&& read_hot_run(key, now, seq![found, dropped] + rest) == Run::Done(
                    None::<Seq<u8>>,
                    rest,
                )
            }
            &&& read_hot_run(key, now, seq![AnswerView::Cached(None)] + rest) == Run::Done(
                None::<Seq<u8>>,
                rest,
            )
        }),
{
    let found = AnswerView::Cached(Some(entry));
    assert((seq![found] + rest).drop_first() =~= rest);
    assert(seq![found].drop_first() =~= Seq::empty());
    assert((seq![found, dropped] + rest).drop_first() =~= seq![dropped] + rest);
    assert((seq![dropped] + rest).drop_first() =~= rest);
    assert((seq![AnswerView::Cached(None)] + rest).drop_first() =~= rest);
}

/// A task is dropped together with its numbers, which are kept beside it.
pub proof fn dropped_task_takes_its_numbers(
    task_id: Seq<char>,
    now: u64,
    a: AnswerView,
    b: AnswerView,
)
    ensures
        delete_task_run(task_id, Seq::empty()) == Run::<()>::Do(
            ActionView::CacheDelete { key: "task:"@ + task_id },
        ),
        delete_task_run(task_id, seq![a]) == Run::<()>::Do(
            ActionView::CacheDelete { key: "meta:"@ + task_id },
        ),
        delete_task_run(task_id, seq![a, b]) == Run::Done((), Seq::empty()),
        get_meta_run(task_id, now, Seq::empty()) == Run::<
            Option<crate::store::task_store::TaskMeta>,
        >::Do(ActionView::CacheGet { key: "meta:"@ + task_id }),
{
    assert(seq![a].drop_first() =~= Seq::empty());
    assert(seq![a, b].drop_first() =~= seq![b]);
    assert(seq![b].drop_first() =~= Seq::empty());
}

/// A store is created once: where nothing notes that it is there, it is asked for, and a
/// success or a 409 is noted; any other answer is not.
pub proof fn store_is_created_once(
    c: OS2ConfigView,
    now: u64,
    token: Seq<char>,
    h: Seq<AnswerView>,
    status: u32,
    body: Seq<u8>,
    rest: Seq<AnswerView>,
    e: Seq<char>,
)
    requires
        !c.disable_object_store,
        c.auto_create_store,
    ensures
        ({
            let note = "os2_store_ready:"@ + c.anypoint_org_id + ":"@ + c.anypoint_env_id + ":"@
                + c.object_store_id;
            let none = AnswerView::Cached(None);
            let reply = AnswerView::Reply(HttpReplyView::Answered { status, body });
            &&& ensure_store_run(c, now, Seq::empty()) == Run::<()>::Do(
                ActionView::CacheGet { key: note },
            )
            &&& store_token_run(c, now, false, h) == Run::Done(
                Ok::<_, OS2ErrorView>(token),
                Seq::empty(),
            ) ==> ensure_store_run(c, now, seq![none] + h) == Run::<()>::Do(
                ActionView::Send(
                    HttpRequestView {
                        upstream: Upstream::ObjectStore,
                        method: Method::Post,
                        path: Some(
                            "/api/v1/organizations/"@ + url_encoded(c.anypoint_org_id)
                                + "/environments/"@ + url_encoded(c.anypoint_env_id) + "/stores"@,
                        ),
                        headers: seq![
                            ("authorization"@, "Bearer "@ + token),
                            ("content-type"@, "application/json"@),
                            ("accept"@, "application/json"@),
                        ],
                        body: Some(
                            bytes_of_json(
                                JsonView::Object(
                                    seq![
                                        ("objectStoreId"@, JsonView::Text(c.object_store_id)),
                                        ("persistent"@, JsonView::Bool(true)),
                                        (
                                            "ttl"@,
                                            JsonView::Number(
                                                NumberView::PosInt(
                                                    c.object_store_ttl_seconds as u64,
                                                ),
                                            ),
                                        ),
                                    ],
                                ),
                            ),
                        ),
                        timeout_ms: None,
                    },
                ),
            )
            &&& store_token_run(c, now, false, h) == Run::Done(
                Ok::<_, OS2ErrorView>(token),
                seq![reply],
            ) && (200 <= status <= 299 || status == 409) ==> ensure_store_run(
                c,
                now,
                seq![none] + h,
            ) == Run::<()>::Do(ActionView::CacheSave { key: note, bytes: seq![1u8] })
            &&& store_token_run(c, now, false, h) == Run::Done(
                Ok::<_, OS2ErrorView>(token),
                seq![reply] + rest,
            ) && !(200 <= status <= 299 || status == 409) ==> ensure_store_run(
                c,
                now,
                seq![none] + h,
            ) == Run::Done((), rest)
            &&& store_token_run(c, now, false, h) == Run::Done(
                Ok::<_, OS2ErrorView>(token),
                seq![AnswerView::Reply(HttpReplyView::Failed(e))] + rest,
            ) ==> ensure_store_run(c, now, seq![none] + h) == Run::Done((), rest)
            &&& store_token_run(c, now, false, h) matches Run::Done(Err(_), left)
                ==> ensure_store_run(c, now, seq![none] + h) == Run::Done((), left)
        }),
{
    let none = AnswerView::Cached(None);
    let reply = AnswerView::Reply(HttpReplyView::Answered { status, body });
    assert((seq![none] + h).drop_first() =~= h);
    assert(seq![reply].drop_first() =~= Seq::empty());
    assert((seq![reply] + rest).drop_first() =~= rest);
    assert((seq![AnswerView::Reply(HttpReplyView::Failed(e))] + rest).drop_first() =~= rest);
}

/// A value is read, written and deleted under its key in the configured store, within
/// the configured time, and only a 200 brings a value; a 404 says that there is none, and
/// anything else that the store is of no use now.
pub proof fn values_go_by_their_key(
    c: OS2ConfigView,
    key: Seq<char>,
    value: Seq<u8>,
    now: u64,
    h: Seq<AnswerView>,
    token: Seq<char>,
    status: u32,
    body: Seq<u8>,
    rest: Seq<AnswerView>,
    e: Seq<char>,
)
    requires
        !c.disable_object_store,
        !c.auto_create_store,
    ensures
        ({
            let path = "/api/v1/organizations/"@ + url_encoded(c.anypoint_org_id)
                + "/environments/"@ + url_encoded(c.anypoint_env_id) + "/data/"@ + url_encoded(
                c.object_store_id,
            ) + "/keys/"@ + url_encoded(key);
            let bearer = ("authorization"@, "Bearer "@ + token);
            let json = |name: Seq<char>| (name, "application/json"@);
            let request = |method: Method, headers: Seq<(Seq<char>, Seq<char>)>, body: Option<Seq<u8>>|
                HttpRequestView {
                    upstream: Upstream::ObjectStore,
                    method,
                    path: Some(path),
                    headers,
                    body,
                    timeout_ms: Some(c.timeout_ms),
                };
            &&& store_token_run(c, now, false, h) == Run::Done(
                Ok::<_, OS2ErrorView>(token),
                Seq::empty(),
            ) ==> {
                &&& get_run(c, key, now, h) == Run::<GetOutcomeView>::Do(
                    ActionView::Send(request(Method::Get, seq![bearer, json("accept"@)], None)),
                )
                &&& put_run(c, key, value, now, h) == Run::<()>::Do(
                    ActionView::Send(
                        request(Method::Put, seq![bearer, json("content-type"@)], Some(value)),
                    ),
                )
                &&& delete_run(c, key, now, h) == Run::<()>::Do(
                    ActionView::Send(request(Method::Delete, seq![bearer], None)),
                )
            }
            &&& store_token_run(c, now, false, h) == Run::Done(
                Ok::<_, OS2ErrorView>(token),
                seq![AnswerView::Reply(HttpReplyView::Answered { status, body })] + rest,
            ) ==> {
                &&& get_run(c, key, now, h) == Run::Done(
                    if status == 200 {
                        GetOutcomeView::Found(body)
                    } else if status == 404 {
                        GetOutcomeView::NotFound
                    } else {
                        GetOutcomeView::Degraded
                    },
                    rest,
                )
                &&& put_run(c, key, value, now, h) == Run::Done((), rest)
                &&& delete_run(c, key, now, h) == Run::Done((), rest)
            }
            &&& store_token_run(c, now, false, h) == Run::Done(
                Ok::<_, OS2ErrorView>(token),
                seq![AnswerView::Reply(HttpReplyView::Failed(e))] + rest,
            ) ==> get_run(c, key, now, h) == Run::Done(GetOutcomeView::Degraded, rest)
            &&& store_token_run(c, now, false, h) matches Run::Done(Err(_), left) ==> {
                &&& get_run(c, key, now, h) == Run::Done(GetOutcomeView::Degraded, left)
                &&& put_run(c, key, value, now, h) == Run::Done((), left)
                &&& delete_run(c, key, now, h) == Run::Done((), left)
            }
        }),
{
    let reply = AnswerView::Reply(HttpReplyView::Answered { status, body });
    assert((seq![reply] + rest).drop_first() =~= rest);
    assert((seq![AnswerView::Reply(HttpReplyView::Failed(e))] + rest).drop_first() =~= rest);
}

/// Reading and writing make sure of the store first, where that is configured.
pub proof fn store_is_made_sure_of(
    c: OS2ConfigView,
    key: Seq<char>,
    value: Seq<u8>,
    now: u64,
    h: Seq<AnswerView>,
    left: Seq<AnswerView>,
)
    requires
        !c.disable_object_store,
    ensures
        ensure_store_run(c, now, h) matches Run::Do(a) ==> {
            &&& get_run(c, key, now, h) == Run::<GetOutcomeView>::Do(a)
            &&& put_run(c, key, value, now, h) == Run::<()>::Do(a)
        },
        ensure_store_run(c, now, h) == Run::Done((), left) ==> {
            let plain = OS2ConfigView { auto_create_store: false, ..c };
            &&& get_run(c, key, now, h) == get_run(plain, key, now, left)
            &&& put_run(c, key, value, now, h) == put_run(plain, key, value, now, left)
        },
{
}

} // verus!
