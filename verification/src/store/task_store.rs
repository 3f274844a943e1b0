//! Tasks in the gateway's shared cache.
//!
//! A task has two entries: `task:<id>` holds its JSON, and `meta:<id>` the number
//! of the last message that was sent for it. The cache does not let entries
//! expire, so each is put in an envelope that says when it does.

use vstd::prelude::*;

use crate::cache::saturating_sum;
use crate::decode::{
    bytes_at, bytes_of_field, check, fields, lemma_field_index, lemma_list_fine, lemma_members_push,
    lemma_nothing_absent, members_error, number_at, number_of_field, read_record, record_of_bytes,
    shape_error, Rec, Shape,
};
use crate::effects::{
    cache_delete, cache_delete_run, cache_get, cache_get_run, cache_save, cache_save_run,
    copy_bytes, option_bytes, ActionView, AnswerView, Progress, Record, Run,
};
use crate::json::{
    array_json, bytes_of_json, items_view, json_of_bytes, lemma_member_push, lemma_storable_push,
    member, number_json, read_as, storable, write_json, Json, JsonView, Members,
    MembersView, NumberView,
};
use crate::text::concat2;

verus! {

/// An entry of the cache, and when it expires.
#[derive(Debug, PartialEq, Eq)]
pub struct HotEnvelope {
    pub payload: Vec<u8>,
    /// In seconds since the start of 1970.
    pub expires_at_unix: u64,
}

/// The value of a [`HotEnvelope`].
pub struct HotEnvelopeView {
    pub payload: Seq<u8>,
    pub expires_at_unix: u64,
}

impl View for HotEnvelope {
    type V = HotEnvelopeView;

    open spec fn view(&self) -> HotEnvelopeView {
        HotEnvelopeView {
            payload: self.payload@,
            expires_at_unix: self.expires_at_unix,
        }
    }
}

impl HotEnvelope {
    /// Another one of the same value.
    pub fn copy(&self) -> (r: HotEnvelope)
        ensures
            r@ == self@,
    {
        HotEnvelope {
            payload: copy_bytes(self.payload.as_slice()),
            expires_at_unix: self.expires_at_unix,
        }
    }
}

impl Clone for HotEnvelope {
    fn clone(&self) -> (r: Self)
        ensures
            r@ == self@,
    {
        self.copy()
    }
}

/// The number of that byte.
pub open spec fn byte_json(b: u8) -> JsonView {
    JsonView::Number(NumberView::PosInt(b as u64))
}

/// The document of an envelope.
pub open spec fn envelope_json(e: HotEnvelopeView) -> JsonView {
    JsonView::Object(
        MembersView::empty().push(
            ("payload"@, JsonView::Array(e.payload.map_values(|b: u8| byte_json(b)))),
        ).push(("expires_at_unix"@, JsonView::Number(NumberView::PosInt(e.expires_at_unix)))),
    )
}

/// The envelope that a document holds.
pub open spec fn envelope_in(v: JsonView) -> Option<HotEnvelopeView> {
    let r = Rec::HotEnvelope;
    if shape_error(Shape::Record(r), v) is None {
        Some(
            HotEnvelopeView {
                payload: bytes_at(r, v, "payload"@),
                expires_at_unix: number_at(r, v, "expires_at_unix"@, 0),
            },
        )
    } else {
        None
    }
}

/// The envelope that an entry holds, once it has been read as JSON.
pub open spec fn envelope_read(doc: Result<JsonView, Seq<char>>) -> Option<HotEnvelopeView> {
    match doc {
        Ok(v) => envelope_in(v),
        Err(_) => None,
    }
}

/// The value of an optional envelope.
pub open spec fn option_envelope(e: Option<HotEnvelope>) -> Option<HotEnvelopeView> {
    match e {
        Some(x) => Some(x@),
        None => None,
    }
}

proof fn lemma_envelope_names()
    ensures
        "payload"@ != "expires_at_unix"@,
{
    reveal_strlit("payload");
    reveal_strlit("expires_at_unix");
    assert("payload"@.len() == 7);
    assert("expires_at_unix"@.len() == 15);
}

proof fn lemma_envelope_storable(e: HotEnvelopeView)
    ensures
        storable(envelope_json(e), 127),
{
    broadcast use lemma_member_push;

    lemma_envelope_names();
    let none = MembersView::empty();
    let payload = JsonView::Array(e.payload.map_values(|b: u8| byte_json(b)));
    assert forall|i: int| 0 <= i < payload->Array_0.len() implies storable(
        #[trigger] payload->Array_0[i],
        125,
    ) by {
        assert(payload->Array_0[i] == byte_json(e.payload[i]));
    }
    assert(storable(payload, 126));
    lemma_storable_push(none, "payload"@, payload, 127);
    lemma_storable_push(
        none.push(("payload"@, payload)),
        "expires_at_unix"@,
        JsonView::Number(NumberView::PosInt(e.expires_at_unix)),
        127,
    );
}

impl HotEnvelope {
    /// The bytes of the entry.
    pub fn to_bytes(&self) -> (r: Vec<u8>)
        ensures
            r@ == bytes_of_json(envelope_json(self@)),
            json_of_bytes(r@) == read_as(envelope_json(self@)),
    {
        let mut items: Vec<Json> = Vec::new();
        let n: usize = self.payload.len();
        for i in 0..n
            invariant
                n == self.payload@.len(),
                items@.len() == i,
                forall|k: int| 0 <= k < i ==> items@[k]@ == byte_json(#[trigger] self.payload@[k]),
        {
            items.push(number_json(self.payload[i] as u64));
        }
        assert(items_view(items@) =~= self.payload@.map_values(|b: u8| byte_json(b)));
        let mut m: Members = Members::new();
        m.put("payload", array_json(items));
        m.put("expires_at_unix", number_json(self.expires_at_unix));
        proof {
            lemma_envelope_storable(self@);
        }
        write_json(&m.object())
    }

    /// Reads an envelope from a document.
    pub fn from_json(j: &Json) -> (r: Option<HotEnvelope>)
        ensures
            option_envelope(r) == envelope_in(j@),
    {
        match check(Shape::Record(Rec::HotEnvelope), j) {
            Some(_) => None,
            None => Some(
                HotEnvelope {
                    payload: bytes_of_field(Rec::HotEnvelope, j, "payload"),
                    expires_at_unix: number_of_field(Rec::HotEnvelope, j, "expires_at_unix", 0),
                },
            ),
        }
    }

    /// Reads an envelope from the bytes of an entry.
    pub fn from_bytes(bytes: &[u8]) -> (r: Option<HotEnvelope>)
        ensures
            option_envelope(r) == envelope_read(record_of_bytes(Rec::HotEnvelope, bytes@)),
    {
        match read_record(Rec::HotEnvelope, bytes) {
            Ok(j) => HotEnvelope::from_json(&j),
            Err(_) => None,
        }
    }
}

/// An envelope is read back from its document as it was written.
pub proof fn envelope_round_trip(e: HotEnvelopeView)
    ensures
        envelope_in(envelope_json(e)) == Some(e),
{
    broadcast use {lemma_member_push, lemma_members_push};

    lemma_envelope_names();
    let r = Rec::HotEnvelope;
    let o = envelope_json(e)->Object_0;
    let a = e.payload.map_values(|b: u8| byte_json(b));
    lemma_field_index(fields(r), "payload"@, 0);
    lemma_field_index(fields(r), "expires_at_unix"@, 1);
    assert forall|k: int| 0 <= k < a.len() implies shape_error(Shape::Byte, #[trigger] a[k]) is None by {}
    lemma_list_fine(Shape::Bytes, a, 0);
    assert(members_error(r, MembersView::empty(), 0) is None);
    assert(members_error(r, o, 0) is None);
    assert(member(o, "payload"@) == Some(JsonView::Array(a)));
    assert(member(o, "expires_at_unix"@) is Some);
    lemma_nothing_absent(fields(r), o);
    let back = bytes_at(r, envelope_json(e), "payload"@);
    assert forall|k: int| 0 <= k < e.payload.len() implies back[k] == e.payload[k] by {
        assert(a[k] == byte_json(e.payload[k]));
    }
    assert(back =~= e.payload);
}

/// The number of the last message that was sent for a task, and when.
#[derive(Debug, Clone, Copy, PartialEq, Eq)]
pub struct TaskMeta {
    pub sequence_id: u32,
    pub last_updated_at_unix: u64,
}

/// The document of a task's numbers.
pub open spec fn meta_json(m: TaskMeta) -> JsonView {
    JsonView::Object(
        MembersView::empty().push(
            ("sequenceId"@, JsonView::Number(NumberView::PosInt(m.sequence_id as u64))),
        ).push(
            (
                "lastUpdatedAt"@,
                JsonView::Number(NumberView::PosInt(m.last_updated_at_unix)),
            ),
        ),
    )
}

/// The numbers that a document holds.
pub open spec fn meta_in(v: JsonView) -> Option<TaskMeta> {
    let r = Rec::Meta;
    if shape_error(Shape::Record(r), v) is None {
        Some(
            TaskMeta {
                sequence_id: number_at(r, v, "sequenceId"@, 0) as u32,
                last_updated_at_unix: number_at(r, v, "lastUpdatedAt"@, 0),
            },
        )
    } else {
        None
    }
}

/// The numbers that a payload holds, once it has been read as JSON.
pub open spec fn meta_read(doc: Result<JsonView, Seq<char>>) -> Option<TaskMeta> {
    match doc {
        Ok(v) => meta_in(v),
        Err(_) => None,
    }
}

/// The number after `n`, as far as there is one.
pub open spec fn next_number(n: u32) -> u32 {
    if n == u32::MAX {
        n
    } else {
        (n + 1) as u32
    }
}

/// The numbers after one more message.
pub open spec fn advanced(m: TaskMeta, now: u64) -> TaskMeta {
    TaskMeta { sequence_id: next_number(m.sequence_id), last_updated_at_unix: now }
}

proof fn lemma_meta_names()
    ensures
        "sequenceId"@ != "lastUpdatedAt"@,
{
    reveal_strlit("sequenceId");
    reveal_strlit("lastUpdatedAt");
    assert("sequenceId"@.len() == 10);
    assert("lastUpdatedAt"@.len() == 13);
}

proof fn lemma_meta_storable(m: TaskMeta)
    ensures
        storable(meta_json(m), 127),
{
    broadcast use lemma_member_push;

    lemma_meta_names();
    let none = MembersView::empty();
    let number = JsonView::Number(NumberView::PosInt(m.sequence_id as u64));
    lemma_storable_push(none, "sequenceId"@, number, 127);
    lemma_storable_push(
        none.push(("sequenceId"@, number)),
        "lastUpdatedAt"@,
        JsonView::Number(NumberView::PosInt(m.last_updated_at_unix)),
        127,
    );
}

impl TaskMeta {
    /// Counts one more message, and gives its number.
    pub fn next_sequence(&mut self, now_unix: u64) -> (r: u32)
        ensures
            *final(self) == advanced(*old(self), now_unix),
            r == final(self).sequence_id,
    {
        self.sequence_id = self.sequence_id.saturating_add(1);
        self.last_updated_at_unix = now_unix;
        self.sequence_id
    }

    /// The numbers of a task for which nothing was sent yet.
    pub fn initial(now_unix: u64) -> (r: TaskMeta)
        ensures
            r == (TaskMeta { sequence_id: 1, last_updated_at_unix: now_unix }),
    {
        TaskMeta { sequence_id: 1, last_updated_at_unix: now_unix }
    }

    /// The bytes of the numbers.
    pub fn to_bytes(&self) -> (r: Vec<u8>)
        ensures
            r@ == bytes_of_json(meta_json(*self)),
            json_of_bytes(r@) == read_as(meta_json(*self)),
    {
        let mut m: Members = Members::new();
        m.put("sequenceId", number_json(self.sequence_id as u64));
        m.put("lastUpdatedAt", number_json(self.last_updated_at_unix));
        proof {
            lemma_meta_storable(*self);
        }
        write_json(&m.object())
    }

    /// Reads the numbers from a document.
    pub fn from_json(j: &Json) -> (r: Option<TaskMeta>)
        ensures
            r == meta_in(j@),
    {
        match check(Shape::Record(Rec::Meta), j) {
            Some(_) => None,
            None => Some(
                TaskMeta {
                    sequence_id: number_of_field(Rec::Meta, j, "sequenceId", 0) as u32,
                    last_updated_at_unix: number_of_field(Rec::Meta, j, "lastUpdatedAt", 0),
                },
            ),
        }
    }

    /// Reads the numbers from bytes.
    pub fn from_bytes(bytes: &[u8]) -> (r: Option<TaskMeta>)
        ensures
            r == meta_read(record_of_bytes(Rec::Meta, bytes@)),
    {
        match read_record(Rec::Meta, bytes) {
            Ok(j) => TaskMeta::from_json(&j),
            Err(_) => None,
        }
    }
}

/// A task's numbers are read back from their document as they were written.
pub proof fn meta_round_trip(m: TaskMeta)
    ensures
        meta_in(meta_json(m)) == Some(m),
{
    broadcast use {lemma_member_push, lemma_members_push};

    lemma_meta_names();
    let r = Rec::Meta;
    let o = meta_json(m)->Object_0;
    lemma_field_index(fields(r), "sequenceId"@, 0);
    lemma_field_index(fields(r), "lastUpdatedAt"@, 1);
    assert(members_error(r, MembersView::empty(), 0) is None);
    assert(members_error(r, o, 0) is None);
    assert(member(o, "sequenceId"@) is Some);
    assert(member(o, "lastUpdatedAt"@) is Some);
    lemma_nothing_absent(fields(r), o);
}

/// The messages of a task are numbered in strictly growing order, until the
/// numbers run out.
pub proof fn sequence_grows(m: TaskMeta, now: u64)
    requires
        m.sequence_id < u32::MAX,
    ensures
        advanced(m, now).sequence_id == m.sequence_id + 1,
        advanced(m, now).last_updated_at_unix == now,
{
}

/// What an entry of the cache comes to.
pub enum HotEntry {
    /// There is none, or none that can be read.
    Missing,
    /// It has expired.
    Expired,
    Found(Seq<u8>),
}

/// What an entry of the cache comes to at a moment.
pub open spec fn hot_entry(entry: Option<Seq<u8>>, now: u64) -> HotEntry {
    match entry {
        None => HotEntry::Missing,
        Some(bytes) => match envelope_read(record_of_bytes(Rec::HotEnvelope, bytes)) {
            None => HotEntry::Missing,
            Some(e) => if e.expires_at_unix <= now {
                HotEntry::Expired
            } else {
                HotEntry::Found(e.payload)
            },
        },
    }
}

/// The bytes of an entry that is written at `now` and lasts `ttl` seconds.
pub open spec fn hot_bytes(payload: Seq<u8>, now: u64, ttl: u32) -> Seq<u8> {
    bytes_of_json(
        envelope_json(
            HotEnvelopeView { payload, expires_at_unix: saturating_sum(now, ttl as u64) },
        ),
    )
}

/// Reading an entry. One that has expired is dropped.
pub open spec fn read_hot_run(key: Seq<char>, now: u64, h: Seq<AnswerView>) -> Run<Option<Seq<u8>>> {
    match cache_get_run(key, h) {
        Run::Do(a) => Run::Do(a),
        Run::Done(entry, h1) => match hot_entry(entry, now) {
            HotEntry::Missing => Run::Done(None, h1),
            HotEntry::Found(payload) => Run::Done(Some(payload), h1),
            HotEntry::Expired => match cache_delete_run(key, h1) {
                Run::Do(a) => Run::Do(a),
                Run::Done(_, h2) => Run::Done(None, h2),
            },
        },
    }
}

/// Whether an entry that is written holds its payload until its time is over.
pub open spec fn kept(payload: Seq<u8>, written_at: u64, ttl: u32) -> bool {
    forall|now: u64| #[trigger]
        hot_entry(Some(hot_bytes(payload, written_at, ttl)), now) == (if now < saturating_sum(
            written_at,
            ttl as u64,
        ) {
            HotEntry::Found(payload)
        } else {
            HotEntry::Expired
        })
}

/// Writing an entry.
pub open spec fn write_hot_run(
    key: Seq<char>,
    payload: Seq<u8>,
    now: u64,
    ttl: u32,
    h: Seq<AnswerView>,
) -> Run<()> {
    cache_save_run(key, hot_bytes(payload, now, ttl), h)
}

/// Reads an entry of the cache.
pub fn read_hot(record: &mut Record, key: &str, now_unix: u64) -> (r: Progress<Option<Vec<u8>>>)
    ensures
        match r {
            Progress::Do(a) => read_hot_run(key@, now_unix, old(record)@) == Run::<
                Option<Seq<u8>>,
            >::Do(a@),
            Progress::Done(v) => read_hot_run(key@, now_unix, old(record)@) == Run::Done(
                option_bytes(v),
                final(record)@,
            ),
        },
{
    let bytes: Vec<u8> = match cache_get(record, key) {
        Progress::Do(a) => {
            return Progress::Do(a);
        },
        Progress::Done(None) => {
            return Progress::Done(None);
        },
        Progress::Done(Some(b)) => b,
    };
    match HotEnvelope::from_bytes(bytes.as_slice()) {
        None => Progress::Done(None),
        Some(e) => if e.expires_at_unix <= now_unix {
            match cache_delete(record, key) {
                Progress::Do(a) => Progress::Do(a),
                Progress::Done(_) => Progress::Done(None),
            }
        } else {
            Progress::Done(Some(e.payload))
        },
    }
}

/// Writes an entry of the cache.
pub fn write_hot(record: &mut Record, key: &str, payload: &[u8], now_unix: u64, ttl: u32) -> (r:
    Progress<()>)
    ensures
        match r {
            Progress::Do(a) => write_hot_run(key@, payload@, now_unix, ttl, old(record)@)
                == Run::<()>::Do(a@),
            Progress::Done(v) => write_hot_run(key@, payload@, now_unix, ttl, old(record)@)
                == Run::Done((), final(record)@),
        },
        kept(payload@, now_unix, ttl),
{
    let e = HotEnvelope {
        payload: copy_bytes(payload),
        expires_at_unix: now_unix.saturating_add(ttl as u64),
    };
    let bytes: Vec<u8> = e.to_bytes();
    proof {
        assert forall|now: u64| #[trigger]
            hot_entry(Some(hot_bytes(payload@, now_unix, ttl)), now) == (if now < saturating_sum(
                now_unix,
                ttl as u64,
            ) {
                HotEntry::Found(payload@)
            } else {
                HotEntry::Expired
            }) by {
            written_entry_is_read_until_it_expires(payload@, now_unix, ttl, bytes@, now);
        }
    }
    cache_save(record, key, bytes)
}

/// The key of a task.
pub open spec fn task_entry_key(task_id: Seq<char>) -> Seq<char> {
    "task:"@ + task_id
}

/// The key of a task's numbers.
pub open spec fn meta_entry_key(task_id: Seq<char>) -> Seq<char> {
    "meta:"@ + task_id
}

/// Reading a task's numbers.
pub open spec fn get_meta_run(task_id: Seq<char>, now: u64, h: Seq<AnswerView>) -> Run<
    Option<TaskMeta>,
> {
    match read_hot_run(meta_entry_key(task_id), now, h) {
        Run::Do(a) => Run::Do(a),
        Run::Done(None, h1) => Run::Done(None, h1),
        Run::Done(Some(bytes), h1) => Run::Done(meta_read(record_of_bytes(Rec::Meta, bytes)), h1),
    }
}

/// Writing a task's numbers.
pub open spec fn put_meta_run(
    task_id: Seq<char>,
    meta: TaskMeta,
    now: u64,
    ttl: u32,
    h: Seq<AnswerView>,
) -> Run<()> {
    write_hot_run(meta_entry_key(task_id), bytes_of_json(meta_json(meta)), now, ttl, h)
}

/// Dropping a task and its numbers.
pub open spec fn delete_task_run(task_id: Seq<char>, h: Seq<AnswerView>) -> Run<()> {
    match cache_delete_run(task_entry_key(task_id), h) {
        Run::Do(a) => Run::Do(a),
        Run::Done(_, h1) => cache_delete_run(meta_entry_key(task_id), h1),
    }
}

/// The tasks in the cache.
#[derive(Debug, Clone, Copy, PartialEq, Eq)]
pub struct TaskStore {
    /// How long an entry lasts.
    pub hot_ttl_seconds: u32,
}

impl TaskStore {
    /// The store whose entries last that long.
    pub fn new(hot_ttl_seconds: u32) -> (r: TaskStore)
        ensures
            r.hot_ttl_seconds == hot_ttl_seconds,
    {
        TaskStore { hot_ttl_seconds }
    }

    /// The key of a task.
    pub fn task_key(task_id: &str) -> (r: String)
        ensures
            r@ == task_entry_key(task_id@),
    {
        concat2("task:", task_id)
    }

    /// The key of a task's numbers.
    pub fn meta_key(task_id: &str) -> (r: String)
        ensures
            r@ == meta_entry_key(task_id@),
    {
        concat2("meta:", task_id)
    }

    /// Reads the JSON of a task.
    pub fn get_task(&self, record: &mut Record, task_id: &str, now_unix: u64) -> (r: Progress<
        Option<Vec<u8>>,
    >)
        ensures
            match r {
                Progress::Do(a) => read_hot_run(task_entry_key(task_id@), now_unix, old(record)@)
                    == Run::<Option<Seq<u8>>>::Do(a@),
                Progress::Done(v) => read_hot_run(task_entry_key(task_id@), now_unix, old(record)@)
                    == Run::Done(option_bytes(v), final(record)@),
            },
    {
        read_hot(record, TaskStore::task_key(task_id).as_str(), now_unix)
    }

    /// Writes the JSON of a task.
    pub fn put_task(&self, record: &mut Record, task_id: &str, task_json: &[u8], now_unix: u64) -> (r:
        Progress<()>)
        ensures
            match r {
                Progress::Do(a) => write_hot_run(
                    task_entry_key(task_id@),
                    task_json@,
                    now_unix,
                    self.hot_ttl_seconds,
                    old(record)@,
                ) == Run::<()>::Do(a@),
                Progress::Done(v) => write_hot_run(
                    task_entry_key(task_id@),
                    task_json@,
                    now_unix,
                    self.hot_ttl_seconds,
                    old(record)@,
                ) == Run::Done((), final(record)@),
            },
            kept(task_json@, now_unix, self.hot_ttl_seconds),
    {
        write_hot(
            record,
            TaskStore::task_key(task_id).as_str(),
            task_json,
            now_unix,
            self.hot_ttl_seconds,
        )
    }

    /// Drops a task and its numbers.
    pub fn delete_task(&self, record: &mut Record, task_id: &str) -> (r: Progress<()>)
        ensures
            match r {
                Progress::Do(a) => delete_task_run(task_id@, old(record)@) == Run::<()>::Do(a@),
                Progress::Done(v) => delete_task_run(task_id@, old(record)@) == Run::Done(
                    (),
                    final(record)@,
                ),
            },
    {
        match cache_delete(record, TaskStore::task_key(task_id).as_str()) {
            Progress::Do(a) => Progress::Do(a),
            Progress::Done(_) => cache_delete(record, TaskStore::meta_key(task_id).as_str()),
        }
    }

    /// Reads a task's numbers.
    pub fn get_meta(&self, record: &mut Record, task_id: &str, now_unix: u64) -> (r: Progress<
        Option<TaskMeta>,
    >)
        ensures
            match r {
                Progress::Do(a) => get_meta_run(task_id@, now_unix, old(record)@) == Run::<
                    Option<TaskMeta>,
                >::Do(a@),
                Progress::Done(v) => get_meta_run(task_id@, now_unix, old(record)@) == Run::Done(
                    v,
                    final(record)@,
                ),
            },
    {
        match read_hot(record, TaskStore::meta_key(task_id).as_str(), now_unix) {
            Progress::Do(a) => Progress::Do(a),
            Progress::Done(None) => Progress::Done(None),
            Progress::Done(Some(bytes)) => Progress::Done(TaskMeta::from_bytes(bytes.as_slice())),
        }
    }

    /// Writes a task's numbers.
    pub fn put_meta(&self, record: &mut Record, task_id: &str, meta: &TaskMeta, now_unix: u64) -> (r:
        Progress<()>)
        ensures
            match r {
                Progress::Do(a) => put_meta_run(
                    task_id@,
                    *meta,
                    now_unix,
                    self.hot_ttl_seconds,
                    old(record)@,
                ) == Run::<()>::Do(a@),
                Progress::Done(v) => put_meta_run(
                    task_id@,
                    *meta,
                    now_unix,
                    self.hot_ttl_seconds,
                    old(record)@,
                ) == Run::Done((), final(record)@),
            },
            kept(bytes_of_json(meta_json(*meta)), now_unix, self.hot_ttl_seconds),
            json_of_bytes(bytes_of_json(meta_json(*meta))) == read_as(meta_json(*meta)),
    {
        write_hot(
            record,
            TaskStore::meta_key(task_id).as_str(),
            meta.to_bytes().as_slice(),
            now_unix,
            self.hot_ttl_seconds,
        )
    }
}

/// What was written into the cache is read from it as it was, until the entry's
/// time is over; from then on it is not.
pub proof fn written_entry_is_read_until_it_expires(
    payload: Seq<u8>,
    written_at: u64,
    ttl: u32,
    entry: Seq<u8>,
    now: u64,
)
    requires
        entry == hot_bytes(payload, written_at, ttl),
        json_of_bytes(entry) == read_as(
            envelope_json(
                HotEnvelopeView {
                    payload,
                    expires_at_unix: saturating_sum(written_at, ttl as u64),
                },
            ),
        ),
    ensures
        hot_entry(Some(entry), now) == (if now < saturating_sum(written_at, ttl as u64) {
            HotEntry::Found(payload)
        } else {
            HotEntry::Expired
        }),
{
    envelope_round_trip(
        HotEnvelopeView { payload, expires_at_unix: saturating_sum(written_at, ttl as u64) },
    );
}

/// The numbers of a task that were stored are read as they were, until their
/// time is over: the next message goes on from them.
pub proof fn stored_numbers_are_read(
    task_id: Seq<char>,
    m: TaskMeta,
    written_at: u64,
    ttl: u32,
    now: u64,
)
    requires
        kept(bytes_of_json(meta_json(m)), written_at, ttl),
        json_of_bytes(bytes_of_json(meta_json(m))) == read_as(meta_json(m)),
        now < saturating_sum(written_at, ttl as u64),
    ensures
        get_meta_run(
            task_id,
            now,
            seq![
                AnswerView::Cached(
                    Some(hot_bytes(bytes_of_json(meta_json(m)), written_at, ttl)),
                ),
            ],
        ) == Run::Done(Some(m), Seq::empty()),
{
    let payload = bytes_of_json(meta_json(m));
    let entry = hot_bytes(payload, written_at, ttl);
    assert(hot_entry(Some(entry), now) == HotEntry::Found(payload));
    meta_round_trip(m);
    assert(seq![AnswerView::Cached(Some(entry))].drop_first() =~= Seq::empty());
}

/// An entry that has expired is dropped, and reading goes on as if there were
/// none.
pub proof fn expired_entry_is_dropped(key: Seq<char>, entry: Seq<u8>, now: u64, dropped: AnswerView)
    requires
        hot_entry(Some(entry), now) is Expired,
    ensures
        read_hot_run(key, now, seq![AnswerView::Cached(Some(entry))]) == Run::<
            Option<Seq<u8>>,
        >::Do(ActionView::CacheDelete { key }),
        read_hot_run(key, now, seq![AnswerView::Cached(Some(entry)), dropped]) == Run::Done(
            None::<Seq<u8>>,
            Seq::empty(),
        ),
{
    let one = seq![AnswerView::Cached(Some(entry))];
    let two = seq![AnswerView::Cached(Some(entry)), dropped];
    assert(one.drop_first() =~= Seq::empty());
    assert(two.drop_first() =~= seq![dropped]);
    assert(two.drop_first().drop_first() =~= Seq::empty());
}

/// The entries of two tasks, and the two entries of one, have different keys.
pub proof fn entries_do_not_collide(a: Seq<char>, b: Seq<char>)
    ensures
        task_entry_key(a) != meta_entry_key(b),
        a != b ==> task_entry_key(a) != task_entry_key(b),
        a != b ==> meta_entry_key(a) != meta_entry_key(b),
{
    reveal_strlit("task:");
    reveal_strlit("meta:");
    assert(task_entry_key(a)[0] == 't');
    assert(meta_entry_key(b)[0] == 'm');
    assert(task_entry_key(a).skip(5) =~= a);
    assert(task_entry_key(b).skip(5) =~= b);
    assert(meta_entry_key(a).skip(5) =~= a);
    assert(meta_entry_key(b).skip(5) =~= b);
}

} // verus!
