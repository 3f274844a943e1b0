//! JSON documents.
//!
//! [`Json`] is the value that the rest of the crate reads and builds. Text is
//! turned into it, and it into text, by `serde_json`; everything between the
//! two is this crate's own. The members of an object keep the order in which
//! they were read or added.

use vstd::prelude::*;

use crate::text::text_eq;

verus! {

/// A JSON number: an integer that fits in 64 bits, or the decimal text of any
/// other number.
#[derive(Debug, PartialEq, Eq)]
pub enum Number {
    PosInt(u64),
    NegInt(i64),
    Float(String),
}

/// A JSON document.
#[derive(Debug, PartialEq, Eq)]
pub enum Json {
    Null,
    Bool(bool),
    Number(Number),
    Text(String),
    Array(Vec<Json>),
    Object(Vec<(String, Json)>),
}

/// The mathematical value of a [`Number`].
pub enum NumberView {
    PosInt(u64),
    NegInt(i64),
    Float(Seq<char>),
}

/// The mathematical value of a [`Json`] document.
pub enum JsonView {
    Null,
    Bool(bool),
    Number(NumberView),
    Text(Seq<char>),
    Array(Seq<JsonView>),
    Object(Seq<(Seq<char>, JsonView)>),
}

/// The members of an object, in order.
pub type MembersView = Seq<(Seq<char>, JsonView)>;

impl View for Number {
    type V = NumberView;

    open spec fn view(&self) -> NumberView {
        match self {
            Number::PosInt(n) => NumberView::PosInt(*n),
            Number::NegInt(n) => NumberView::NegInt(*n),
            Number::Float(t) => NumberView::Float(t@),
        }
    }
}

impl View for Json {
    type V = JsonView;

    open spec fn view(&self) -> JsonView
        decreases self,
    {
        match self {
            Json::Null => JsonView::Null,
            Json::Bool(b) => JsonView::Bool(*b),
            Json::Number(n) => JsonView::Number(n@),
            Json::Text(t) => JsonView::Text(t@),
            Json::Array(a) => JsonView::Array(
                Seq::new(
                    a@.len(),
                    |i: int|
                        if 0 <= i < a@.len() {
                            a@[i].view()
                        } else {
                            JsonView::Null
                        },
                ),
            ),
            Json::Object(o) => JsonView::Object(
                Seq::new(
                    o@.len(),
                    |i: int|
                        if 0 <= i < o@.len() {
                            (o@[i].0@, o@[i].1.view())
                        } else {
                            (Seq::empty(), JsonView::Null)
                        },
                ),
            ),
        }
    }
}

/// The values of a list of documents.
pub open spec fn items_view(a: Seq<Json>) -> Seq<JsonView> {
    Seq::new(a.len(), |i: int| a[i]@)
}

/// The values of a list of members.
pub open spec fn members_view(o: Seq<(String, Json)>) -> MembersView {
    Seq::new(o.len(), |i: int| (o[i].0@, o[i].1@))
}

/// The value of an optional document.
pub open spec fn option_json(j: Option<Json>) -> Option<JsonView> {
    match j {
        Some(v) => Some(v@),
        None => None,
    }
}

/// Another optional document of the same value.
pub fn copy_option_json(j: &Option<Json>) -> (r: Option<Json>)
    ensures
        option_json(r) == option_json(*j),
{
    match j {
        Some(v) => Some(v.copy()),
        None => None,
    }
}

/// The integer `n` as a document.
pub open spec fn int_json(n: int) -> JsonView {
    if n < 0 {
        JsonView::Number(NumberView::NegInt(n as i64))
    } else {
        JsonView::Number(NumberView::PosInt(n as u64))
    }
}

/// The value of a reading: a document, or the reason why there is none.
pub open spec fn reading_view(r: Result<Json, String>) -> Result<JsonView, Seq<char>> {
    match r {
        Ok(j) => Ok(j@),
        Err(e) => Err(e@),
    }
}

/// The reading that gives the document `v`.
pub open spec fn read_as(v: JsonView) -> Result<JsonView, Seq<char>> {
    Ok(v)
}

/// The value of an array is made of the values of its items.
pub proof fn lemma_array_view(a: Vec<Json>)
    ensures
        Json::Array(a)@ == JsonView::Array(items_view(a@)),
{
    reveal_with_fuel(<Json as View>::view, 2);
    assert(Json::Array(a)@->Array_0 =~= items_view(a@));
}

/// The value of an object is made of the values of its members.
pub proof fn lemma_object_view(o: Vec<(String, Json)>)
    ensures
        Json::Object(o)@ == JsonView::Object(members_view(o@)),
{
    reveal_with_fuel(<Json as View>::view, 2);
    assert(Json::Object(o)@->Object_0 =~= members_view(o@));
}

/// The value of the first member with that key.
pub open spec fn member(o: MembersView, key: Seq<char>) -> Option<JsonView>
    decreases o.len(),
{
    if o.len() == 0 {
        None
    } else if o[0].0 == key {
        Some(o[0].1)
    } else {
        member(o.drop_first(), key)
    }
}

/// `o` with the value of `key` replaced where the key stands, or with the
/// member added at the end where it stands nowhere.
pub open spec fn with_member(o: MembersView, key: Seq<char>, value: JsonView) -> MembersView
    decreases o.len(),
{
    if o.len() == 0 {
        seq![(key, value)]
    } else if o[0].0 == key {
        seq![(key, value)] + o.drop_first()
    } else {
        seq![o[0]] + with_member(o.drop_first(), key, value)
    }
}

/// Whether no key occurs twice.
pub open spec fn distinct_keys(o: MembersView) -> bool {
    forall|i: int, j: int| 0 <= i < j < o.len() ==> (#[trigger] o[i]).0 != (#[trigger] o[j]).0
}

/// Whether a document is written to text and read back as it was: its numbers
/// are integers, no object repeats a key, and arrays and objects nest at most
/// `levels` deep.
pub open spec fn storable(v: JsonView, levels: nat) -> bool
    decreases levels,
{
    match v {
        JsonView::Number(NumberView::NegInt(n)) => n < 0,
        JsonView::Number(NumberView::Float(_)) => false,
        JsonView::Array(a) => levels > 0 && forall|i: int|
            0 <= i < a.len() ==> storable(#[trigger] a[i], (levels - 1) as nat),
        JsonView::Object(o) => levels > 0 && distinct_keys(o) && forall|i: int|
            0 <= i < o.len() ==> storable((#[trigger] o[i]).1, (levels - 1) as nat),
        _ => true,
    }
}

/// A document that fits in few levels fits in more.
pub proof fn lemma_storable_deeper(v: JsonView, few: nat, more: nat)
    requires
        storable(v, few),
        few <= more,
    ensures
        storable(v, more),
    decreases few,
{
    match v {
        JsonView::Array(a) => {
            assert forall|i: int| 0 <= i < a.len() implies storable(
                #[trigger] a[i],
                (more - 1) as nat,
            ) by {
                lemma_storable_deeper(a[i], (few - 1) as nat, (more - 1) as nat);
            }
        },
        JsonView::Object(o) => {
            assert forall|i: int| 0 <= i < o.len() implies storable(
                (#[trigger] o[i]).1,
                (more - 1) as nat,
            ) by {
                lemma_storable_deeper(o[i].1, (few - 1) as nat, (more - 1) as nat);
            }
        },
        _ => {},
    }
}

/// An object stays storable with a member added whose value is and whose key is
/// new.
pub proof fn lemma_storable_push(o: MembersView, key: Seq<char>, value: JsonView, levels: nat)
    requires
        levels > 0,
        storable(JsonView::Object(o), levels),
        storable(value, (levels - 1) as nat),
        member(o, key) is None,
    ensures
        storable(JsonView::Object(o.push((key, value))), levels),
{
    let p = o.push((key, value));
    lemma_member_cases(o, key);
    assert forall|i: int, j: int| 0 <= i < j < p.len() implies (#[trigger] p[i]).0 != (
    #[trigger] p[j]).0 by {
        assert(p[i] == o[i]);
        if j < o.len() {
            assert(p[j] == o[j]);
        }
    }
    assert forall|i: int| 0 <= i < p.len() implies storable(
        (#[trigger] p[i]).1,
        (levels - 1) as nat,
    ) by {
        if i < o.len() {
            assert(p[i] == o[i]);
        }
    }
}

impl Json {
    /// Another document of the same value.
    pub fn copy(&self) -> (r: Json)
        ensures
            r@ == self@,
        decreases self,
    {
        match self {
            Json::Null => Json::Null,
            Json::Bool(b) => Json::Bool(*b),
            Json::Number(Number::PosInt(n)) => Json::Number(Number::PosInt(*n)),
            Json::Number(Number::NegInt(n)) => Json::Number(Number::NegInt(*n)),
            Json::Number(Number::Float(t)) => Json::Number(Number::Float(t.clone())),
            Json::Text(t) => Json::Text(t.clone()),
            Json::Array(a) => {
                let mut out: Vec<Json> = Vec::new();
                let n: usize = a.len();
                for i in 0..n
                    invariant
                        n == a@.len(),
                        *self == Json::Array(*a),
                        out@.len() == i,
                        forall|k: int| 0 <= k < i ==> out@[k]@ == a@[k]@,
                {
                    assert(decreases_to!(*self => self->Array_0@[i as int]));
                    out.push(a[i].copy());
                }
                proof {
                    lemma_array_view(out);
                    lemma_array_view(*a);
                    assert(items_view(out@) =~= items_view(a@));
                }
                Json::Array(out)
            },
            Json::Object(o) => {
                let mut out: Vec<(String, Json)> = Vec::new();
                let n: usize = o.len();
                for i in 0..n
                    invariant
                        n == o@.len(),
                        *self == Json::Object(*o),
                        out@.len() == i,
                        forall|k: int|
                            0 <= k < i ==> out@[k].0@ == o@[k].0@ && out@[k].1@ == o@[k].1@,
                {
                    assert(decreases_to!(*self => self->Object_0@[i as int].1));
                    out.push((o[i].0.clone(), o[i].1.copy()));
                }
                proof {
                    lemma_object_view(out);
                    lemma_object_view(*o);
                    assert(members_view(out@) =~= members_view(o@));
                }
                Json::Object(out)
            },
        }
    }

    /// Whether the document is an object.
    pub fn is_object(&self) -> (r: bool)
        ensures
            r == (self@ is Object),
    {
        match self {
            Json::Object(_) => true,
            _ => false,
        }
    }

    /// Whether the document is an array.
    pub fn is_array(&self) -> (r: bool)
        ensures
            r == (self@ is Array),
    {
        match self {
            Json::Array(_) => true,
            _ => false,
        }
    }

    /// The value of a member, where the document is an object that has it.
    pub fn get(&self, key: &str) -> (r: Option<&Json>)
        ensures
            match r {
                Some(j) => json_member(self@, key@) == Some(j@),
                None => json_member(self@, key@) is None,
            },
    {
        match self {
            Json::Object(o) => {
                proof {
                    lemma_object_view(*o);
                }
                find_member(o, key)
            },
            _ => None,
        }
    }
}

impl Clone for Json {
    fn clone(&self) -> (r: Self)
        ensures
            r@ == self@,
    {
        self.copy()
    }
}

/// The value of a member of a document, which has none where it is no object.
pub open spec fn json_member(v: JsonView, key: Seq<char>) -> Option<JsonView> {
    match v {
        JsonView::Object(o) => member(o, key),
        _ => None,
    }
}

/// The string of that text.
pub fn text_json(s: &str) -> (r: Json)
    ensures
        r@ == JsonView::Text(s@),
{
    Json::Text(s.to_owned())
}

/// The number `n`.
pub fn number_json(n: u64) -> (r: Json)
    ensures
        r@ == JsonView::Number(NumberView::PosInt(n)),
{
    Json::Number(Number::PosInt(n))
}

/// The integer `n`, negative or not.
pub fn integer_json(n: i64) -> (r: Json)
    ensures
        r@ == int_json(n as int),
{
    if n < 0 {
        Json::Number(Number::NegInt(n))
    } else {
        Json::Number(Number::PosInt(n as u64))
    }
}

/// The array of those items.
pub fn array_json(items: Vec<Json>) -> (r: Json)
    ensures
        r@ == JsonView::Array(items_view(items@)),
{
    proof {
        lemma_array_view(items);
    }
    Json::Array(items)
}

/// Finds the value of the first member with that key.
pub fn find_member<'a>(o: &'a Vec<(String, Json)>, key: &str) -> (r: Option<&'a Json>)
    ensures
        match r {
            Some(j) => member(members_view(o@), key@) == Some(j@),
            None => member(members_view(o@), key@) is None,
        },
{
    match member_index(o, key) {
        Some(i) => {
            proof {
                lemma_member_at(members_view(o@), key@, i as int);
            }
            Some(&o[i].1)
        },
        None => {
            proof {
                lemma_member_absent(members_view(o@), key@);
            }
            None
        },
    }
}

/// Finds the position of the first member with that key.
pub fn member_index(o: &Vec<(String, Json)>, key: &str) -> (r: Option<usize>)
    ensures
        match r {
            Some(i) => first_at(members_view(o@), key@, i as int),
            None => absent(members_view(o@), key@),
        },
{
    let n: usize = o.len();
    for i in 0..n
        invariant
            n == o@.len(),
            forall|k: int| 0 <= k < i ==> members_view(o@)[k].0 != key@,
    {
        if text_eq(o[i].0.as_str(), key) {
            return Some(i);
        }
    }
    None
}

/// Whether `key` stands at `i` and nowhere before.
pub open spec fn first_at(o: MembersView, key: Seq<char>, i: int) -> bool {
    &&& 0 <= i < o.len()
    &&& o[i].0 == key
    &&& forall|k: int| 0 <= k < i ==> (#[trigger] o[k]).0 != key
}

/// Whether `key` stands nowhere.
pub open spec fn absent(o: MembersView, key: Seq<char>) -> bool {
    forall|k: int| 0 <= k < o.len() ==> (#[trigger] o[k]).0 != key
}

/// Where a key stands first, its value is the member's.
pub proof fn lemma_member_at(o: MembersView, key: Seq<char>, i: int)
    requires
        first_at(o, key, i),
    ensures
        member(o, key) == Some(o[i].1),
    decreases o.len(),
{
    if i > 0 {
        assert(o[0].0 != key);
        let rest = o.drop_first();
        assert forall|k: int| 0 <= k < i - 1 implies (#[trigger] rest[k]).0 != key by {
            assert(rest[k] == o[k + 1]);
        }
        lemma_member_at(rest, key, i - 1);
    }
}

/// A key that stands nowhere has no value.
pub proof fn lemma_member_absent(o: MembersView, key: Seq<char>)
    requires
        absent(o, key),
    ensures
        member(o, key) is None,
    decreases o.len(),
{
    if o.len() > 0 {
        assert(o[0].0 != key);
        let rest = o.drop_first();
        assert forall|k: int| 0 <= k < rest.len() implies (#[trigger] rest[k]).0 != key by {
            assert(rest[k] == o[k + 1]);
        }
        lemma_member_absent(rest, key);
    }
}

/// A key either stands nowhere or stands first somewhere.
pub proof fn lemma_member_cases(o: MembersView, key: Seq<char>) -> (i: int)
    ensures
        member(o, key) is None ==> absent(o, key),
        member(o, key) is Some ==> first_at(o, key, i),
    decreases o.len(),
{
    if o.len() == 0 {
        0
    } else if o[0].0 == key {
        0
    } else {
        let rest = o.drop_first();
        let k = lemma_member_cases(rest, key);
        if member(o, key) is None {
            assert forall|m: int| 0 <= m < o.len() implies (#[trigger] o[m]).0 != key by {
                if m > 0 {
                    assert(rest[m - 1] == o[m]);
                }
            }
        } else {
            assert forall|m: int| 0 <= m < k + 1 implies (#[trigger] o[m]).0 != key by {
                if m > 0 {
                    assert(rest[m - 1] == o[m]);
                }
            }
            assert(rest[k] == o[k + 1]);
        }
        k + 1
    }
}

/// What a key has after a member is set: the new value under that key, the old
/// value under every other.
pub proof fn lemma_with_member_lookup(
    o: MembersView,
    key: Seq<char>,
    value: JsonView,
    other: Seq<char>,
)
    ensures
        member(with_member(o, key, value), key) == Some(value),
        other != key ==> member(with_member(o, key, value), other) == member(o, other),
    decreases o.len(),
{
    let w = with_member(o, key, value);
    if o.len() == 0 {
        assert(w.drop_first() =~= Seq::empty());
        assert(member(w.drop_first(), other) is None);
    } else if o[0].0 == key {
        assert(w.drop_first() =~= o.drop_first());
    } else {
        lemma_with_member_lookup(o.drop_first(), key, value, other);
        assert(w.drop_first() =~= with_member(o.drop_first(), key, value));
    }
}

/// Setting a member where the key stands first replaces its value alone.
pub proof fn lemma_with_member_at(o: MembersView, key: Seq<char>, value: JsonView, i: int)
    requires
        first_at(o, key, i),
    ensures
        with_member(o, key, value) == o.update(i, (key, value)),
    decreases o.len(),
{
    if i == 0 {
        assert(with_member(o, key, value) =~= o.update(0, (key, value)));
    } else {
        assert(o[0].0 != key);
        let rest = o.drop_first();
        assert forall|k: int| 0 <= k < i - 1 implies (#[trigger] rest[k]).0 != key by {
            assert(rest[k] == o[k + 1]);
        }
        lemma_with_member_at(rest, key, value, i - 1);
        assert(with_member(o, key, value) =~= o.update(i, (key, value)));
    }
}

/// Setting a member under a key that stands nowhere adds it at the end.
pub proof fn lemma_with_member_absent(o: MembersView, key: Seq<char>, value: JsonView)
    requires
        absent(o, key),
    ensures
        with_member(o, key, value) == o.push((key, value)),
    decreases o.len(),
{
    if o.len() == 0 {
        assert(with_member(o, key, value) =~= o.push((key, value)));
    } else {
        assert(o[0].0 != key);
        let rest = o.drop_first();
        assert forall|k: int| 0 <= k < rest.len() implies (#[trigger] rest[k]).0 != key by {
            assert(rest[k] == o[k + 1]);
        }
        lemma_with_member_absent(rest, key, value);
        assert(with_member(o, key, value) =~= o.push((key, value)));
    }
}

/// Sets a member: its value is replaced where the key stands, and the member
/// is added at the end where it does not.
pub fn set_member(o: &mut Vec<(String, Json)>, key: &str, value: Json)
    ensures
        members_view(final(o)@) == with_member(members_view(old(o)@), key@, value@),
{
    let ghost before = members_view(o@);
    match member_index(o, key) {
        Some(i) => {
            proof {
                lemma_with_member_at(before, key@, value@, i as int);
            }
            let name: String = key.to_owned();
            o.set(i, (name, value));
            assert(members_view(o@) =~= before.update(i as int, (key@, value@)));
        },
        None => {
            proof {
                lemma_with_member_absent(before, key@, value@);
            }
            o.push((key.to_owned(), value));
            assert(members_view(o@) =~= before.push((key@, value@)));
        },
    }
}

/// `o` with a member added at the end, where there is a text.
pub open spec fn push_some_text(
    o: MembersView,
    key: Seq<char>,
    value: Option<Seq<char>>,
) -> MembersView {
    match value {
        Some(t) => o.push((key, JsonView::Text(t))),
        None => o,
    }
}

/// `o` with a member added at the end, where there is a value.
pub open spec fn push_some(o: MembersView, key: Seq<char>, value: Option<JsonView>) -> MembersView {
    match value {
        Some(v) => o.push((key, v)),
        None => o,
    }
}

/// What a key has after a member is added at the end: what it had, or else the
/// new value where the key is the new member's.
pub broadcast proof fn lemma_member_push(
    o: MembersView,
    key: Seq<char>,
    value: JsonView,
    other: Seq<char>,
)
    ensures
        #[trigger] member(o.push((key, value)), other) == (if member(o, other) is Some {
            member(o, other)
        } else if key == other {
            Some(value)
        } else {
            None
        }),
    decreases o.len(),
{
    let p = o.push((key, value));
    if o.len() == 0 {
        assert(p.drop_first() =~= Seq::empty());
        assert(member(p.drop_first(), other) is None);
    } else {
        assert(p.drop_first() =~= o.drop_first().push((key, value)));
        assert(p[0] == o[0]);
        lemma_member_push(o.drop_first(), key, value, other);
    }
}

/// The members of an object that is being written, in order.
pub struct Members {
    entries: Vec<(String, Json)>,
}

impl View for Members {
    type V = MembersView;

    closed spec fn view(&self) -> MembersView {
        members_view(self.entries@)
    }
}

impl Members {
    /// No members.
    pub fn new() -> (r: Members)
        ensures
            r@ == MembersView::empty(),
    {
        let r = Members { entries: Vec::new() };
        assert(r@ =~= MembersView::empty());
        r
    }

    /// Adds a member at the end.
    pub fn put(&mut self, key: &str, value: Json)
        ensures
            final(self)@ == old(self)@.push((key@, value@)),
    {
        let ghost before = self@;
        self.entries.push((key.to_owned(), value));
        assert(self@ =~= before.push((key@, value@)));
    }

    /// Adds a member with that text at the end.
    pub fn put_text(&mut self, key: &str, value: &str)
        ensures
            final(self)@ == old(self)@.push((key@, JsonView::Text(value@))),
    {
        self.put(key, text_json(value));
    }

    /// Adds a member with that text at the end, where there is one.
    pub fn put_some_text(&mut self, key: &str, value: &Option<String>)
        ensures
            final(self)@ == push_some_text(old(self)@, key@, crate::text::option_text(*value)),
    {
        match value {
            Some(t) => {
                self.put_text(key, t.as_str());
            },
            None => {},
        }
    }

    /// Adds a member with that value at the end, where there is one.
    pub fn put_some(&mut self, key: &str, value: &Option<Json>)
        ensures
            final(self)@ == push_some(old(self)@, key@, option_json(*value)),
    {
        match value {
            Some(v) => {
                self.put(key, v.copy());
            },
            None => {},
        }
    }

    /// The object of these members.
    pub fn object(self) -> (r: Json)
        ensures
            r@ == JsonView::Object(self@),
    {
        proof {
            lemma_object_view(self.entries);
        }
        Json::Object(self.entries)
    }
}

/// What reading bytes as JSON gives: the document, or the reason in words.
pub uninterp spec fn json_of_bytes(bytes: Seq<u8>) -> Result<JsonView, Seq<char>>;

/// What reading text as JSON gives: the document, or the reason in words.
pub uninterp spec fn json_of_text(text: Seq<char>) -> Result<JsonView, Seq<char>>;

/// The bytes in which a document is written.
pub uninterp spec fn bytes_of_json(v: JsonView) -> Seq<u8>;

/// `serde_json::Value`, which passes between `serde_json`'s calls and the two
/// conversions below.
#[verifier::external_type_specification]
#[verifier::external_body]
pub struct ExValue(serde_json::Value);

/// Takes a `serde_json::Value` over into a [`Json`], variant by variant.
/// Nothing is claimed of it: the readings below claim what they give as a
/// whole.
#[verifier::external_body]
fn json_of_value(v: serde_json::Value) -> (r: Json) {
    match v {
        serde_json::Value::Null => Json::Null,
        serde_json::Value::Bool(b) => Json::Bool(b),
        serde_json::Value::Number(n) => Json::Number(match (n.as_u64(), n.as_i64()) {
            (Some(u), _) => Number::PosInt(u),
            (None, Some(i)) => Number::NegInt(i),
            (None, None) => Number::Float(n.to_string()),
        }),
        serde_json::Value::String(s) => Json::Text(s),
        serde_json::Value::Array(a) => Json::Array(a.into_iter().map(json_of_value).collect()),
        serde_json::Value::Object(o) => {
            Json::Object(o.into_iter().map(|(k, x)| (k, json_of_value(x))).collect())
        },
    }
}

/// Takes a [`Json`] over into a `serde_json::Value`, variant by variant.
/// Nothing is claimed of it: [`write_json`] claims what it gives as a whole.
#[verifier::external_body]
fn value_of_json(j: &Json) -> (r: serde_json::Value) {
    match j {
        Json::Null => serde_json::Value::Null,
        Json::Bool(b) => serde_json::Value::Bool(*b),
        Json::Number(Number::PosInt(n)) => serde_json::Value::from(*n),
        Json::Number(Number::NegInt(n)) => serde_json::Value::from(*n),
        Json::Number(Number::Float(t)) => serde_json::from_str(t).unwrap_or_default(),
        Json::Text(s) => serde_json::Value::String(s.clone()),
        Json::Array(a) => serde_json::Value::Array(a.iter().map(value_of_json).collect()),
        Json::Object(o) => serde_json::Value::Object(
            o.iter().map(|(k, x)| (k.clone(), value_of_json(x))).collect(),
        ),
    }
}

/// `serde_json::from_slice::<serde_json::Value>`: the document that the bytes
/// hold, or what the error says. A key that an object repeats keeps its last
/// value.
#[verifier::external_body]
fn read_bytes(bytes: &[u8]) -> (r: Result<Json, String>)
    ensures
        reading_view(r) == json_of_bytes(bytes@),
{
    match serde_json::from_slice::<serde_json::Value>(bytes) {
        Ok(v) => Ok(json_of_value(v)),
        Err(e) => Err(e.to_string()),
    }
}

/// `serde_json::from_str::<serde_json::Value>`: the document that the text
/// holds, or what the error says.
#[verifier::external_body]
fn read_text(text: &str) -> (r: Result<Json, String>)
    ensures
        reading_view(r) == json_of_text(text@),
{
    match serde_json::from_str::<serde_json::Value>(text) {
        Ok(v) => Ok(json_of_value(v)),
        Err(e) => Err(e.to_string()),
    }
}

/// `serde_json::to_vec` of a `serde_json::Value`, which does not fail. What it
/// writes of a document of integers and distinct keys, nested at most 127
/// levels deep, `serde_json::from_slice` reads back as that document: 128
/// levels are where its reading gives up.
#[verifier::external_body]
fn write_bytes(j: &Json) -> (r: Vec<u8>)
    ensures
        r@ == bytes_of_json(j@),
        storable(j@, 127) ==> json_of_bytes(r@) == read_as(j@),
{
    serde_json::to_vec(&value_of_json(j)).expect("a JSON value serializes")
}

/// Reads a document from bytes.
pub fn parse_json(bytes: &[u8]) -> (r: Result<Json, String>)
    ensures
        reading_view(r) == json_of_bytes(bytes@),
{
    read_bytes(bytes)
}

/// Reads a document from text.
pub fn parse_json_text(text: &str) -> (r: Result<Json, String>)
    ensures
        reading_view(r) == json_of_text(text@),
{
    read_text(text)
}

/// Writes a document. Reading a [`storable`] document's bytes gives the
/// document back.
pub fn write_json(j: &Json) -> (r: Vec<u8>)
    ensures
        r@ == bytes_of_json(j@),
        storable(j@, 127) ==> json_of_bytes(r@) == read_as(j@),
{
    write_bytes(j)
}

} // verus!
