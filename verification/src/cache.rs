//! Access tokens in the gateway's shared cache.
//!
//! The tokens of Salesforce and of the Anypoint platform are kept in one shape,
//! under keys that differ by prefix.

use vstd::prelude::*;
use vstd::utf8::encode_utf8;

use crate::decode::{
    check, fields, lemma_field_index, lemma_members_push, lemma_nothing_absent, members_error,
    number_at, number_of_field, read_record, record_of_bytes, shape_error, text_at, text_of_field,
    Rec, Shape,
};
use crate::encoding::{hex, hex_tells_bytes_apart, hex_text, is_lower_hex, sha256, sha256_of};
use crate::json::{
    bytes_of_json, json_of_bytes, lemma_member_push, lemma_storable_push, member, number_json,
    read_as, storable, write_json, Json, JsonView, Members, MembersView, NumberView,
};
use crate::text::{concat3, starts_in};

verus! {

/// An access token, and when it ends.
#[derive(Debug, PartialEq, Eq)]
pub struct CachedToken {
    pub access_token: String,
    /// In seconds since the start of 1970.
    pub expires_at_unix: u64,
}

/// The value of a [`CachedToken`].
pub struct CachedTokenView {
    pub access_token: Seq<char>,
    pub expires_at_unix: u64,
}

impl View for CachedToken {
    type V = CachedTokenView;

    open spec fn view(&self) -> CachedTokenView {
        CachedTokenView {
            access_token: self.access_token@,
            expires_at_unix: self.expires_at_unix,
        }
    }
}

impl CachedToken {
    /// Another one of the same value.
    pub fn copy(&self) -> (r: CachedToken)
        ensures
            r@ == self@,
    {
        CachedToken {
            access_token: self.access_token.clone(),
            expires_at_unix: self.expires_at_unix,
        }
    }
}

impl Clone for CachedToken {
    fn clone(&self) -> (r: Self)
        ensures
            r@ == self@,
    {
        self.copy()
    }
}

/// `a + b`, or the largest number where that is too large.
pub open spec fn saturating_sum(a: u64, b: u64) -> u64 {
    if a + b > u64::MAX {
        u64::MAX
    } else {
        (a + b) as u64
    }
}

/// The token that lasts `expires_in` seconds from `now` on.
pub open spec fn token_lasting(access_token: Seq<char>, now: u64, expires_in: u64) -> CachedTokenView {
    CachedTokenView { access_token, expires_at_unix: saturating_sum(now, expires_in) }
}

/// Whether a token should be refreshed: from `margin` seconds before its end on.
pub open spec fn stale(t: CachedTokenView, now: u64, margin: u32) -> bool {
    now + margin >= t.expires_at_unix
}

/// How many seconds a token has left, and at least one.
pub open spec fn seconds_left(t: CachedTokenView, now: u64) -> u64 {
    if t.expires_at_unix > now {
        (t.expires_at_unix - now) as u64
    } else {
        1
    }
}

/// The document of a token.
pub open spec fn token_json(t: CachedTokenView) -> JsonView {
    JsonView::Object(
        MembersView::empty().push(("access_token"@, JsonView::Text(t.access_token))).push(
            ("expires_at_unix"@, JsonView::Number(NumberView::PosInt(t.expires_at_unix))),
        ),
    )
}

/// The token that a document holds.
pub open spec fn token_in(v: JsonView) -> Option<CachedTokenView> {
    let r = Rec::CachedToken;
    if shape_error(Shape::Record(r), v) is None {
        Some(
            CachedTokenView {
                access_token: text_at(r, v, "access_token"@),
                expires_at_unix: number_at(r, v, "expires_at_unix"@, 0),
            },
        )
    } else {
        None
    }
}

/// The token that a cache entry holds, once it has been read as JSON.
pub open spec fn token_read(doc: Result<JsonView, Seq<char>>) -> Option<CachedTokenView> {
    match doc {
        Ok(v) => token_in(v),
        Err(_) => None,
    }
}

/// The access token of a cache entry, where it holds one that need not be
/// refreshed.
pub open spec fn usable_token(entry: Option<Seq<u8>>, now: u64, margin: u32) -> Option<Seq<char>> {
    match entry {
        Some(bytes) => match token_read(record_of_bytes(Rec::CachedToken, bytes)) {
            Some(t) => if stale(t, now, margin) {
                None
            } else {
                Some(t.access_token)
            },
            None => None,
        },
        None => None,
    }
}

/// The value of an optional token.
pub open spec fn option_token(t: Option<CachedToken>) -> Option<CachedTokenView> {
    match t {
        Some(x) => Some(x@),
        None => None,
    }
}

impl CachedToken {
    /// The token that lasts `expires_in` seconds from `now_unix` on.
    pub fn new(access_token: String, now_unix: u64, expires_in: u64) -> (r: CachedToken)
        ensures
            r@ == token_lasting(access_token@, now_unix, expires_in),
    {
        CachedToken { access_token, expires_at_unix: now_unix.saturating_add(expires_in) }
    }

    /// Tells whether the token should be refreshed.
    pub fn needs_refresh(&self, now_unix: u64, safety_margin_seconds: u32) -> (r: bool)
        ensures
            r == stale(self@, now_unix, safety_margin_seconds),
    {
        let threshold: u64 = self.expires_at_unix.saturating_sub(safety_margin_seconds as u64);
        now_unix >= threshold
    }

    /// How many seconds the token has left, and at least one.
    pub fn ttl_seconds(&self, now_unix: u64) -> (r: u64)
        ensures
            r == seconds_left(self@, now_unix),
    {
        let left: u64 = self.expires_at_unix.saturating_sub(now_unix);
        if left < 1 {
            1
        } else {
            left
        }
    }

    /// The bytes of the cache entry.
    pub fn to_bytes(&self) -> (r: Vec<u8>)
        ensures
            r@ == bytes_of_json(token_json(self@)),
            json_of_bytes(r@) == read_as(token_json(self@)),
    {
        let mut m: Members = Members::new();
        m.put_text("access_token", self.access_token.as_str());
        m.put("expires_at_unix", number_json(self.expires_at_unix));
        let j: Json = m.object();
        proof {
            lemma_token_storable(self@);
        }
        write_json(&j)
    }

    /// Reads a token from a document.
    pub fn from_json(j: &Json) -> (r: Option<CachedToken>)
        ensures
            option_token(r) == token_in(j@),
    {
        match check(Shape::Record(Rec::CachedToken), j) {
            Some(_) => None,
            None => Some(
                CachedToken {
                    access_token: text_of_field(Rec::CachedToken, j, "access_token"),
                    expires_at_unix: number_of_field(Rec::CachedToken, j, "expires_at_unix", 0),
                },
            ),
        }
    }
}

/// Takes the access token out of a cache entry, where it need not be refreshed.
pub fn fresh_token(entry: &Option<Vec<u8>>, now_unix: u64, margin: u32) -> (r: Option<String>)
    ensures
        crate::text::option_text(r) == usable_token(
            crate::effects::option_bytes(*entry),
            now_unix,
            margin,
        ),
{
    match entry {
        Some(bytes) => match read_record(Rec::CachedToken, bytes.as_slice()) {
            Ok(j) => match CachedToken::from_json(&j) {
                Some(t) => if t.needs_refresh(now_unix, margin) {
                    None
                } else {
                    Some(t.access_token)
                },
                None => None,
            },
            Err(_) => None,
        },
        None => None,
    }
}

/// The prefix of the cache keys of Salesforce tokens.
pub const AGENTFORCE_TOKEN_PREFIX: &'static str = "agentforce-tokens";

/// The prefix of the cache keys of Anypoint tokens for the object store.
pub const ANYPOINT_TOKEN_PREFIX: &'static str = "anypoint-os2";

/// The cache key of a client's token: the prefix, and a digest of the client's
/// id and the address that issues the token.
pub open spec fn token_key(prefix: Seq<char>, client_id: Seq<char>, base_url: Seq<char>) -> Seq<char> {
    prefix + ":"@ + hex(sha256_of(key_source(client_id, base_url)))
}

/// What is digested for a cache key.
pub open spec fn key_source(client_id: Seq<char>, base_url: Seq<char>) -> Seq<u8> {
    encode_utf8(client_id) + encode_utf8("|"@) + encode_utf8(base_url)
}

/// The cache key of a client's token. What follows the prefix and the colon is 64
/// hexadecimal digits, whatever the client's id and the address.
pub fn token_cache_key(prefix: &str, client_id: &str, base_url: &str) -> (r: String)
    ensures
        r@ == token_key(prefix@, client_id@, base_url@),
        r@.len() == prefix@.len() + 65,
        r@[prefix@.len() as int] == ':',
        forall|i: int| prefix@.len() < i < r@.len() ==> is_lower_hex(#[trigger] r@[i]),
        sha256_of(key_source(client_id@, base_url@)).len() == 32,
{
    let mut bytes: Vec<u8> = Vec::new();
    bytes.extend_from_slice(client_id.as_bytes());
    bytes.extend_from_slice("|".as_bytes());
    bytes.extend_from_slice(base_url.as_bytes());
    assert(bytes@ =~= key_source(client_id@, base_url@));
    let digest: Vec<u8> = sha256(bytes.as_slice());
    let digits: String = hex_text(digest.as_slice());
    proof {
        reveal_strlit(":");
        key_ends_in_digits(prefix@, client_id@, base_url@);
    }
    concat3(prefix, ":", digits.as_str())
}

/// A key starts with its prefix and a colon.
pub proof fn key_starts_with_its_prefix(prefix: Seq<char>, client_id: Seq<char>, base_url: Seq<char>)
    ensures
        starts_in(token_key(prefix, client_id, base_url), prefix + ":"@),
{
    let key = token_key(prefix, client_id, base_url);
    assert(key.take((prefix + ":"@).len() as int) =~= prefix + ":"@);
}

/// A key holds nothing of the client's id or of the address as they are written:
/// what follows the prefix and the colon is hexadecimal digits, two for each byte
/// of the digest.
pub proof fn key_ends_in_digits(prefix: Seq<char>, client_id: Seq<char>, base_url: Seq<char>)
    ensures
        ({
            let key = token_key(prefix, client_id, base_url);
            let digest = sha256_of(key_source(client_id, base_url));
            &&& key.len() == prefix.len() + 1 + 2 * digest.len()
            &&& forall|i: int| prefix.len() < i < key.len() ==> is_lower_hex(#[trigger] key[i])
        }),
{
    let key = token_key(prefix, client_id, base_url);
    let digest = sha256_of(key_source(client_id, base_url));
    reveal_strlit(":");
    hex_tells_bytes_apart(digest, digest);
    assert forall|i: int| prefix.len() < i < key.len() implies is_lower_hex(#[trigger] key[i]) by {
        assert(key[i] == hex(digest)[i - prefix.len() - 1]);
    }
}

/// Under one prefix, two keys are the same exactly where the digests are.
pub proof fn keys_differ_as_digests_do(
    prefix: Seq<char>,
    a: (Seq<char>, Seq<char>),
    b: (Seq<char>, Seq<char>),
)
    ensures
        token_key(prefix, a.0, a.1) == token_key(prefix, b.0, b.1) <==> sha256_of(
            key_source(a.0, a.1),
        ) == sha256_of(key_source(b.0, b.1)),
{
    let x = sha256_of(key_source(a.0, a.1));
    let y = sha256_of(key_source(b.0, b.1));
    let p = prefix + ":"@;
    hex_tells_bytes_apart(x, y);
    if token_key(prefix, a.0, a.1) == token_key(prefix, b.0, b.1) {
        assert((p + hex(x)).skip(p.len() as int) =~= hex(x));
        assert((p + hex(y)).skip(p.len() as int) =~= hex(y));
    }
}

/// The keys of two prefixes differ, whatever the clients: every key is its
/// prefix and as many characters again as every other has.
pub proof fn keys_of_prefixes_differ(
    p: Seq<char>,
    q: Seq<char>,
    a: (Seq<char>, Seq<char>),
    b: (Seq<char>, Seq<char>),
)
    requires
        p != q,
        token_key(p, a.0, a.1).len() == p.len() + 65,
        token_key(q, b.0, b.1).len() == q.len() + 65,
    ensures
        token_key(p, a.0, a.1) != token_key(q, b.0, b.1),
{
    let x = token_key(p, a.0, a.1);
    let y = token_key(q, b.0, b.1);
    if x == y {
        assert(x.take(p.len() as int) =~= p);
        assert(y.take(q.len() as int) =~= q);
    }
}

proof fn lemma_token_keys()
    ensures
        "access_token"@ != "expires_at_unix"@,
{
    reveal_strlit("access_token");
    reveal_strlit("expires_at_unix");
    assert("access_token"@.len() == 12);
    assert("expires_at_unix"@.len() == 15);
}

proof fn lemma_token_storable(t: CachedTokenView)
    ensures
        storable(token_json(t), 127),
{
    broadcast use lemma_member_push;

    lemma_token_keys();
    let none = MembersView::empty();
    let one = none.push(("access_token"@, JsonView::Text(t.access_token)));
    lemma_storable_push(none, "access_token"@, JsonView::Text(t.access_token), 127);
    lemma_storable_push(
        one,
        "expires_at_unix"@,
        JsonView::Number(NumberView::PosInt(t.expires_at_unix)),
        127,
    );
}

/// A token is read back from its document as it was written.
pub proof fn token_round_trip(t: CachedTokenView)
    ensures
        token_in(token_json(t)) == Some(t),
{
    broadcast use {lemma_member_push, lemma_members_push};

    lemma_token_keys();
    let r = Rec::CachedToken;
    let o = token_json(t)->Object_0;
    lemma_field_index(fields(r), "access_token"@, 0);
    lemma_field_index(fields(r), "expires_at_unix"@, 1);
    assert(members_error(r, MembersView::empty(), 0) is None);
    assert(members_error(r, o, 0) is None);
    assert(member(o, "access_token"@) == Some(JsonView::Text(t.access_token)));
    assert(member(o, "expires_at_unix"@) is Some);
    lemma_nothing_absent(fields(r), o);
}

/// A token that was put in the cache is taken from it until its margin begins,
/// and from then on it is not.
pub proof fn cached_token_is_used_until_its_margin(
    access_token: Seq<char>,
    saved_at: u64,
    expires_in: u64,
    entry: Seq<u8>,
    now: u64,
    margin: u32,
)
    requires
        entry == bytes_of_json(token_json(token_lasting(access_token, saved_at, expires_in))),
        json_of_bytes(entry) == read_as(
            token_json(token_lasting(access_token, saved_at, expires_in)),
        ),
    ensures
        usable_token(Some(entry), now, margin) == (if now + margin < saturating_sum(
            saved_at,
            expires_in,
        ) {
            Some(access_token)
        } else {
            None
        }),
{
    token_round_trip(token_lasting(access_token, saved_at, expires_in));
}

} // verus!
