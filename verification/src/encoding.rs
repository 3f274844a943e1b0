//! Encodings of text and bytes: percent-encoding, forms, hexadecimal digits,
//! the SHA-256 digest, UTF-8, and random identifiers.

use sha2::Digest;
use vstd::prelude::*;
use vstd::utf8::{decode_utf8, encode_utf8, valid_utf8};

use crate::text::is_digit;

verus! {

/// The digit of a number below sixteen, with upper-case letters.
pub open spec fn upper_hex(d: nat) -> char {
    if d < 10 {
        (48 + d) as char
    } else {
        (55 + d) as char
    }
}

/// The digit of a number below sixteen, with lower-case letters.
pub open spec fn lower_hex(d: nat) -> char {
    if d < 10 {
        (48 + d) as char
    } else {
        (87 + d) as char
    }
}

/// Whether a byte is an ASCII letter or digit.
pub open spec fn alphanumeric(b: u8) -> bool {
    ||| 48 <= b <= 57
    ||| 65 <= b <= 90
    ||| 97 <= b <= 122
}

/// A byte as a percent sign and two digits.
pub open spec fn percent(b: u8) -> Seq<char> {
    seq!['%', upper_hex(b as nat / 16), upper_hex(b as nat % 16)]
}

/// A byte of a percent-encoded string: letters, digits, `-`, `.`, `_` and `~`
/// stand for themselves.
pub open spec fn url_byte(b: u8) -> Seq<char> {
    if alphanumeric(b) || b == 45 || b == 46 || b == 95 || b == 126 {
        seq![b as char]
    } else {
        percent(b)
    }
}

/// A byte of a form value: letters, digits, `*`, `-`, `.` and `_` stand for
/// themselves, and a space is a plus sign.
pub open spec fn form_byte(b: u8) -> Seq<char> {
    if alphanumeric(b) || b == 42 || b == 45 || b == 46 || b == 95 {
        seq![b as char]
    } else if b == 32 {
        seq!['+']
    } else {
        percent(b)
    }
}

/// Percent-encoded bytes.
pub open spec fn url_bytes(bytes: Seq<u8>) -> Seq<char>
    decreases bytes.len(),
{
    if bytes.len() == 0 {
        Seq::empty()
    } else {
        url_bytes(bytes.drop_last()) + url_byte(bytes.last())
    }
}

/// The bytes of a form value.
pub open spec fn form_bytes(bytes: Seq<u8>) -> Seq<char>
    decreases bytes.len(),
{
    if bytes.len() == 0 {
        Seq::empty()
    } else {
        form_bytes(bytes.drop_last()) + form_byte(bytes.last())
    }
}

/// A percent-encoded string.
pub open spec fn url_encoded(s: Seq<char>) -> Seq<char> {
    url_bytes(encode_utf8(s))
}

/// A name and a value of a form.
pub open spec fn form_pair(name: Seq<char>, value: Seq<char>) -> Seq<char> {
    form_bytes(encode_utf8(name)) + seq!['='] + form_bytes(encode_utf8(value))
}

/// A form of three pairs.
pub open spec fn form3(
    a: (Seq<char>, Seq<char>),
    b: (Seq<char>, Seq<char>),
    c: (Seq<char>, Seq<char>),
) -> Seq<char> {
    form_pair(a.0, a.1) + seq!['&'] + form_pair(b.0, b.1) + seq!['&'] + form_pair(c.0, c.1)
}

/// `urlencoding::encode`: every byte of the string's UTF-8 encoding but
/// letters, digits, `-`, `.`, `_` and `~` becomes a percent sign and two
/// upper-case hexadecimal digits.
#[verifier::external_body]
pub(crate) fn url_encode(s: &str) -> (r: String)
    ensures
        r@ == url_encoded(s@),
{
    urlencoding::encode(s).into_owned()
}

/// `serde_urlencoded::to_string` of three pairs of strings, which does not
/// fail: the pairs as `application/x-www-form-urlencoded`, in order, with `&`
/// between them and `=` between name and value.
#[verifier::external_body]
pub(crate) fn form_encode(a: (&str, &str), b: (&str, &str), c: (&str, &str)) -> (r: String)
    ensures
        r@ == form3((a.0@, a.1@), (b.0@, b.1@), (c.0@, c.1@)),
{
    serde_urlencoded::to_string([a, b, c]).expect("pairs of strings have an encoding")
}

/// The SHA-256 digest of bytes.
pub uninterp spec fn sha256_of(bytes: Seq<u8>) -> Seq<u8>;

/// `sha2::Sha256::digest`: the SHA-256 digest, which is 32 bytes long.
#[verifier::external_body]
pub(crate) fn sha256(bytes: &[u8]) -> (r: Vec<u8>)
    ensures
        r@ == sha256_of(bytes@),
        r@.len() == 32,
{
    sha2::Sha256::digest(bytes).to_vec()
}

/// Bytes as text, where what is not UTF-8 is replaced.
pub uninterp spec fn lossy_text(bytes: Seq<u8>) -> Seq<char>;

/// The characters of bytes that are valid UTF-8, and else `other`.
pub open spec fn utf8_or(bytes: Seq<u8>, other: Seq<char>) -> Seq<char> {
    if valid_utf8(bytes) {
        decode_utf8(bytes)
    } else {
        other
    }
}

/// `String::from_utf8_lossy`: valid UTF-8 is decoded as it is, and anything
/// else comes out with replacement characters in it.
#[verifier::external_body]
pub(crate) fn text_lossy(bytes: &[u8]) -> (r: String)
    ensures
        r@ == lossy_text(bytes@),
        r@ == utf8_or(bytes@, r@),
{
    String::from_utf8_lossy(bytes).into_owned()
}

/// The digits of bytes, two for each.
pub open spec fn hex(bytes: Seq<u8>) -> Seq<char> {
    Seq::new(
        bytes.len() * 2,
        |i: int|
            if i % 2 == 0 {
                lower_hex(bytes[i / 2] as nat / 16)
            } else {
                lower_hex(bytes[i / 2] as nat % 16)
            },
    )
}

/// Bytes are written in two digits each, with lower-case letters, and different
/// bytes in different digits.
pub proof fn hex_tells_bytes_apart(a: Seq<u8>, b: Seq<u8>)
    ensures
        hex(a).len() == 2 * a.len(),
        forall|i: int| 0 <= i < hex(a).len() ==> is_lower_hex(#[trigger] hex(a)[i]),
        hex(a) == hex(b) <==> a == b,
{
    if hex(a) == hex(b) {
        assert(hex(a).len() == a.len() * 2 && hex(b).len() == b.len() * 2);
        assert forall|i: int| 0 <= i < a.len() implies a[i] == b[i] by {
            assert(hex(a)[2 * i] == hex(b)[2 * i]);
            assert(hex(a)[2 * i + 1] == hex(b)[2 * i + 1]);
            assert((2 * i) / 2 == i && (2 * i + 1) / 2 == i);
            lemma_hex_digits_differ(a[i] as nat / 16, b[i] as nat / 16);
            lemma_hex_digits_differ(a[i] as nat % 16, b[i] as nat % 16);
        }
        assert(a =~= b);
    }
}

proof fn lemma_hex_digits_differ(d: nat, e: nat)
    requires
        d < 16,
        e < 16,
        lower_hex(d) == lower_hex(e),
    ensures
        d == e,
{
    assert(lower_hex(d) as u32 == (if d < 10 {
        48 + d
    } else {
        87 + d
    }));
    assert(lower_hex(e) as u32 == (if e < 10 {
        48 + e
    } else {
        87 + e
    }));
}

fn hex_digit(d: u8) -> (r: char)
    requires
        d < 16,
    ensures
        r == lower_hex(d as nat),
{
    if d < 10 {
        (48 + d) as char
    } else {
        (87 + d) as char
    }
}

/// Writes bytes in hexadecimal digits.
pub fn hex_text(bytes: &[u8]) -> (r: String)
    ensures
        r@ == hex(bytes@),
{
    let mut out: String = String::new();
    let n: usize = bytes.len();
    for i in 0..n
        invariant
            n == bytes@.len(),
            out@ == hex(bytes@.take(i as int)),
    {
        let ghost before = hex(bytes@.take(i as int));
        out.push(hex_digit(bytes[i] / 16));
        out.push(hex_digit(bytes[i] % 16));
        assert(out@ =~= hex(bytes@.take(i + 1))) by {
            let after = hex(bytes@.take(i + 1));
            assert(out@.len() == after.len());
            assert forall|k: int| 0 <= k < after.len() implies out@[k] == after[k] by {
                if k < before.len() {
                    assert(out@[k] == before[k]);
                    assert(bytes@.take(i as int)[k / 2] == bytes@.take(i + 1)[k / 2]);
                }
            }
        }
    }
    assert(bytes@.take(n as int) =~= bytes@);
    out
}

/// Whether a character is a lower-case hexadecimal digit.
pub open spec fn is_lower_hex(c: char) -> bool {
    is_digit(c) || 'a' <= c <= 'f'
}

/// Whether a character is a hyphen, where one is due, or else a digit.
pub open spec fn uuid_char(c: char, hyphen: bool) -> bool {
    if hyphen {
        c == '-'
    } else {
        is_lower_hex(c)
    }
}

/// The shape of a random UUID: 36 characters, hyphens in four places, the
/// version digit `4`, the variant digit one of `8`, `9`, `a` and `b`, and
/// lower-case hexadecimal digits elsewhere.
pub open spec fn uuid_shaped(s: Seq<char>) -> bool {
    &&& s.len() == 36
    &&& s[14] == '4'
    &&& (s[19] == '8' || s[19] == '9' || s[19] == 'a' || s[19] == 'b')
    &&& forall|i: int|
        0 <= i < 36 ==> uuid_char(#[trigger] s[i], i == 8 || i == 13 || i == 18 || i == 23)
}

/// `uuid::Uuid::new_v4` as text. It is random: nothing but its shape is the
/// same from call to call.
#[verifier::external_body]
pub(crate) fn random_uuid() -> (r: String)
    ensures
        uuid_shaped(r@),
{
    uuid::Uuid::new_v4().to_string()
}

/// A fresh identifier for a message.
pub fn fresh_id() -> (r: String)
    ensures
        uuid_shaped(r@),
{
    random_uuid()
}

proof fn lemma_url_byte_no_slash(b: u8)
    ensures
        !url_byte(b).contains('/'),
        !url_byte(b).contains('?'),
        url_byte(b).len() > 0,
{
    let e = url_byte(b);
    assert forall|i: int| 0 <= i < e.len() implies #[trigger] e[i] != '/' && e[i] != '?' by {}
}

/// A percent-encoded string can stand as one segment of a path: it holds no
/// `/` and no `?`.
pub proof fn url_encoded_is_one_segment(s: Seq<char>)
    ensures
        !url_encoded(s).contains('/'),
        !url_encoded(s).contains('?'),
{
    lemma_url_bytes_no_slash(encode_utf8(s));
}

proof fn lemma_url_bytes_no_slash(bytes: Seq<u8>)
    ensures
        !url_bytes(bytes).contains('/'),
        !url_bytes(bytes).contains('?'),
    decreases bytes.len(),
{
    if bytes.len() > 0 {
        let init = url_bytes(bytes.drop_last());
        let last = url_byte(bytes.last());
        lemma_url_bytes_no_slash(bytes.drop_last());
        lemma_url_byte_no_slash(bytes.last());
        assert forall|i: int| 0 <= i < (init + last).len() implies #[trigger] (init + last)[i] != '/'
            && (init + last)[i] != '?' by {
            if i < init.len() {
                assert(init.contains(init[i]));
            } else {
                assert(last.contains(last[i - init.len()]));
            }
        }
    }
}

} // verus!
