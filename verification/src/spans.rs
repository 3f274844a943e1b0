//! The members and items inside a JSON text, found without reading their values.

use vstd::prelude::*;

use crate::effects::copy_bytes;

verus! {

/// How many bytes the JSON value at the start takes, white space before it
/// included; `None` where no value stands there.
pub uninterp spec fn value_length(bytes: Seq<u8>) -> Option<nat>;

/// `serde_json::StreamDeserializer` over `serde::de::IgnoredAny`: the first value is
/// passed over and not read, and `byte_offset` says where it ends, which is behind
/// its first byte and not behind the last byte there is.
#[verifier::external_body]
fn skip_value(bytes: &[u8]) -> (r: Option<usize>)
    ensures
        match r {
            Some(n) => value_length(bytes@) == Some(n as nat) && 0 < n <= bytes@.len(),
            None => value_length(bytes@) is None,
        },
{
    let mut values = serde_json::Deserializer::from_slice(bytes).into_iter::<serde::de::IgnoredAny>();
    match values.next() {
        Some(Ok(_)) => Some(values.byte_offset()),
        Some(Err(_)) => None,
        None => None,
    }
}

/// Whether a byte is white space in JSON.
pub open spec fn is_space(b: u8) -> bool {
    b == 0x20 || b == 0x0a || b == 0x0d || b == 0x09
}

/// How many bytes of white space stand at the start.
pub open spec fn spaces(bytes: Seq<u8>) -> nat
    decreases bytes.len(),
{
    if bytes.len() > 0 && is_space(bytes[0]) {
        1 + spaces(bytes.drop_first())
    } else {
        0
    }
}

/// The first byte behind white space, and what follows it.
pub open spec fn next_byte(bytes: Seq<u8>) -> Option<(u8, Seq<u8>)> {
    let n = spaces(bytes) as int;
    if n < bytes.len() {
        Some((bytes[n], bytes.skip(n + 1)))
    } else {
        None
    }
}

/// The bytes of the first value, and what follows it.
pub open spec fn next_value(bytes: Seq<u8>) -> Option<(Seq<u8>, Seq<u8>)> {
    match value_length(bytes) {
        Some(n) => if 0 < n <= bytes.len() {
            Some((bytes.take(n as int), bytes.skip(n as int)))
        } else {
            None
        },
        None => None,
    }
}

/// The value of optional bytes with what follows them.
pub open spec fn pair_view(p: Option<(Vec<u8>, Vec<u8>)>) -> Option<(Seq<u8>, Seq<u8>)> {
    match p {
        Some((a, b)) => Some((a@, b@)),
        None => None,
    }
}

/// The values of several byte strings.
pub open spec fn list_view(v: Seq<Vec<u8>>) -> Seq<Seq<u8>> {
    Seq::new(v.len(), |i: int| v[i]@)
}

/// The values of several pairs of byte strings.
pub open spec fn pairs_of(v: Seq<(Vec<u8>, Vec<u8>)>) -> Seq<(Seq<u8>, Seq<u8>)> {
    Seq::new(v.len(), |i: int| (v[i].0@, v[i].1@))
}

/// The bytes from a position on.
fn tail(bytes: &[u8], from: usize) -> (r: Vec<u8>)
    requires
        from <= bytes@.len(),
    ensures
        r@ == bytes@.skip(from as int),
{
    let mut out: Vec<u8> = Vec::new();
    let n: usize = bytes.len();
    for i in from..n
        invariant
            n == bytes@.len(),
            from <= n,
            out@ == bytes@.subrange(from as int, i as int),
    {
        out.push(bytes[i]);
        assert(bytes@.subrange(from as int, i + 1) =~= bytes@.subrange(from as int, i as int).push(
            bytes@[i as int],
        ));
    }
    assert(bytes@.subrange(from as int, n as int) =~= bytes@.skip(from as int));
    out
}

/// The bytes before a position.
fn head(bytes: &[u8], to: usize) -> (r: Vec<u8>)
    requires
        to <= bytes@.len(),
    ensures
        r@ == bytes@.take(to as int),
{
    let mut out: Vec<u8> = Vec::new();
    for i in 0..to
        invariant
            to <= bytes@.len(),
            out@ == bytes@.take(i as int),
    {
        out.push(bytes[i]);
        assert(bytes@.take(i + 1) =~= bytes@.take(i as int).push(bytes@[i as int]));
    }
    out
}

fn count_spaces(bytes: &[u8]) -> (r: usize)
    ensures
        r == spaces(bytes@),
        r <= bytes@.len(),
{
    let n: usize = bytes.len();
    let mut i: usize = 0;
    assert(bytes@.skip(0) =~= bytes@);
    while i < n && (bytes[i] == 0x20 || bytes[i] == 0x0a || bytes[i] == 0x0d || bytes[i] == 0x09)
        invariant
            n == bytes@.len(),
            i <= n,
            spaces(bytes@) == i + spaces(bytes@.skip(i as int)),
        decreases n - i,
    {
        assert(bytes@.skip(i as int)[0] == bytes@[i as int]);
        assert(bytes@.skip(i as int).drop_first() =~= bytes@.skip(i + 1));
        i = i + 1;
    }
    if i < n {
        assert(bytes@.skip(i as int)[0] == bytes@[i as int]);
    }
    i
}

/// Takes the first byte behind white space.
fn take_byte(bytes: &[u8]) -> (r: Option<(u8, Vec<u8>)>)
    ensures
        match r {
            Some((b, rest)) => next_byte(bytes@) == Some((b, rest@)) && rest@.len() < bytes@.len(),
            None => next_byte(bytes@) is None,
        },
{
    let n: usize = count_spaces(bytes);
    if n < bytes.len() {
        Some((bytes[n], tail(bytes, n + 1)))
    } else {
        None
    }
}

/// Takes the first value.
fn take_value(bytes: &[u8]) -> (r: Option<(Vec<u8>, Vec<u8>)>)
    ensures
        pair_view(r) == next_value(bytes@),
        r matches Some((_, rest)) ==> rest@.len() < bytes@.len(),
{
    match skip_value(bytes) {
        Some(n) => Some((head(bytes, n), tail(bytes, n))),
        None => None,
    }
}

/// Whether the bytes are one value, and nothing follows it but white space.
pub open spec fn one_value(bytes: Seq<u8>) -> bool {
    next_value(bytes) matches Some((_, rest)) && next_byte(rest) is None
}

/// Tells whether the bytes are one value.
pub fn is_one_value(bytes: &[u8]) -> (r: bool)
    ensures
        r == one_value(bytes@),
{
    match take_value(bytes) {
        Some((_, rest)) => match take_byte(rest.as_slice()) {
            Some(_) => false,
            None => true,
        },
        None => false,
    }
}

/// The items from the first one on, up to the bracket that closes them.
pub open spec fn items_from(bytes: Seq<u8>) -> Option<Seq<Seq<u8>>>
    decreases bytes.len(),
{
    match next_value(bytes) {
        None => None,
        Some((item, rest)) => match next_byte(rest) {
            None => None,
            Some((b, after)) => if b == 0x5d {
                Some(seq![item])
            } else if b == 0x2c {
                match items_from(after) {
                    None => None,
                    Some(others) => Some(seq![item] + others),
                }
            } else {
                None
            },
        },
    }
}

/// The bytes of the items of an array; `None` for anything else.
pub open spec fn raw_items(bytes: Seq<u8>) -> Option<Seq<Seq<u8>>> {
    match next_byte(bytes) {
        None => None,
        Some((b, inside)) => if b != 0x5b {
            None
        } else if next_byte(inside) matches Some((c, _)) && c == 0x5d {
            Some(Seq::empty())
        } else {
            items_from(inside)
        },
    }
}

/// The members from the first one on, up to the brace that closes them.
pub open spec fn members_from(bytes: Seq<u8>) -> Option<Seq<(Seq<u8>, Seq<u8>)>>
    decreases bytes.len(),
{
    match next_value(bytes) {
        None => None,
        Some((key, behind_key)) => match next_byte(behind_key) {
            None => None,
            Some((colon, at_value)) => if colon != 0x3a {
                None
            } else {
                match next_value(at_value) {
                    None => None,
                    Some((value, rest)) => match next_byte(rest) {
                        None => None,
                        Some((b, after)) => if b == 0x7d {
                            Some(seq![(key, value)])
                        } else if b == 0x2c {
                            match members_from(after) {
                                None => None,
                                Some(others) => Some(seq![(key, value)] + others),
                            }
                        } else {
                            None
                        },
                    },
                }
            },
        },
    }
}

/// The bytes of the keys and values of an object, repeated keys included; `None`
/// for anything else.
pub open spec fn raw_members(bytes: Seq<u8>) -> Option<Seq<(Seq<u8>, Seq<u8>)>> {
    match next_byte(bytes) {
        None => None,
        Some((b, inside)) => if b != 0x7b {
            None
        } else if next_byte(inside) matches Some((c, _)) && c == 0x7d {
            Some(Seq::empty())
        } else {
            members_from(inside)
        },
    }
}

/// Splits an array into the bytes of its items.
pub fn split_items(bytes: &[u8]) -> (r: Option<Vec<Vec<u8>>>)
    ensures
        match r {
            Some(v) => raw_items(bytes@) == Some(list_view(v@)),
            None => raw_items(bytes@) is None,
        },
{
    let inside: Vec<u8> = match take_byte(bytes) {
        Some((b, inside)) => if b == 0x5b {
            inside
        } else {
            return None;
        },
        None => {
            return None;
        },
    };
    let mut out: Vec<Vec<u8>> = Vec::new();
    match take_byte(inside.as_slice()) {
        Some((c, _)) => if c == 0x5d {
            assert(list_view(out@) =~= Seq::empty());
            return Some(out);
        },
        None => {},
    }
    let mut left: Vec<u8> = inside;
    loop
        invariant
            raw_items(bytes@) == (match items_from(left@) {
                Some(others) => Some(list_view(out@) + others),
                None => None,
            }),
        decreases left@.len(),
    {
        let ghost before = list_view(out@);
        match take_value(left.as_slice()) {
            None => {
                return None;
            },
            Some((item, rest)) => match take_byte(rest.as_slice()) {
                None => {
                    return None;
                },
                Some((b, after)) => {
                    let ghost now = before + seq![item@];
                    out.push(item);
                    assert(list_view(out@) =~= now);
                    if b == 0x5d {
                        return Some(out);
                    }
                    if b != 0x2c {
                        return None;
                    }
                    proof {
                        if items_from(after@) is Some {
                            assert(before + (seq![item@] + items_from(after@)->0) =~= now
                                + items_from(after@)->0);
                        }
                    }
                    left = after;
                },
            },
        }
    }
}

/// Splits an object into the bytes of its keys and values.
pub fn split_members(bytes: &[u8]) -> (r: Option<Vec<(Vec<u8>, Vec<u8>)>>)
    ensures
        match r {
            Some(v) => raw_members(bytes@) == Some(pairs_of(v@)),
            None => raw_members(bytes@) is None,
        },
{
    let inside: Vec<u8> = match take_byte(bytes) {
        Some((b, inside)) => if b == 0x7b {
            inside
        } else {
            return None;
        },
        None => {
            return None;
        },
    };
    let mut out: Vec<(Vec<u8>, Vec<u8>)> = Vec::new();
    match take_byte(inside.as_slice()) {
        Some((c, _)) => if c == 0x7d {
            assert(pairs_of(out@) =~= Seq::empty());
            return Some(out);
        },
        None => {},
    }
    let mut left: Vec<u8> = inside;
    loop
        invariant
            raw_members(bytes@) == (match members_from(left@) {
                Some(others) => Some(pairs_of(out@) + others),
                None => None,
            }),
        decreases left@.len(),
    {
        let ghost before = pairs_of(out@);
        let (key, behind_key): (Vec<u8>, Vec<u8>) = match take_value(left.as_slice()) {
            None => {
                return None;
            },
            Some(p) => p,
        };
        let at_value: Vec<u8> = match take_byte(behind_key.as_slice()) {
            Some((colon, at_value)) => if colon == 0x3a {
                at_value
            } else {
                return None;
            },
            None => {
                return None;
            },
        };
        match take_value(at_value.as_slice()) {
            None => {
                return None;
            },
            Some((value, rest)) => match take_byte(rest.as_slice()) {
                None => {
                    return None;
                },
                Some((b, after)) => {
                    let ghost one = seq![(key@, value@)];
                    out.push((key, value));
                    assert(pairs_of(out@) =~= before + one);
                    if b == 0x7d {
                        return Some(out);
                    }
                    if b != 0x2c {
                        return None;
                    }
                    proof {
                        if members_from(after@) is Some {
                            assert(before + (one + members_from(after@)->0) =~= (before + one)
                                + members_from(after@)->0);
                        }
                    }
                    left = after;
                },
            },
        }
    }
}

/// Byte strings with a comma between them.
pub open spec fn joined(parts: Seq<Seq<u8>>) -> Seq<u8>
    decreases parts.len(),
{
    if parts.len() == 0 {
        Seq::empty()
    } else if parts.len() == 1 {
        parts[0]
    } else {
        joined(parts.drop_last()).push(0x2c) + parts.last()
    }
}

/// Byte strings with a comma between them, in brackets or braces.
pub open spec fn enclosed(open: u8, parts: Seq<Seq<u8>>, close: u8) -> Seq<u8> {
    (seq![open] + joined(parts)).push(close)
}

/// Puts byte strings in brackets or braces, with a comma between them.
pub fn enclose(open: u8, parts: &Vec<Vec<u8>>, close: u8) -> (r: Vec<u8>)
    ensures
        r@ == enclosed(open, list_view(parts@), close),
{
    let mut out: Vec<u8> = Vec::new();
    out.push(open);
    let n: usize = parts.len();
    let ghost all = list_view(parts@);
    assert(out@ =~= seq![open] + joined(all.take(0)));
    for i in 0..n
        invariant
            n == parts@.len(),
            all == list_view(parts@),
            out@ == seq![open] + joined(all.take(i as int)),
    {
        let ghost now = all.take(i + 1);
        assert(now.drop_last() =~= all.take(i as int));
        assert(now.last() == parts@[i as int]@);
        if i > 0 {
            out.push(0x2c);
        }
        out.extend_from_slice(parts[i].as_slice());
        assert(out@ =~= seq![open] + joined(now));
    }
    assert(all.take(n as int) =~= all);
    out.push(close);
    out
}

/// A key, a colon and a value.
pub open spec fn member_bytes(key: Seq<u8>, value: Seq<u8>) -> Seq<u8> {
    key.push(0x3a) + value
}

/// Puts a key and a value together.
pub fn join_member(key: &[u8], value: &[u8]) -> (r: Vec<u8>)
    ensures
        r@ == member_bytes(key@, value@),
{
    let mut out: Vec<u8> = copy_bytes(key);
    out.push(0x3a);
    out.extend_from_slice(value);
    assert(out@ =~= member_bytes(key@, value@));
    out
}

} // verus!
