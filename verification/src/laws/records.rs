//! Which documents are a record, whatever the record.

use vstd::prelude::*;

use crate::decode::{
    absent_error, field_index, fields, lemma_field_index, lemma_members_push, key_text,
    known_members, known_value, shape_error, value_error, FieldView, Rec, Shape,
};
use crate::json::{lemma_member_push, member, JsonView, MembersView, NumberView};
use crate::spans::{is_space, member_bytes, members_from, next_byte, raw_members, spaces, value_length};

verus! {

proof fn lemma_absent_push(fs: Seq<FieldView>, o: MembersView, key: Seq<char>, v: JsonView)
    requires
        forall|i: int| 0 <= i < fs.len() ==> (#[trigger] fs[i]).name != key,
    ensures
        absent_error(fs, o.push((key, v))) == absent_error(fs, o),
    decreases fs.len(),
{
    broadcast use lemma_member_push;

    if fs.len() > 0 {
        assert(fs[0].name != key);
        let rest = fs.drop_first();
        assert forall|i: int| 0 <= i < rest.len() implies (#[trigger] rest[i]).name != key by {
            assert(rest[i] == fs[i + 1]);
        }
        lemma_absent_push(rest, o, key, v);
    }
}

/// A member that no field has the name of is ignored, whatever it holds.
pub proof fn unknown_members_are_ignored(r: Rec, o: MembersView, key: Seq<char>, v: JsonView)
    requires
        forall|i: int| 0 <= i < fields(r).len() ==> (#[trigger] fields(r)[i]).name != key,
    ensures
        shape_error(Shape::Record(r), JsonView::Object(o.push((key, v)))) is None <==> shape_error(
            Shape::Record(r),
            JsonView::Object(o),
        ) is None,
{
    let fs = fields(r);
    lemma_field_index(fs, key, fs.len() as int);
    lemma_members_push(r, o, key, v);
    lemma_absent_push(fs, o, key, v);
}

proof fn lemma_absent(fs: Seq<FieldView>, o: MembersView, i: int)
    requires
        0 <= i < fs.len(),
        !fs[i].optional,
        !fs[i].default,
        member(o, fs[i].name) is None,
    ensures
        absent_error(fs, o) is Some,
    decreases fs.len(),
{
    if i > 0 {
        assert(fs.drop_first()[i - 1] == fs[i]);
        lemma_absent(fs.drop_first(), o, i - 1);
    }
}

/// A record that lacks a field it must have is refused, and so is one with a member of a
/// field's name that holds what the field cannot.
pub proof fn records_need_their_fields(
    r: Rec,
    o: MembersView,
    i: int,
    key: Seq<char>,
    v: JsonView,
)
    ensures
        0 <= i < fields(r).len() && !fields(r)[i].optional && !fields(r)[i].default && member(
            o,
            fields(r)[i].name,
        ) is None ==> shape_error(Shape::Record(r), JsonView::Object(o)) is Some,
        value_error(r, field_index(fields(r), key), v) is Some ==> shape_error(
            Shape::Record(r),
            JsonView::Object(o.push((key, v))),
        ) is Some,
{
    if 0 <= i < fields(r).len() && !fields(r)[i].optional && !fields(r)[i].default && member(
        o,
        fields(r)[i].name,
    ) is None {
        lemma_absent(fields(r), o, i);
    }
    lemma_members_push(r, o, key, v);
}

/// What a field can hold: texts are strings, numbers are whole, from zero up and within
/// their bits, and what is neither optional nor of the kind is refused.
pub proof fn values_have_their_kinds(v: JsonView, n: u64)
    ensures
        shape_error(Shape::Text, v) is None <==> v is Text,
        shape_error(Shape::Bool, v) is None <==> v is Bool,
        shape_error(Shape::Any, v) is None,
        shape_error(Shape::U64, JsonView::Number(NumberView::PosInt(n))) is None,
        shape_error(Shape::U32, JsonView::Number(NumberView::PosInt(n))) is None <==> n
            <= 0xffff_ffff,
        shape_error(Shape::Byte, JsonView::Number(NumberView::PosInt(n))) is None
            <==> n <= 255,
        !(v is Number) ==> shape_error(Shape::U64, v) is Some && shape_error(Shape::U32, v) is Some
            && shape_error(Shape::Byte, v) is Some,
        forall|m: i64|
            m < 0 ==> #[trigger] shape_error(
                Shape::U64,
                JsonView::Number(NumberView::NegInt(m)),
            ) is Some,
        forall|m: i64|
            m < 0 ==> #[trigger] shape_error(
                Shape::U32,
                JsonView::Number(NumberView::NegInt(m)),
            ) is Some,
        v matches JsonView::Number(NumberView::Float(_)) ==> shape_error(Shape::U64, v)
            is Some && shape_error(Shape::U32, v) is Some,
{
}

/// Of the members of a record whose fields hold single values, those of its fields are
/// kept as they are and in order, and the others are left out.
pub proof fn known_members_are_kept(r: Rec, ms: Seq<(Seq<u8>, Seq<u8>)>, n: nat)
    requires
        r is Token || r is CachedToken || r is Meta || r is HotEnvelope,
        n <= ms.len(),
        forall|i: int| 0 <= i < ms.len() ==> key_text((#[trigger] ms[i]).0) is Some,
    ensures
        ({
            let known = |m: (Seq<u8>, Seq<u8>)|
                exists|i: int|
                    0 <= i < fields(r).len() && (#[trigger] fields(r)[i]).name == key_text(
                        m.0,
                    )->0;
            known_members(r, ms, n) == Ok::<_, Seq<char>>(
                ms.take(n as int).filter(known).map_values(
                    |m: (Seq<u8>, Seq<u8>)| m.0 + seq![0x3au8] + m.1,
                ),
            )
        }),
    decreases n,
{
    let known = |m: (Seq<u8>, Seq<u8>)|
        exists|i: int|
            0 <= i < fields(r).len() && (#[trigger] fields(r)[i]).name == key_text(m.0)->0;
    let piece = |m: (Seq<u8>, Seq<u8>)| m.0 + seq![0x3au8] + m.1;
    reveal(Seq::filter);
    if n == 0 {
        assert(ms.take(0).filter(known).map_values(piece) =~= Seq::empty());
    } else {
        known_members_are_kept(r, ms, (n - 1) as nat);
        let now = ms.take(n as int);
        let before = ms.take(n - 1);
        let m = ms[n - 1];
        assert(now.drop_last() =~= before);
        assert(now.last() == m);
        let name = key_text(m.0)->0;
        lemma_field_position(fields(r), name);
        let k = field_index(fields(r), name);
        if known(m) {
            assert(k < fields(r).len());
            assert(known_value(r, k, m.1) == Ok::<_, Seq<char>>(m.1)) by {
                assert(fields(r)[k as int].shape is Text || fields(r)[k as int].shape is U64
                    || fields(r)[k as int].shape is U32 || fields(r)[k as int].shape is Bytes);
            }
            assert(member_bytes(m.0, m.1) =~= m.0 + seq![0x3au8] + m.1);
            assert(now.filter(known) =~= before.filter(known).push(m));
            assert(now.filter(known).map_values(piece) =~= before.filter(known).map_values(
                piece,
            ).push(piece(m)));
        } else {
            assert(now.filter(known) =~= before.filter(known));
        }
    }
}

proof fn lemma_field_position(fs: Seq<FieldView>, name: Seq<char>)
    ensures
        field_index(fs, name) < fs.len() <==> exists|i: int|
            0 <= i < fs.len() && (#[trigger] fs[i]).name == name,
    decreases fs.len(),
{
    if fs.len() > 0 {
        let rest = fs.drop_first();
        lemma_field_position(rest, name);
        if fs[0].name == name {
            assert(0 <= 0 < fs.len() && fs[0].name == name);
        } else {
            if exists|i: int| 0 <= i < fs.len() && (#[trigger] fs[i]).name == name {
                let i = choose|i: int| 0 <= i < fs.len() && (#[trigger] fs[i]).name == name;
                assert(rest[i - 1].name == name);
            }
            if exists|i: int| 0 <= i < rest.len() && (#[trigger] rest[i]).name == name {
                let i = choose|i: int| 0 <= i < rest.len() && (#[trigger] rest[i]).name == name;
                assert(fs[i + 1].name == name);
            }
        }
    }
}

/// A member is a key, a colon and a value; a comma brings the members after it, and a
/// brace ends them.
pub proof fn members_follow_commas(key: Seq<u8>, value: Seq<u8>, after: u8, more: Seq<u8>)
    requires
        key.len() > 0,
        value.len() > 0,
        value_length(key + (seq![0x3au8] + (value + (seq![after] + more)))) == Some(key.len()),
        value_length(value + (seq![after] + more)) == Some(value.len()),
    ensures
        ({
            let found = members_from(key + (seq![0x3au8] + (value + (seq![after] + more))));
            &&& after == 0x7d ==> found == Some(seq![(key, value)])
            &&& after == 0x2c ==> found == (match members_from(more) {
                Some(others) => Some(seq![(key, value)] + others),
                None => None,
            })
            &&& after != 0x7d && after != 0x2c && !is_space(after) ==> found is None
        }),
{
    let tail = seq![after] + more;
    let at_value = value + tail;
    let behind = seq![0x3au8] + at_value;
    let whole = key + behind;
    assert(whole.take(key.len() as int) =~= key);
    assert(whole.skip(key.len() as int) =~= behind);
    lemma_next_byte(0x3a, at_value);
    assert(at_value.take(value.len() as int) =~= value);
    assert(at_value.skip(value.len() as int) =~= tail);
    if !is_space(after) {
        lemma_next_byte(after, more);
    }
}

proof fn lemma_next_byte(b: u8, rest: Seq<u8>)
    requires
        !is_space(b),
    ensures
        next_byte(seq![b] + rest) == Some((b, rest)),
{
    let whole = seq![b] + rest;
    assert(whole[0] == b);
    assert(spaces(whole) == 0);
    assert(whole.skip(1) =~= rest);
}

/// The members of an object stand between its braces, and white space may stand before
/// them; what does not begin with a brace has none.
pub proof fn objects_begin_with_a_brace(space: u8, b: u8, inside: Seq<u8>, c: u8, rest: Seq<u8>)
    requires
        is_space(space),
        !is_space(b),
        !is_space(c),
        inside == seq![c] + rest,
    ensures
        raw_members(seq![b] + inside) == (if b != 0x7b {
            None
        } else if c == 0x7d {
            Some(Seq::<(Seq<u8>, Seq<u8>)>::empty())
        } else {
            members_from(inside)
        }),
        raw_members(seq![space] + (seq![b] + inside)) == raw_members(seq![b] + inside),
{
    lemma_next_byte(b, inside);
    lemma_next_byte(c, rest);
    let whole = seq![space] + (seq![b] + inside);
    assert(whole[0] == space);
    assert(whole.drop_first() =~= seq![b] + inside);
    assert(spaces(seq![b] + inside) == 0);
    assert(spaces(whole) == 1);
    assert(whole[1] == b);
    assert(whole.skip(2) =~= inside);
}

} // verus!
