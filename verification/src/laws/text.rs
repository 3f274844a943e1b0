//! What cutting, splitting, comparing and writing text comes to.

use vstd::prelude::*;
use vstd::utf8::{char_is_scalar, encode_scalar, encode_utf8};

use crate::text::{
    after_last, ascii_lower, before_first, blank, char_width, decimal, digits_only, ends_in, fitting,
    is_digit, number_of, parsed_u32, same_ignoring_case, split_on, trim_end, trim_end_of, trim_start,
    trim_start_of, trimmed, truncated, whitespace, zero_padded,
};

verus! {

/// Of the ASCII characters, white space is the space, the tab and the line breaks, and
/// of the others the spaces and separators of Unicode; a string is blank where it holds
/// nothing else.
pub proof fn white_space_is_unicode(c: char, s: Seq<char>)
    ensures
        c as u32 <= 0x7f ==> (whitespace(c) <==> c == ' ' || c == '\t' || c == '\n' || c
            == '\u{b}' || c == '\u{c}' || c == '\r'),
        c as u32 > 0x7f ==> (whitespace(c) <==> c == '\u{85}' || c == '\u{a0}' || c == '\u{1680}'
            || '\u{2000}' <= c <= '\u{200a}' || c == '\u{2028}' || c == '\u{2029}' || c
            == '\u{202f}' || c == '\u{205f}' || c == '\u{3000}'),
        blank(Seq::empty()),
        blank(s.push(c)) <==> blank(s) && whitespace(c),
{
    if blank(s.push(c)) {
        assert(s.push(c)[s.len() as int] == c);
        assert forall|i: int| 0 <= i < s.len() implies whitespace(#[trigger] s[i]) by {
            assert(s.push(c)[i] == s[i]);
        }
    }
}

proof fn lemma_trim_start(before: Seq<char>, s: Seq<char>)
    requires
        blank(before),
        s.len() > 0 ==> !whitespace(s[0]),
    ensures
        trim_start(before + s) == s,
    decreases before.len(),
{
    let whole = before + s;
    if before.len() == 0 {
        assert(whole =~= s);
    } else {
        assert(whole[0] == before[0]);
        assert(whole.drop_first() =~= before.drop_first() + s);
        assert forall|i: int| 0 <= i < before.drop_first().len() implies whitespace(
            #[trigger] before.drop_first()[i],
        ) by {
            assert(before.drop_first()[i] == before[i + 1]);
        }
        lemma_trim_start(before.drop_first(), s);
    }
}

proof fn lemma_trim_end(s: Seq<char>, after: Seq<char>)
    requires
        blank(after),
        s.len() > 0 ==> !whitespace(s.last()),
    ensures
        trim_end(s + after) == s,
    decreases after.len(),
{
    let whole = s + after;
    if after.len() == 0 {
        assert(whole =~= s);
    } else {
        assert(whole.last() == after.last());
        assert(whitespace(after[after.len() - 1]));
        assert(whole.drop_last() =~= s + after.drop_last());
        assert forall|i: int| 0 <= i < after.drop_last().len() implies whitespace(
            #[trigger] after.drop_last()[i],
        ) by {
            assert(after.drop_last()[i] == after[i]);
        }
        lemma_trim_end(s, after.drop_last());
    }
}

/// Trimming takes the white space off both ends and nothing else.
pub proof fn trimming_takes_white_space(before: Seq<char>, s: Seq<char>, after: Seq<char>)
    requires
        blank(before),
        blank(after),
        s.len() > 0 ==> !whitespace(s[0]) && !whitespace(s.last()),
    ensures
        trimmed(before + s + after) == s,
{
    if s.len() == 0 {
        let whole = before + s + after;
        assert forall|i: int| 0 <= i < whole.len() implies whitespace(#[trigger] whole[i]) by {
            if i < before.len() {
                assert(whole[i] == before[i]);
            } else {
                assert(whole[i] == after[i - before.len()]);
            }
        }
        assert(whole =~= whole + s);
        lemma_trim_start(whole, s);
        lemma_trim_end(s, Seq::empty());
        assert(s =~= s + Seq::<char>::empty());
    } else {
        assert(before + s + after =~= before + (s + after));
        assert((s + after)[0] == s[0]);
        lemma_trim_start(before, s + after);
        lemma_trim_end(s, after);
    }
}

/// Cutting a character off an end takes every one that stands there.
pub proof fn cutting_takes_every_one(s: Seq<char>, c: char, n: nat)
    ensures
        (s.len() > 0 ==> s.last() != c) ==> trim_end_of(s + Seq::new(n, |i: int| c), c) == s,
        (s.len() > 0 ==> s[0] != c) ==> trim_start_of(Seq::new(n, |i: int| c) + s, c) == s,
    decreases n,
{
    let some = Seq::new(n, |i: int| c);
    if n == 0 {
        assert(s + some =~= s);
        assert(some + s =~= s);
    } else {
        let fewer = Seq::new((n - 1) as nat, |i: int| c);
        cutting_takes_every_one(s, c, (n - 1) as nat);
        assert((s + some).last() == c);
        assert((s + some).drop_last() =~= s + fewer);
        assert((some + s)[0] == c);
        assert((some + s).drop_first() =~= fewer + s);
    }
}

/// What stands before the first of a character is what comes before it, and all of a
/// string without one.
pub proof fn before_the_first(a: Seq<char>, c: char, b: Seq<char>)
    requires
        !a.contains(c),
    ensures
        before_first(a, c) == a,
        before_first(a + seq![c] + b, c) == a,
    decreases a.len(),
{
    let whole = a + seq![c] + b;
    if a.len() == 0 {
        assert(whole[0] == c);
        assert(before_first(whole, c) =~= a);
        assert(before_first(a, c) =~= a);
    } else {
        let rest = a.drop_first();
        assert(a.contains(a[0]));
        assert forall|i: int| 0 <= i < rest.len() implies rest[i] != c by {
            assert(a.contains(a[i + 1]));
        }
        before_the_first(rest, c, b);
        assert(whole.drop_first() =~= rest + seq![c] + b);
        assert(seq![a[0]] + rest =~= a);
    }
}

/// What stands after the last of a character is what follows it, and all of a string
/// without one.
pub proof fn after_the_last(a: Seq<char>, c: char, b: Seq<char>)
    requires
        !b.contains(c),
    ensures
        after_last(b, c) == b,
        after_last(a + seq![c] + b, c) == b,
    decreases b.len(),
{
    let whole = a + seq![c] + b;
    if b.len() == 0 {
        assert(whole.last() == c);
        assert(after_last(whole, c) =~= b);
        assert(after_last(b, c) =~= b);
    } else {
        let init = b.drop_last();
        assert(b.contains(b[b.len() - 1]));
        assert forall|i: int| 0 <= i < init.len() implies init[i] != c by {
            assert(b.contains(b[i]));
        }
        after_the_last(a, c, init);
        assert(whole.drop_last() =~= a + seq![c] + init);
        assert(whole.last() == b.last());
        assert(init.push(b.last()) =~= b);
    }
}

/// A string is split at each of the characters: what stands before the first is the
/// first piece, and a string without one is its own only piece.
pub proof fn splitting_takes_pieces(a: Seq<char>, c: char, b: Seq<char>)
    requires
        !a.contains(c),
    ensures
        split_on(a, c) == seq![a],
        split_on(a + seq![c] + b, c) == seq![a] + split_on(b, c),
    decreases a.len() + b.len(),
{
    lemma_unsplit(a, c);
    let whole = a + seq![c] + b;
    crate::text::lemma_split_nonempty(b, c);
    if b.len() == 0 {
        assert(whole.last() == c);
        assert(whole.drop_last() =~= a);
        assert(split_on(whole, c) =~= seq![a] + split_on(b, c));
    } else {
        let init = b.drop_last();
        splitting_takes_pieces(a, c, init);
        crate::text::lemma_split_nonempty(init, c);
        assert(whole.drop_last() =~= a + seq![c] + init);
        assert(whole.last() == b.last());
        let front = seq![a] + split_on(init, c);
        assert(front.last() == split_on(init, c).last());
        assert(front.drop_last() =~= seq![a] + split_on(init, c).drop_last());
        assert(split_on(whole, c) =~= seq![a] + split_on(b, c));
    }
}

proof fn lemma_unsplit(a: Seq<char>, c: char)
    requires
        !a.contains(c),
    ensures
        split_on(a, c) == seq![a],
    decreases a.len(),
{
    if a.len() == 0 {
        assert(a =~= Seq::empty());
    } else {
        let init = a.drop_last();
        assert(a.contains(a[a.len() - 1]));
        assert forall|i: int| 0 <= i < init.len() implies init[i] != c by {
            assert(a.contains(a[i]));
        }
        lemma_unsplit(init, c);
        assert(init.push(a.last()) =~= a);
        assert(split_on(a, c) =~= seq![a]);
    }
}

/// Two characters are the same but for case where they are the same, or the capital
/// and the small form of one of the 26 letters; so are strings of such characters.
pub proof fn case_concerns_letters(c: char, d: char, a: Seq<char>, b: Seq<char>)
    ensures
        ascii_lower(c) == ascii_lower(d) <==> c == d || ('A' <= c <= 'Z' && d as u32 == c as u32
            + 32) || ('A' <= d <= 'Z' && c as u32 == d as u32 + 32),
        same_ignoring_case(a.push(c), b.push(d)) <==> same_ignoring_case(a, b) && ascii_lower(c)
            == ascii_lower(d),
        same_ignoring_case(Seq::empty(), Seq::empty()),
        same_ignoring_case(a, b) ==> a.len() == b.len(),
{
    let e = (c as u32 + 32) as char;
    let f = (d as u32 + 32) as char;
    if same_ignoring_case(a.push(c), b.push(d)) {
        assert(a.push(c)[a.len() as int] == c);
        assert(b.push(d)[a.len() as int] == d);
        assert forall|i: int| 0 <= i < a.len() implies ascii_lower(#[trigger] a[i]) == ascii_lower(
            b[i],
        ) by {
            assert(a.push(c)[i] == a[i]);
            assert(b.push(d)[i] == b[i]);
        }
    }
}

/// A number is written in decimal digits, the first of them no zero unless it is the
/// only one, and the digits give the number back.
pub proof fn decimal_digits_give_the_number(n: nat)
    ensures
        decimal(n).len() > 0,
        digits_only(decimal(n)),
        number_of(decimal(n)) == n,
        n > 0 ==> decimal(n)[0] != '0',
        n < 10 ==> decimal(n).len() == 1,
        n <= u32::MAX ==> parsed_u32(decimal(n)) == Some(n as u32),
    decreases n,
{
    if n < 10 {
        assert(decimal(n).drop_last() =~= Seq::empty());
        assert(number_of(Seq::empty()) == 0);
        assert(decimal(n).last() as u32 == 48 + n);
        assert(number_of(decimal(n)) == n);
    } else {
        decimal_digits_give_the_number(n / 10);
        let d = (48 + n % 10) as char;
        assert(decimal(n) == decimal(n / 10).push(d));
        assert(decimal(n).drop_last() =~= decimal(n / 10));
        assert(decimal(n).last() as u32 == 48 + n % 10);
        assert(decimal(n)[0] == decimal(n / 10)[0]);
        assert forall|i: int| 0 <= i < decimal(n).len() implies is_digit(
            #[trigger] decimal(n)[i],
        ) by {
            if i < decimal(n / 10).len() {
                assert(decimal(n)[i] == decimal(n / 10)[i]);
            }
        }
    }
}

/// Digits are read by place: one more digit makes ten times the number and the digit.
/// What holds another character, or nothing, is no number.
pub proof fn digits_are_read_by_place(s: Seq<char>, c: char)
    ensures
        number_of(Seq::empty()) == 0,
        '0' <= c <= '9' ==> number_of(s.push(c)) == 10 * number_of(s) + (c as u32 - '0' as u32),
        parsed_u32(Seq::empty()) is None,
        (exists|i: int| 0 <= i < s.len() && !('0' <= #[trigger] s[i] <= '9')) ==> parsed_u32(s) is None,
        parsed_u32(s) matches Some(n) ==> n == number_of(s),
        number_of(s) > u32::MAX ==> parsed_u32(s) is None,
{
    assert(s.push(c).drop_last() =~= s);
    assert(s.push(c).last() == c);
}

/// A string is brought to a width with zeros in front of it.
pub proof fn padding_puts_zeros_in_front(s: Seq<char>, width: nat)
    ensures
        ends_in(zero_padded(s, width), s),
        zero_padded(s, width).len() == (if s.len() < width {
            width
        } else {
            s.len()
        }),
        forall|i: int|
            0 <= i < zero_padded(s, width).len() - s.len() ==> #[trigger] zero_padded(s, width)[i]
                == '0',
{
    let p = zero_padded(s, width);
    assert(p.skip(p.len() - s.len()) =~= s);
}

/// A text that is too long in UTF-8 is cut to as many of its first characters as fit,
/// and dots are put behind them; any other stays as it is.
pub proof fn long_texts_are_cut(s: Seq<char>, max: nat)
    ensures
        encode_utf8(s).len() <= max ==> truncated(s, max) == s,
        encode_utf8(s).len() > max ==> exists|n: int|
            {
                &&& 0 <= n <= s.len()
                &&& #[trigger] truncated(s, max) == s.take(n) + "..."@
                &&& encode_utf8(s.take(n)).len() <= max
                &&& n < s.len() ==> encode_utf8(s.take(n + 1)).len() > max
            },
{
    if encode_utf8(s).len() > max {
        let n = lemma_fitting(s, max as int);
        assert(truncated(s, max) == s.take(n) + "..."@);
    }
}

proof fn lemma_fitting(s: Seq<char>, room: int) -> (n: int)
    requires
        room >= 0,
    ensures
        0 <= n <= s.len(),
        fitting(s, room) == s.take(n),
        encode_utf8(s.take(n)).len() <= room,
        n < s.len() ==> encode_utf8(s.take(n + 1)).len() > room,
    decreases s.len(),
{
    reveal_with_fuel(encode_utf8, 3);
    if s.len() > 0 {
        char_is_scalar(s[0]);
        assert(encode_scalar(s[0] as u32).len() == char_width(s[0]));
    }
    if s.len() == 0 || char_width(s[0]) > room {
        assert(s.take(0) =~= Seq::empty());
        if s.len() > 0 {
            assert(s.take(1).drop_first() =~= Seq::empty());
            assert(s.take(1)[0] == s[0]);
        }
        0
    } else {
        let rest = s.drop_first();
        let m = lemma_fitting(rest, room - char_width(s[0]));
        assert(seq![s[0]] + rest.take(m) =~= s.take(m + 1));
        assert(s.take(m + 1).drop_first() =~= rest.take(m));
        assert(s.take(m + 1)[0] == s[0]);
        if m + 1 < s.len() {
            assert(s.take(m + 2).drop_first() =~= rest.take(m + 1));
            assert(s.take(m + 2)[0] == s[0]);
        }
        m + 1
    }
}

} // verus!
