//! Text helpers over the character sequence of a string.
//!
//! Every contract speaks of a string's view, the sequence of its characters.

use vstd::prelude::*;
use vstd::string::{StrSliceExecFns, StringExecFns};
use vstd::utf8::{char_is_scalar, encode_scalar, encode_utf8, encode_utf8_decode_utf8};

verus! {

/// `String::push` appends one character.
pub assume_specification[ String::push ](s: &mut String, c: char)
    ensures
        final(s)@ == old(s)@.push(c),
;

/// Unicode `White_Space`, the property that trimming goes by.
pub open spec fn whitespace(c: char) -> bool {
    let u = c as u32;
    ||| 0x9 <= u <= 0xd
    ||| u == 0x20
    ||| u == 0x85
    ||| u == 0xa0
    ||| u == 0x1680
    ||| 0x2000 <= u <= 0x200a
    ||| u == 0x2028
    ||| u == 0x2029
    ||| u == 0x202f
    ||| u == 0x205f
    ||| u == 0x3000
}

/// Whether every character is white space.
pub open spec fn blank(s: Seq<char>) -> bool {
    forall|i: int| 0 <= i < s.len() ==> whitespace(#[trigger] s[i])
}

/// `s` without its leading white space.
pub open spec fn trim_start(s: Seq<char>) -> Seq<char>
    decreases s.len(),
{
    if s.len() > 0 && whitespace(s[0]) {
        trim_start(s.drop_first())
    } else {
        s
    }
}

/// `s` without its trailing white space.
pub open spec fn trim_end(s: Seq<char>) -> Seq<char>
    decreases s.len(),
{
    if s.len() > 0 && whitespace(s.last()) {
        trim_end(s.drop_last())
    } else {
        s
    }
}

/// `s` without the white space at its two ends.
pub open spec fn trimmed(s: Seq<char>) -> Seq<char> {
    trim_end(trim_start(s))
}

/// Whether `s` ends with `suffix`.
pub open spec fn ends_in(s: Seq<char>, suffix: Seq<char>) -> bool {
    &&& suffix.len() <= s.len()
    &&& s.skip(s.len() - suffix.len()) == suffix
}

/// Whether `s` starts with `prefix`.
pub open spec fn starts_in(s: Seq<char>, prefix: Seq<char>) -> bool {
    &&& prefix.len() <= s.len()
    &&& s.take(prefix.len() as int) == prefix
}

/// Two strings with the same characters.
pub fn text_eq(a: &str, b: &str) -> (r: bool)
    ensures
        r == (a@ == b@),
{
    let x: &[u8] = a.as_bytes();
    let y: &[u8] = b.as_bytes();
    proof {
        encode_utf8_decode_utf8(a@);
        encode_utf8_decode_utf8(b@);
    }
    if x.len() != y.len() {
        return false;
    }
    let n: usize = x.len();
    for i in 0..n
        invariant
            n == x@.len(),
            n == y@.len(),
            x@ == encode_utf8(a@),
            y@ == encode_utf8(b@),
            forall|k: int| 0 <= k < i ==> x@[k] == y@[k],
    {
        if x[i] != y[i] {
            return false;
        }
    }
    assert(x@ =~= y@);
    true
}

/// The characters of `s`.
pub fn chars_of(s: &str) -> (r: Vec<char>)
    ensures
        r@ == s@,
{
    let mut out: Vec<char> = Vec::new();
    for c in it: s.chars()
        invariant
            out@ == s@.take(it.index() as int),
            it.seq() == s@,
    {
        out.push(c);
        assert(out@ =~= s@.take(it.index() + 1));
    }
    assert(out@ =~= s@);
    out
}

/// The string of the characters from `from` up to `to`.
pub fn text_of(chars: &Vec<char>, from: usize, to: usize) -> (r: String)
    requires
        from <= to <= chars@.len(),
    ensures
        r@ == chars@.subrange(from as int, to as int),
{
    let mut out: String = String::new();
    let mut i: usize = from;
    while i < to
        invariant
            from <= i <= to <= chars@.len(),
            out@ == chars@.subrange(from as int, i as int),
        decreases to - i,
    {
        out.push(chars[i]);
        i = i + 1;
        assert(out@ =~= chars@.subrange(from as int, i as int));
    }
    out
}

/// `a` followed by `b`.
pub fn concat2(a: &str, b: &str) -> (r: String)
    ensures
        r@ == a@ + b@,
{
    let mut s: String = a.to_owned();
    s.append(b);
    s
}

/// `a`, `b` and `c` in a row.
pub fn concat3(a: &str, b: &str, c: &str) -> (r: String)
    ensures
        r@ == a@ + b@ + c@,
{
    let mut s: String = a.to_owned();
    s.append(b);
    s.append(c);
    s
}

/// `a`, `b`, `c` and `d` in a row.
pub fn concat4(a: &str, b: &str, c: &str, d: &str) -> (r: String)
    ensures
        r@ == a@ + b@ + c@ + d@,
{
    let mut s: String = a.to_owned();
    s.append(b);
    s.append(c);
    s.append(d);
    s
}

/// The value of an optional string.
pub open spec fn option_text(s: Option<String>) -> Option<Seq<char>> {
    match s {
        Some(t) => Some(t@),
        None => None,
    }
}

/// The values of a list of strings.
pub open spec fn texts(v: Seq<String>) -> Seq<Seq<char>> {
    Seq::new(v.len(), |i: int| v[i]@)
}

/// Another list of the same strings.
pub fn copy_texts(v: &Vec<String>) -> (r: Vec<String>)
    ensures
        texts(r@) == texts(v@),
{
    let mut out: Vec<String> = Vec::new();
    let n: usize = v.len();
    for i in 0..n
        invariant
            n == v@.len(),
            out@.len() == i,
            forall|k: int| 0 <= k < i ==> out@[k]@ == v@[k]@,
    {
        out.push(v[i].clone());
    }
    assert(texts(out@) =~= texts(v@));
    out
}

/// Another optional string of the same value.
pub fn copy_option(s: &Option<String>) -> (r: Option<String>)
    ensures
        option_text(r) == option_text(*s),
{
    match s {
        Some(t) => Some(t.clone()),
        None => None,
    }
}

/// Tells whether a character is white space.
pub fn is_whitespace(c: char) -> (r: bool)
    ensures
        r == whitespace(c),
{
    let u: u32 = c as u32;
    (0x9 <= u && u <= 0xd) || u == 0x20 || u == 0x85 || u == 0xa0 || u == 0x1680 || (0x2000 <= u
        && u <= 0x200a) || u == 0x2028 || u == 0x2029 || u == 0x202f || u == 0x205f || u == 0x3000
}

/// Tells whether a string is empty or white space throughout.
pub fn is_blank(s: &str) -> (r: bool)
    ensures
        r == blank(s@),
{
    for c in it: s.chars()
        invariant
            it.seq() == s@,
            forall|k: int| 0 <= k < it.index() ==> whitespace(#[trigger] s@[k]),
    {
        if !is_whitespace(c) {
            assert(s@[it.index() as int] == c);
            return false;
        }
    }
    true
}

/// Trimming takes away the white space up to where the first other character
/// stands.
proof fn lemma_trim_start(s: Seq<char>, i: int)
    requires
        0 <= i <= s.len(),
        forall|k: int| 0 <= k < i ==> whitespace(#[trigger] s[k]),
        i < s.len() ==> !whitespace(s[i]),
    ensures
        trim_start(s) == s.skip(i),
    decreases i,
{
    if i == 0 {
        assert(s.skip(0) =~= s);
    } else {
        let rest = s.drop_first();
        assert(whitespace(s[0]));
        assert forall|k: int| 0 <= k < i - 1 implies whitespace(#[trigger] rest[k]) by {
            assert(rest[k] == s[k + 1]);
        }
        lemma_trim_start(rest, i - 1);
        assert(rest.skip(i - 1) =~= s.skip(i));
    }
}

/// The same at the other end.
proof fn lemma_trim_end(s: Seq<char>, i: int)
    requires
        0 <= i <= s.len(),
        forall|k: int| i <= k < s.len() ==> whitespace(#[trigger] s[k]),
        i > 0 ==> !whitespace(s[i - 1]),
    ensures
        trim_end(s) == s.take(i),
    decreases s.len() - i,
{
    if i == s.len() {
        assert(s.take(i) =~= s);
    } else {
        let rest = s.drop_last();
        assert(whitespace(s[s.len() - 1]));
        lemma_trim_end(rest, i);
        assert(rest.take(i) =~= s.take(i));
    }
}

/// Where a string is not blank, trimming keeps something of it.
proof fn lemma_first_solid(s: Seq<char>, i: int)
    requires
        0 <= i <= s.len(),
        forall|k: int| 0 <= k < i ==> whitespace(#[trigger] s[k]),
        !blank(s),
    ensures
        trimmed(s).len() > 0,
    decreases s.len() - i,
{
    if i == s.len() {
    } else if whitespace(s[i]) {
        lemma_first_solid(s, i + 1);
    } else {
        lemma_trim_start(s, i);
        let t = s.skip(i);
        assert(t[0] == s[i]);
        lemma_trim_end_keeps(t);
    }
}

/// Trimming the end keeps what starts with a solid character.
proof fn lemma_trim_end_keeps(t: Seq<char>)
    requires
        t.len() > 0,
        !whitespace(t[0]),
    ensures
        trim_end(t).len() > 0,
        trim_end(t)[0] == t[0],
    decreases t.len(),
{
    if whitespace(t.last()) {
        assert(t.len() > 1);
        assert(t.drop_last()[0] == t[0]);
        lemma_trim_end_keeps(t.drop_last());
    }
}

/// `str::trim`.
pub fn trim(s: &str) -> (r: &str)
    ensures
        r@ == trimmed(s@),
{
    let chars: Vec<char> = chars_of(s);
    let n: usize = chars.len();
    let mut from: usize = 0;
    while from < n && is_whitespace(chars[from])
        invariant
            n == chars@.len(),
            from <= n,
            forall|k: int| 0 <= k < from ==> whitespace(#[trigger] chars@[k]),
        decreases n - from,
    {
        from = from + 1;
    }
    let mut to: usize = n;
    while from < to && is_whitespace(chars[to - 1])
        invariant
            n == chars@.len(),
            from <= to <= n,
            forall|k: int| to <= k < n ==> whitespace(#[trigger] chars@[k]),
        decreases to - from,
    {
        to = to - 1;
    }
    proof {
        let left = s@.skip(from as int);
        lemma_trim_start(s@, from as int);
        assert forall|k: int| to - from <= k < left.len() implies whitespace(#[trigger] left[k]) by {
            assert(left[k] == chars@[k + from]);
        }
        lemma_trim_end(left, to - from);
        assert(left.take(to - from) =~= s@.subrange(from as int, to as int));
    }
    s.substring_char(from, to)
}

/// `str::ends_with` of a string.
pub fn ends_with(s: &str, suffix: &str) -> (r: bool)
    ensures
        r == ends_in(s@, suffix@),
{
    let a: Vec<char> = chars_of(s);
    let b: Vec<char> = chars_of(suffix);
    let n: usize = a.len();
    let m: usize = b.len();
    if m > n {
        return false;
    }
    for i in 0..m
        invariant
            n == a@.len(),
            m == b@.len(),
            m <= n,
            a@ == s@,
            b@ == suffix@,
            forall|k: int| 0 <= k < i ==> a@[n - m + k] == #[trigger] b@[k],
    {
        if a[n - m + i] != b[i] {
            assert(s@.skip(n - m)[i as int] == a@[n - m + i]);
            return false;
        }
    }
    assert(s@.skip(n - m) =~= suffix@);
    true
}

/// `str::starts_with` of a character.
pub fn starts_with_char(s: &str, c: char) -> (r: bool)
    ensures
        r == (s@.len() > 0 && s@[0] == c),
{
    if s.is_empty() {
        false
    } else {
        s.get_char(0) == c
    }
}

/// `s` without the `c`s at its end.
pub open spec fn trim_end_of(s: Seq<char>, c: char) -> Seq<char>
    decreases s.len(),
{
    if s.len() > 0 && s.last() == c {
        trim_end_of(s.drop_last(), c)
    } else {
        s
    }
}

/// `str::trim_end_matches` of a character.
pub fn trim_end_char(s: &str, c: char) -> (r: String)
    ensures
        r@ == trim_end_of(s@, c),
{
    let chars: Vec<char> = chars_of(s);
    let mut n: usize = chars.len();
    assert(chars@.take(n as int) =~= chars@);
    while n > 0 && chars[n - 1] == c
        invariant
            n <= chars@.len(),
            trim_end_of(chars@, c) == trim_end_of(chars@.take(n as int), c),
        decreases n,
    {
        assert(chars@.take(n as int).drop_last() =~= chars@.take(n - 1));
        assert(chars@.take(n as int).last() == c);
        n = n - 1;
    }
    assert(chars@.take(n as int) =~= chars@.subrange(0, n as int));
    text_of(&chars, 0, n)
}

/// `s` without the `c`s at its start.
pub open spec fn trim_start_of(s: Seq<char>, c: char) -> Seq<char>
    decreases s.len(),
{
    if s.len() > 0 && s[0] == c {
        trim_start_of(s.drop_first(), c)
    } else {
        s
    }
}

/// `str::trim_start_matches` of a character.
pub fn trim_start_char(s: &str, c: char) -> (r: String)
    ensures
        r@ == trim_start_of(s@, c),
{
    let chars: Vec<char> = chars_of(s);
    let n: usize = chars.len();
    let mut i: usize = 0;
    assert(chars@.skip(0) =~= chars@);
    while i < n && chars[i] == c
        invariant
            n == chars@.len(),
            i <= n,
            trim_start_of(chars@, c) == trim_start_of(chars@.skip(i as int), c),
        decreases n - i,
    {
        assert(chars@.skip(i as int).drop_first() =~= chars@.skip(i + 1));
        assert(chars@.skip(i as int)[0] == c);
        i = i + 1;
    }
    proof {
        if i < n {
            assert(chars@.skip(i as int)[0] == chars@[i as int]);
        }
        assert(chars@.skip(i as int) =~= chars@.subrange(i as int, n as int));
    }
    text_of(&chars, i, n)
}

/// Nothing is left of `c` at the end.
pub proof fn lemma_trim_end_of(s: Seq<char>, c: char)
    ensures
        trim_end_of(s, c).len() > 0 ==> trim_end_of(s, c).last() != c,
        trim_end_of(s, c).len() > 0 ==> trim_end_of(s, c)[0] == s[0],
        trim_end_of(s, c).len() <= s.len(),
    decreases s.len(),
{
    if s.len() > 0 && s.last() == c {
        lemma_trim_end_of(s.drop_last(), c);
    }
}

/// Nothing is left of `c` at the start.
pub proof fn lemma_trim_start_of(s: Seq<char>, c: char)
    ensures
        trim_start_of(s, c).len() > 0 ==> trim_start_of(s, c)[0] != c,
    decreases s.len(),
{
    if s.len() > 0 && s[0] == c {
        lemma_trim_start_of(s.drop_first(), c);
    }
}

/// The part of `s` before the first `c`, or all of it where there is none.
pub open spec fn before_first(s: Seq<char>, c: char) -> Seq<char>
    decreases s.len(),
{
    if s.len() == 0 || s[0] == c {
        Seq::empty()
    } else {
        seq![s[0]] + before_first(s.drop_first(), c)
    }
}

/// Where the first `c` stands, the part before it ends.
proof fn lemma_before_first(s: Seq<char>, c: char, i: int)
    requires
        0 <= i <= s.len(),
        forall|k: int| 0 <= k < i ==> #[trigger] s[k] != c,
        i < s.len() ==> s[i] == c,
    ensures
        before_first(s, c) == s.take(i),
    decreases i,
{
    if i == 0 {
        assert(s.take(0) =~= Seq::empty());
    } else {
        let rest = s.drop_first();
        assert(s[0] != c);
        assert forall|k: int| 0 <= k < i - 1 implies #[trigger] rest[k] != c by {
            assert(rest[k] == s[k + 1]);
        }
        lemma_before_first(rest, c, i - 1);
        assert(seq![s[0]] + rest.take(i - 1) =~= s.take(i));
    }
}

/// Cuts a string at the first `c`.
pub fn cut_at(s: &str, c: char) -> (r: String)
    ensures
        r@ == before_first(s@, c),
{
    let chars: Vec<char> = chars_of(s);
    let n: usize = chars.len();
    let mut i: usize = 0;
    while i < n && chars[i] != c
        invariant
            n == chars@.len(),
            i <= n,
            forall|k: int| 0 <= k < i ==> #[trigger] chars@[k] != c,
        decreases n - i,
    {
        i = i + 1;
    }
    proof {
        lemma_before_first(chars@, c, i as int);
        assert(chars@.take(i as int) =~= chars@.subrange(0, i as int));
    }
    text_of(&chars, 0, i)
}

/// The part of `s` after the last `c`, or all of it where there is none.
pub open spec fn after_last(s: Seq<char>, c: char) -> Seq<char>
    decreases s.len(),
{
    if s.len() == 0 || s.last() == c {
        Seq::empty()
    } else {
        after_last(s.drop_last(), c).push(s.last())
    }
}

/// Tells whether `d` occurs after the last `c`.
pub fn occurs_after_last(s: &str, c: char, d: char) -> (r: bool)
    ensures
        r == after_last(s@, c).contains(d),
{
    let chars: Vec<char> = chars_of(s);
    let mut found: bool = false;
    let n: usize = chars.len();
    for i in 0..n
        invariant
            n == chars@.len(),
            found == after_last(chars@.take(i as int), c).contains(d),
    {
        let ghost before = after_last(chars@.take(i as int), c);
        let ghost now = chars@.take(i + 1);
        assert(now.drop_last() =~= chars@.take(i as int));
        assert(now.last() == chars@[i as int]);
        if chars[i] == c {
            found = false;
        } else if chars[i] == d {
            found = true;
            assert(before.push(d)[before.len() as int] == d);
        } else {
            proof {
                if before.contains(d) {
                    let k = choose|k: int| 0 <= k < before.len() && before[k] == d;
                    assert(before.push(chars@[i as int])[k] == d);
                }
            }
        }
    }
    assert(chars@.take(n as int) =~= chars@);
    found
}

/// The pieces of `s` between the `c`s: one more than there are `c`s.
pub open spec fn split_on(s: Seq<char>, c: char) -> Seq<Seq<char>>
    decreases s.len(),
{
    if s.len() == 0 {
        seq![Seq::empty()]
    } else {
        let init = split_on(s.drop_last(), c);
        if s.last() == c {
            init.push(Seq::empty())
        } else {
            init.drop_last().push(init.last().push(s.last()))
        }
    }
}

/// There is always a piece.
pub proof fn lemma_split_nonempty(s: Seq<char>, c: char)
    ensures
        split_on(s, c).len() > 0,
    decreases s.len(),
{
    if s.len() > 0 {
        lemma_split_nonempty(s.drop_last(), c);
    }
}

/// `str::split` of a character.
pub fn split(s: &str, c: char) -> (r: Vec<String>)
    ensures
        texts(r@) == split_on(s@, c),
{
    let chars: Vec<char> = chars_of(s);
    let n: usize = chars.len();
    let mut done: Vec<String> = Vec::new();
    let mut piece: String = String::new();
    assert(texts(done@).push(piece@) =~= split_on(chars@.take(0), c));
    for i in 0..n
        invariant
            n == chars@.len(),
            texts(done@).push(piece@) == split_on(chars@.take(i as int), c),
    {
        let ghost init = split_on(chars@.take(i as int), c);
        let ghost before = texts(done@);
        assert(chars@.take(i + 1).drop_last() =~= chars@.take(i as int));
        assert(chars@.take(i + 1).last() == chars@[i as int]);
        if chars[i] == c {
            done.push(piece);
            piece = String::new();
            assert(texts(done@) =~= init);
        } else {
            piece.push(chars[i]);
            assert(init.drop_last() =~= before);
        }
    }
    assert(chars@.take(n as int) =~= chars@);
    let ghost before = texts(done@).push(piece@);
    done.push(piece);
    assert(texts(done@) =~= before);
    done
}

/// The lower-case letter of an ASCII upper-case letter; any other character as
/// it is.
pub open spec fn ascii_lower(c: char) -> char {
    if 'A' <= c <= 'Z' {
        (c as u32 + 32) as char
    } else {
        c
    }
}

/// Whether two strings differ at most in the case of ASCII letters.
pub open spec fn same_ignoring_case(a: Seq<char>, b: Seq<char>) -> bool {
    &&& a.len() == b.len()
    &&& forall|i: int| 0 <= i < a.len() ==> ascii_lower(#[trigger] a[i]) == ascii_lower(b[i])
}

fn to_ascii_lower(c: char) -> (r: char)
    ensures
        r == ascii_lower(c),
{
    if 'A' <= c && c <= 'Z' {
        ((c as u8) + 32) as char
    } else {
        c
    }
}

/// `str::eq_ignore_ascii_case`.
pub fn eq_ignore_case(a: &str, b: &str) -> (r: bool)
    ensures
        r == same_ignoring_case(a@, b@),
{
    let x: Vec<char> = chars_of(a);
    let y: Vec<char> = chars_of(b);
    if x.len() != y.len() {
        return false;
    }
    let n: usize = x.len();
    for i in 0..n
        invariant
            n == x@.len(),
            n == y@.len(),
            x@ == a@,
            y@ == b@,
            forall|k: int| 0 <= k < i ==> ascii_lower(#[trigger] x@[k]) == ascii_lower(y@[k]),
    {
        if to_ascii_lower(x[i]) != to_ascii_lower(y[i]) {
            assert(ascii_lower(a@[i as int]) != ascii_lower(b@[i as int]));
            return false;
        }
    }
    true
}

/// The digit of a number below ten.
pub open spec fn digit(d: nat) -> char {
    (48 + d) as char
}

/// A number in decimal digits.
pub open spec fn decimal(n: nat) -> Seq<char>
    decreases n,
{
    if n < 10 {
        seq![digit(n)]
    } else {
        decimal(n / 10).push(digit(n % 10))
    }
}

/// Writes a number in decimal digits.
pub fn decimal_text(n: u64) -> (r: String)
    ensures
        r@ == decimal(n as nat),
    decreases n,
{
    let last: u8 = (n % 10) as u8;
    let c: char = (48u8 + last) as char;
    if n < 10 {
        let mut s: String = String::new();
        s.push(c);
        assert(s@ =~= seq![digit(n as nat)]);
        s
    } else {
        let mut s: String = decimal_text(n / 10);
        s.push(c);
        s
    }
}

/// An integer in decimal digits, after a minus sign where it is negative.
pub open spec fn signed_decimal(n: int) -> Seq<char> {
    if n < 0 {
        seq!['-'] + decimal((-n) as nat)
    } else {
        decimal(n as nat)
    }
}

/// Writes an integer in decimal digits.
pub fn signed_decimal_text(n: i64) -> (r: String)
    ensures
        r@ == signed_decimal(n as int),
{
    if n < 0 {
        let size: u64 = (-(n + 1)) as u64 + 1;
        let digits: String = decimal_text(size);
        let r: String = concat2("-", digits.as_str());
        proof {
            reveal_strlit("-");
            assert("-"@ =~= seq!['-']);
        }
        r
    } else {
        decimal_text(n as u64)
    }
}

/// `s` behind as many zeros as bring it to `width` characters.
pub open spec fn zero_padded(s: Seq<char>, width: nat) -> Seq<char> {
    if s.len() < width {
        Seq::new((width - s.len()) as nat, |i: int| '0') + s
    } else {
        s
    }
}

/// Writes a number in at least `width` decimal digits.
pub fn padded_text(n: u64, width: usize) -> (r: String)
    ensures
        r@ == zero_padded(decimal(n as nat), width as nat),
{
    let digits: String = decimal_text(n);
    let count: usize = digits.as_str().unicode_len();
    if count >= width {
        return digits;
    }
    let mut out: String = String::new();
    let missing: usize = width - count;
    for i in 0..missing
        invariant
            out@ == Seq::new(i as nat, |k: int| '0'),
    {
        out.push('0');
        assert(out@ =~= Seq::new((i + 1) as nat, |k: int| '0'));
    }
    out.append(digits.as_str());
    out
}

/// Whether a character is a decimal digit.
pub open spec fn is_digit(c: char) -> bool {
    '0' <= c <= '9'
}

/// The number that decimal digits write.
pub open spec fn number_of(s: Seq<char>) -> nat
    decreases s.len(),
{
    if s.len() == 0 {
        0
    } else {
        number_of(s.drop_last()) * 10 + (s.last() as u32 - 48) as nat
    }
}

/// Whether every character is a decimal digit.
pub open spec fn digits_only(s: Seq<char>) -> bool {
    forall|i: int| 0 <= i < s.len() ==> is_digit(#[trigger] s[i])
}

/// The number that a string of decimal digits writes, where it fits in 32 bits.
/// No sign stands in front.
pub open spec fn parsed_u32(s: Seq<char>) -> Option<u32> {
    if s.len() > 0 && digits_only(s) && number_of(s) <= u32::MAX {
        Some(number_of(s) as u32)
    } else {
        None
    }
}

/// Reads a number in decimal digits.
pub fn parse_u32(s: &str) -> (r: Option<u32>)
    ensures
        r == parsed_u32(s@),
{
    let chars: Vec<char> = chars_of(s);
    let n: usize = chars.len();
    if n == 0 {
        return None;
    }
    let mut value: u64 = 0;
    let mut over: bool = false;
    for i in 0..n
        invariant
            n == chars@.len(),
            chars@ == s@,
            forall|k: int| 0 <= k < i ==> is_digit(#[trigger] s@[k]),
            over == (number_of(s@.take(i as int)) > u32::MAX),
            !over ==> value == number_of(s@.take(i as int)),
    {
        let c: char = chars[i];
        assert(s@[i as int] == c);
        if !('0' <= c && c <= '9') {
            assert(!is_digit(s@[i as int]));
            return None;
        }
        let ghost now = s@.take(i + 1);
        assert(now.drop_last() =~= s@.take(i as int));
        assert(now.last() == c);
        let d: u64 = (c as u32 - 48) as u64;
        if !over {
            value = value * 10 + d;
            over = value > 0xffff_ffff;
        }
    }
    assert(s@.take(n as int) =~= s@);
    if over {
        None
    } else {
        Some(value as u32)
    }
}

/// How many bytes a character takes in UTF-8.
pub open spec fn char_width(c: char) -> nat {
    let u = c as u32;
    if u < 0x80 {
        1
    } else if u < 0x800 {
        2
    } else if u < 0x10000 {
        3
    } else {
        4
    }
}

/// The longest run of characters from the start that takes at most `room`
/// bytes in UTF-8.
pub open spec fn fitting(s: Seq<char>, room: int) -> Seq<char>
    decreases s.len(),
{
    if s.len() == 0 || char_width(s[0]) > room {
        Seq::empty()
    } else {
        seq![s[0]] + fitting(s.drop_first(), room - char_width(s[0]))
    }
}

/// `s` where it takes at most `max` bytes in UTF-8; else the longest run of its
/// first characters that does, followed by three dots.
pub open spec fn truncated(s: Seq<char>, max: nat) -> Seq<char> {
    if encode_utf8(s).len() <= max {
        s
    } else {
        fitting(s, max as int) + "..."@
    }
}

/// What fits takes no more bytes than there is room for.
pub proof fn lemma_fitting_fits(s: Seq<char>, room: int)
    requires
        room >= 0,
    ensures
        encode_utf8(fitting(s, room)).len() <= room,
    decreases s.len(),
{
    let f = fitting(s, room);
    if s.len() > 0 && char_width(s[0]) <= room {
        lemma_fitting_fits(s.drop_first(), room - char_width(s[0]));
        assert(f.drop_first() =~= fitting(s.drop_first(), room - char_width(s[0])));
        assert(f[0] == s[0]);
        char_is_scalar(s[0]);
        assert(encode_scalar(s[0] as u32).len() == char_width(s[0]));
    }
}

fn width_of(c: char) -> (r: usize)
    ensures
        r == char_width(c),
{
    let u: u32 = c as u32;
    if u < 0x80 {
        1
    } else if u < 0x800 {
        2
    } else if u < 0x10000 {
        3
    } else {
        4
    }
}

/// Shortens a string to at most `max` bytes, marking the cut with dots.
pub fn truncate(s: &str, max: usize) -> (r: String)
    ensures
        r@ == truncated(s@, max as nat),
{
    if s.as_bytes().len() <= max {
        return s.to_owned();
    }
    let chars: Vec<char> = chars_of(s);
    let n: usize = chars.len();
    let mut i: usize = 0;
    let mut room: usize = max;
    assert(chars@.skip(0) =~= chars@);
    assert(chars@.take(0) + fitting(chars@, max as int) =~= fitting(chars@, max as int));
    while i < n && width_of(chars[i]) <= room
        invariant
            n == chars@.len(),
            i <= n,
            fitting(chars@, max as int) == chars@.take(i as int) + fitting(
                chars@.skip(i as int),
                room as int,
            ),
        decreases n - i,
    {
        let ghost left = chars@.skip(i as int);
        assert(left[0] == chars@[i as int]);
        assert(left.drop_first() =~= chars@.skip(i + 1));
        room = room - width_of(chars[i]);
        i = i + 1;
        assert(chars@.take(i as int) =~= chars@.take(i - 1) + seq![chars@[i - 1]]);
        assert(fitting(chars@, max as int) =~= chars@.take(i as int) + fitting(
            chars@.skip(i as int),
            room as int,
        ));
    }
    proof {
        let left = chars@.skip(i as int);
        if i < n {
            assert(left[0] == chars@[i as int]);
        }
        assert(fitting(left, room as int) =~= Seq::empty());
        assert(fitting(chars@, max as int) =~= chars@.subrange(0, i as int));
    }
    let head: String = text_of(&chars, 0, i);
    concat2(head.as_str(), "...")
}

/// The first `max` characters of a string.
pub fn first_chars(s: &str, max: usize) -> (r: String)
    ensures
        r@ == (if s@.len() <= max {
            s@
        } else {
            s@.take(max as int)
        }),
{
    let chars: Vec<char> = chars_of(s);
    let n: usize = if chars.len() <= max {
        chars.len()
    } else {
        max
    };
    let r: String = text_of(&chars, 0, n);
    assert(chars@.subrange(0, n as int) =~= (if s@.len() <= max {
        s@
    } else {
        s@.take(max as int)
    }));
    r
}

} // verus!
