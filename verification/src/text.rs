//! Character-level text utilities: conversion between strings and
//! character vectors, substring tests, decimal rendering and parsing,
//! whitespace splitting, and case folding.

use vstd::prelude::*;

verus! {

/// Appends one character to a string.
///
/// Trusted: calls `String::push` from std, whose documentation says it
/// appends the given `char` to the end of the string.
#[verifier::external_body]
pub(crate) fn push_char(s: &mut String, c: char)
    ensures
        final(s)@ == old(s)@.push(c),
{
    s.push(c);
}

/// Removes the last character of a string and returns it.
///
/// Trusted: calls `String::pop` from std, whose documentation says it
/// removes the last character and returns it, or returns `None` when the
/// string is empty.
#[verifier::external_body]
pub(crate) fn pop_char(s: &mut String) -> (r: Option<char>)
    ensures
        old(s)@.len() == 0 ==> r is None && final(s)@ == old(s)@,
        old(s)@.len() > 0 ==> r == Some(old(s)@.last()) && final(s)@ == old(s)@.drop_last(),
{
    s.pop()
}

/// The characters of a string slice, in order.
pub fn chars_of(s: &str) -> (v: Vec<char>)
    ensures
        v@ == s@,
{
    let mut v: Vec<char> = Vec::new();
    for c in it: s.chars()
        invariant
            v@ == it.seq().take(it.index()),
    {
        v.push(c);
    }
    v
}


/// A string holding exactly the given characters.
pub fn string_from_chars(v: &Vec<char>) -> (s: String)
    ensures
        s@ == v@,
{
    let mut s = String::new();
    let mut i: usize = 0;
    while i < v.len()
        invariant
            i <= v.len(),
            s@ == v@.take(i as int),
        decreases v.len() - i,
    {
        push_char(&mut s, v[i]);
        i = i + 1;
        assert(s@ =~= v@.take(i as int));
    }
    assert(v@.take(v.len() as int) =~= v@);
    s
}

/// Appends the characters of `t` to `s`.
pub fn push_str(s: &mut String, t: &str)
    ensures
        final(s)@ == old(s)@ + t@,
{
    let cs = chars_of(t);
    let ghost start = s@;
    let mut i: usize = 0;
    while i < cs.len()
        invariant
            i <= cs.len(),
            cs@ == t@,
            s@ == start + cs@.take(i as int),
        decreases cs.len() - i,
    {
        push_char(s, cs[i]);
        i = i + 1;
        assert(s@ =~= start + cs@.take(i as int));
    }
    assert(cs@.take(cs.len() as int) =~= cs@);
}

/// The lowercase form of a character sequence, as std's
/// `str::to_lowercase` computes it (Unicode `Lowercase` mapping,
/// including the context-dependent final sigma).
pub uninterp spec fn lowercase(s: Seq<char>) -> Seq<char>;

/// Lowercases a string.
///
/// Trusted: calls std's `str::to_lowercase`, whose result depends on the
/// string alone; the contract names that result `lowercase` and states
/// nothing more of it.
#[verifier::external_body]
pub(crate) fn to_lowercase(s: &str) -> (r: String)
    ensures
        r@ == lowercase(s@),
{
    s.to_lowercase()
}

/// `needle` occurs in `hay` at position `i`.
pub open spec fn occurs_at(hay: Seq<char>, needle: Seq<char>, i: int) -> bool {
    0 <= i && i + needle.len() <= hay.len() && hay.subrange(i, i + needle.len()) == needle
}

/// `needle` occurs somewhere in `hay` (the empty sequence occurs everywhere).
pub open spec fn contains_seq(hay: Seq<char>, needle: Seq<char>) -> bool {
    exists|i: int| occurs_at(hay, needle, i)
}

/// `hay` begins with `prefix`.
pub open spec fn starts_with_seq(hay: Seq<char>, prefix: Seq<char>) -> bool {
    prefix.len() <= hay.len() && hay.subrange(0, prefix.len() as int) == prefix
}

/// Whether `needle` occurs in `hay` at position `i`.
fn occurs_at_exec(hay: &Vec<char>, needle: &Vec<char>, i: usize) -> (b: bool)
    requires
        i + needle.len() <= hay.len(),
    ensures
        b == occurs_at(hay@, needle@, i as int),
{
    let mut j: usize = 0;
    while j < needle.len()
        invariant
            i + needle.len() <= hay.len(),
            j <= needle.len(),
            forall|k: int| 0 <= k < j ==> hay@[i + k] == needle@[k],
        decreases needle.len() - j,
    {
        if hay[i + j] != needle[j] {
            assert(hay@.subrange(i as int, i + needle.len())[j as int] != needle@[j as int]);
            return false;
        }
        j = j + 1;
    }
    assert(hay@.subrange(i as int, i + needle.len()) =~= needle@);
    true
}

/// Whether `needle` occurs as a contiguous run in `hay`.
pub fn contains_chars(hay: &Vec<char>, needle: &Vec<char>) -> (b: bool)
    ensures
        b == contains_seq(hay@, needle@),
{
    if needle.len() > hay.len() {
        return false;
    }
    if needle.len() == 0 {
        assert(hay@.subrange(0, 0) =~= needle@);
        assert(occurs_at(hay@, needle@, 0));
        return true;
    }
    let end = hay.len() - needle.len() + 1;
    let mut i: usize = 0;
    while i < end
        invariant
            end == hay.len() - needle.len() + 1,
            needle.len() <= hay.len(),
            i <= end,
            forall|k: int| 0 <= k < i ==> !occurs_at(hay@, needle@, k),
        decreases end - i,
    {
        if occurs_at_exec(hay, needle, i) {
            return true;
        }
        i = i + 1;
    }
    false
}

/// The characters of `q` occur in `s` in the same order, not necessarily
/// next to each other (`q` is a subsequence of `s`).
pub open spec fn in_order(q: Seq<char>, s: Seq<char>) -> bool
    decreases s.len(),
{
    if q.len() == 0 {
        true
    } else if s.len() == 0 {
        false
    } else {
        (s[0] == q[0] && in_order(q.drop_first(), s.drop_first())) || in_order(q, s.drop_first())
    }
}

/// Dropping the first character of the query keeps it in order.
pub proof fn lemma_in_order_drop_first(q: Seq<char>, s: Seq<char>)
    requires
        q.len() > 0,
        in_order(q, s),
    ensures
        in_order(q.drop_first(), s),
    decreases s.len(),
{
    if s.len() > 0 && !(s[0] == q[0] && in_order(q.drop_first(), s.drop_first())) {
        lemma_in_order_drop_first(q, s.drop_first());
    }
}

/// Matching the first characters greedily loses nothing.
pub proof fn lemma_in_order_greedy(q: Seq<char>, s: Seq<char>)
    requires
        q.len() > 0,
        s.len() > 0,
        s[0] == q[0],
    ensures
        in_order(q, s) == in_order(q.drop_first(), s.drop_first()),
{
    if in_order(q, s.drop_first()) {
        lemma_in_order_drop_first(q, s.drop_first());
    }
}

/// Being in order is transitive.
pub proof fn lemma_in_order_transitive(a: Seq<char>, b: Seq<char>, c: Seq<char>)
    requires
        in_order(a, b),
        in_order(b, c),
    ensures
        in_order(a, c),
    decreases c.len(),
{
    if a.len() > 0 {
        assert(b.len() > 0);
        assert(c.len() > 0);
        if c[0] == b[0] && in_order(b.drop_first(), c.drop_first()) {
            if a[0] == b[0] && in_order(a.drop_first(), b.drop_first()) {
                lemma_in_order_transitive(a.drop_first(), b.drop_first(), c.drop_first());
            } else {
                lemma_in_order_transitive(a, b.drop_first(), c.drop_first());
            }
        } else {
            lemma_in_order_transitive(a, b, c.drop_first());
        }
    }
}

/// Whether the characters of `q` occur in `s` in order.
pub fn chars_in_order(q: &Vec<char>, s: &Vec<char>) -> (b: bool)
    ensures
        b == in_order(q@, s@),
{
    let mut i: usize = 0;
    let mut j: usize = 0;
    assert(q@.skip(0) =~= q@);
    assert(s@.skip(0) =~= s@);
    while i < s.len()
        invariant
            i <= s.len(),
            j <= q.len(),
            in_order(q@, s@) == in_order(q@.skip(j as int), s@.skip(i as int)),
        decreases s.len() - i,
    {
        if j == q.len() {
            return true;
        }
        let ghost qs = q@.skip(j as int);
        let ghost ss = s@.skip(i as int);
        assert(ss.drop_first() =~= s@.skip(i + 1));
        if s[i] == q[j] {
            assert(qs.drop_first() =~= q@.skip(j + 1));
            proof {
                lemma_in_order_greedy(qs, ss);
            }
            j = j + 1;
        }
        i = i + 1;
    }
    assert(s@.skip(i as int).len() == 0);
    j == q.len()
}

/// Whether the characters of `q` occur in `s` in order.
pub fn str_in_order(q: &str, s: &str) -> (b: bool)
    ensures
        b == in_order(q@, s@),
{
    let qc = chars_of(q);
    let sc = chars_of(s);
    chars_in_order(&qc, &sc)
}

/// Whether `hay` begins with `prefix`.
pub fn starts_with_chars(hay: &Vec<char>, prefix: &Vec<char>) -> (b: bool)
    ensures
        b == starts_with_seq(hay@, prefix@),
{
    if prefix.len() > hay.len() {
        return false;
    }
    occurs_at_exec(hay, prefix, 0)
}

/// Whether `needle` occurs in `hay`, as std's `str::contains` with a
/// string pattern answers.
pub fn str_contains(hay: &str, needle: &str) -> (b: bool)
    ensures
        b == contains_seq(hay@, needle@),
{
    let h = chars_of(hay);
    let n = chars_of(needle);
    contains_chars(&h, &n)
}

/// Whether `hay` begins with `prefix`, as std's `str::starts_with` answers.
pub fn str_starts_with(hay: &str, prefix: &str) -> (b: bool)
    ensures
        b == starts_with_seq(hay@, prefix@),
{
    let h = chars_of(hay);
    let p = chars_of(prefix);
    starts_with_chars(&h, &p)
}

/// Whether two strings hold the same characters.
pub fn str_eq(a: &str, b: &str) -> (r: bool)
    ensures
        r == (a@ == b@),
{
    let x = chars_of(a);
    let y = chars_of(b);
    if x.len() != y.len() {
        return false;
    }
    let r = occurs_at_exec(&x, &y, 0);
    proof {
        if r {
            assert(x@.subrange(0, y@.len() as int) =~= x@);
        } else {
            assert(x@.subrange(0, y@.len() as int) =~= x@);
        }
    }
    r
}


/// The ASCII digit character for a value below ten.
pub open spec fn digit_char(d: nat) -> char {
    (48 + d) as char
}

/// Decimal rendering of a natural number, most significant digit first,
/// without leading zeros (zero renders as "0").
pub open spec fn decimal(n: nat) -> Seq<char>
    decreases n,
{
    if n < 10 {
        seq![digit_char(n)]
    } else {
        decimal(n / 10).push(digit_char(n % 10))
    }
}

/// Appends the decimal rendering of `n` to `s`.
pub fn push_decimal(s: &mut String, n: u64)
    ensures
        final(s)@ == old(s)@ + decimal(n as nat),
    decreases n,
{
    if n >= 10 {
        push_decimal(s, n / 10);
    }
    let d: u8 = (n % 10) as u8;
    let c: char = (48u8 + d) as char;
    push_char(s, c);
    proof {
        if n >= 10 {
            assert(decimal(n as nat) == decimal((n / 10) as nat).push(digit_char((n % 10) as nat)));
        }
    }
}

/// The decimal rendering of `n`, as std's `Display` for `u32` writes it.
pub fn u32_to_string(n: u32) -> (s: String)
    ensures
        s@ == decimal(n as nat),
{
    let mut s = String::new();
    push_decimal(&mut s, n as u64);
    assert(s@ =~= decimal(n as nat));
    s
}

/// An ASCII decimal digit.
pub open spec fn is_ascii_digit(c: char) -> bool {
    '0' <= c && c <= '9'
}

/// The value of a run of ASCII digits, read in base ten.
pub open spec fn digits_value(d: Seq<char>) -> nat
    decreases d.len(),
{
    if d.len() == 0 {
        0
    } else {
        digits_value(d.drop_last()) * 10 + ((d.last() as int) - 48) as nat
    }
}

/// The digits part of an unsigned integer literal: one leading `+` is dropped.
pub open spec fn unsigned_digits(s: Seq<char>) -> Seq<char> {
    if s.len() > 0 && s[0] == '+' {
        s.drop_first()
    } else {
        s
    }
}

/// What std's `str::parse::<u32>` accepts and returns: an optional `+`,
/// then one or more ASCII digits whose value fits in a `u32`.
pub open spec fn parse_u32_spec(s: Seq<char>) -> Option<u32> {
    let d = unsigned_digits(s);
    if d.len() > 0 && (forall|i: int| 0 <= i < d.len() ==> is_ascii_digit(#[trigger] d[i]))
        && digits_value(d) <= u32::MAX {
        Some(digits_value(d) as u32)
    } else {
        None
    }
}

proof fn lemma_digits_value_monotone(d: Seq<char>, k: int)
    requires
        0 <= k <= d.len(),
        forall|i: int| 0 <= i < d.len() ==> is_ascii_digit(#[trigger] d[i]),
    ensures
        digits_value(d.take(k)) <= digits_value(d),
    decreases d.len(),
{
    if k == d.len() {
        assert(d.take(k) =~= d);
    } else {
        let p = d.drop_last();
        assert(is_ascii_digit(d[d.len() - 1]));
        lemma_digits_value_monotone(p, k);
        assert(p.take(k) =~= d.take(k));
    }
}

/// Parses an unsigned 32-bit integer the way std's `str::parse::<u32>` does.
pub fn parse_u32(s: &str) -> (r: Option<u32>)
    ensures
        r == parse_u32_spec(s@),
{
    let cs = chars_of(s);
    let mut start: usize = 0;
    if cs.len() > 0 && cs[0] == '+' {
        start = 1;
    }
    let ghost d = unsigned_digits(s@);
    assert(d =~= cs@.skip(start as int));
    if start >= cs.len() {
        return None;
    }
    let mut acc: u64 = 0;
    let mut i: usize = start;
    while i < cs.len()
        invariant
            cs@ == s@,
            d == cs@.skip(start as int),
            d == unsigned_digits(s@),
            start <= i <= cs.len(),
            start < cs.len(),
            forall|k: int| 0 <= k < i - start ==> is_ascii_digit(#[trigger] d[k]),
            acc == digits_value(d.take(i - start)),
            acc <= u32::MAX,
        decreases cs.len() - i,
    {
        let c = cs[i];
        assert(c == d[i - start]);
        if !('0' <= c && c <= '9') {
            assert(!is_ascii_digit(d[i - start]));
            assert(parse_u32_spec(s@) is None);
            return None;
        }
        let digit: u64 = ((c as u32) - 48) as u64;
        let next: u64 = acc * 10 + digit;
        assert(d.take(i - start + 1).drop_last() =~= d.take(i - start));
        assert(next == digits_value(d.take(i - start + 1)));
        if next > 4294967295u64 {
            proof {
                if forall|k: int| 0 <= k < d.len() ==> is_ascii_digit(#[trigger] d[k]) {
                    lemma_digits_value_monotone(d, i - start + 1);
                    assert(digits_value(d) > u32::MAX);
                }
                assert(parse_u32_spec(s@) is None);
            }
            return None;
        }
        acc = next;
        i = i + 1;
    }
    assert(d.take(i - start) =~= d);
    Some(acc as u32)
}

/// Whether a character has the Unicode `White_Space` property (the code
/// points listed for it in the Unicode Character Database, PropList.txt).
pub open spec fn white_space(c: char) -> bool {
    let n = c as u32;
    ||| 0x09 <= n <= 0x0D
    ||| n == 0x20
    ||| n == 0x85
    ||| n == 0xA0
    ||| n == 0x1680
    ||| 0x2000 <= n <= 0x200A
    ||| n == 0x2028
    ||| n == 0x2029
    ||| n == 0x202F
    ||| n == 0x205F
    ||| n == 0x3000
}

/// Whether a character has the Unicode `White_Space` property, as std's
/// `char::is_whitespace` answers.
pub fn is_whitespace(c: char) -> (b: bool)
    ensures
        b == white_space(c),
{
    let n = c as u32;
    (0x09 <= n && n <= 0x0D) || n == 0x20 || n == 0x85 || n == 0xA0 || n == 0x1680 || (0x2000 <= n
        && n <= 0x200A) || n == 0x2028 || n == 0x2029 || n == 0x202F || n == 0x205F || n == 0x3000
}

/// Whether a character is numeric in the sense of std's `char::is_numeric`
/// (Unicode general categories `Nd`, `Nl` and `No`).
pub uninterp spec fn numeric_char(c: char) -> bool;

/// Trusted: calls std's `char::is_numeric`, whose result depends on the
/// character alone; the contract names that result `numeric_char`.
#[verifier::external_body]
pub(crate) fn is_numeric(c: char) -> (b: bool)
    ensures
        b == numeric_char(c),
{
    c.is_numeric()
}

/// Every character of the sequence is numeric (true of the empty sequence).
pub open spec fn all_numeric(s: Seq<char>) -> bool {
    forall|i: int| 0 <= i < s.len() ==> numeric_char(#[trigger] s[i])
}

/// Whether every character of `s` is numeric, as
/// `s.chars().all(char::is_numeric)` answers.
pub fn str_all_numeric(s: &str) -> (b: bool)
    ensures
        b == all_numeric(s@),
{
    let cs = chars_of(s);
    let mut i: usize = 0;
    while i < cs.len()
        invariant
            cs@ == s@,
            i <= cs.len(),
            forall|k: int| 0 <= k < i ==> numeric_char(#[trigger] cs@[k]),
        decreases cs.len() - i,
    {
        if !is_numeric(cs[i]) {
            return false;
        }
        i = i + 1;
    }
    true
}

/// Splitting state after reading a prefix: the words already closed by
/// whitespace, and the word still being read.
pub open spec fn words_state(s: Seq<char>) -> (Seq<Seq<char>>, Seq<char>)
    decreases s.len(),
{
    if s.len() == 0 {
        (seq![], seq![])
    } else {
        let (done, cur) = words_state(s.drop_last());
        let c = s.last();
        if white_space(c) {
            if cur.len() > 0 {
                (done.push(cur), seq![])
            } else {
                (done, seq![])
            }
        } else {
            (done, cur.push(c))
        }
    }
}

/// The maximal runs of non-whitespace characters of `s`, in order: what
/// std's `str::split_whitespace` yields.
pub open spec fn words(s: Seq<char>) -> Seq<Seq<char>> {
    let (done, cur) = words_state(s);
    if cur.len() > 0 {
        done.push(cur)
    } else {
        done
    }
}

/// The views of a sequence of values, element by element.
pub open spec fn views<T: View>(v: Seq<T>) -> Seq<T::V> {
    v.map_values(|x: T| x@)
}

/// Splits a string at whitespace, as std's `str::split_whitespace` does.
pub fn split_whitespace(s: &str) -> (r: Vec<String>)
    ensures
        views(r@) == words(s@),
{
    let cs = chars_of(s);
    let mut done: Vec<String> = Vec::new();
    let mut cur: Vec<char> = Vec::new();
    let mut i: usize = 0;
    while i < cs.len()
        invariant
            cs@ == s@,
            i <= cs.len(),
            (views(done@), cur@) == words_state(cs@.take(i as int)),
        decreases cs.len() - i,
    {
        let c = cs[i];
        assert(cs@.take(i + 1).drop_last() =~= cs@.take(i as int));
        if is_whitespace(c) {
            if cur.len() > 0 {
                let w = string_from_chars(&cur);
                done.push(w);
                cur = Vec::new();
                assert(views(done@) =~= words_state(cs@.take(i + 1)).0);
            }
        } else {
            cur.push(c);
        }
        i = i + 1;
    }
    assert(cs@.take(cs.len() as int) =~= cs@);
    if cur.len() > 0 {
        let w = string_from_chars(&cur);
        done.push(w);
        assert(views(done@) =~= words(s@));
    }
    done
}

} // verus!
