//! Text operations on characters: white space, prefixes and suffixes, lines,
//! words, joining, and decimal numbers.
//!
//! A string is modelled by its sequence of characters, `s@`.

use vstd::prelude::*;
use vstd::string::*;

verus! {

// --- models -----------------------------------------------------------------

/// A character with Unicode's `White_Space` property.
pub open spec fn white_space(c: char) -> bool {
    ||| '\u{9}' <= c <= '\u{d}'
    ||| c == ' '
    ||| c == '\u{85}'
    ||| c == '\u{a0}'
    ||| c == '\u{1680}'
    ||| '\u{2000}' <= c <= '\u{200a}'
    ||| c == '\u{2028}'
    ||| c == '\u{2029}'
    ||| c == '\u{202f}'
    ||| c == '\u{205f}'
    ||| c == '\u{3000}'
}

/// `s` without its leading white space.
pub open spec fn trimmed_start(s: Seq<char>) -> Seq<char>
    decreases s.len(),
{
    if s.len() > 0 && white_space(s[0]) {
        trimmed_start(s.skip(1))
    } else {
        s
    }
}

/// `s` without its trailing white space.
pub open spec fn trimmed_end(s: Seq<char>) -> Seq<char>
    decreases s.len(),
{
    if s.len() > 0 && white_space(s.last()) {
        trimmed_end(s.drop_last())
    } else {
        s
    }
}

/// `s` without the white space at either end.
pub open spec fn trimmed(s: Seq<char>) -> Seq<char> {
    trimmed_start(trimmed_end(s))
}

/// `s` begins with `t`.
pub open spec fn begins(s: Seq<char>, t: Seq<char>) -> bool {
    t.len() <= s.len() && s.take(t.len() as int) == t
}

/// `s` ends with `t`.
pub open spec fn ends(s: Seq<char>, t: Seq<char>) -> bool {
    t.len() <= s.len() && s.skip(s.len() - t.len()) == t
}

/// `t` occurs somewhere in `s`.
pub open spec fn occurs(s: Seq<char>, t: Seq<char>) -> bool {
    exists|i: int| 0 <= i <= s.len() - t.len() && #[trigger] s.subrange(i, i + t.len()) == t
}

/// `s` with every trailing copy of `t` removed.
pub open spec fn stripped_end(s: Seq<char>, t: Seq<char>) -> Seq<char>
    decreases s.len(),
{
    if t.len() > 0 && ends(s, t) {
        stripped_end(s.take(s.len() - t.len()), t)
    } else {
        s
    }
}

/// `s` without `t` at its end, where it ends with `t`.
pub open spec fn without_suffix(s: Seq<char>, t: Seq<char>) -> Seq<char> {
    if ends(s, t) {
        s.take(s.len() - t.len())
    } else {
        s
    }
}

/// The lower-case form of an ASCII letter; any other character is itself.
pub open spec fn lower(c: char) -> char {
    if 'A' <= c <= 'Z' {
        ((c as u32) + 32) as char
    } else {
        c
    }
}

/// `s` with its ASCII letters in lower case.
pub open spec fn lowercase(s: Seq<char>) -> Seq<char> {
    s.map_values(|c: char| lower(c))
}

/// The number of characters of `s` that stand before the first `c`: its
/// length where `c` does not occur.
pub open spec fn before(s: Seq<char>, c: char) -> int
    decreases s.len(),
{
    if s.len() == 0 || s[0] == c {
        0
    } else {
        1 + before(s.skip(1), c)
    }
}

/// The number of characters of `s` up to its last `c`, which counts: zero where
/// `c` does not occur.
pub open spec fn up_to_last(s: Seq<char>, c: char) -> int
    decreases s.len(),
{
    if s.len() == 0 || s.last() == c {
        s.len() as int
    } else {
        up_to_last(s.drop_last(), c)
    }
}

/// A line's text without the carriage return of a `\r\n` ending.
pub open spec fn without_return(s: Seq<char>) -> Seq<char> {
    if s.len() > 0 && s.last() == '\r' {
        s.drop_last()
    } else {
        s
    }
}

/// The lines of `s`. A line ends at `\n` or `\r\n`, which is not part of it;
/// the last line need not be ended.
pub open spec fn line_seq(s: Seq<char>) -> Seq<Seq<char>>
    decreases s.len(),
{
    if s.len() == 0 {
        seq![]
    } else {
        let n = before(s, '\n');
        if 0 <= n < s.len() {
            seq![without_return(s.take(n))] + line_seq(s.skip(n + 1))
        } else {
            seq![s]
        }
    }
}

/// The number of characters of `s` that stand before its first white space.
pub open spec fn word_len(s: Seq<char>) -> int
    decreases s.len(),
{
    if s.len() == 0 || white_space(s[0]) {
        0
    } else {
        1 + word_len(s.skip(1))
    }
}

/// The `n`-th word of `s`, counted from zero, where a word is a longest run of
/// characters that are not white space.
pub open spec fn word(s: Seq<char>, n: nat) -> Option<Seq<char>>
    decreases n,
{
    let t = trimmed_start(s);
    if t.len() == 0 {
        None
    } else if n == 0 {
        Some(t.take(word_len(t)))
    } else {
        word(t.skip(word_len(t)), (n - 1) as nat)
    }
}

/// The elements of `parts` one after the other, with `sep` between them.
pub open spec fn joined(parts: Seq<Seq<char>>, sep: Seq<char>) -> Seq<char>
    decreases parts.len(),
{
    if parts.len() == 0 {
        seq![]
    } else if parts.len() == 1 {
        parts[0]
    } else {
        joined(parts.drop_last(), sep) + sep + parts.last()
    }
}

/// The decimal digit for `d`, where `d` is less than ten.
pub open spec fn digit(d: nat) -> char {
    ((48 + d) as u32) as char
}

/// `n` in decimal, without leading zeros.
pub open spec fn decimal(n: nat) -> Seq<char>
    decreases n,
{
    if n < 10 {
        seq![digit(n)]
    } else {
        decimal(n / 10).push(digit(n % 10))
    }
}

/// `i` in decimal, with a minus sign where it is negative.
pub open spec fn signed_decimal(i: int) -> Seq<char> {
    if i < 0 {
        seq!['-'] + decimal((-i) as nat)
    } else {
        decimal(i as nat)
    }
}

/// An ASCII decimal digit.
pub open spec fn is_digit(c: char) -> bool {
    '0' <= c <= '9'
}

/// The number that the decimal digits of `s` denote.
pub open spec fn digits_value(s: Seq<char>) -> nat
    decreases s.len(),
{
    if s.len() == 0 {
        0
    } else {
        digits_value(s.drop_last()) * 10 + (s.last() as nat - 48) as nat
    }
}

/// The number of leading decimal digits of `s`.
pub open spec fn digit_count(s: Seq<char>) -> int
    decreases s.len(),
{
    if s.len() == 0 || !is_digit(s[0]) {
        0
    } else {
        1 + digit_count(s.skip(1))
    }
}

/// Why a text is not a count.
#[derive(Clone, Copy, Debug, PartialEq, Eq, Structural)]
pub enum CountError {
    /// There is no text.
    Empty,
    /// A character is not a decimal digit, or a sign has no digits.
    InvalidDigit,
    /// The number does not fit in a `usize`.
    TooLarge,
}

/// The text after an optional plus sign.
pub open spec fn unsigned_part(s: Seq<char>) -> Seq<char> {
    if s.len() > 0 && s[0] == '+' {
        s.skip(1)
    } else {
        s
    }
}

/// The count that `s` denotes: an optional plus sign and then decimal digits.
/// Where the digits read so far are too large, that is the error, whatever
/// follows them.
pub open spec fn count_of(s: Seq<char>) -> Result<nat, CountError> {
    let d = unsigned_part(s);
    let n = digit_count(d);
    if s.len() == 0 {
        Err(CountError::Empty)
    } else if digits_value(d.take(n)) > usize::MAX {
        Err(CountError::TooLarge)
    } else if d.len() == 0 || n < d.len() {
        Err(CountError::InvalidDigit)
    } else {
        Ok(digits_value(d))
    }
}

/// `a` stands before `b` in the order of strings: at the first difference the
/// lower character decides, and a proper prefix stands first.
pub open spec fn precedes(a: Seq<char>, b: Seq<char>) -> bool
    decreases a.len(),
{
    if b.len() == 0 {
        false
    } else if a.len() == 0 {
        true
    } else if a[0] != b[0] {
        a[0] < b[0]
    } else {
        precedes(a.skip(1), b.skip(1))
    }
}

// --- operations -------------------------------------------------------------

/// The characters of `s`.
pub fn chars_of(s: &str) -> (v: Vec<char>)
    ensures
        v@ == s@,
{
    let mut v: Vec<char> = Vec::new();
    for c in it: s.chars()
        invariant
            v@ == s@.take(it.index()),
            it.seq() == s@,
    {
        v.push(c);
    }
    v
}

/// Whether two texts are the same.
pub fn same(a: &str, b: &str) -> (r: bool)
    ensures
        r == (a@ == b@),
{
    a.to_owned() == b.to_owned()
}

/// Whether `c` is white space.
pub fn is_white_space(c: char) -> (r: bool)
    ensures
        r == white_space(c),
{
    ('\u{9}' <= c && c <= '\u{d}') || c == ' ' || c == '\u{85}' || c == '\u{a0}' || c == '\u{1680}'
        || ('\u{2000}' <= c && c <= '\u{200a}') || c == '\u{2028}' || c == '\u{2029}' || c
        == '\u{202f}' || c == '\u{205f}' || c == '\u{3000}'
}

/// Removes the trailing white space of `s`.
pub fn trim_end<'a>(s: &'a str) -> (r: &'a str)
    ensures
        r@ == trimmed_end(s@),
{
    let cs = chars_of(s);
    let mut n: usize = cs.len();
    assert(s@.take(n as int) == s@);
    while n > 0 && is_white_space(cs[n - 1])
        invariant
            n <= cs.len(),
            cs@ == s@,
            trimmed_end(s@.take(n as int)) == trimmed_end(s@),
        decreases n,
    {
        assert(s@.take(n as int).drop_last() == s@.take(n - 1));
        n = n - 1;
    }
    assert(s@.take(n as int) == s@.subrange(0, n as int));
    s.substring_char(0, n)
}

/// Removes the leading white space of `s`.
pub fn trim_start<'a>(s: &'a str) -> (r: &'a str)
    ensures
        r@ == trimmed_start(s@),
{
    let cs = chars_of(s);
    let mut n: usize = 0;
    assert(s@.skip(0) == s@);
    while n < cs.len() && is_white_space(cs[n])
        invariant
            n <= cs.len(),
            cs@ == s@,
            trimmed_start(s@.skip(n as int)) == trimmed_start(s@),
        decreases cs.len() - n,
    {
        assert(s@.skip(n as int).skip(1) == s@.skip(n + 1));
        n = n + 1;
    }
    assert(s@.skip(n as int) == s@.subrange(n as int, s@.len() as int));
    s.substring_char(n, cs.len())
}

/// Removes the white space at either end of `s`.
pub fn trim<'a>(s: &'a str) -> (r: &'a str)
    ensures
        r@ == trimmed(s@),
{
    trim_start(trim_end(s))
}

/// Whether the characters of `s` from `at` on begin with those of `t`.
pub fn matches_at(s: &Vec<char>, at: usize, t: &Vec<char>) -> (r: bool)
    requires
        at <= s.len(),
    ensures
        r == (at + t.len() <= s.len() && s@.subrange(at as int, at + t.len()) == t@),
{
    if s.len() - at < t.len() {
        return false;
    }
    let mut i: usize = 0;
    while i < t.len()
        invariant
            at <= s.len(),
            t.len() <= s.len() - at,
            i <= t.len(),
            forall|j: int| 0 <= j < i ==> s@[at + j] == t@[j],
        decreases t.len() - i,
    {
        if s[at + i] != t[i] {
            assert(s@.subrange(at as int, at + t.len())[i as int] == s@[at + i]);
            return false;
        }
        i = i + 1;
    }
    assert(s@.subrange(at as int, at + t.len()) == t@);
    true
}

/// Whether `s` begins with `t`.
pub fn starts_with(s: &str, t: &str) -> (r: bool)
    ensures
        r == begins(s@, t@),
{
    let sc = chars_of(s);
    let tc = chars_of(t);
    assert(tc@.len() <= sc@.len() ==> sc@.subrange(0, tc@.len() as int) == sc@.take(
        tc@.len() as int,
    ));
    matches_at(&sc, 0, &tc)
}

/// Whether `t` occurs in `s`.
pub fn contains(s: &str, t: &str) -> (r: bool)
    ensures
        r == occurs(s@, t@),
{
    let sc = chars_of(s);
    let tc = chars_of(t);
    let mut i: usize = 0;
    while i <= sc.len()
        invariant
            sc@ == s@,
            tc@ == t@,
            0 <= i <= sc.len() + 1,
            forall|j: int|
                0 <= j < i && j <= s@.len() - t@.len() ==> #[trigger] s@.subrange(j, j + t@.len())
                    != t@,
        decreases sc.len() + 1 - i,
    {
        if matches_at(&sc, i, &tc) {
            return true;
        }
        if i == sc.len() {
            return false;
        }
        i = i + 1;
    }
    false
}

/// Removes every trailing copy of `t` from `s`.
pub fn trim_end_matches<'a>(s: &'a str, t: &str) -> (r: &'a str)
    requires
        t@.len() > 0,
    ensures
        r@ == stripped_end(s@, t@),
{
    let sc = chars_of(s);
    let tc = chars_of(t);
    let mut n: usize = sc.len();
    assert(s@.take(n as int) == s@);
    while n >= tc.len()
        invariant
            sc@ == s@,
            tc@ == t@,
            t@.len() > 0,
            n <= sc.len(),
            stripped_end(s@.take(n as int), t@) == stripped_end(s@, t@),
        ensures
            s@.take(n as int) == stripped_end(s@, t@),
        decreases n,
    {
        let ghost head = s@.take(n as int);
        proof {
            assert(head.skip(n - t@.len()) == s@.subrange(n - t@.len(), n as int));
        }
        if !matches_at(&sc, n - tc.len(), &tc) {
            break;
        }
        assert(head.take(n - t@.len()) == s@.take(n - t@.len()));
        n = n - tc.len();
    }
    assert(s@.take(n as int) == s@.subrange(0, n as int));
    s.substring_char(0, n)
}

/// Removes `t` from the end of `s`, at most once.
pub fn strip_suffix<'a>(s: &'a str, t: &str) -> (r: &'a str)
    ensures
        r@ == without_suffix(s@, t@),
{
    let sc = chars_of(s);
    let tc = chars_of(t);
    if sc.len() < tc.len() {
        return s;
    }
    let n: usize = sc.len() - tc.len();
    assert(s@.skip(n as int) == s@.subrange(n as int, n + t@.len()));
    if matches_at(&sc, n, &tc) {
        assert(s@.take(n as int) == s@.subrange(0, n as int));
        s.substring_char(0, n)
    } else {
        s
    }
}

/// The lower-case form of an ASCII letter.
fn lower_char(c: char) -> (r: char)
    ensures
        r == lower(c),
{
    if 'A' <= c && c <= 'Z' {
        (c as u8 + 32) as char
    } else {
        c
    }
}

/// The characters of `s` with ASCII letters in lower case.
pub fn lower_chars(s: &str) -> (v: Vec<char>)
    ensures
        v@ == lowercase(s@),
{
    let mut v: Vec<char> = Vec::new();
    for c in it: s.chars()
        invariant
            v@ == lowercase(s@.take(it.index())),
            it.seq() == s@,
    {
        assert(s@.take(it.index() + 1) == s@.take(it.index()).push(c));
        v.push(lower_char(c));
    }
    assert(s@.take(s@.len() as int) == s@);
    v
}

/// Whether `a` and `b` differ at most in the case of ASCII letters.
pub fn same_ignoring_case(a: &str, b: &str) -> (r: bool)
    ensures
        r == (lowercase(a@) == lowercase(b@)),
{
    let x = lower_chars(a);
    let y = lower_chars(b);
    assert(x@.subrange(0, x@.len() as int) == x@);
    x.len() == y.len() && matches_at(&x, 0, &y)
}

/// The number of characters that stand before the first `c`.
fn find_char(s: &Vec<char>, c: char) -> (n: usize)
    ensures
        n == before(s@, c),
        n <= s.len(),
        n < s.len() ==> s@[n as int] == c,
{
    let mut n: usize = 0;
    assert(s@.skip(0) == s@);
    while n < s.len() && s[n] != c
        invariant
            n <= s.len(),
            before(s@, c) == n + before(s@.skip(n as int), c),
        decreases s.len() - n,
    {
        assert(s@.skip(n as int).skip(1) == s@.skip(n + 1));
        n = n + 1;
    }
    n
}

/// Splits `s` at the first `c`, which belongs to neither part.
pub fn split_once<'a>(s: &'a str, c: char) -> (r: Option<(&'a str, &'a str)>)
    ensures
        r is Some <==> s@.contains(c),
        r matches Some((a, b)) ==> a@ == s@.take(before(s@, c)) && b@ == s@.skip(
            before(s@, c) + 1,
        ) && !a@.contains(c) && s@ == a@ + seq![c] + b@,
{
    let cs = chars_of(s);
    let n = find_char(&cs, c);
    proof {
        lemma_before(s@, c);
    }
    if n < cs.len() {
        let a = s.substring_char(0, n);
        let b = s.substring_char(n + 1, cs.len());
        assert(s@ == a@ + seq![c] + b@);
        assert(a@ == s@.take(n as int));
        assert(b@ == s@.skip(n + 1));
        Some((a, b))
    } else {
        None
    }
}

/// The first `c` of `s` stands at `before(s, c)`, and none stands before it.
pub proof fn lemma_before(s: Seq<char>, c: char)
    ensures
        0 <= before(s, c) <= s.len(),
        before(s, c) < s.len() ==> s[before(s, c)] == c,
        forall|i: int| 0 <= i < before(s, c) ==> s[i] != c,
        s.contains(c) <==> before(s, c) < s.len(),
    decreases s.len(),
{
    if s.len() > 0 && s[0] != c {
        let t = s.skip(1);
        lemma_before(t, c);
        assert forall|i: int| 0 <= i < before(s, c) implies s[i] != c by {
            if i > 0 {
                assert(t[i - 1] == s[i]);
            }
        }
        if s.contains(c) {
            let k = choose|k: int| 0 <= k < s.len() && s[k] == c;
            assert(t[k - 1] == c);
        }
    }
}

/// The part of `s` before the first `c`: all of it where there is none.
pub fn up_to<'a>(s: &'a str, c: char) -> (r: &'a str)
    ensures
        r@ == s@.take(before(s@, c)),
{
    let cs = chars_of(s);
    let n = find_char(&cs, c);
    assert(s@.take(n as int) == s@.subrange(0, n as int));
    s.substring_char(0, n)
}

/// Splits `s` at the last `c`, which belongs to neither part.
pub fn rsplit_once<'a>(s: &'a str, c: char) -> (r: Option<(&'a str, &'a str)>)
    ensures
        r is Some <==> up_to_last(s@, c) > 0,
        r matches Some((a, b)) ==> a@ == s@.take(up_to_last(s@, c) - 1) && b@ == s@.skip(
            up_to_last(s@, c),
        ) && !b@.contains(c) && s@ == a@ + seq![c] + b@,
{
    let cs = chars_of(s);
    let mut n: usize = cs.len();
    assert(s@.take(n as int) == s@);
    while n > 0 && cs[n - 1] != c
        invariant
            n <= cs.len(),
            cs@ == s@,
            up_to_last(s@.take(n as int), c) == up_to_last(s@, c),
            forall|i: int| n <= i < s@.len() ==> s@[i] != c,
        decreases n,
    {
        assert(s@.take(n as int).drop_last() == s@.take(n - 1));
        n = n - 1;
    }
    if n == 0 {
        return None;
    }
    assert(s@.take(n as int).last() == c);
    let a = s.substring_char(0, n - 1);
    let b = s.substring_char(n, cs.len());
    assert(a@ == s@.take(n - 1));
    assert(b@ == s@.skip(n as int));
    assert(s@ == a@ + seq![c] + b@);
    Some((a, b))
}

/// The lines of `s`.
pub fn lines(s: &str) -> (r: Vec<String>)
    ensures
        r.deep_view() == line_seq(s@),
{
    let mut r: Vec<String> = Vec::new();
    let mut rest: &str = s;
    assert(r.deep_view() == Seq::<Seq<char>>::empty());
    assert(Seq::<Seq<char>>::empty() + line_seq(s@) == line_seq(s@));
    while !rest.is_empty()
        invariant
            r.deep_view() + line_seq(rest@) == line_seq(s@),
        decreases rest@.len(),
    {
        let ghost prior = r.deep_view();
        let cs = chars_of(rest);
        let n = find_char(&cs, '\n');
        if n < cs.len() {
            let end: usize = if n > 0 && cs[n - 1] == '\r' {
                n - 1
            } else {
                n
            };
            let line = rest.substring_char(0, end).to_owned();
            assert(line@ == without_return(rest@.take(n as int)));
            r.push(line);
            let tail = rest.substring_char(n + 1, cs.len());
            assert(tail@ == rest@.skip(n + 1));
            assert(r.deep_view() == prior.push(line@));
            assert(r.deep_view() + line_seq(tail@) == prior + line_seq(rest@));
            rest = tail;
        } else {
            let line = rest.to_owned();
            r.push(line);
            let tail = rest.substring_char(cs.len(), cs.len());
            assert(r.deep_view() == prior.push(line@));
            assert(r.deep_view() + line_seq(tail@) == prior + line_seq(rest@));
            rest = tail;
        }
    }
    assert(r.deep_view() + Seq::<Seq<char>>::empty() == r.deep_view());
    r
}

/// The number of characters that stand before the first white space.
fn find_white_space(s: &Vec<char>) -> (n: usize)
    ensures
        n == word_len(s@),
        n <= s.len(),
{
    let mut n: usize = 0;
    assert(s@.skip(0) == s@);
    while n < s.len() && !is_white_space(s[n])
        invariant
            n <= s.len(),
            word_len(s@) == n + word_len(s@.skip(n as int)),
        decreases s.len() - n,
    {
        assert(s@.skip(n as int).skip(1) == s@.skip(n + 1));
        n = n + 1;
    }
    n
}

/// The first word of `s` and what follows it.
fn next_word<'a>(s: &'a str) -> (r: Option<(&'a str, &'a str)>)
    ensures
        r is None <==> trimmed_start(s@).len() == 0,
        r matches Some((w, rest)) ==> w@ == trimmed_start(s@).take(word_len(trimmed_start(s@)))
            && rest@ == trimmed_start(s@).skip(word_len(trimmed_start(s@))),
{
    let t = trim_start(s);
    if t.is_empty() {
        return None;
    }
    let cs = chars_of(t);
    let n = find_white_space(&cs);
    assert(t@.take(n as int) == t@.subrange(0, n as int));
    assert(t@.skip(n as int) == t@.subrange(n as int, t@.len() as int));
    Some((t.substring_char(0, n), t.substring_char(n, cs.len())))
}

/// The `n`-th word of `s`, counted from zero.
pub fn nth_word<'a>(s: &'a str, n: usize) -> (r: Option<&'a str>)
    ensures
        r is None <==> word(s@, n as nat) is None,
        r matches Some(w) ==> word(s@, n as nat) == Some(w@),
    decreases n,
{
    match next_word(s) {
        None => None,
        Some((w, rest)) => {
            if n == 0 {
                Some(w)
            } else {
                nth_word(rest, n - 1)
            }
        },
    }
}

/// The elements of `parts` one after the other, with `sep` between them.
pub fn join(parts: &Vec<String>, sep: &str) -> (r: String)
    ensures
        r@ == joined(parts.deep_view(), sep@),
{
    let ghost all = parts.deep_view();
    if parts.len() == 0 {
        return String::new();
    }
    let mut r = parts[0].clone();
    let mut i: usize = 1;
    while i < parts.len()
        invariant
            1 <= i <= parts.len(),
            all == parts.deep_view(),
            r@ == joined(all.take(i as int), sep@),
        decreases parts.len() - i,
    {
        r.append(sep);
        r.append(parts[i].as_str());
        assert(all.take(i + 1).drop_last() == all.take(i as int));
        i = i + 1;
    }
    assert(all.take(i as int) == all);
    r
}

/// A text of one decimal digit.
fn digit_text(d: u64) -> (r: &'static str)
    requires
        d < 10,
    ensures
        r@ == seq![digit(d as nat)],
{
    proof {
        reveal_strlit("0");
        reveal_strlit("1");
        reveal_strlit("2");
        reveal_strlit("3");
        reveal_strlit("4");
        reveal_strlit("5");
        reveal_strlit("6");
        reveal_strlit("7");
        reveal_strlit("8");
        reveal_strlit("9");
    }
    match d {
        0 => "0",
        1 => "1",
        2 => "2",
        3 => "3",
        4 => "4",
        5 => "5",
        6 => "6",
        7 => "7",
        8 => "8",
        _ => "9",
    }
}

/// `n` in decimal.
pub fn decimal_text(n: u64) -> (r: String)
    ensures
        r@ == decimal(n as nat),
    decreases n,
{
    if n < 10 {
        digit_text(n).to_owned()
    } else {
        let mut r = decimal_text(n / 10);
        r.append(digit_text(n % 10));
        assert(r@ == decimal(n as nat));
        r
    }
}

/// `i` in decimal, with its sign where it is negative.
pub fn signed_decimal_text(i: i32) -> (r: String)
    ensures
        r@ == signed_decimal(i as int),
{
    if i < 0 {
        let mut r = "-".to_owned();
        proof {
            reveal_strlit("-");
            assert("-"@ == seq!['-']);
        }
        r.append(decimal_text((-(i as i64)) as u64).as_str());
        r
    } else {
        decimal_text(i as u64)
    }
}

/// More digits denote no smaller number.
proof fn lemma_digits_value_grows(s: Seq<char>, k: int)
    requires
        0 <= k <= s.len(),
    ensures
        digits_value(s.take(k)) <= digits_value(s),
    decreases s.len() - k,
{
    if k < s.len() {
        lemma_digits_value_grows(s, k + 1);
        assert(s.take(k + 1).drop_last() == s.take(k));
    } else {
        assert(s.take(k) == s);
    }
}

/// The first `digit_count(s)` characters of `s` are digits; the next is not.
proof fn lemma_digit_count(s: Seq<char>)
    ensures
        0 <= digit_count(s) <= s.len(),
        forall|i: int| 0 <= i < digit_count(s) ==> is_digit(#[trigger] s[i]),
        digit_count(s) < s.len() ==> !is_digit(s[digit_count(s)]),
    decreases s.len(),
{
    if s.len() > 0 && is_digit(s[0]) {
        let t = s.skip(1);
        lemma_digit_count(t);
        assert forall|i: int| 0 <= i < digit_count(s) implies is_digit(#[trigger] s[i]) by {
            if i > 0 {
                assert(t[i - 1] == s[i]);
            }
        }
    }
}

/// Reads a count.
pub fn parse_count(s: &str) -> (r: Result<usize, CountError>)
    ensures
        r matches Ok(n) ==> count_of(s@) == Ok::<nat, CountError>(n as nat),
        r matches Err(e) ==> count_of(s@) == Err::<nat, CountError>(e),
{
    let cs = chars_of(s);
    if cs.len() == 0 {
        return Err(CountError::Empty);
    }
    let start: usize = if cs[0] == '+' {
        1
    } else {
        0
    };
    let ghost d = unsigned_part(s@);
    let ghost k = digit_count(d);
    proof {
        assert(d == s@.skip(start as int));
        lemma_digit_count(d);
    }
    let mut i: usize = start;
    let mut n: usize = 0;
    while i < cs.len()
        invariant
            cs@ == s@,
            start <= i <= cs.len(),
            d == s@.skip(start as int),
            s@.len() > 0,
            d == unsigned_part(s@),
            k == digit_count(d),
            0 <= k <= d.len(),
            i - start <= k,
            forall|j: int| 0 <= j < k ==> is_digit(#[trigger] d[j]),
            k < d.len() ==> !is_digit(d[k]),
            n == digits_value(d.take(i - start)),
        decreases cs.len() - i,
    {
        let c = cs[i];
        assert(c == d[i - start]);
        if !('0' <= c && c <= '9') {
            assert(i - start == k);
            return Err(CountError::InvalidDigit);
        }
        assert(i - start < k);
        let v: usize = (c as u8 - 48) as usize;
        proof {
            assert(d.take(i - start + 1).drop_last() == d.take(i - start));
            lemma_digits_value_grows(d.take(k), i - start + 1);
            assert(d.take(k).take(i - start + 1) == d.take(i - start + 1));
        }
        if n > usize::MAX / 10 || n * 10 > usize::MAX - v {
            return Err(CountError::TooLarge);
        }
        n = n * 10 + v;
        i = i + 1;
    }
    assert(d.take(i - start) == d);
    assert(k == d.len());
    if i == start {
        return Err(CountError::InvalidDigit);
    }
    Ok(n)
}

/// Whether `a` stands before `b` in the order of strings.
pub fn is_before(a: &str, b: &str) -> (r: bool)
    ensures
        r == precedes(a@, b@),
{
    let x = chars_of(a);
    let y = chars_of(b);
    let mut i: usize = 0;
    assert(a@.skip(0) == a@ && b@.skip(0) == b@);
    while i < x.len() && i < y.len() && x[i] == y[i]
        invariant
            x@ == a@,
            y@ == b@,
            i <= x.len(),
            i <= y.len(),
            precedes(a@, b@) == precedes(a@.skip(i as int), b@.skip(i as int)),
        decreases x.len() - i,
    {
        assert(a@.skip(i as int).skip(1) == a@.skip(i + 1));
        assert(b@.skip(i as int).skip(1) == b@.skip(i + 1));
        i = i + 1;
    }
    if i == y.len() {
        false
    } else if i == x.len() {
        true
    } else {
        x[i] < y[i]
    }
}

/// Of two different texts one stands before the other, and only one.
pub proof fn lemma_precedes_total(a: Seq<char>, b: Seq<char>)
    ensures
        a == b ==> !precedes(a, b) && !precedes(b, a),
        a != b ==> precedes(a, b) != precedes(b, a),
    decreases a.len(),
{
    if a.len() > 0 && b.len() > 0 && a[0] == b[0] {
        lemma_precedes_total(a.skip(1), b.skip(1));
        if a.skip(1) == b.skip(1) {
            assert(a == seq![a[0]] + a.skip(1));
            assert(b == seq![b[0]] + b.skip(1));
        }
    } else if a.len() == 0 && b.len() == 0 {
        assert(a == b);
    }
}

/// The order of strings is transitive.
pub proof fn lemma_precedes_transitive(a: Seq<char>, b: Seq<char>, c: Seq<char>)
    requires
        precedes(a, b),
        precedes(b, c),
    ensures
        precedes(a, c),
    decreases a.len(),
{
    if a.len() > 0 && a[0] == b[0] && b[0] == c[0] {
        lemma_precedes_transitive(a.skip(1), b.skip(1), c.skip(1));
    }
}

} // verus!
