//! How texts are cut, compared and put together.

use vstd::prelude::*;

use crate::promises;
use crate::text;

verus! {

/// White space, by code point.
pub open spec fn blank(c: char) -> bool {
    let n = c as int;
    ||| 9 <= n <= 13
    ||| n == 32
    ||| n == 0x85
    ||| n == 0xa0
    ||| n == 0x1680
    ||| 0x2000 <= n <= 0x200a
    ||| n == 0x2028
    ||| n == 0x2029
    ||| n == 0x202f
    ||| n == 0x205f
    ||| n == 0x3000
}

/// A text of white space alone.
pub open spec fn all_blank(s: Seq<char>) -> bool {
    forall|i: int| 0 <= i < s.len() ==> blank(#[trigger] s[i])
}

/// A text without any white space.
pub open spec fn none_blank(s: Seq<char>) -> bool {
    forall|i: int| 0 <= i < s.len() ==> !blank(#[trigger] s[i])
}

/// A text that neither begins nor ends with white space.
pub open spec fn is_bare(s: Seq<char>) -> bool {
    s.len() > 0 ==> !blank(s[0]) && !blank(s.last())
}

// --- trimming ---------------------------------------------------------------

/// Leading white space is cut off, and nothing else.
pub proof fn law_trim_start_cuts_leading_blanks(a: Seq<char>, s: Seq<char>)
    requires
        all_blank(a),
        s.len() > 0 ==> !blank(s[0]),
    ensures
        text::trimmed_start(a + s) == s,
    decreases a.len(),
{
    if a.len() > 0 {
        assert(blank(a[0]));
        assert((a + s).skip(1) == a.skip(1) + s);
        assert forall|i: int| 0 <= i < a.skip(1).len() implies blank(#[trigger] a.skip(1)[i]) by {
            assert(a.skip(1)[i] == a[i + 1]);
        }
        law_trim_start_cuts_leading_blanks(a.skip(1), s);
    } else {
        assert(a + s == s);
    }
}

/// Trailing white space is cut off, and nothing else.
pub proof fn law_trim_end_cuts_trailing_blanks(s: Seq<char>, b: Seq<char>)
    requires
        all_blank(b),
        s.len() > 0 ==> !blank(s.last()),
    ensures
        text::trimmed_end(s + b) == s,
    decreases b.len(),
{
    if b.len() > 0 {
        assert(blank(b[b.len() - 1]));
        assert((s + b).drop_last() == s + b.drop_last());
        assert forall|i: int| 0 <= i < b.drop_last().len() implies blank(
            #[trigger] b.drop_last()[i],
        ) by {
            assert(b.drop_last()[i] == b[i]);
        }
        law_trim_end_cuts_trailing_blanks(s, b.drop_last());
    } else {
        assert(s + b == s);
    }
}

/// White space at either end is cut off, and nothing else.
pub proof fn law_trim_cuts_blanks_at_the_ends(a: Seq<char>, s: Seq<char>, b: Seq<char>)
    requires
        all_blank(a),
        is_bare(s),
        all_blank(b),
    ensures
        text::trimmed(a + s + b) == s,
{
    if s.len() > 0 {
        assert((a + s).last() == s.last());
        law_trim_end_cuts_trailing_blanks(a + s, b);
        law_trim_start_cuts_leading_blanks(a, s);
    } else {
        assert(a + s + b == s + (a + b));
        assert forall|i: int| 0 <= i < (a + b).len() implies blank(#[trigger] (a + b)[i]) by {
            if i < a.len() {
                assert((a + b)[i] == a[i]);
            } else {
                assert((a + b)[i] == b[i - a.len()]);
            }
        }
        law_trim_end_cuts_trailing_blanks(s, a + b);
        law_trim_start_cuts_leading_blanks(s, s);
        assert(s + s == s);
    }
}

/// Any text is what trimming leaves, with white space around it.
pub proof fn lemma_trimmed_parts(s: Seq<char>) -> (r: (Seq<char>, Seq<char>))
    ensures
        all_blank(r.0),
        all_blank(r.1),
        is_bare(text::trimmed(s)),
        s == r.0 + text::trimmed(s) + r.1,
{
    let (kept, b) = lemma_end_parts(s);
    let a = lemma_start_parts(kept);
    assert(s == a + text::trimmed(s) + b);
    if text::trimmed(s).len() > 0 {
        assert(text::trimmed(s).last() == kept.last());
    }
    (a, b)
}

/// What trimming the end leaves, and what it cuts off.
pub proof fn lemma_end_parts(s: Seq<char>) -> (r: (Seq<char>, Seq<char>))
    ensures
        r.0 == text::trimmed_end(s),
        s == r.0 + r.1,
        all_blank(r.1),
        r.0.len() > 0 ==> !blank(r.0.last()),
    decreases s.len(),
{
    if s.len() > 0 && text::white_space(s.last()) {
        let (kept, b) = lemma_end_parts(s.drop_last());
        let c = b.push(s.last());
        assert(s == s.drop_last().push(s.last()));
        assert(s == kept + c);
        (kept, c)
    } else {
        assert(s == s + Seq::<char>::empty());
        (s, seq![])
    }
}

/// What trimming the start cuts off.
pub proof fn lemma_start_parts(s: Seq<char>) -> (a: Seq<char>)
    ensures
        s == a + text::trimmed_start(s),
        all_blank(a),
        text::trimmed_start(s).len() > 0 ==> !blank(text::trimmed_start(s)[0]),
    decreases s.len(),
{
    if s.len() > 0 && text::white_space(s[0]) {
        let rest = lemma_start_parts(s.skip(1));
        let a = seq![s[0]] + rest;
        assert(s == seq![s[0]] + s.skip(1));
        assert(s == a + text::trimmed_start(s));
        assert forall|i: int| 0 <= i < a.len() implies blank(#[trigger] a[i]) by {
            if i > 0 {
                assert(a[i] == rest[i - 1]);
            }
        }
        a
    } else {
        assert(s == Seq::<char>::empty() + s);
        seq![]
    }
}

/// Trimming cuts white space off at the ends until none is left there.
pub proof fn law_trim_leaves_no_blank_ends(s: Seq<char>)
    ensures
        is_bare(text::trimmed(s)),
        exists|a: Seq<char>, b: Seq<char>|
            all_blank(a) && all_blank(b) && s == #[trigger] (a + text::trimmed(s) + b),
{
    let (a, b) = lemma_trimmed_parts(s);
    assert(s == a + text::trimmed(s) + b);
}

// --- prefixes and suffixes --------------------------------------------------

/// A text begins, ends with, or holds another where it is that other with
/// something behind it, before it, or around it.
pub proof fn law_parts_of_a_text(s: Seq<char>, t: Seq<char>)
    ensures
        text::begins(s, t) <==> t.is_prefix_of(s),
        text::ends(s, t) <==> t.is_suffix_of(s),
        text::occurs(s, t) <==> promises::shows(s, t),
{
    if t.len() <= s.len() {
        assert(s.take(t.len() as int) == s.subrange(0, t.len() as int));
        assert(s.skip(s.len() - t.len()) == s.subrange(s.len() - t.len(), s.len() as int));
    }
    if text::occurs(s, t) {
        let i = choose|i: int|
            0 <= i <= s.len() - t.len() && #[trigger] s.subrange(i, i + t.len()) == t;
        promises::lemma_shows(s, s.take(i), t, s.skip(i + t.len()));
    }
    if promises::shows(s, t) {
        let (front, rest) = choose|front: Seq<char>, rest: Seq<char>|
            s == #[trigger] (front + t + rest);
        let i = front.len() as int;
        assert(s.subrange(i, i + t.len()) == t);
    }
}

/// One copy of a suffix is cut off, and only a copy of the whole suffix.
pub proof fn law_suffix_is_cut_once(s: Seq<char>, t: Seq<char>)
    ensures
        text::without_suffix(s + t, t) == s,
        !t.is_suffix_of(s) ==> text::without_suffix(s, t) == s,
{
    law_parts_of_a_text(s, t);
    law_parts_of_a_text(s + t, t);
    assert((s + t).subrange(s.len() as int, (s + t).len() as int) == t);
    assert((s + t).take(s.len() as int) == s);
}

/// All trailing copies are cut off.
pub proof fn law_all_copies_are_cut(s: Seq<char>, t: Seq<char>)
    requires
        t.len() > 0,
    ensures
        text::stripped_end(s + t, t) == text::stripped_end(s, t),
        !t.is_suffix_of(s) ==> text::stripped_end(s, t) == s,
{
    law_parts_of_a_text(s, t);
    law_parts_of_a_text(s + t, t);
    assert((s + t).subrange(s.len() as int, (s + t).len() as int) == t);
    assert((s + t).take(s.len() as int) == s);
}

/// The last occurrence of a character splits a text.
pub proof fn law_last_occurrence(s: Seq<char>, c: char)
    ensures
        ({
            let n = text::up_to_last(s, c);
            &&& 0 <= n <= s.len()
            &&& n > 0 ==> s[n - 1] == c
            &&& forall|i: int| n <= i < s.len() ==> s[i] != c
        }),
    decreases s.len(),
{
    if s.len() > 0 && s.last() != c {
        let front = s.drop_last();
        law_last_occurrence(front, c);
        let n = text::up_to_last(s, c);
        assert forall|i: int| n <= i < s.len() implies s[i] != c by {
            if i < front.len() {
                assert(front[i] == s[i]);
            }
        }
    }
}

/// The first occurrence of a character splits a text.
pub proof fn law_first_occurrence(a: Seq<char>, c: char, b: Seq<char>)
    requires
        !a.contains(c),
    ensures
        text::before(a, c) == a.len(),
        text::before(a + seq![c] + b, c) == a.len(),
{
    text::lemma_before(a, c);
    let s = a + seq![c] + b;
    text::lemma_before(s, c);
    let n = text::before(s, c);
    assert(s[a.len() as int] == c);
    if n < a.len() {
        assert(a[n] == s[n]);
        assert(a.contains(c));
    }
}

// --- lines ------------------------------------------------------------------

/// A line of text: it holds no line end, and does not look like half of one.
pub open spec fn is_line(s: Seq<char>) -> bool {
    !s.contains('\n') && (s.len() > 0 ==> s.last() != '\r')
}

/// The first line ends at the first line feed, with or without a carriage return
/// before it; the lines after it are those of the rest.
pub proof fn law_first_line(line: Seq<char>, rest: Seq<char>)
    requires
        !line.contains('\n'),
    ensures
        is_line(line) ==> text::line_seq(line + seq!['\n'] + rest) == seq![line] + text::line_seq(
            rest,
        ),
        text::line_seq(line + seq!['\r'] + seq!['\n'] + rest) == seq![line] + text::line_seq(rest),
{
    let s = line + seq!['\n'] + rest;
    law_first_occurrence(line, '\n', rest);
    assert(s.take(line.len() as int) == line);
    assert(s.skip(line.len() as int + 1) == rest);
    let full = line + seq!['\r'];
    let t = full + seq!['\n'] + rest;
    assert(!full.contains('\n')) by {
        if full.contains('\n') {
            let k = choose|k: int| 0 <= k < full.len() && full[k] == '\n';
            assert(line[k] == '\n');
        }
    }
    law_first_occurrence(full, '\n', rest);
    assert(t.take(full.len() as int) == full);
    assert(t.skip(full.len() as int + 1) == rest);
    assert(full.drop_last() == line);
    assert(text::without_return(full) == line);
}

/// The last line need not be ended; a text without characters has no line.
pub proof fn law_last_line(line: Seq<char>)
    requires
        !line.contains('\n'),
    ensures
        text::line_seq(line) == if line.len() == 0 {
            Seq::<Seq<char>>::empty()
        } else {
            seq![line]
        },
{
    text::lemma_before(line, '\n');
}

// --- words ------------------------------------------------------------------

/// The first word stands behind leading white space and ends at the next.
pub proof fn law_first_word(a: Seq<char>, w: Seq<char>, rest: Seq<char>, n: nat)
    requires
        all_blank(a),
        none_blank(w),
        w.len() > 0,
        rest.len() > 0 ==> blank(rest[0]),
    ensures
        text::word(a + w + rest, 0) == Some(w),
        text::word(a + w + rest, n + 1) == text::word(rest, n),
{
    let t = w + rest;
    assert(a + w + rest == a + t);
    assert(t[0] == w[0]);
    law_trim_start_cuts_leading_blanks(a, t);
    lemma_word_len(w, rest);
    assert(t.take(w.len() as int) == w);
    assert(t.skip(w.len() as int) == rest);
}

proof fn lemma_word_len(w: Seq<char>, rest: Seq<char>)
    requires
        none_blank(w),
        rest.len() > 0 ==> blank(rest[0]),
    ensures
        text::word_len(w + rest) == w.len(),
    decreases w.len(),
{
    if w.len() > 0 {
        assert(!blank(w[0]));
        assert((w + rest).skip(1) == w.skip(1) + rest);
        assert forall|i: int| 0 <= i < w.skip(1).len() implies !blank(
            #[trigger] w.skip(1)[i],
        ) by {
            assert(w.skip(1)[i] == w[i + 1]);
        }
        lemma_word_len(w.skip(1), rest);
    } else {
        assert(w + rest == rest);
    }
}

/// White space alone holds no word.
pub proof fn law_blanks_hold_no_word(a: Seq<char>, n: nat)
    requires
        all_blank(a),
    ensures
        text::word(a, n) is None,
{
    law_trim_start_cuts_leading_blanks(a, seq![]);
    assert(a + Seq::<char>::empty() == a);
}

/// Joined texts stand one after the other with the separator between them.
pub proof fn law_joined_texts(parts: Seq<Seq<char>>, last: Seq<char>, sep: Seq<char>)
    ensures
        text::joined(seq![], sep).len() == 0,
        text::joined(seq![last], sep) == last,
        parts.len() > 0 ==> text::joined(parts.push(last), sep) == text::joined(parts, sep) + sep
            + last,
{
    assert(parts.push(last).drop_last() == parts);
}

// --- numbers ----------------------------------------------------------------

/// Decimal digits alone.
pub open spec fn all_digits(s: Seq<char>) -> bool {
    forall|i: int| 0 <= i < s.len() ==> '0' <= #[trigger] s[i] <= '9'
}

/// The number that decimal digits denote.
pub open spec fn number(s: Seq<char>) -> nat
    decreases s.len(),
{
    if s.len() == 0 {
        0
    } else {
        number(s.drop_last()) * 10 + (s.last() as int - 48) as nat
    }
}

/// A number is shown in decimal digits that denote it, without a leading zero.
pub proof fn law_numbers_are_shown_in_decimal(n: nat)
    ensures
        all_digits(text::decimal(n)),
        text::decimal(n).len() > 0,
        number(text::decimal(n)) == n,
        n > 0 ==> text::decimal(n)[0] != '0',
    decreases n,
{
    let s = text::decimal(n);
    if n < 10 {
        assert(s.drop_last() == Seq::<char>::empty());
        assert(number(s.drop_last()) == 0);
    } else {
        law_numbers_are_shown_in_decimal(n / 10);
        let front = text::decimal(n / 10);
        assert(s.drop_last() == front);
        assert forall|i: int| 0 <= i < s.len() implies '0' <= #[trigger] s[i] <= '9' by {
            if i < front.len() {
                assert(s[i] == front[i]);
            }
        }
        assert(s[0] == front[0]);
    }
}

/// A negative number is shown with a minus sign before its digits.
pub proof fn law_negative_numbers_have_a_sign(n: nat)
    ensures
        text::signed_decimal(n as int) == text::decimal(n),
        n > 0 ==> text::signed_decimal(-n) == seq!['-'] + text::decimal(n),
{
}

/// A count is read if and only if it is decimal digits, with or without a plus
/// sign before them, that denote a number within `usize`; it is that number.
pub proof fn law_counts_are_decimal_digits(s: Seq<char>)
    requires
        s.len() > 0 ==> s[0] != '+',
    ensures
        (s.len() > 0 && all_digits(s) && number(s) <= usize::MAX) ==> text::count_of(s) == Ok::<
            nat,
            text::CountError,
        >(number(s)) && text::count_of(seq!['+'] + s) == Ok::<nat, text::CountError>(number(s)),
        !(s.len() > 0 && all_digits(s) && number(s) <= usize::MAX) ==> text::count_of(s) is Err
            && text::count_of(seq!['+'] + s) is Err,
{
    let signed = seq!['+'] + s;
    assert(signed.skip(1) == s);
    lemma_digit_count(s);
    if all_digits(s) {
        lemma_number(s);
    }
    assert(s.take(s.len() as int) == s);
}

/// The leading digits are all characters of a text of digits, and of no other.
pub proof fn lemma_digit_count(s: Seq<char>)
    ensures
        0 <= text::digit_count(s) <= s.len(),
        all_digits(s) <==> text::digit_count(s) == s.len(),
    decreases s.len(),
{
    if s.len() > 0 {
        let t = s.skip(1);
        lemma_digit_count(t);
        if all_digits(s) {
            assert('0' <= s[0] <= '9');
            assert forall|i: int| 0 <= i < t.len() implies '0' <= #[trigger] t[i] <= '9' by {
                assert(t[i] == s[i + 1]);
            }
        }
        if text::digit_count(s) == s.len() {
            assert forall|i: int| 0 <= i < s.len() implies '0' <= #[trigger] s[i] <= '9' by {
                if i > 0 {
                    assert(t[i - 1] == s[i]);
                }
            }
        }
    }
}

/// The number of digits is read from the left.
pub proof fn lemma_number(s: Seq<char>)
    requires
        all_digits(s),
    ensures
        text::digits_value(s) == number(s),
    decreases s.len(),
{
    if s.len() > 0 {
        let front = s.drop_last();
        assert forall|i: int| 0 <= i < front.len() implies '0' <= #[trigger] front[i] <= '9' by {
            assert(front[i] == s[i]);
        }
        lemma_number(front);
        assert('0' <= s[s.len() - 1] <= '9');
    }
}

// --- order ------------------------------------------------------------------

/// Texts are ordered as words in a dictionary: by the first character in which
/// they differ, and the shorter one first where there is none.
pub proof fn law_order_of_texts(a: Seq<char>, b: Seq<char>)
    ensures
        text::precedes(a, b) <==> exists|k: int|
            {
                &&& 0 <= k <= a.len()
                &&& k < b.len()
                &&& #[trigger] a.take(k) == b.take(k)
                &&& k == a.len() || a[k] < b[k]
            },
    decreases a.len(),
{
    if a.len() > 0 && b.len() > 0 && a[0] == b[0] {
        let x = a.skip(1);
        let y = b.skip(1);
        law_order_of_texts(x, y);
        if text::precedes(a, b) {
            let k = choose|k: int|
                {
                    &&& 0 <= k <= x.len()
                    &&& k < y.len()
                    &&& #[trigger] x.take(k) == y.take(k)
                    &&& k == x.len() || x[k] < y[k]
                };
            assert forall|i: int| 0 <= i < k + 1 implies a[i] == b[i] by {
                if i > 0 {
                    assert(x.take(k)[i - 1] == y.take(k)[i - 1]);
                }
            }
            assert(a.take(k + 1) == b.take(k + 1));
        }
        if exists|k: int|
            {
                &&& 0 <= k <= a.len()
                &&& k < b.len()
                &&& #[trigger] a.take(k) == b.take(k)
                &&& k == a.len() || a[k] < b[k]
            } {
            let k = choose|k: int|
                {
                    &&& 0 <= k <= a.len()
                    &&& k < b.len()
                    &&& #[trigger] a.take(k) == b.take(k)
                    &&& k == a.len() || a[k] < b[k]
                };
            assert forall|i: int| 0 <= i < k - 1 implies x[i] == y[i] by {
                assert(a.take(k)[i + 1] == b.take(k)[i + 1]);
            }
            assert(x.take(k - 1) == y.take(k - 1));
        }
    } else if a.len() == 0 {
        assert(a.take(0) == b.take(0));
    } else if b.len() > 0 {
        if a[0] < b[0] {
            assert(a.take(0) == b.take(0));
        }
        if exists|k: int|
            {
                &&& 0 <= k <= a.len()
                &&& k < b.len()
                &&& #[trigger] a.take(k) == b.take(k)
                &&& k == a.len() || a[k] < b[k]
            } {
            let k = choose|k: int|
                {
                    &&& 0 <= k <= a.len()
                    &&& k < b.len()
                    &&& #[trigger] a.take(k) == b.take(k)
                    &&& k == a.len() || a[k] < b[k]
                };
            if k > 0 {
                assert(a.take(k)[0] == b.take(k)[0]);
            }
        }
    }
}

} // verus!
