//! What the tool promises its users: for each operation, how its outcome relates
//! to what went in. The statements speak of the plain parts of inputs and
//! outcomes (fields, exit codes, arguments, literal texts), so that each can be
//! held against the promise without a look at how the operation is carried out.

use vstd::prelude::*;

use crate::command;
use crate::text;

pub mod base;
pub mod checkup;
pub mod flow;
pub mod new_pr;
pub mod operations;
pub mod push;
pub mod remote;
pub mod replies;
pub mod repo;
pub mod screen;
pub mod words;

verus! {

/// The same letter, up to the case of ASCII letters.
pub open spec fn same_letter(a: char, b: char) -> bool {
    ||| a == b
    ||| 'A' <= a <= 'Z' && b as int == a as int + 32
    ||| 'A' <= b <= 'Z' && a as int == b as int + 32
}

/// The same text, up to the case of ASCII letters.
pub open spec fn same_letters(a: Seq<char>, b: Seq<char>) -> bool {
    &&& a.len() == b.len()
    &&& forall|i: int| 0 <= i < a.len() ==> same_letter(#[trigger] a[i], b[i])
}

/// `owner` is what stands before the first slash of an `owner/name`.
pub open spec fn is_owner(owner: Seq<char>, name_with_owner: Seq<char>) -> bool {
    &&& owner.is_prefix_of(name_with_owner)
    &&& !owner.contains('/')
    &&& owner.len() == name_with_owner.len() || name_with_owner[owner.len() as int] == '/'
}

/// A text that shows `part` somewhere.
pub open spec fn shows(s: Seq<char>, part: Seq<char>) -> bool {
    exists|front: Seq<char>, rest: Seq<char>| s == #[trigger] (front + part + rest)
}

/// Lower case forgets the case of ASCII letters, and nothing else.
pub proof fn law_lower_case_forgets_case(a: Seq<char>, b: Seq<char>)
    ensures
        text::lowercase(a) == text::lowercase(b) <==> same_letters(a, b),
{
    let x = text::lowercase(a);
    let y = text::lowercase(b);
    assert(x.len() == a.len() && y.len() == b.len());
    assert(forall|i: int| 0 <= i < a.len() ==> x[i] == text::lower(#[trigger] a[i]));
    assert(forall|i: int| 0 <= i < b.len() ==> y[i] == text::lower(#[trigger] b[i]));
    if same_letters(a, b) {
        assert forall|i: int| 0 <= i < a.len() implies x[i] == y[i] by {
            assert(same_letter(a[i], b[i]));
        }
        assert(x == y);
    }
    if x == y {
        assert forall|i: int| 0 <= i < a.len() implies same_letter(#[trigger] a[i], b[i]) by {
            assert(x[i] == y[i]);
            assert(b[i] == b[i]);
        }
    }
}

/// What stands in the middle of a text is shown by it.
pub proof fn lemma_shows(s: Seq<char>, front: Seq<char>, part: Seq<char>, rest: Seq<char>)
    requires
        s =~= front + part + rest,
    ensures
        shows(s, part),
{
}

/// What a part shows, the whole shows.
pub proof fn lemma_shows_more(s: Seq<char>, a: Seq<char>, t: Seq<char>, b: Seq<char>, part: Seq<char>)
    requires
        s =~= a + t + b,
        shows(t, part),
    ensures
        shows(s, part),
{
    let (front, rest) = choose|front: Seq<char>, rest: Seq<char>|
        t == #[trigger] (front + part + rest);
    assert(s == (a + front) + part + (rest + b));
}

/// The owner is the part before the first slash.
pub proof fn lemma_owner(name_with_owner: Seq<char>)
    ensures
        is_owner(
            name_with_owner.take(text::before(name_with_owner, '/')),
            name_with_owner,
        ),
{
    text::lemma_before(name_with_owner, '/');
}

/// Two owners of one name are the same.
pub proof fn lemma_one_owner(a: Seq<char>, b: Seq<char>, name_with_owner: Seq<char>)
    requires
        is_owner(a, name_with_owner),
        is_owner(b, name_with_owner),
    ensures
        a == b,
{
    if a.len() < b.len() {
        assert(b[a.len() as int] == '/');
    } else if b.len() < a.len() {
        assert(a[b.len() as int] == '/');
    }
    assert(a == b);
}

/// The program ended with exit code zero.
pub open spec fn ended_well(r: command::ReplyView) -> bool {
    r matches command::ReplyView::Exited { code: Some(c), .. } && c == 0
}

} // verus!
