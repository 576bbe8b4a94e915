//! Searching and comparing of text, stated over sequences of characters.

use vstd::prelude::*;
use vstd::std_specs::iter::IteratorSpec;
use vstd::string::*;

verus! {

/// `i` is the position of the first `d` in `s`.
pub open spec fn is_first_at(s: Seq<char>, d: char, i: int) -> bool {
    &&& 0 <= i < s.len()
    &&& s[i] == d
    &&& forall|j: int| 0 <= j < i ==> s[j] != d
}

/// `i` is the position of the last `d` in `s`.
pub open spec fn is_last_at(s: Seq<char>, d: char, i: int) -> bool {
    &&& 0 <= i < s.len()
    &&& s[i] == d
    &&& forall|j: int| i < j < s.len() ==> s[j] != d
}

/// Where the first `d` of `s` stands; meaningful only if `s` contains `d`.
pub open spec fn first_position(s: Seq<char>, d: char) -> int {
    choose|i: int| is_first_at(s, d, i)
}

/// Where the last `d` of `s` stands; meaningful only if `s` contains `d`.
pub open spec fn last_position(s: Seq<char>, d: char) -> int {
    choose|i: int| is_last_at(s, d, i)
}

/// A sequence has at most one first occurrence of a character.
pub proof fn lemma_first_position(s: Seq<char>, d: char, i: int)
    requires
        is_first_at(s, d, i),
    ensures
        s.contains(d),
        first_position(s, d) == i,
{
    let p = first_position(s, d);
    assert(is_first_at(s, d, p));
    if p < i {
        assert(s[p] != d);
    }
    if i < p {
        assert(s[i] != d);
    }
}

/// A sequence has at most one last occurrence of a character.
pub proof fn lemma_last_position(s: Seq<char>, d: char, i: int)
    requires
        is_last_at(s, d, i),
    ensures
        s.contains(d),
        last_position(s, d) == i,
{
    let p = last_position(s, d);
    assert(is_last_at(s, d, p));
    if p < i {
        assert(s[i] != d);
    }
    if i < p {
        assert(s[p] != d);
    }
}

/// What follows the last `d` of `s`: all of `s` where it holds no `d`.
pub open spec fn after_last(s: Seq<char>, d: char) -> Seq<char> {
    if s.contains(d) {
        s.subrange(last_position(s, d) + 1, s.len() as int)
    } else {
        s
    }
}

/// The position of the first `d` in `s`, if there is one.
pub fn find_first(s: &str, d: char) -> (r: Option<usize>)
    ensures
        r is Some <==> s@.contains(d),
        r matches Some(i) ==> is_first_at(s@, d, i as int),
{
    let n: usize = s.unicode_len();
    let mut idx: usize = 0;
    for c in it: s.chars()
        invariant
            n == s@.len(),
            idx == it.index(),
            it.seq() == s@,
            forall|j: int| 0 <= j < idx ==> s@[j] != d,
    {
        if c == d {
            return Some(idx);
        }
        idx = idx + 1;
    }
    None
}

/// The position of the last `d` in `s`, if there is one.
pub fn find_last(s: &str, d: char) -> (r: Option<usize>)
    ensures
        r is Some <==> s@.contains(d),
        r matches Some(i) ==> is_last_at(s@, d, i as int),
{
    let n: usize = s.unicode_len();
    let mut idx: usize = 0;
    let mut last: Option<usize> = None;
    for c in it: s.chars()
        invariant
            n == s@.len(),
            idx == it.index(),
            it.seq() == s@,
            last is None ==> forall|j: int| 0 <= j < idx ==> s@[j] != d,
            last matches Some(p) ==> p < idx && s@[p as int] == d && forall|j: int|
                p < j < idx ==> s@[j] != d,
    {
        if c == d {
            last = Some(idx);
        }
        idx = idx + 1;
    }
    last
}

/// What follows the last `d` of `s`: all of `s` where it holds no `d`.
pub fn tail_after_last(s: &str, d: char) -> (r: &str)
    ensures
        r@ == after_last(s@, d),
{
    match find_last(s, d) {
        Some(i) => {
            proof {
                lemma_last_position(s@, d, i as int);
            }
            let n: usize = s.unicode_len();
            s.substring_char(i + 1, n)
        },
        None => s,
    }
}

/// Whether two texts hold the same characters.
pub fn text_eq(a: &str, b: &str) -> (r: bool)
    ensures
        r == (a@ == b@),
{
    let n: usize = a.unicode_len();
    if n != b.unicode_len() {
        return false;
    }
    let mut other = b.chars();
    let mut idx: usize = 0;
    for c in it: a.chars()
        invariant
            n == a@.len(),
            n == b@.len(),
            idx == it.index(),
            it.seq() == a@,
            other.remaining() == b@.skip(idx as int),
            forall|j: int| 0 <= j < idx ==> a@[j] == b@[j],
    {
        let o = other.next();
        match o {
            Some(x) => {
                if x != c {
                    return false;
                }
            },
            None => {
                return false;
            },
        }
        idx = idx + 1;
    }
    assert(a@ =~= b@);
    true
}

/// The upper-case form of a text, as the standard library maps it.
pub uninterp spec fn uppercase_of(text: Seq<char>) -> Seq<char>;

/// Calls `str::to_uppercase` of the standard library. The mapping follows
/// the Unicode tables, so its result is named and not spelled out.
#[verifier::external_body]
pub(crate) fn to_uppercase(text: &str) -> (r: String)
    ensures
        r@ == uppercase_of(text@),
{
    text.to_uppercase()
}

} // verus!
