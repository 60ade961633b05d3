//! Character sequences: case folding and substring search.

use vstd::prelude::*;
use vstd::std_specs::iter::IteratorSpec;

verus! {

/// The ASCII lower-case form of a character; every other character is itself.
pub open spec fn fold_char(c: char) -> char {
    if 'A' <= c && c <= 'Z' {
        ((c as u8) + 32u8) as char
    } else {
        c
    }
}

/// A text with every ASCII capital replaced by its small letter.
pub open spec fn fold(s: Seq<char>) -> Seq<char> {
    s.map_values(|c: char| fold_char(c))
}

/// `needle` stands in `hay` at position `at`.
pub open spec fn occurs_at(hay: Seq<char>, needle: Seq<char>, at: int) -> bool {
    &&& 0 <= at
    &&& at + needle.len() <= hay.len()
    &&& hay.subrange(at, at + needle.len()) == needle
}

/// `needle` stands somewhere in `hay`, letter for letter.
pub open spec fn contains(hay: Seq<char>, needle: Seq<char>) -> bool {
    exists|at: int| occurs_at(hay, needle, at)
}

/// `needle` stands somewhere in `hay` when ASCII letters are compared without
/// regard to case.
pub open spec fn contains_ignoring_case(hay: Seq<char>, needle: Seq<char>) -> bool {
    contains(fold(hay), fold(needle))
}

/// Lower-cases one character if it is an ASCII capital.
pub fn to_lower(c: char) -> (r: char)
    ensures
        r == fold_char(c),
{
    if 'A' <= c && c <= 'Z' {
        ((c as u8) + 32u8) as char
    } else {
        c
    }
}

/// The characters of a string slice, in order.
pub fn chars_of(s: &str) -> (v: Vec<char>)
    ensures
        v@ == s@,
{
    let mut v: Vec<char> = Vec::new();
    let mut it = s.chars();
    let ghost start = it;
    loop
        invariant
            it.obeys_prophetic_iter_laws(),
            v@ + it.remaining() == s@,
            it.decrease() is Some,
        decreases it.decrease()->0,
    {
        let ghost before = it;
        match it.next() {
            Some(c) => {
                proof {
                    vstd::string::next_postcondition(&before, &it, Some(c));
                    assert((v@.push(c)) + it.remaining() =~= v@ + before.remaining());
                }
                v.push(c);
            },
            None => {
                proof {
                    vstd::string::next_postcondition(&before, &it, None);
                    assert(v@ + it.remaining() =~= v@);
                }
                return v;
            },
        }
    }
}

/// The folded form of each character of `s`, in order.
pub fn fold_chars(s: &[char]) -> (v: Vec<char>)
    ensures
        v@ == fold(s@),
{
    let mut v: Vec<char> = Vec::new();
    let mut i: usize = 0;
    while i < s.len()
        invariant
            i <= s.len(),
            v@ == fold(s@.subrange(0, i as int)),
        decreases s.len() - i,
    {
        let c = to_lower(s[i]);
        v.push(c);
        proof {
            assert(v@ =~= fold(s@.subrange(0, i + 1)));
        }
        i += 1;
    }
    proof {
        assert(s@.subrange(0, i as int) =~= s@);
    }
    v
}

/// Whether `needle` stands in `hay` at position `at`.
pub fn occurs_here(hay: &[char], needle: &[char], at: usize) -> (r: bool)
    ensures
        r == occurs_at(hay@, needle@, at as int),
{
    if needle.len() > hay.len() || at > hay.len() - needle.len() {
        return false;
    }
    let mut j: usize = 0;
    while j < needle.len()
        invariant
            j <= needle.len(),
            at + needle.len() <= hay.len(),
            forall|k: int| 0 <= k < j ==> hay@[at + k] == needle@[k],
        decreases needle.len() - j,
    {
        if hay[at + j] != needle[j] {
            proof {
                let window = hay@.subrange(at as int, at + needle.len());
                assert(window[j as int] == hay@[at + j]);
            }
            return false;
        }
        j += 1;
    }
    proof {
        assert(hay@.subrange(at as int, at + needle.len()) =~= needle@);
    }
    true
}

/// The first position at which `needle` stands in `hay`, if there is one.
pub fn find(hay: &[char], needle: &[char]) -> (r: Option<usize>)
    ensures
        r is Some <==> contains(hay@, needle@),
        r matches Some(at) ==> occurs_at(hay@, needle@, at as int) && forall|k: int|
            0 <= k < at ==> !occurs_at(hay@, needle@, k),
{
    if needle.len() > hay.len() {
        return None;
    }
    let last: usize = hay.len() - needle.len();
    let mut at: usize = 0;
    loop
        invariant
            last == hay.len() - needle.len(),
            at <= last,
            forall|k: int| 0 <= k < at ==> !occurs_at(hay@, needle@, k),
        decreases last - at,
    {
        if occurs_here(hay, needle, at) {
            return Some(at);
        }
        if at == last {
            return None;
        }
        at += 1;
    }
}

/// Whether two texts are the same, letter for letter.
pub fn same_text(a: &str, b: &str) -> (r: bool)
    ensures
        r == (a@ == b@),
{
    let h = chars_of(a);
    let n = chars_of(b);
    let r = h.len() == n.len() && occurs_here(h.as_slice(), n.as_slice(), 0);
    proof {
        if h.len() == n.len() {
            assert(h@.subrange(0, h@.len() as int) =~= h@);
        }
    }
    r
}

/// Whether `needle` stands somewhere in `hay`, letter for letter.
pub fn str_contains(hay: &str, needle: &str) -> (r: bool)
    ensures
        r == contains(hay@, needle@),
{
    let h = chars_of(hay);
    let n = chars_of(needle);
    find(h.as_slice(), n.as_slice()).is_some()
}

/// Whether `needle` stands somewhere in `hay` when ASCII letters are compared
/// without regard to case.
pub fn str_contains_ignoring_case(hay: &str, needle: &str) -> (r: bool)
    ensures
        r == contains_ignoring_case(hay@, needle@),
{
    let h = chars_of(hay);
    let n = chars_of(needle);
    let hf = fold_chars(h.as_slice());
    let nf = fold_chars(n.as_slice());
    find(hf.as_slice(), nf.as_slice()).is_some()
}

} // verus!
