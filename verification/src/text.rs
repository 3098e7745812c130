//! Sequence-level string helpers shared by the loaders and the renderer.

use vstd::prelude::*;
use vstd::string::*;
use vstd::utf8::*;

verus! {

/// `s` ends with `suffix`.
pub open spec fn ends_with(s: Seq<char>, suffix: Seq<char>) -> bool {
    &&& suffix.len() <= s.len()
    &&& s.subrange(s.len() - suffix.len(), s.len() as int) == suffix
}

/// `s` without its last `suffix.len()` characters.
pub open spec fn without_suffix(s: Seq<char>, suffix: Seq<char>) -> Seq<char>
    recommends
        suffix.len() <= s.len(),
{
    s.subrange(0, s.len() - suffix.len())
}

/// Removing a suffix and putting it back gives the string back, and a
/// string that was built by appending `suffix` ends with it.
pub proof fn lemma_suffix_split(s: Seq<char>, suffix: Seq<char>)
    ensures
        ends_with(s, suffix) ==> without_suffix(s, suffix) + suffix == s,
        ends_with(s + suffix, suffix),
        without_suffix(s + suffix, suffix) == s,
{
    if ends_with(s, suffix) {
        assert(without_suffix(s, suffix) + suffix =~= s);
    }
    let t = s + suffix;
    assert(t.subrange(t.len() - suffix.len(), t.len() as int) =~= suffix);
    assert(without_suffix(t, suffix) =~= s);
}

/// The characters of each string of a list, in order.
pub open spec fn strings_view(strings: Seq<String>) -> Seq<Seq<char>> {
    Seq::new(strings.len(), |i: int| strings[i]@)
}

/// A copy of a list of strings.
pub fn clone_strings(strings: &Vec<String>) -> (copy: Vec<String>)
    ensures
        strings_view(copy@) == strings_view(strings@),
{
    let mut copy: Vec<String> = Vec::new();
    let mut i: usize = 0;
    while i < strings.len()
        invariant
            i <= strings@.len(),
            copy@.len() == i,
            forall|j: int| 0 <= j < i ==> copy@[j]@ == strings@[j]@,
        decreases strings@.len() - i,
    {
        copy.push(strings[i].clone());
        i += 1;
    }
    assert(strings_view(copy@) =~= strings_view(strings@));
    copy
}

/// Whether two string slices hold the same characters.
pub fn str_eq(a: &str, b: &str) -> (same: bool)
    ensures
        same == (a@ == b@),
{
    let x = a.as_bytes();
    let y = b.as_bytes();
    proof {
        encode_utf8_decode_utf8(a@);
        encode_utf8_decode_utf8(b@);
    }
    if x.len() != y.len() {
        return false;
    }
    let mut i: usize = 0;
    while i < x.len()
        invariant
            x@.len() == y@.len(),
            i <= x@.len(),
            forall|j: int| 0 <= j < i ==> x@[j] == y@[j],
            x@ == encode_utf8(a@),
            y@ == encode_utf8(b@),
            decode_utf8(encode_utf8(a@)) == a@,
            decode_utf8(encode_utf8(b@)) == b@,
        decreases x@.len() - i,
    {
        if x[i] != y[i] {
            return false;
        }
        i += 1;
    }
    assert(x@ =~= y@);
    true
}

/// The part of `s` before `suffix`, or `None` when `s` does not end with it.
pub fn strip_suffix<'a>(s: &'a str, suffix: &str) -> (head: Option<&'a str>)
    ensures
        ends_with(s@, suffix@) <==> head is Some,
        head matches Some(h) ==> h@ == without_suffix(s@, suffix@) && h@ + suffix@ == s@,
{
    let n = s.unicode_len();
    let m = suffix.unicode_len();
    if m > n {
        return None;
    }
    let tail = s.substring_char(n - m, n);
    if str_eq(tail, suffix) {
        proof {
            lemma_suffix_split(s@, suffix@);
        }
        Some(s.substring_char(0, n - m))
    } else {
        None
    }
}

} // verus!
