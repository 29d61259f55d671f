//! Small verified operations on text.
use vstd::prelude::*;
use vstd::string::*;

verus! {

/// `s` with every leading `v` removed.
pub open spec fn strip_vs(s: Seq<char>) -> Seq<char>
    decreases s.len(),
{
    if s.len() > 0 && s[0] == 'v' {
        strip_vs(s.subrange(1, s.len() as int))
    } else {
        s
    }
}

/// Whether `p` is a prefix of `s`.
pub open spec fn is_prefix(p: Seq<char>, s: Seq<char>) -> bool {
    p.len() <= s.len() && s.subrange(0, p.len() as int) == p
}

/// Compares two strings character by character.
pub fn eq_str(a: &str, b: &str) -> (r: bool)
    ensures
        r == (a@ == b@),
{
    let n = a.unicode_len();
    if n != b.unicode_len() {
        return false;
    }
    let mut i: usize = 0;
    while i < n
        invariant
            n == a@.len(),
            n == b@.len(),
            i <= n,
            forall|j: int| 0 <= j < i ==> a@[j] == b@[j],
        decreases n - i,
    {
        if a.get_char(i) != b.get_char(i) {
            return false;
        }
        i = i + 1;
    }
    assert(a@ =~= b@);
    true
}

/// Whether `s` starts with `p`.
pub fn starts_with(s: &str, p: &str) -> (r: bool)
    ensures
        r == is_prefix(p@, s@),
{
    let n = p.unicode_len();
    if n > s.unicode_len() {
        return false;
    }
    let head = s.substring_char(0, n);
    eq_str(head, p)
}

/// `s` without the prefix `p`, or `None` where `s` does not start with `p`.
pub fn strip_prefix<'a>(s: &'a str, p: &str) -> (r: Option<&'a str>)
    ensures
        is_prefix(p@, s@) ==> r is Some && r->0@ == s@.subrange(p@.len() as int, s@.len() as int),
        !is_prefix(p@, s@) ==> r is None,
{
    if starts_with(s, p) {
        Some(s.substring_char(p.unicode_len(), s.unicode_len()))
    } else {
        None
    }
}

/// `s` with every leading `v` removed.
pub fn trim_leading_vs(s: &str) -> (r: &str)
    ensures
        r@ == strip_vs(s@),
{
    let n = s.unicode_len();
    let mut i: usize = 0;
    assert(s@.subrange(0, n as int) =~= s@);
    while i < n && s.get_char(i) == 'v'
        invariant
            n == s@.len(),
            i <= n,
            strip_vs(s@) == strip_vs(s@.subrange(i as int, n as int)),
        decreases n - i,
    {
        let ghost rest = s@.subrange(i as int, n as int);
        assert(rest.subrange(1, rest.len() as int) =~= s@.subrange(i + 1, n as int));
        i = i + 1;
    }
    let r = s.substring_char(i, n);
    if i < n {
        assert(r@[0] == s@[i as int]);
    }
    r
}

} // verus!
