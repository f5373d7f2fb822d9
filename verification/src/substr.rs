//! Substring, prefix and suffix predicates over character sequences, and
//! how they carry through concatenation.  The badge laws use these to
//! state which fragments the rendered document contains.

use vstd::prelude::*;

verus! {

/// `needle` occurs contiguously somewhere in `hay`.
pub open spec fn has_substring(hay: Seq<char>, needle: Seq<char>) -> bool {
    exists|i: int|
        0 <= i && i + needle.len() <= hay.len() && #[trigger] hay.subrange(i, i + needle.len())
            == needle
}

/// `s` begins with `p`.
pub open spec fn starts_with(s: Seq<char>, p: Seq<char>) -> bool {
    p.len() <= s.len() && s.subrange(0, p.len() as int) == p
}

/// `s` ends with `p`.
pub open spec fn ends_with(s: Seq<char>, p: Seq<char>) -> bool {
    p.len() <= s.len() && s.subrange(s.len() - p.len(), s.len() as int) == p
}

/// Appending on the right keeps every substring and every prefix.
pub proof fn lemma_append_keeps(a: Seq<char>, b: Seq<char>)
    ensures
        forall|n: Seq<char>| #[trigger] has_substring(a, n) ==> has_substring(a + b, n),
        forall|n: Seq<char>| #[trigger] starts_with(a, n) ==> starts_with(a + b, n),
{
    assert forall|n: Seq<char>| #[trigger] has_substring(a, n) implies has_substring(
        a + b,
        n,
    ) by {
        let i = choose|i: int|
            0 <= i && i + n.len() <= a.len() && #[trigger] a.subrange(i, i + n.len()) == n;
        assert((a + b).subrange(i, i + n.len()) =~= n);
    }
    assert forall|n: Seq<char>| #[trigger] starts_with(a, n) implies starts_with(a + b, n) by {
        assert((a + b).subrange(0, n.len() as int) =~= n);
    }
}

/// A substring of the appended part is a substring of the whole.
pub proof fn lemma_append_has_substring(a: Seq<char>, b: Seq<char>, n: Seq<char>)
    requires
        has_substring(b, n),
    ensures
        has_substring(a + b, n),
{
    let i = choose|i: int|
        0 <= i && i + n.len() <= b.len() && #[trigger] b.subrange(i, i + n.len()) == n;
    assert((a + b).subrange(a.len() + i, a.len() + i + n.len()) =~= n);
}

/// A suffix of the appended part is a suffix of the whole.
pub proof fn lemma_append_ends_with(a: Seq<char>, b: Seq<char>, n: Seq<char>)
    requires
        ends_with(b, n),
    ensures
        ends_with(a + b, n),
{
    let s = a + b;
    assert(s.subrange(s.len() - n.len(), s.len() as int) =~= b.subrange(
        b.len() - n.len(),
        b.len() as int,
    ));
}

/// Every sequence is a substring of itself.
pub proof fn lemma_has_substring_self(s: Seq<char>)
    ensures
        has_substring(s, s),
{
    let i: int = 0;
    assert(s.subrange(i, i + s.len()) =~= s);
}

} // verus!
