//! Sequences without repetition.

use vstd::prelude::*;

verus! {

/// No two positions of `s` hold the same value.
pub open spec fn distinct<T>(s: Seq<T>) -> bool {
    forall|i: int, j: int| 0 <= i < j < s.len() ==> s[i] != s[j]
}

/// In a sequence without repetition a value is found at one position only.
pub proof fn lemma_index_of_distinct<T>(s: Seq<T>, x: T, i: int)
    requires
        distinct(s),
        0 <= i < s.len(),
        s[i] == x,
    ensures
        s.contains(x),
        s.index_of(x) == i,
{
    assert(s.contains(x));
    let j = s.index_of(x);
    if j < i {
        assert(s[j] != s[i]);
    } else if i < j {
        assert(s[i] != s[j]);
    }
}

/// Appending a value that does not occur keeps a sequence free of repetition.
pub proof fn lemma_push_distinct<T>(s: Seq<T>, x: T)
    requires
        distinct(s),
        !s.contains(x),
    ensures
        distinct(s.push(x)),
        s.push(x).contains(x),
        s.push(x).index_of(x) == s.len(),
{
    let t = s.push(x);
    assert forall|i: int, j: int| 0 <= i < j < t.len() implies t[i] != t[j] by {
        if j == s.len() {
            assert(s[i] == t[i]);
            assert(s.contains(t[i]));
        } else {
            assert(s[i] != s[j]);
        }
    }
    assert(t[s.len() as int] == x);
    lemma_index_of_distinct(t, x, s.len() as int);
}

} // verus!
