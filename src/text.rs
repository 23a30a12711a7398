//! Small operations on text that the descriptor grammar is built from.
use vstd::prelude::*;

verus! {

/// Whether `t` starts with `prefix`.
pub open spec fn starts_with(t: Seq<char>, prefix: Seq<char>) -> bool {
    prefix.len() <= t.len() && t.take(prefix.len() as int) == prefix
}

pub open spec fn has_no_colon(t: Seq<char>) -> bool {
    forall|i: int| 0 <= i < t.len() ==> #[trigger] t[i] != ':'
}

/// Whether position `i` of `t` holds the first colon of `t`.
pub open spec fn first_colon_at(t: Seq<char>, i: int) -> bool {
    0 <= i < t.len() && t[i] == ':' && has_no_colon(t.take(i))
}

pub proof fn lemma_first_colon_unique(t: Seq<char>, i: int, j: int)
    requires
        first_colon_at(t, i),
        first_colon_at(t, j),
    ensures
        i == j,
{
    if i < j {
        assert(t.take(j)[i] == ':');
    } else if j < i {
        assert(t.take(i)[j] == ':');
    }
}

pub fn has_prefix(s: &str, prefix: &str) -> (r: bool)
    ensures
        r == starts_with(s@, prefix@),
{
    let n = prefix.unicode_len();
    let m = s.unicode_len();
    if n > m {
        return false;
    }
    let mut i: usize = 0;
    while i < n
        invariant
            n == prefix@.len(),
            m == s@.len(),
            n <= m,
            i <= n,
            forall|j: int| 0 <= j < i ==> s@[j] == prefix@[j],
        decreases n - i,
    {
        if s.get_char(i) != prefix.get_char(i) {
            assert(s@.take(n as int)[i as int] != prefix@[i as int]);
            return false;
        }
        i += 1;
    }
    assert(s@.take(n as int) =~= prefix@);
    true
}

/// The position of the first colon in `s`, if there is one.
pub fn find_colon(s: &str) -> (r: Option<usize>)
    ensures
        r matches Some(i) ==> first_colon_at(s@, i as int),
        r is None ==> has_no_colon(s@),
{
    let n = s.unicode_len();
    let mut i: usize = 0;
    while i < n
        invariant
            n == s@.len(),
            i <= n,
            has_no_colon(s@.take(i as int)),
        decreases n - i,
    {
        if s.get_char(i) == ':' {
            return Some(i);
        }
        assert(has_no_colon(s@.take(i + 1))) by {
            assert forall|j: int| 0 <= j < i + 1 implies #[trigger] s@.take(i + 1)[j] != ':' by {
                if j < i {
                    assert(s@.take(i + 1)[j] == s@.take(i as int)[j]);
                }
            }
        }
        i += 1;
    }
    assert(s@.take(n as int) =~= s@);
    None
}

} // verus!
