//! Finding the first reported fault in a sequence of per-position outcomes.

use vstd::prelude::*;

verus! {

/// The first `Some` of `s`, reading from the front; `None` when there is none.
pub open spec fn first_some<E>(s: Seq<Option<E>>) -> Option<E>
    decreases s.len(),
{
    if s.len() == 0 {
        None
    } else if s[0] is Some {
        s[0]
    } else {
        first_some(s.drop_first())
    }
}

/// When nothing before position `i` is `Some` and position `i` is, the first
/// `Some` is the one at `i`.
pub proof fn lemma_first_some_at<E>(s: Seq<Option<E>>, i: int)
    requires
        0 <= i < s.len(),
        s[i] is Some,
        forall|j: int| 0 <= j < i ==> s[j] is None,
    ensures
        first_some(s) == s[i],
    decreases s.len(),
{
    if i > 0 {
        let rest = s.drop_first();
        assert(rest[i - 1] == s[i]);
        assert forall|j: int| 0 <= j < i - 1 implies rest[j] is None by {
            assert(rest[j] == s[j + 1]);
        }
        lemma_first_some_at(rest, i - 1);
    }
}

/// The first `Some` is `None` exactly when every position is `None`.
pub proof fn lemma_first_some_none<E>(s: Seq<Option<E>>)
    ensures
        first_some(s) is None <==> forall|j: int| 0 <= j < s.len() ==> s[j] is None,
    decreases s.len(),
{
    if s.len() > 0 {
        let rest = s.drop_first();
        lemma_first_some_none(rest);
        if s[0] is None {
            if first_some(s) is None {
                assert forall|j: int| 0 <= j < s.len() implies s[j] is None by {
                    if j > 0 {
                        assert(rest[j - 1] == s[j]);
                    }
                }
            }
            if forall|j: int| 0 <= j < s.len() ==> s[j] is None {
                assert forall|j: int| 0 <= j < rest.len() implies rest[j] is None by {
                    assert(rest[j] == s[j + 1]);
                }
            }
        }
    }
}

} // verus!
