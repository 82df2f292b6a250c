//! Facts about going through a sequence from its start.

use vstd::prelude::*;

verus! {

/// Going one element further adds that element.
pub(crate) proof fn lemma_take_push<T>(s: Seq<T>, i: int)
    requires
        0 <= i < s.len(),
    ensures
        forall|x: T| s.take(i + 1).contains(x) <==> s.take(i).contains(x) || x == s[i],
{
    assert(s.take(i + 1) =~= s.take(i).push(s[i]));
    assert forall|x: T| s.take(i + 1).contains(x) <==> s.take(i).contains(x) || x == s[i] by {
        if s.take(i).contains(x) {
            let j = s.take(i).index_of(x);
            assert(s.take(i + 1)[j] == x);
        }
        if x == s[i] {
            assert(s.take(i + 1)[i] == x);
        }
    }
}

/// At the end, the elements gone through are all there are.
pub(crate) proof fn lemma_take_all<T>(s: Seq<T>, i: int, all: Set<T>)
    requires
        s.to_set() == all,
        0 <= i <= s.len(),
    ensures
        i == s.len() ==> forall|x: T| s.take(i).contains(x) <==> #[trigger] all.contains(x),
{
    if i == s.len() {
        assert(s.take(i) =~= s);
        assert forall|x: T| s.take(i).contains(x) <==> #[trigger] all.contains(x) by {
            assert(s.to_set().contains(x) <==> s.contains(x));
        }
    }
}

} // verus!
