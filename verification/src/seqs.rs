//! Shared sequence helpers: bounded suffix windows and concatenation.

use vstd::prelude::*;

verus! {

/// The suffix of `s` holding its last `n` elements (all of `s` when `s` is
/// shorter than `n`).
pub open spec fn last_n<T>(s: Seq<T>, n: int) -> Seq<T> {
    if s.len() <= n {
        s
    } else {
        s.subrange(s.len() - n, s.len() as int)
    }
}

/// Appending one element to `s` shifts its `n`-window by at most one slot.
pub proof fn lemma_last_n_push<T>(s: Seq<T>, x: T, n: int)
    requires
        n >= 1,
    ensures
        last_n(s, n).len() < n ==> last_n(s.push(x), n) == last_n(s, n).push(x),
        last_n(s, n).len() >= n ==> last_n(s.push(x), n) == last_n(s, n).drop_first().push(x),
{
    if s.len() < n {
        assert(last_n(s.push(x), n) =~= last_n(s, n).push(x));
    } else {
        assert(last_n(s.push(x), n) =~= last_n(s, n).drop_first().push(x));
    }
}

/// All the elements of `ss`, in order.
pub open spec fn concat_all<T>(ss: Seq<Seq<T>>) -> Seq<T>
    decreases ss.len(),
{
    if ss.len() == 0 {
        Seq::empty()
    } else {
        ss.first() + concat_all(ss.drop_first())
    }
}

pub proof fn lemma_concat_all_push<T>(ss: Seq<Seq<T>>, x: Seq<T>)
    ensures
        concat_all(ss.push(x)) == concat_all(ss) + x,
    decreases ss.len(),
{
    if ss.len() == 0 {
        assert(ss.push(x).drop_first() =~= Seq::<Seq<T>>::empty());
        assert(concat_all(ss.push(x)) == x + concat_all(Seq::<Seq<T>>::empty()));
        assert(concat_all(ss.push(x)) =~= concat_all(ss) + x);
    } else {
        assert(ss.push(x).drop_first() =~= ss.drop_first().push(x));
        lemma_concat_all_push(ss.drop_first(), x);
        assert(concat_all(ss.push(x)) =~= concat_all(ss) + x);
    }
}

} // verus!
