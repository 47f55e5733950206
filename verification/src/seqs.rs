//! Small facts about sequences used by the loops of the library.

use vstd::prelude::*;

verus! {

/// Mapping after a push is pushing the mapped element.
pub proof fn lemma_map_values_push<A, B>(s: Seq<A>, x: A, f: spec_fn(A) -> B)
    ensures
        s.push(x).map_values(f) == s.map_values(f).push(f(x)),
{
    assert(s.push(x).map_values(f) =~= s.map_values(f).push(f(x)));
}

/// A prefix one longer is the shorter prefix with the next element pushed.
pub proof fn lemma_subrange_push<A>(s: Seq<A>, i: int)
    requires
        0 <= i < s.len(),
    ensures
        s.subrange(0, i + 1) == s.subrange(0, i).push(s[i]),
{
    assert(s.subrange(0, i + 1) =~= s.subrange(0, i).push(s[i]));
}

/// The whole prefix is the sequence.
pub proof fn lemma_subrange_all<A>(s: Seq<A>)
    ensures
        s.subrange(0, s.len() as int) == s,
{
    assert(s.subrange(0, s.len() as int) =~= s);
}

/// The last position below `i` where `s` holds `x`, or -1 when there is
/// none.
pub open spec fn last_position_before<A>(s: Seq<A>, x: A, i: int) -> int
    decreases i,
{
    if i <= 0 {
        -1
    } else if i - 1 < s.len() && s[i - 1] == x {
        i - 1
    } else {
        last_position_before(s, x, i - 1)
    }
}

/// The last position where `s` holds `x` (the latest entry wins), or -1
/// when it holds none.
pub open spec fn last_position<A>(s: Seq<A>, x: A) -> int {
    last_position_before(s, x, s.len() as int)
}

/// The last position below `hi` that holds `x` is `p` when `s[p]` is `x`
/// and nothing between them is.
pub proof fn lemma_last_position_at<A>(s: Seq<A>, x: A, hi: int, p: int)
    requires
        0 <= p < hi <= s.len(),
        s[p] == x,
        forall|q: int| p < q < hi ==> s[q] != x,
    ensures
        last_position_before(s, x, hi) == p,
    decreases hi - p,
{
    if hi - 1 > p {
        lemma_last_position_at(s, x, hi - 1, p);
    }
}

} // verus!
