//! Facts about sequences that the loops of this crate lean on.

use vstd::prelude::*;

verus! {

/// The first `i + 1` items of a sequence are its first `i` items and the
/// item at `i`, which is not among the first `i` if nothing occurs twice.
pub proof fn lemma_prefix_grows<A>(s: Seq<A>, i: int)
    requires
        0 <= i < s.len(),
    ensures
        s.subrange(0, i + 1) == s.subrange(0, i).push(s[i]),
        forall|a: A| #[trigger]
            s.subrange(0, i + 1).contains(a) <==> (a == s[i] || s.subrange(0, i).contains(a)),
        s.no_duplicates() ==> !s.subrange(0, i).contains(s[i]),
{
    let done = s.subrange(0, i);
    let more = s.subrange(0, i + 1);
    assert(more =~= done.push(s[i]));
    lemma_push_contains(done, s[i]);
    if s.no_duplicates() && done.contains(s[i]) {
        let k = done.index_of(s[i]);
        assert(s[k] == s[i]);
    }
}

/// A sequence with one item more holds that item and what it held before,
/// and nothing twice if it held nothing twice and the item is new.
pub proof fn lemma_push_contains<A>(s: Seq<A>, x: A)
    ensures
        forall|a: A| #[trigger] s.push(x).contains(a) <==> (a == x || s.contains(a)),
        s.no_duplicates() && !s.contains(x) ==> s.push(x).no_duplicates(),
{
    let more = s.push(x);
    assert forall|a: A| #[trigger] more.contains(a) <==> (a == x || s.contains(a)) by {
        if s.contains(a) {
            let k = s.index_of(a);
            assert(more[k] == a);
        }
        if more.contains(a) && a != x {
            let k = more.index_of(a);
            assert(s[k] == a);
        }
        if a == x {
            assert(more[s.len() as int] == x);
        }
    }
}

/// The prefix of a sequence that is as long as the sequence is the sequence.
pub proof fn lemma_whole_prefix<A>(s: Seq<A>)
    ensures
        s.subrange(0, s.len() as int) == s,
{
    assert(s.subrange(0, s.len() as int) =~= s);
}

} // verus!
