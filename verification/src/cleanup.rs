//! Pruning of stale version directories: after a successful extraction every
//! entry of the working directory whose name differs from the current version
//! directory is scheduled for (best-effort) deletion.

use vstd::prelude::*;

verus! {

/// The names scheduled for deletion: the entries other than `keep`, in order.
pub open spec fn stale_of(entries: Seq<Seq<char>>, keep: Seq<char>) -> Seq<Seq<char>>
    decreases entries.len(),
{
    if entries.len() == 0 {
        Seq::<Seq<char>>::empty()
    } else {
        let rest = stale_of(entries.drop_last(), keep);
        if entries.last() == keep {
            rest
        } else {
            rest.push(entries.last())
        }
    }
}

/// The currently resolved version directory is never scheduled for deletion.
pub proof fn lemma_stale_spares_kept(entries: Seq<Seq<char>>, keep: Seq<char>)
    ensures
        forall|j: int| 0 <= j < stale_of(entries, keep).len() ==> stale_of(entries, keep)[j]
            != keep,
    decreases entries.len(),
{
    if entries.len() > 0 {
        lemma_stale_spares_kept(entries.drop_last(), keep);
        let rest = stale_of(entries.drop_last(), keep);
        assert forall|j: int| 0 <= j < stale_of(entries, keep).len() implies stale_of(
            entries,
            keep,
        )[j] != keep by {
            if entries.last() != keep && j == rest.len() {
                assert(stale_of(entries, keep)[j] == entries.last());
            } else {
                assert(stale_of(entries, keep)[j] == rest[j]);
            }
        }
    }
}

/// Every directory entry other than the current version directory is
/// scheduled for deletion.
pub proof fn lemma_stale_takes_all_others(entries: Seq<Seq<char>>, keep: Seq<char>)
    ensures
        forall|j: int|
            0 <= j < entries.len() && entries[j] != keep ==> stale_of(entries, keep).contains(
                entries[j],
            ),
    decreases entries.len(),
{
    if entries.len() > 0 {
        lemma_stale_takes_all_others(entries.drop_last(), keep);
        assert forall|j: int|
            0 <= j < entries.len() && entries[j] != keep implies stale_of(entries, keep).contains(
            entries[j],
        ) by {
            let rest = stale_of(entries.drop_last(), keep);
            if j < entries.len() - 1 {
                assert(entries.drop_last()[j] == entries[j]);
                assert(rest.contains(entries[j]));
                let k = choose|k: int| 0 <= k < rest.len() && rest[k] == entries[j];
                assert(stale_of(entries, keep)[k] == entries[j]);
            } else {
                assert(entries.last() == entries[j]);
                assert(stale_of(entries, keep).last() == entries[j]);
            }
        }
    }
}

/// Selects the stale entries: those whose name differs from `keep`.
pub fn stale_entries(entries: &Vec<String>, keep: &String) -> (r: Vec<String>)
    ensures
        r.deep_view() == stale_of(entries.deep_view(), keep@),
{
    let n = entries.len();
    let mut r: Vec<String> = Vec::new();
    let mut i: usize = 0;
    while i < n
        invariant
            n == entries@.len(),
            i <= n,
            r.deep_view() == stale_of(entries.deep_view().subrange(0, i as int), keep@),
        decreases n - i,
    {
        let ghost prefix = entries.deep_view().subrange(0, i as int);
        let ghost next = entries.deep_view().subrange(0, i as int + 1);
        proof {
            assert(next.drop_last() =~= prefix);
            assert(next.last() == entries.deep_view()[i as int]);
        }
        if !entries[i].eq(keep) {
            r.push(entries[i].clone());
        }
        i = i + 1;
    }
    proof {
        assert(entries.deep_view().subrange(0, n as int) =~= entries.deep_view());
    }
    r
}

} // verus!
