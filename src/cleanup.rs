use vstd::prelude::*;
use crate::release::strings_view;

verus! {

/// Whether an entry named `e` goes when only `keep` is kept.
pub open spec fn is_stale(keep: Seq<char>) -> spec_fn(Seq<char>) -> bool {
    |e: Seq<char>| e != keep
}

/// The entries of a directory listing that are removed when only `keep` is kept.
pub open spec fn stale_entries(entries: Seq<Seq<char>>, keep: Seq<char>) -> Seq<Seq<char>> {
    entries.filter(is_stale(keep))
}

/// Every entry of `entries`, in order, except those named exactly `keep`.
pub fn entries_to_remove(entries: &Vec<String>, keep: &String) -> (r: Vec<String>)
    ensures
        strings_view(r@) == stale_entries(strings_view(entries@), keep@),
{
    let ghost all = strings_view(entries@);
    let mut r: Vec<String> = Vec::new();
    let mut i: usize = 0;
    while i < entries.len()
        invariant
            i <= entries.len(),
            all == strings_view(entries@),
            strings_view(r@) == stale_entries(all.take(i as int), keep@),
        decreases entries.len() - i,
    {
        let e = &entries[i];
        proof {
            reveal(Seq::filter);
            assert(all.take(i + 1).drop_last() =~= all.take(i as int));
            assert(all.take(i + 1).last() == e@);
            assert(stale_entries(all.take(i + 1), keep@) == if e@ != keep@ {
                stale_entries(all.take(i as int), keep@).push(e@)
            } else {
                stale_entries(all.take(i as int), keep@)
            });
        }
        if !(*e == *keep) {
            r.push(e.clone());
            proof {
                assert(strings_view(r@) =~= stale_entries(all.take(i as int), keep@).push(e@));
            }
        }
        assert(strings_view(r@) == stale_entries(all.take(i + 1), keep@));
        i += 1;
    }
    proof {
        assert(all.take(entries.len() as int) =~= all);
    }
    r
}

} // verus!
