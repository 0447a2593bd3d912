//! Read-side filtering: stateless, case-insensitive search over a
//! snapshot of the store, keeping each entry's original rank.

use vstd::prelude::*;

use crate::entry::ClipEntry;
use crate::store::ClipboardStack;
use crate::text::contains_substring;
use crate::text::lower_of;
use crate::text::str_contains;
use crate::text::to_lowercase;

verus! {

/// Whether an entry's text matches the search filter: an empty filter
/// matches everything; otherwise the lowercased text must contain the
/// lowercased filter as a substring.
pub open spec fn matches_filter(content: Seq<char>, filter: Seq<char>) -> bool {
    filter.len() == 0 || contains_substring(lower_of(content), lower_of(filter))
}

/// The (original-rank, entry) pairs for the entries of `s` that match
/// `filter`, in store order, each rank being the entry's position in `s`
/// (not renumbered after filtering).
pub open spec fn ranked_matches(s: Seq<ClipEntry>, filter: Seq<char>) -> Seq<(usize, ClipEntry)>
    decreases s.len(),
{
    if s.len() == 0 {
        Seq::empty()
    } else if matches_filter(s.last().content@, filter) {
        ranked_matches(s.drop_last(), filter).push((((s.len() - 1) as usize), s.last()))
    } else {
        ranked_matches(s.drop_last(), filter)
    }
}

/// Law (query filter correctness): the ranked matches of `s` are exactly
/// the matching entries of `s` — each pair carries a matching entry under
/// its original rank (not renumbered after filtering), the ranks strictly
/// increase (relative order kept), and every matching entry appears.
pub proof fn lemma_ranked_matches_correct(s: Seq<ClipEntry>, filter: Seq<char>)
    requires
        s.len() <= usize::MAX,
    ensures
        forall|k: int|
            0 <= k < ranked_matches(s, filter).len() ==> {
                let pair = #[trigger] ranked_matches(s, filter)[k];
                &&& (pair.0 as int) < s.len()
                &&& pair.1 == s[pair.0 as int]
                &&& matches_filter(pair.1.content@, filter)
            },
        forall|k1: int, k2: int|
            0 <= k1 < k2 < ranked_matches(s, filter).len()
                ==> #[trigger] ranked_matches(s, filter)[k1].0 < #[trigger] ranked_matches(
                s,
                filter,
            )[k2].0,
        forall|i: int|
            0 <= i < s.len() && matches_filter(#[trigger] s[i].content@, filter)
                ==> exists|k: int|
                0 <= k < ranked_matches(s, filter).len() && #[trigger] ranked_matches(s, filter)[k]
                    == ((i as usize), s[i]),
    decreases s.len(),
{
    if s.len() > 0 {
        let prev = s.drop_last();
        lemma_ranked_matches_correct(prev, filter);
        let r = ranked_matches(s, filter);
        let rp = ranked_matches(prev, filter);
        assert(forall|i: int| 0 <= i < prev.len() ==> prev[i] == s[i]);
        if matches_filter(s.last().content@, filter) {
            let last_pair = (((s.len() - 1) as usize), s.last());
            assert(r == rp.push(last_pair));
            assert(forall|k: int| 0 <= k < rp.len() ==> r[k] == rp[k]);
            assert((last_pair.0 as int) == s.len() - 1 && last_pair.1 == s[s.len() - 1]);
            assert forall|i: int|
                0 <= i < s.len() && matches_filter(#[trigger] s[i].content@, filter) implies exists|
                k: int,
            |
                0 <= k < r.len() && #[trigger] r[k] == ((i as usize), s[i]) by {
                if i < s.len() - 1 {
                    let k = choose|k: int|
                        0 <= k < rp.len() && #[trigger] rp[k] == ((i as usize), s[i]);
                    assert(r[k] == ((i as usize), s[i]));
                } else {
                    assert(r[rp.len() as int] == ((i as usize), s[i]));
                }
            };
        } else {
            assert(r == rp);
        }
    }
}

/// Stateless filter over the store's current contents: every entry whose
/// text contains `search_filter`, compared case-insensitively (every
/// entry, when the filter is empty), paired with its original rank.
pub fn query(stack: &ClipboardStack, search_filter: &str) -> (r: Vec<(usize, ClipEntry)>)
    ensures
        r@ == ranked_matches(stack@, search_filter@),
{
    let filter_empty = search_filter.is_empty();
    let lowered_filter = to_lowercase(search_filter);
    let n = stack.len();
    let mut out: Vec<(usize, ClipEntry)> = Vec::new();
    let mut i: usize = 0;
    while i < n
        invariant
            n == stack@.len(),
            i <= n,
            filter_empty == (search_filter@.len() == 0),
            lowered_filter@ == lower_of(search_filter@),
            out@ == ranked_matches(stack@.take(i as int), search_filter@),
        decreases n - i,
    {
        let e = stack.get(i).unwrap();
        let matched = if filter_empty {
            true
        } else {
            let lowered_content = to_lowercase(e.content.as_str());
            str_contains(lowered_content.as_str(), lowered_filter.as_str())
        };
        proof {
            assert(matched == matches_filter(stack@[i as int].content@, search_filter@));
        }
        if matched {
            out.push((i, e.clone()));
        }
        proof {
            let prefix = stack@.take(i + 1);
            assert(prefix.drop_last() =~= stack@.take(i as int));
            assert(prefix.last() == stack@[i as int]);
            assert(out@ == ranked_matches(prefix, search_filter@));
        }
        i += 1;
    }
    proof {
        assert(stack@.take(n as int) =~= stack@);
    }
    out
}

} // verus!
