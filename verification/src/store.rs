//! The clipboard history store: a capacity-bounded, content-deduplicating
//! collection of entries kept in most-recently-used order (front = newest).

use std::collections::VecDeque;
use vstd::prelude::*;

use crate::entry::ClipEntry;

verus! {

/// No two entries of `s` hold the same text.
pub open spec fn no_dup(s: Seq<ClipEntry>) -> bool {
    forall|i: int, j: int| 0 <= i < j < s.len() ==> s[i].content@ != s[j].content@
}

/// Some entry of `s` holds the text `c`.
pub open spec fn has_content(s: Seq<ClipEntry>, c: Seq<char>) -> bool {
    exists|i: int| 0 <= i < s.len() && s[i].content@ == c
}

/// The position of an entry of `s` holding the text `c` (unique when
/// `no_dup(s)` holds).
pub open spec fn index_of_content(s: Seq<ClipEntry>, c: Seq<char>) -> int {
    choose|i: int| 0 <= i < s.len() && s[i].content@ == c
}

/// What one push does to the entry sequence: the entry holding the same
/// text (at most one, when `no_dup` holds) disappears, the new entry takes
/// the front, and when the store was already full the entry at the back is
/// evicted.
pub open spec fn pushed(s: Seq<ClipEntry>, entry: ClipEntry, capacity: nat) -> Seq<ClipEntry> {
    if has_content(s, entry.content@) {
        seq![entry] + s.remove(index_of_content(s, entry.content@))
    } else if s.len() < capacity {
        seq![entry] + s
    } else {
        seq![entry] + s.drop_last()
    }
}

/// A bounded, deduplicating clipboard history, most-recent-first.
pub struct ClipboardStack {
    entries: VecDeque<ClipEntry>,
    max_size: usize,
}

impl View for ClipboardStack {
    type V = Seq<ClipEntry>;

    closed spec fn view(&self) -> Seq<ClipEntry> {
        self.entries@
    }
}

impl ClipboardStack {
    /// The fixed bound on the number of entries, set at construction.
    pub closed spec fn capacity(self) -> nat {
        self.max_size as nat
    }

    /// Well-formedness: the bound is positive, the store never exceeds it,
    /// and no text appears twice.
    pub open spec fn wf(self) -> bool {
        &&& self.capacity() >= 1
        &&& self@.len() <= self.capacity()
        &&& no_dup(self@)
    }

    /// An empty store with the given positive capacity.
    pub fn new(max_size: usize) -> (r: Self)
        requires
            max_size >= 1,
        ensures
            r.wf(),
            r@ == Seq::<ClipEntry>::empty(),
            r.capacity() == max_size,
    {
        ClipboardStack { entries: VecDeque::new(), max_size }
    }

    /// The current number of entries.
    pub fn len(&self) -> (r: usize)
        ensures
            r == self@.len(),
    {
        self.entries.len()
    }

    /// Positional read by current rank; `None` exactly when `index` is out
    /// of range.
    pub fn get(&self, index: usize) -> (r: Option<&ClipEntry>)
        ensures
            match r {
                Some(e) => index < self@.len() && *e == self@[index as int],
                None => index >= self@.len(),
            },
    {
        if index < self.entries.len() {
            Some(&self.entries[index])
        } else {
            None
        }
    }

    /// A fresh front-to-back (most-recent-first) traversal of the current
    /// entries, as an owned vector over the state at the time of the call.
    pub fn iter(&self) -> (r: Vec<ClipEntry>)
        ensures
            r@ == self@,
    {
        let n = self.entries.len();
        let mut out: Vec<ClipEntry> = Vec::new();
        let mut i: usize = 0;
        while i < n
            invariant
                n == self@.len(),
                i <= n,
                out@ == self@.take(i as int),
            decreases n - i,
        {
            out.push(self.entries[i].clone());
            proof {
                assert(out@ =~= self@.take(i + 1));
            }
            i += 1;
        }
        proof {
            assert(self@.take(n as int) =~= self@);
        }
        out
    }

    /// Removes every entry; idempotent, and the capacity is unchanged.
    pub fn clear(&mut self)
        ensures
            final(self)@ == Seq::<ClipEntry>::empty(),
            final(self).capacity() == old(self).capacity(),
    {
        self.entries.clear();
    }

    /// Inserts `entry` at the front: any existing entry with the same text
    /// is removed first (so re-copied text moves to the front instead of
    /// duplicating), and when the store was full the back entry is evicted.
    pub fn push(&mut self, entry: ClipEntry)
        requires
            old(self).wf(),
        ensures
            final(self).wf(),
            final(self).capacity() == old(self).capacity(),
            final(self)@ == pushed(old(self)@, entry, old(self).capacity()),
    {
        let ghost olds = self.entries@;
        let ghost c = entry.content@;
        let n = self.entries.len();
        let mut i: usize = 0;
        let mut found: Option<usize> = None;
        while found.is_none() && i < n
            invariant
                n == olds.len(),
                i <= n,
                self.entries@ == olds,
                self.max_size == old(self).max_size,
                match found {
                    Some(j) => j < n && olds[j as int].content@ == entry.content@,
                    None => forall|k: int| 0 <= k < i ==> olds[k].content@ != entry.content@,
                },
            decreases n - i,
        {
            if self.entries[i].content == entry.content {
                found = Some(i);
            }
            i += 1;
        }
        match found {
            Some(j) => {
                proof {
                    assert(has_content(olds, c));
                    let k = index_of_content(olds, c);
                    assert(0 <= k < olds.len() && olds[k].content@ == c);
                    assert(k == j) by {
                        if k < j {
                            assert(olds[k].content@ != olds[j as int].content@);
                        }
                        if j < k {
                            assert(olds[j as int].content@ != olds[k].content@);
                        }
                    };
                }
                self.entries.remove(j);
                self.entries.push_front(entry);
                proof {
                    assert(self.entries@ == pushed(olds, entry, old(self).capacity()));
                }
            },
            None => {
                proof {
                    assert(!has_content(olds, c)) by {
                        assert(forall|k: int| 0 <= k < olds.len() ==> olds[k].content@ != c);
                    };
                }
                self.entries.push_front(entry);
                if self.entries.len() > self.max_size {
                    self.entries.pop_back();
                    proof {
                        assert(self.entries@ =~= seq![entry] + olds.drop_last());
                        assert(self.entries@ == pushed(olds, entry, old(self).capacity()));
                    }
                } else {
                    proof {
                        assert(self.entries@ == pushed(olds, entry, old(self).capacity()));
                    }
                }
            },
        }
        proof {
            lemma_push_preserves_invariants(olds, entry, old(self).capacity());
        }
    }
}

/// Law (dedup and capacity invariants): a push onto a well-formed entry
/// sequence yields a well-formed one — still duplicate-free and within
/// capacity — with the pushed entry at the front.
pub proof fn lemma_push_preserves_invariants(s: Seq<ClipEntry>, entry: ClipEntry, capacity: nat)
    requires
        no_dup(s),
        s.len() <= capacity,
        capacity >= 1,
    ensures
        no_dup(pushed(s, entry, capacity)),
        pushed(s, entry, capacity).len() <= capacity,
        pushed(s, entry, capacity)[0] == entry,
{
    let r = pushed(s, entry, capacity);
    let c = entry.content@;
    if has_content(s, c) {
        let j = index_of_content(s, c);
        assert(0 <= j < s.len() && s[j].content@ == c);
        lemma_no_dup_remove(s, j);
        lemma_remove_drops_unique_content(s, j);
        assert(forall|p: int, q: int| 0 <= p < q < r.len() ==> r[p].content@ != r[q].content@);
    } else {
        assert(forall|k: int| 0 <= k < s.len() ==> s[k].content@ != c);
        if s.len() < capacity {
            assert(forall|p: int, q: int| 0 <= p < q < r.len() ==> r[p].content@ != r[q].content@);
        } else {
            assert(forall|p: int, q: int| 0 <= p < q < r.len() ==> r[p].content@ != r[q].content@);
        }
    }
}

/// Law (re-push): pushing text already present does not change the entry
/// count; the matching entry moves to the front (carried by the new
/// entry, with its new timestamp) and every other entry survives in
/// order.
pub proof fn lemma_repush_keeps_len(s: Seq<ClipEntry>, entry: ClipEntry, capacity: nat)
    requires
        no_dup(s),
        has_content(s, entry.content@),
    ensures
        pushed(s, entry, capacity).len() == s.len(),
        pushed(s, entry, capacity) == seq![entry] + s.remove(
            index_of_content(s, entry.content@),
        ),
{
    let j = index_of_content(s, entry.content@);
    assert(0 <= j < s.len() && s[j].content@ == entry.content@);
}

/// Law (eviction): pushing genuinely new text onto a full sequence evicts
/// exactly the entry at the back; everything else shifts one place down.
pub proof fn lemma_full_push_evicts_back(s: Seq<ClipEntry>, entry: ClipEntry, capacity: nat)
    requires
        !has_content(s, entry.content@),
        s.len() == capacity,
        capacity >= 1,
    ensures
        pushed(s, entry, capacity) == seq![entry] + s.drop_last(),
        pushed(s, entry, capacity).len() == capacity,
{
}

/// Law (most-recent-first ordering): pushing three entries with distinct
/// texts yields them newest first; re-pushing the oldest then moves it to
/// the front, the others keeping their relative order.
pub proof fn lemma_mru_order(a: ClipEntry, b: ClipEntry, c: ClipEntry, capacity: nat)
    requires
        capacity >= 3,
        a.content@ != b.content@,
        a.content@ != c.content@,
        b.content@ != c.content@,
    ensures
        ({
            let s3 = pushed(
                pushed(pushed(Seq::<ClipEntry>::empty(), a, capacity), b, capacity),
                c,
                capacity,
            );
            s3 == seq![c, b, a] && pushed(s3, a, capacity) == seq![a, c, b]
        }),
{
    let s0 = Seq::<ClipEntry>::empty();
    let s1 = pushed(s0, a, capacity);
    assert(s1 =~= seq![a]);
    assert(!has_content(s1, b.content@));
    let s2 = pushed(s1, b, capacity);
    assert(s2 =~= seq![b, a]);
    assert(!has_content(s2, c.content@));
    let s3 = pushed(s2, c, capacity);
    assert(s3 =~= seq![c, b, a]);
    assert(has_content(s3, a.content@)) by {
        assert(s3[2].content@ == a.content@);
    };
    let j = index_of_content(s3, a.content@);
    assert(0 <= j < s3.len() && s3[j].content@ == a.content@);
    assert(j == 2);
    assert(s3.remove(2) =~= seq![c, b]);
    assert(pushed(s3, a, capacity) =~= seq![a, c, b]);
}

/// Removing an element of a duplicate-free sequence leaves it
/// duplicate-free.
proof fn lemma_no_dup_remove(s: Seq<ClipEntry>, i: int)
    requires
        no_dup(s),
        0 <= i < s.len(),
    ensures
        no_dup(s.remove(i)),
{
    let r = s.remove(i);
    assert(forall|p: int, q: int| 0 <= p < q < r.len() ==> r[p].content@ != r[q].content@);
}

/// When `s` is duplicate-free, removing its one entry with a given text
/// leaves no entry with that text.
proof fn lemma_remove_drops_unique_content(s: Seq<ClipEntry>, i: int)
    requires
        no_dup(s),
        0 <= i < s.len(),
    ensures
        forall|k: int|
            0 <= k < s.remove(i).len() ==> #[trigger] s.remove(i)[k].content@ != s[i].content@,
{
    let r = s.remove(i);
    assert forall|k: int| 0 <= k < r.len() implies r[k].content@ != s[i].content@ by {
        if k < i {
            assert(r[k] == s[k]);
        } else {
            assert(r[k] == s[k + 1]);
        }
    };
}

} // verus!
