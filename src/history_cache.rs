//! The ordered store of the changes that one writer holds.
use vstd::prelude::*;
use std::sync::Arc;
use crate::cache_change::{CacheChange, same_change};
use crate::types::SequenceNumber_t;

verus! {

/// Relies on `Arc::clone`: the new handle points to the same change.
#[verifier::external_body]
pub(crate) fn share_change(c: &Arc<CacheChange>) -> (r: Arc<CacheChange>)
    ensures
        *r == **c,
{
    Arc::clone(c)
}

/// Whether the sequence numbers of `s` strictly increase.
pub open spec fn seq_nums_increasing(s: Seq<CacheChange>) -> bool {
    forall|i: int, j: int|
        0 <= i < j < s.len() ==> #[trigger] s[i].sequence_number.0 < #[trigger] s[j].sequence_number.0
}

/// The sequence number of the first change, or `None` for none.
pub open spec fn seq_num_min(s: Seq<CacheChange>) -> Option<SequenceNumber_t> {
    if s.len() == 0 {
        None
    } else {
        Some(s[0].sequence_number)
    }
}

/// The sequence number of the last change, or `None` for none.
pub open spec fn seq_num_max(s: Seq<CacheChange>) -> Option<SequenceNumber_t> {
    if s.len() == 0 {
        None
    } else {
        Some(s.last().sequence_number)
    }
}

/// Once changes with increasing sequence numbers have been appended in
/// turn, the lowest and highest sequence numbers held are those of the
/// first and the last change appended.
pub proof fn lemma_min_max_after_appends(changes: Seq<CacheChange>)
    requires
        seq_nums_increasing(changes),
        changes.len() > 0,
    ensures
        seq_num_min(changes) == Some(changes[0].sequence_number),
        seq_num_max(changes) == Some(changes[changes.len() - 1].sequence_number),
        forall|i: int|
            0 <= i < changes.len() ==> changes[0].sequence_number.0
                <= #[trigger] changes[i].sequence_number.0 <= changes[changes.len()
                - 1].sequence_number.0,
{
    assert forall|i: int| 0 <= i < changes.len() implies changes[0].sequence_number.0
        <= #[trigger] changes[i].sequence_number.0 <= changes[changes.len()
        - 1].sequence_number.0 by {
        if 0 < i {
            assert(changes[0].sequence_number.0 < changes[i].sequence_number.0);
        }
        if i < changes.len() - 1 {
            assert(changes[i].sequence_number.0 < changes[changes.len() - 1].sequence_number.0);
        }
    }
}

/// Changes in the order they were added, which is ascending sequence-number
/// order.
pub struct HistoryCache {
    pub changes: Vec<Arc<CacheChange>>,
}

impl HistoryCache {
    /// The changes held, in order.
    pub open spec fn view(&self) -> Seq<CacheChange> {
        self.changes@.map_values(|c: Arc<CacheChange>| *c)
    }

    pub open spec fn wf(&self) -> bool {
        seq_nums_increasing(self@)
    }

    pub fn new() -> (r: HistoryCache)
        ensures
            r@ == Seq::<CacheChange>::empty(),
            r.wf(),
    {
        HistoryCache { changes: Vec::new() }
    }

    /// Appends `a_change`, whose sequence number must exceed every one held.
    pub fn add_change(&mut self, a_change: Arc<CacheChange>)
        requires
            old(self).wf(),
            old(self)@.len() > 0 ==> old(self)@.last().sequence_number.0
                < a_change.sequence_number.0,
        ensures
            final(self)@ == old(self)@.push(*a_change),
            final(self).wf(),
    {
        self.changes.push(a_change);
        assert(self@ =~= old(self)@.push(*a_change));
    }

    /// Position of the change with sequence number `sn`, found by binary
    /// search over the ascending sequence numbers.
    fn find_seq_num(&self, sn: SequenceNumber_t) -> (r: Option<usize>)
        requires
            self.wf(),
        ensures
            r matches Some(i) ==> i < self@.len() && self@[i as int].sequence_number == sn,
            r is None ==> forall|i: int|
                0 <= i < self@.len() ==> self@[i].sequence_number != sn,
    {
        let mut lo: usize = 0;
        let mut hi: usize = self.changes.len();
        while lo < hi
            invariant
                self.wf(),
                0 <= lo <= hi <= self@.len(),
                forall|i: int| 0 <= i < lo ==> self@[i].sequence_number.0 < sn.0,
                forall|i: int| hi <= i < self@.len() ==> self@[i].sequence_number.0 > sn.0,
            decreases hi - lo,
        {
            let mid = lo + (hi - lo) / 2;
            let m = self.changes[mid].sequence_number.0;
            if m == sn.0 {
                return Some(mid);
            } else if m < sn.0 {
                assert forall|i: int| 0 <= i <= mid implies self@[i].sequence_number.0 < sn.0 by {
                    if i < mid {
                        assert(self@[i].sequence_number.0 < self@[mid as int].sequence_number.0);
                    }
                }
                lo = mid + 1;
            } else {
                assert forall|i: int| mid <= i < self@.len() implies self@[i].sequence_number.0
                    > sn.0 by {
                    if i > mid {
                        assert(self@[mid as int].sequence_number.0 < self@[i].sequence_number.0);
                    }
                }
                hi = mid;
            }
        }
        None
    }

    /// Removes the change equal to `a_change` (payload aside), if one is
    /// held; otherwise leaves the cache as it is.
    pub fn remove_change(&mut self, a_change: Arc<CacheChange>)
        requires
            old(self).wf(),
        ensures
            final(self).wf(),
            (exists|i: int| 0 <= i < old(self)@.len() && same_change(old(self)@[i], *a_change))
                ==> (exists|i: int|
                0 <= i < old(self)@.len() && same_change(old(self)@[i], *a_change)
                    && final(self)@ == old(self)@.remove(i)),
            !(exists|i: int| 0 <= i < old(self)@.len() && same_change(old(self)@[i], *a_change))
                ==> final(self)@ == old(self)@,
    {
        let r = self.find_seq_num(a_change.sequence_number);
        if let Some(i) = r {
            let equal = *self.changes[i] == *a_change;
            if equal {
                self.changes.remove(i);
                assert(self@ =~= old(self)@.remove(i as int));
                assert forall|a: int, b: int| 0 <= a < b < self@.len() implies
                    #[trigger] self@[a].sequence_number.0 < #[trigger] self@[b].sequence_number.0 by {
                    let a0 = if a < i { a } else { a + 1 };
                    let b0 = if b < i { b } else { b + 1 };
                    assert(old(self)@[a0].sequence_number.0 < old(self)@[b0].sequence_number.0);
                }
            } else {
                assert forall|j: int| 0 <= j < old(self)@.len() implies !same_change(
                    old(self)@[j],
                    *a_change,
                ) by {
                    if j != i {
                        if j < i {
                            assert(old(self)@[j].sequence_number.0 < old(self)@[i as int].sequence_number.0);
                        } else {
                            assert(old(self)@[i as int].sequence_number.0 < old(self)@[j].sequence_number.0);
                        }
                    }
                }
            }
        }
    }

    /// The lowest sequence number held, or `None` when empty.
    pub fn get_seq_num_min(&self) -> (r: Option<SequenceNumber_t>)
        ensures
            r == seq_num_min(self@),
    {
        if self.changes.len() == 0 {
            None
        } else {
            Some(self.changes[0].sequence_number)
        }
    }

    /// The highest sequence number held, or `None` when empty.
    pub fn get_seq_num_max(&self) -> (r: Option<SequenceNumber_t>)
        ensures
            r == seq_num_max(self@),
    {
        let n = self.changes.len();
        if n == 0 {
            None
        } else {
            Some(self.changes[n - 1].sequence_number)
        }
    }

    /// Shared handles to the changes held, in order.
    pub fn get_changes(&self) -> (r: Vec<Arc<CacheChange>>)
        ensures
            r@.map_values(|c: Arc<CacheChange>| *c) == self@,
    {
        let mut r: Vec<Arc<CacheChange>> = Vec::new();
        let mut i: usize = 0;
        while i < self.changes.len()
            invariant
                0 <= i <= self@.len(),
                r@.len() == i,
                forall|j: int| 0 <= j < i ==> *r@[j] == self@[j],
            decreases self@.len() - i,
        {
            let c = share_change(&self.changes[i]);
            r.push(c);
            i += 1;
        }
        assert(r@.map_values(|c: Arc<CacheChange>| *c) =~= self@);
        r
    }
}

} // verus!
