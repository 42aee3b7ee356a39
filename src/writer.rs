//! The writer side of reliable delivery: a writer, its history cache, and
//! one reader proxy per matched remote reader, each tracking the delivery
//! status of every change it knows of.
use vstd::prelude::*;
use std::sync::Arc;
use crate::cache_change::{CacheChange, same_change};
use crate::guid::GUID_t;
use crate::history_cache::{HistoryCache, share_change};
use crate::entity::{Endpoint, Entity};
use crate::types::{
    ChangeForReaderStatusKind, ChangeKind_t, Duration_t, InstanceHandle_t, Locator_t,
    ReliabilityKind_t, SequenceNumber_t, TopicKind_t,
};

verus! {

/// Delivery state of one change for one remote reader.
pub struct ChangeForReader {
    pub status: ChangeForReaderStatusKind,
    pub is_relevant: bool,
    pub change: Arc<CacheChange>,
}

/// The entries of `s` whose status is `st`, in order.
pub open spec fn with_status(s: Seq<ChangeForReader>, st: ChangeForReaderStatusKind) -> Seq<
    ChangeForReader,
> {
    s.filter(|c: ChangeForReader| c.status == st)
}

/// Whether `k` is the first position of `s` whose status is `st`.
pub open spec fn is_first_with_status(
    s: Seq<ChangeForReader>,
    st: ChangeForReaderStatusKind,
    k: int,
) -> bool {
    &&& 0 <= k < s.len()
    &&& s[k].status == st
    &&& forall|j: int| 0 <= j < k ==> s[j].status != st
}

/// `s` after an acknowledgement up to `committed`: every entry whose
/// sequence number is at most `committed` becomes ACKNOWLEDGED.
pub open spec fn ack_upto(s: Seq<ChangeForReader>, committed: i64) -> Seq<ChangeForReader> {
    s.map_values(
        |c: ChangeForReader|
            if c.change.sequence_number.0 <= committed {
                ChangeForReader { status: ChangeForReaderStatusKind::ACKNOWLEDGED, ..c }
            } else {
                c
            },
    )
}

/// `s` after a repair request for `req`: every entry whose sequence
/// number is in `req` becomes REQUESTED.
pub open spec fn request(s: Seq<ChangeForReader>, req: Seq<SequenceNumber_t>) -> Seq<
    ChangeForReader,
> {
    s.map_values(
        |c: ChangeForReader|
            if req.contains(c.change.sequence_number) {
                ChangeForReader { status: ChangeForReaderStatusKind::REQUESTED, ..c }
            } else {
                c
            },
    )
}

/// Whether `req` holds `sn`.
fn contains_seq_num(req: &[SequenceNumber_t], sn: SequenceNumber_t) -> (r: bool)
    ensures
        r == req@.contains(sn),
{
    let mut i: usize = 0;
    while i < req.len()
        invariant
            0 <= i <= req@.len(),
            forall|j: int| 0 <= j < i ==> req@[j] != sn,
        decreases req@.len() - i,
    {
        if req[i].0 == sn.0 {
            assert(req@[i as int] == sn);
            return true;
        }
        i += 1;
    }
    false
}

/// The writer's record of one matched remote reader.
pub struct ReaderProxy {
    pub remote_reader_guid: GUID_t,
    pub expects_inline_qos: bool,
    pub unicast_locator_list: Vec<Locator_t>,
    pub multicast_locator_list: Vec<Locator_t>,
    pub changes_for_reader: Vec<ChangeForReader>,
    pub is_active: bool,
}

impl ReaderProxy {
    /// The proxy's entries, in order.
    pub open spec fn entries(&self) -> Seq<ChangeForReader> {
        self.changes_for_reader@
    }

    /// A proxy whose entries are a snapshot of `changes`, in their order.
    /// An entry is relevant when either filter accepts its change; every
    /// entry starts UNSENT in push mode and UNACKNOWLEDGED otherwise.
    pub fn new<T, C>(
        remote_reader_guid: GUID_t,
        expects_inline_qos: bool,
        unicast_locator_list: Vec<Locator_t>,
        multicast_locator_list: Vec<Locator_t>,
        is_active: bool,
        changes: &Vec<Arc<CacheChange>>,
        time_based_filter: T,
        content_based_filter: C,
        push_mode: bool,
    ) -> (r: ReaderProxy) where T: Fn(&CacheChange) -> bool, C: Fn(&CacheChange) -> bool
        requires
            forall|c: &CacheChange| #[trigger] time_based_filter.requires((c,)),
            forall|c: &CacheChange| #[trigger] content_based_filter.requires((c,)),
        ensures
            r.remote_reader_guid == remote_reader_guid,
            r.expects_inline_qos == expects_inline_qos,
            r.unicast_locator_list@ == unicast_locator_list@,
            r.multicast_locator_list@ == multicast_locator_list@,
            r.is_active == is_active,
            r.entries().len() == changes@.len(),
            forall|i: int|
                0 <= i < changes@.len() ==> {
                    let e = #[trigger] r.entries()[i];
                    &&& *e.change == *changes@[i]
                    &&& e.status == if push_mode {
                        ChangeForReaderStatusKind::UNSENT
                    } else {
                        ChangeForReaderStatusKind::UNACKNOWLEDGED
                    }
                    &&& e.is_relevant ==> time_based_filter.ensures((&*changes@[i],), true)
                        || content_based_filter.ensures((&*changes@[i],), true)
                    &&& !e.is_relevant ==> time_based_filter.ensures((&*changes@[i],), false)
                        && content_based_filter.ensures((&*changes@[i],), false)
                },
    {
        let status = if push_mode {
            ChangeForReaderStatusKind::UNSENT
        } else {
            ChangeForReaderStatusKind::UNACKNOWLEDGED
        };
        let mut changes_for_reader: Vec<ChangeForReader> = Vec::new();
        let mut i: usize = 0;
        while i < changes.len()
            invariant
                0 <= i <= changes@.len(),
                changes_for_reader@.len() == i,
                forall|c: &CacheChange| #[trigger] time_based_filter.requires((c,)),
                forall|c: &CacheChange| #[trigger] content_based_filter.requires((c,)),
                forall|k: int|
                    0 <= k < i ==> {
                        let e = #[trigger] changes_for_reader@[k];
                        &&& *e.change == *changes@[k]
                        &&& e.status == status
                        &&& e.is_relevant ==> time_based_filter.ensures((&*changes@[k],), true)
                            || content_based_filter.ensures((&*changes@[k],), true)
                        &&& !e.is_relevant ==> time_based_filter.ensures(
                            (&*changes@[k],),
                            false,
                        ) && content_based_filter.ensures((&*changes@[k],), false)
                    },
            decreases changes@.len() - i,
        {
            let change = share_change(&changes[i]);
            let by_time = time_based_filter(&*change);
            let by_content = content_based_filter(&*change);
            changes_for_reader.push(
                ChangeForReader { status, is_relevant: by_time || by_content, change },
            );
            i += 1;
        }
        ReaderProxy {
            remote_reader_guid,
            expects_inline_qos,
            unicast_locator_list,
            multicast_locator_list,
            changes_for_reader,
            is_active,
        }
    }

    /// Whether some relevant, ACKNOWLEDGED entry is for `c`.
    fn has_acked(&self, c: &CacheChange) -> (r: bool)
        ensures
            r == acked_by(*self, *c),
    {
        let mut j: usize = 0;
        while j < self.changes_for_reader.len()
            invariant
                0 <= j <= self.entries().len(),
                forall|k: int|
                    0 <= k < j ==> !(#[trigger] self.entries()[k].status
                        == ChangeForReaderStatusKind::ACKNOWLEDGED && self.entries()[k].is_relevant
                        && same_change(*self.entries()[k].change, *c)),
            decreases self.entries().len() - j,
        {
            let cfr = &self.changes_for_reader[j];
            if cfr.status == ChangeForReaderStatusKind::ACKNOWLEDGED && cfr.is_relevant
                && *cfr.change == *c {
                return true;
            }
            j += 1;
        }
        false
    }

    /// References to the entries whose status is `st`, in order.
    fn collect_with_status(&self, st: ChangeForReaderStatusKind) -> (r: Vec<&ChangeForReader>)
        ensures
            r@.map_values(|c: &ChangeForReader| *c) == with_status(self.entries(), st),
    {
        let ghost s = self.entries();
        let mut r: Vec<&ChangeForReader> = Vec::new();
        let mut i: usize = 0;
        while i < self.changes_for_reader.len()
            invariant
                s == self.entries(),
                0 <= i <= s.len(),
                r@.map_values(|c: &ChangeForReader| *c) == with_status(s.take(i as int), st),
            decreases s.len() - i,
        {
            let c = &self.changes_for_reader[i];
            proof {
                assert(s.take(i + 1).drop_last() =~= s.take(i as int));
                reveal(Seq::filter);
            }
            if c.status == st {
                r.push(c);
            }
            assert(r@.map_values(|c: &ChangeForReader| *c) =~= with_status(s.take(i + 1), st));
            i += 1;
        }
        assert(s.take(s.len() as int) =~= s);
        r
    }

    /// The entries not yet sent, in order.
    pub fn unsent_changes(&self) -> (r: Vec<&ChangeForReader>)
        ensures
            r@.map_values(|c: &ChangeForReader| *c) == with_status(
                self.entries(),
                ChangeForReaderStatusKind::UNSENT,
            ),
    {
        self.collect_with_status(ChangeForReaderStatusKind::UNSENT)
    }

    /// The entries sent but not yet acknowledged, in order.
    pub fn unacked_changes(&self) -> (r: Vec<&ChangeForReader>)
        ensures
            r@.map_values(|c: &ChangeForReader| *c) == with_status(
                self.entries(),
                ChangeForReaderStatusKind::UNACKNOWLEDGED,
            ),
    {
        self.collect_with_status(ChangeForReaderStatusKind::UNACKNOWLEDGED)
    }

    /// The entries the remote reader asked to have sent again, in order.
    pub fn requested_changes(&self) -> (r: Vec<&ChangeForReader>)
        ensures
            r@.map_values(|c: &ChangeForReader| *c) == with_status(
                self.entries(),
                ChangeForReaderStatusKind::REQUESTED,
            ),
    {
        self.collect_with_status(ChangeForReaderStatusKind::REQUESTED)
    }

    /// The first entry whose status is `st`.
    fn first_with_status(&self, st: ChangeForReaderStatusKind) -> (r: Option<&ChangeForReader>)
        ensures
            r is None <==> forall|i: int| 0 <= i < self.entries().len() ==> self.entries()[i].status != st,
            r matches Some(c) ==> exists|k: int|
                is_first_with_status(self.entries(), st, k) && *c == self.entries()[k],
    {
        let mut i: usize = 0;
        while i < self.changes_for_reader.len()
            invariant
                0 <= i <= self.entries().len(),
                forall|j: int| 0 <= j < i ==> self.entries()[j].status != st,
            decreases self.entries().len() - i,
        {
            if self.changes_for_reader[i].status == st {
                assert(is_first_with_status(self.entries(), st, i as int));
                return Some(&self.changes_for_reader[i]);
            }
            i += 1;
        }
        None
    }

    /// The first entry not yet sent: the lowest pending sequence number
    /// when the entries are in ascending order.
    pub fn next_unsent_change(&self) -> (r: Option<&ChangeForReader>)
        ensures
            r is None <==> forall|i: int|
                0 <= i < self.entries().len() ==> self.entries()[i].status
                    != ChangeForReaderStatusKind::UNSENT,
            r matches Some(c) ==> exists|k: int|
                is_first_with_status(self.entries(), ChangeForReaderStatusKind::UNSENT, k) && *c
                    == self.entries()[k],
    {
        self.first_with_status(ChangeForReaderStatusKind::UNSENT)
    }

    /// The first entry asked for again: the lowest requested sequence
    /// number when the entries are in ascending order.
    pub fn next_requested_change(&self) -> (r: Option<&ChangeForReader>)
        ensures
            r is None <==> forall|i: int|
                0 <= i < self.entries().len() ==> self.entries()[i].status
                    != ChangeForReaderStatusKind::REQUESTED,
            r matches Some(c) ==> exists|k: int|
                is_first_with_status(self.entries(), ChangeForReaderStatusKind::REQUESTED, k) && *c
                    == self.entries()[k],
    {
        self.first_with_status(ChangeForReaderStatusKind::REQUESTED)
    }

    /// Marks ACKNOWLEDGED every entry whose sequence number is at most
    /// `committed_seq_num`; the others keep their status.
    pub fn acked_changes_set(&mut self, committed_seq_num: SequenceNumber_t)
        ensures
            final(self).entries() == ack_upto(old(self).entries(), committed_seq_num.0),
            final(self).remote_reader_guid == old(self).remote_reader_guid,
            final(self).expects_inline_qos == old(self).expects_inline_qos,
            final(self).unicast_locator_list == old(self).unicast_locator_list,
            final(self).multicast_locator_list == old(self).multicast_locator_list,
            final(self).is_active == old(self).is_active,
    {
        let ghost s = old(self).entries();
        let mut i: usize = 0;
        while i < self.changes_for_reader.len()
            invariant
                0 <= i <= s.len(),
                self.entries().len() == s.len(),
                forall|j: int| 0 <= j < i ==> self.entries()[j] == ack_upto(s, committed_seq_num.0)[j],
                forall|j: int| i <= j < s.len() ==> self.entries()[j] == s[j],
                self.remote_reader_guid == old(self).remote_reader_guid,
                self.expects_inline_qos == old(self).expects_inline_qos,
                self.unicast_locator_list == old(self).unicast_locator_list,
                self.multicast_locator_list == old(self).multicast_locator_list,
                self.is_active == old(self).is_active,
            decreases s.len() - i,
        {
            if self.changes_for_reader[i].change.sequence_number.0 <= committed_seq_num.0 {
                self.changes_for_reader[i].status = ChangeForReaderStatusKind::ACKNOWLEDGED;
            }
            i += 1;
        }
        assert(self.entries() =~= ack_upto(s, committed_seq_num.0));
    }

    /// Marks REQUESTED every entry whose sequence number is in
    /// `req_seq_num_set`, whatever its status was; the others keep theirs.
    pub fn requested_changes_set(&mut self, req_seq_num_set: &[SequenceNumber_t])
        ensures
            final(self).entries() == request(old(self).entries(), req_seq_num_set@),
            final(self).remote_reader_guid == old(self).remote_reader_guid,
            final(self).expects_inline_qos == old(self).expects_inline_qos,
            final(self).unicast_locator_list == old(self).unicast_locator_list,
            final(self).multicast_locator_list == old(self).multicast_locator_list,
            final(self).is_active == old(self).is_active,
    {
        let ghost s = old(self).entries();
        let mut i: usize = 0;
        while i < self.changes_for_reader.len()
            invariant
                0 <= i <= s.len(),
                self.entries().len() == s.len(),
                forall|j: int| 0 <= j < i ==> self.entries()[j] == request(s, req_seq_num_set@)[j],
                forall|j: int| i <= j < s.len() ==> self.entries()[j] == s[j],
                self.remote_reader_guid == old(self).remote_reader_guid,
                self.expects_inline_qos == old(self).expects_inline_qos,
                self.unicast_locator_list == old(self).unicast_locator_list,
                self.multicast_locator_list == old(self).multicast_locator_list,
                self.is_active == old(self).is_active,
            decreases s.len() - i,
        {
            let sn = self.changes_for_reader[i].change.sequence_number;
            if contains_seq_num(req_seq_num_set, sn) {
                self.changes_for_reader[i].status = ChangeForReaderStatusKind::REQUESTED;
            }
            i += 1;
        }
        assert(self.entries() =~= request(s, req_seq_num_set@));
    }
}

/// Acknowledging up to `n` and then up to `m` leaves ACKNOWLEDGED every
/// entry numbered at most the larger of the two, un-acknowledges none, and
/// leaves every other entry as it was.
pub proof fn lemma_ack_twice(s: Seq<ChangeForReader>, n: i64, m: i64)
    ensures
        ack_upto(ack_upto(s, n), m).len() == s.len(),
        forall|i: int|
            0 <= i < s.len() ==> {
                let e = #[trigger] ack_upto(ack_upto(s, n), m)[i];
                let sn = s[i].change.sequence_number.0;
                &&& (sn <= n || sn <= m) ==> e.status == ChangeForReaderStatusKind::ACKNOWLEDGED
                &&& s[i].status == ChangeForReaderStatusKind::ACKNOWLEDGED ==> e.status
                    == ChangeForReaderStatusKind::ACKNOWLEDGED
                &&& e.change == s[i].change && e.is_relevant == s[i].is_relevant
                &&& (sn > n && sn > m) ==> e == s[i]
            },
{
    assert forall|i: int| 0 <= i < s.len() implies {
        let e = #[trigger] ack_upto(ack_upto(s, n), m)[i];
        let sn = s[i].change.sequence_number.0;
        &&& (sn <= n || sn <= m) ==> e.status == ChangeForReaderStatusKind::ACKNOWLEDGED
        &&& s[i].status == ChangeForReaderStatusKind::ACKNOWLEDGED ==> e.status
            == ChangeForReaderStatusKind::ACKNOWLEDGED
        &&& e.change == s[i].change && e.is_relevant == s[i].is_relevant
        &&& (sn > n && sn > m) ==> e == s[i]
    } by {
        assert(ack_upto(s, n)[i].change == s[i].change);
    }
}

/// A repair request makes REQUESTED every entry it names, whatever its
/// status was. So where the entry at `k` is the first that is named or
/// was already REQUESTED (with ascending sequence numbers: the lowest
/// requested), it is the first REQUESTED entry afterwards.
pub proof fn lemma_request_then_next(s: Seq<ChangeForReader>, req: Seq<SequenceNumber_t>, k: int)
    requires
        0 <= k < s.len(),
        req.contains(s[k].change.sequence_number),
        forall|j: int|
            0 <= j < k ==> !req.contains(#[trigger] s[j].change.sequence_number) && s[j].status
                != ChangeForReaderStatusKind::REQUESTED,
    ensures
        is_first_with_status(request(s, req), ChangeForReaderStatusKind::REQUESTED, k),
        request(s, req)[k].change == s[k].change,
{
    assert forall|j: int| 0 <= j < k implies request(s, req)[j].status
        != ChangeForReaderStatusKind::REQUESTED by {
        assert(!req.contains(s[j].change.sequence_number));
    }
}

/// Whether some entry of `p` for `c` is relevant and ACKNOWLEDGED.
pub open spec fn acked_by(p: ReaderProxy, c: CacheChange) -> bool {
    exists|j: int|
        0 <= j < p.entries().len() && #[trigger] p.entries()[j].status
            == ChangeForReaderStatusKind::ACKNOWLEDGED && p.entries()[j].is_relevant && same_change(
            *p.entries()[j].change,
            c,
        )
}

/// Whether `i` is the first position of `s` whose remote reader is `g`.
pub open spec fn is_first_with_guid(s: Seq<ReaderProxy>, g: GUID_t, i: int) -> bool {
    &&& 0 <= i < s.len()
    &&& s[i].remote_reader_guid == g
    &&& forall|j: int| 0 <= j < i ==> s[j].remote_reader_guid != g
}

/// The change that `new_change` makes on a writer of GUID `guid` whose
/// last sequence number was `last`.
pub open spec fn made_change(
    guid: GUID_t,
    last: i64,
    kind: ChangeKind_t,
    data: Seq<u8>,
    handle: InstanceHandle_t,
    c: CacheChange,
) -> bool {
    &&& c.kind == kind
    &&& c.writer_guid == guid
    &&& c.instance_handle == handle
    &&& c.sequence_number.0 == last + 1
    &&& c.data_value@ == data
}

/// Whether `made` is the change that the numbering step from `before` to
/// `after` produced: one past the last number handed out, which it becomes.
pub open spec fn numbered_next(before: Writer, after: Writer, made: CacheChange) -> bool {
    &&& made.sequence_number.0 == before.last_change_sequence_number.0 + 1
    &&& after.last_change_sequence_number == made.sequence_number
}

/// The changes a writer makes, one after another from a fresh writer,
/// carry the sequence numbers 1, 2, 3, ... with no gap and no repeat.
pub proof fn lemma_consecutive_seq_nums(states: Seq<Writer>, made: Seq<CacheChange>)
    requires
        states.len() == made.len() + 1,
        states[0].last_change_sequence_number.0 == 0,
        forall|k: int| 0 <= k < made.len() ==> numbered_next(states[k], states[k + 1], #[trigger] made[k]),
    ensures
        forall|k: int| 0 <= k < made.len() ==> (#[trigger] made[k]).sequence_number.0 == k + 1,
{
    assert forall|k: int| 0 <= k < made.len() implies (#[trigger] made[k]).sequence_number.0 == k + 1 by {
        lemma_last_seq_num(states, made, k);
    }
}

proof fn lemma_last_seq_num(states: Seq<Writer>, made: Seq<CacheChange>, k: int)
    requires
        states.len() == made.len() + 1,
        states[0].last_change_sequence_number.0 == 0,
        forall|k: int| 0 <= k < made.len() ==> numbered_next(states[k], states[k + 1], #[trigger] made[k]),
        0 <= k <= made.len(),
    ensures
        states[k].last_change_sequence_number.0 == k,
        k < made.len() ==> made[k].sequence_number.0 == k + 1,
    decreases k,
{
    if k > 0 {
        lemma_last_seq_num(states, made, k - 1);
        assert(numbered_next(states[k - 1], states[k], made[k - 1]));
    }
    if k < made.len() {
        assert(numbered_next(states[k], states[k + 1], made[k]));
    }
}

/// The source of reliable delivery: it numbers the changes it makes, holds
/// them in its history cache and tracks one proxy per matched reader.
pub struct Writer {
    pub guid: GUID_t,
    pub unicast_locator_list: Vec<Locator_t>,
    pub multicast_locator_list: Vec<Locator_t>,
    pub reliability_level: ReliabilityKind_t,
    pub topic_kind: TopicKind_t,
    pub writer_cache: HistoryCache,
    pub push_mode: bool,
    pub heartbeat_period: Duration_t,
    pub nack_response_delay: Duration_t,
    pub nack_suppression_duration: Duration_t,
    pub last_change_sequence_number: SequenceNumber_t,
    pub matched_readers: Vec<ReaderProxy>,
}

impl Entity for Writer {
    fn guid(&self) -> &GUID_t {
        &self.guid
    }
}

impl Endpoint for Writer {
    fn unicast_locator_list(&self) -> &Vec<Locator_t> {
        &self.unicast_locator_list
    }

    fn multicast_locator_list(&self) -> &Vec<Locator_t> {
        &self.multicast_locator_list
    }

    fn reliability_level(&self) -> &ReliabilityKind_t {
        &self.reliability_level
    }

    fn topic_kind(&self) -> &TopicKind_t {
        &self.topic_kind
    }
}

impl Writer {
    /// The history cache stays ordered and no change in it carries a
    /// sequence number beyond the last one handed out.
    pub open spec fn wf(&self) -> bool {
        &&& self.writer_cache.wf()
        &&& self.last_change_sequence_number.0 >= 0
        &&& self.writer_cache@.len() > 0 ==> self.writer_cache@.last().sequence_number.0
            <= self.last_change_sequence_number.0
    }

    /// A writer with an empty history cache, no matched readers, and no
    /// sequence number handed out yet.
    pub fn new(
        guid: GUID_t,
        unicast_locator_list: Vec<Locator_t>,
        multicast_locator_list: Vec<Locator_t>,
        reliability_level: ReliabilityKind_t,
        topic_kind: TopicKind_t,
        push_mode: bool,
        heartbeat_period: Duration_t,
        nack_response_delay: Duration_t,
        nack_suppression_duration: Duration_t,
    ) -> (r: Writer)
        ensures
            r.wf(),
            r.guid == guid,
            r.unicast_locator_list@ == unicast_locator_list@,
            r.multicast_locator_list@ == multicast_locator_list@,
            r.reliability_level == reliability_level,
            r.topic_kind == topic_kind,
            r.push_mode == push_mode,
            r.heartbeat_period == heartbeat_period,
            r.nack_response_delay == nack_response_delay,
            r.nack_suppression_duration == nack_suppression_duration,
            r.last_change_sequence_number.0 == 0,
            r.writer_cache@.len() == 0,
            r.matched_readers@.len() == 0,
    {
        Writer {
            guid,
            unicast_locator_list,
            multicast_locator_list,
            reliability_level,
            topic_kind,
            writer_cache: HistoryCache::new(),
            push_mode,
            heartbeat_period,
            nack_response_delay,
            nack_suppression_duration,
            last_change_sequence_number: SequenceNumber_t(0),
            matched_readers: Vec::new(),
        }
    }

    /// Makes the next change: its sequence number is the previous one plus
    /// one. The history cache is left as it is.
    pub fn new_change(&mut self, kind: ChangeKind_t, data: Vec<u8>, handle: InstanceHandle_t) -> (r:
        Arc<CacheChange>)
        requires
            old(self).last_change_sequence_number.0 < i64::MAX,
        ensures
            made_change(
                old(self).guid,
                old(self).last_change_sequence_number.0,
                kind,
                data@,
                handle,
                *r,
            ),
            final(self).last_change_sequence_number == r.sequence_number,
            numbered_next(*old(self), *final(self), *r),
            *final(self) == (Writer {
                last_change_sequence_number: final(self).last_change_sequence_number,
                ..*old(self)
            }),
            old(self).wf() ==> final(self).wf(),
    {
        self.last_change_sequence_number = SequenceNumber_t(self.last_change_sequence_number.0 + 1);
        Arc::new(
            CacheChange {
                kind,
                writer_guid: self.guid,
                instance_handle: handle,
                sequence_number: self.last_change_sequence_number,
                data_value: data,
            },
        )
    }

    /// Makes the next change and appends it to the history cache. The
    /// matched reader proxies are left as they are.
    pub fn push_change(&mut self, kind: ChangeKind_t, data: Vec<u8>, handle: InstanceHandle_t)
        requires
            old(self).wf(),
            old(self).last_change_sequence_number.0 < i64::MAX,
        ensures
            final(self).wf(),
            final(self).last_change_sequence_number.0 == old(
                self,
            ).last_change_sequence_number.0 + 1,
            final(self).writer_cache@.len() == old(self).writer_cache@.len() + 1,
            final(self).writer_cache@.drop_last() == old(self).writer_cache@,
            made_change(
                old(self).guid,
                old(self).last_change_sequence_number.0,
                kind,
                data@,
                handle,
                final(self).writer_cache@.last(),
            ),
            *final(self) == (Writer {
                last_change_sequence_number: final(self).last_change_sequence_number,
                writer_cache: final(self).writer_cache,
                ..*old(self)
            }),
    {
        let change = self.new_change(kind, data, handle);
        self.writer_cache.add_change(change);
        assert(self.writer_cache@.drop_last() =~= old(self).writer_cache@);
    }

    /// Adds a proxy for a newly matched reader.
    pub fn matched_reader_add(&mut self, a_reader_proxy: ReaderProxy)
        ensures
            final(self).matched_readers@ == old(self).matched_readers@.push(a_reader_proxy),
            *final(self) == (Writer { matched_readers: final(self).matched_readers, ..*old(self) }),
    {
        self.matched_readers.push(a_reader_proxy);
    }

    /// Position of the first proxy for the reader `g`, if any.
    fn position_of(&self, g: &GUID_t) -> (r: Option<usize>)
        ensures
            r is None <==> forall|i: int|
                0 <= i < self.matched_readers@.len() ==> self.matched_readers@[i].remote_reader_guid
                    != *g,
            r matches Some(i) ==> is_first_with_guid(self.matched_readers@, *g, i as int),
    {
        let mut i: usize = 0;
        while i < self.matched_readers.len()
            invariant
                0 <= i <= self.matched_readers@.len(),
                forall|j: int|
                    0 <= j < i ==> self.matched_readers@[j].remote_reader_guid != *g,
            decreases self.matched_readers@.len() - i,
        {
            if self.matched_readers[i].remote_reader_guid == *g {
                return Some(i);
            }
            i += 1;
        }
        None
    }

    /// Removes the first proxy for the same remote reader as
    /// `a_reader_proxy`; with none, the writer is left as it is.
    pub fn matched_reader_remove(&mut self, a_reader_proxy: &ReaderProxy)
        ensures
            (forall|i: int|
                0 <= i < old(self).matched_readers@.len() ==> old(
                    self,
                ).matched_readers@[i].remote_reader_guid != a_reader_proxy.remote_reader_guid)
                ==> *final(self) == *old(self),
            forall|i: int|
                is_first_with_guid(old(self).matched_readers@, a_reader_proxy.remote_reader_guid, i)
                    ==> final(self).matched_readers@ == old(self).matched_readers@.remove(i),
            *final(self) == (Writer { matched_readers: final(self).matched_readers, ..*old(self) }),
    {
        let r = self.position_of(&a_reader_proxy.remote_reader_guid);
        if let Some(i) = r {
            self.matched_readers.remove(i);
        }
    }

    /// The first proxy for the remote reader `a_reader_guid`, if any.
    pub fn matched_reader_lookup(&self, a_reader_guid: GUID_t) -> (r: Option<&ReaderProxy>)
        ensures
            r is None <==> forall|i: int|
                0 <= i < self.matched_readers@.len() ==> self.matched_readers@[i].remote_reader_guid
                    != a_reader_guid,
            r matches Some(p) ==> exists|i: int|
                is_first_with_guid(self.matched_readers@, a_reader_guid, i) && *p
                    == self.matched_readers@[i],
    {
        match self.position_of(&a_reader_guid) {
            Some(i) => Some(&self.matched_readers[i]),
            None => None,
        }
    }

    /// Whether every matched proxy holds a relevant, ACKNOWLEDGED entry for
    /// `a_change`.
    pub fn is_acked_by_all(&self, a_change: Arc<CacheChange>) -> (r: bool)
        ensures
            r == forall|i: int|
                0 <= i < self.matched_readers@.len() ==> acked_by(
                    #[trigger] self.matched_readers@[i],
                    *a_change,
                ),
    {
        let mut i: usize = 0;
        while i < self.matched_readers.len()
            invariant
                0 <= i <= self.matched_readers@.len(),
                forall|k: int| 0 <= k < i ==> acked_by(#[trigger] self.matched_readers@[k], *a_change),
            decreases self.matched_readers@.len() - i,
        {
            let found = self.matched_readers[i].has_acked(&a_change);
            if !found {
                return false;
            }
            i += 1;
        }
        true
    }
}

} // verus!
