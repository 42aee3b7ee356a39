use std::sync::Arc;

use rtps::cache_change::CacheChange;
use rtps::guid::{EntityId_t, EntityKind_t, GUIDPrefix_t, GUID_t, ENTITY_KIND_WRITER_WITH_KEY};
use rtps::types::{
    ChangeForReaderStatusKind, ChangeKind_t, InstanceHandle_t, ReliabilityKind_t, SequenceNumber_t,
    Time_t, TopicKind_t, VendorId_t,
};
use rtps::writer::{ReaderProxy, Writer};

fn guid(last: u8) -> GUID_t {
    let prefix = GUIDPrefix_t::with_bytes(VendorId_t(1), [7, 7, 7, 7, 7, 7, 7, 7, 7, last]);
    let id = EntityId_t::from_key_bytes(1, 4, 9, EntityKind_t(ENTITY_KIND_WRITER_WITH_KEY)).unwrap();
    GUID_t::new(prefix, id)
}

fn writer(push_mode: bool) -> Writer {
    Writer::new(
        guid(1),
        Vec::new(),
        Vec::new(),
        ReliabilityKind_t::RELIABLE,
        TopicKind_t::WITH_KEY,
        push_mode,
        Time_t::new(1, 0),
        Time_t::zero(),
        Time_t::zero(),
    )
}

fn proxy(reader: GUID_t, changes: &Vec<Arc<CacheChange>>, push_mode: bool) -> ReaderProxy {
    ReaderProxy::new(
        reader,
        false,
        Vec::new(),
        Vec::new(),
        true,
        changes,
        |_c: &CacheChange| true,
        |_c: &CacheChange| false,
        push_mode,
    )
}

/// A writer with `n` pushed changes.
fn writer_with_changes(n: usize) -> Writer {
    let mut w = writer(true);
    for i in 0..n {
        w.push_change(ChangeKind_t::ALIVE, vec![i as u8], InstanceHandle_t(3));
    }
    w
}

#[test]
fn new_change_numbers_consecutively() {
    let mut w = writer(true);
    let a = w.new_change(ChangeKind_t::ALIVE, vec![1], InstanceHandle_t(0));
    let b = w.new_change(ChangeKind_t::NOT_ALIVE_DISPOSED, vec![], InstanceHandle_t(0));
    let c = w.new_change(ChangeKind_t::NOT_ALIVE_UNREGISTERED, vec![2, 3], InstanceHandle_t(5));
    assert_eq!(a.sequence_number, SequenceNumber_t(1));
    assert_eq!(b.sequence_number, SequenceNumber_t(2));
    assert_eq!(c.sequence_number, SequenceNumber_t(3));
    assert_eq!(c.writer_guid, guid(1));
    assert_eq!(c.instance_handle, InstanceHandle_t(5));
    assert_eq!(c.data_value, vec![2, 3]);
    // new_change leaves the history cache alone
    assert_eq!(w.writer_cache.get_seq_num_max(), None);
}

#[test]
fn push_change_does_not_reach_existing_proxies() {
    let mut w = writer(true);
    let empty: Vec<Arc<CacheChange>> = Vec::new();
    w.matched_reader_add(proxy(guid(9), &empty, true));
    w.push_change(ChangeKind_t::ALIVE, vec![10], InstanceHandle_t(1));
    w.push_change(ChangeKind_t::ALIVE, vec![11], InstanceHandle_t(1));
    let changes = w.writer_cache.get_changes();
    assert_eq!(changes.len(), 2);
    assert_eq!(changes[0].sequence_number, SequenceNumber_t(1));
    assert_eq!(changes[1].sequence_number, SequenceNumber_t(2));
    let p = w.matched_reader_lookup(guid(9)).unwrap();
    assert_eq!(p.changes_for_reader.len(), 0);
}

#[test]
fn reader_proxy_snapshots_changes_with_initial_status() {
    let w = writer_with_changes(3);
    let changes = w.writer_cache.get_changes();
    let push = proxy(guid(9), &changes, true);
    assert_eq!(push.unsent_changes().len(), 3);
    assert_eq!(push.unacked_changes().len(), 0);
    assert_eq!(push.next_unsent_change().unwrap().change.sequence_number, SequenceNumber_t(1));
    let pull = proxy(guid(9), &changes, false);
    assert_eq!(pull.unsent_changes().len(), 0);
    assert_eq!(pull.unacked_changes().len(), 3);
    assert!(pull.next_unsent_change().is_none());
}

#[test]
fn relevance_is_either_filter() {
    let w = writer_with_changes(4);
    let changes = w.writer_cache.get_changes();
    let p = ReaderProxy::new(
        guid(9),
        false,
        Vec::new(),
        Vec::new(),
        true,
        &changes,
        |c: &CacheChange| c.sequence_number.0 == 1,
        |c: &CacheChange| c.sequence_number.0 == 3,
        true,
    );
    let relevant: Vec<bool> = p.changes_for_reader.iter().map(|c| c.is_relevant).collect();
    assert_eq!(relevant, vec![true, false, true, false]);
}

#[test]
fn acked_changes_set_twice_is_a_monotone_union() {
    let w = writer_with_changes(6);
    let changes = w.writer_cache.get_changes();
    let mut p = proxy(guid(9), &changes, true);
    p.acked_changes_set(SequenceNumber_t(4));
    p.acked_changes_set(SequenceNumber_t(2));
    let status: Vec<ChangeForReaderStatusKind> = p.changes_for_reader.iter().map(|c| c.status).collect();
    let ack = ChangeForReaderStatusKind::ACKNOWLEDGED;
    let unsent = ChangeForReaderStatusKind::UNSENT;
    assert_eq!(status, vec![ack, ack, ack, ack, unsent, unsent]);
    p.acked_changes_set(SequenceNumber_t(5));
    assert_eq!(p.changes_for_reader[4].status, ack);
    assert_eq!(p.changes_for_reader[5].status, unsent);
}

#[test]
fn requested_changes_set_then_next_is_lowest() {
    let w = writer_with_changes(8);
    let changes = w.writer_cache.get_changes();
    let mut p = proxy(guid(9), &changes, true);
    p.acked_changes_set(SequenceNumber_t(6));
    p.requested_changes_set(&[SequenceNumber_t(7), SequenceNumber_t(5)]);
    let next = p.next_requested_change().unwrap();
    assert_eq!(next.change.sequence_number, SequenceNumber_t(5));
    assert_eq!(next.status, ChangeForReaderStatusKind::REQUESTED);
    let requested: Vec<i64> = p.requested_changes().iter().map(|c| c.change.sequence_number.0).collect();
    assert_eq!(requested, vec![5, 7]);
    assert_eq!(p.changes_for_reader[3].status, ChangeForReaderStatusKind::ACKNOWLEDGED);
}

#[test]
fn next_requested_change_is_none_without_requests() {
    let w = writer_with_changes(2);
    let changes = w.writer_cache.get_changes();
    let mut p = proxy(guid(9), &changes, true);
    assert!(p.next_requested_change().is_none());
    p.requested_changes_set(&[SequenceNumber_t(9)]);
    assert!(p.next_requested_change().is_none());
    assert_eq!(p.requested_changes().len(), 0);
}

#[test]
fn is_acked_by_all_needs_every_proxy() {
    let mut w = writer_with_changes(2);
    let changes = w.writer_cache.get_changes();
    let target = changes[0].clone();
    // no proxies: vacuously acknowledged
    assert!(w.is_acked_by_all(target.clone()));
    let mut a = proxy(guid(10), &changes, true);
    let b = proxy(guid(11), &changes, true);
    a.acked_changes_set(SequenceNumber_t(1));
    w.matched_reader_add(a);
    assert!(w.is_acked_by_all(target.clone()));
    w.matched_reader_add(b);
    // the second proxy still has it UNSENT
    assert!(!w.is_acked_by_all(target.clone()));
    let mut b2 = proxy(guid(11), &changes, true);
    b2.acked_changes_set(SequenceNumber_t(2));
    w.matched_reader_remove(&b2);
    w.matched_reader_add(b2);
    assert!(w.is_acked_by_all(target.clone()));
    assert!(!w.is_acked_by_all(changes[1].clone()));
}

#[test]
fn is_acked_by_all_ignores_irrelevant_entries() {
    let mut w = writer_with_changes(1);
    let changes = w.writer_cache.get_changes();
    let mut p = ReaderProxy::new(
        guid(10),
        false,
        Vec::new(),
        Vec::new(),
        true,
        &changes,
        |_c: &CacheChange| false,
        |_c: &CacheChange| false,
        true,
    );
    p.acked_changes_set(SequenceNumber_t(1));
    w.matched_reader_add(p);
    assert!(!w.is_acked_by_all(changes[0].clone()));
}

#[test]
fn is_acked_by_all_compares_whole_change() {
    let mut w = writer_with_changes(1);
    let changes = w.writer_cache.get_changes();
    let mut p = proxy(guid(10), &changes, true);
    p.acked_changes_set(SequenceNumber_t(1));
    w.matched_reader_add(p);
    let other = Arc::new(CacheChange {
        kind: ChangeKind_t::NOT_ALIVE_DISPOSED,
        writer_guid: guid(1),
        instance_handle: InstanceHandle_t(3),
        sequence_number: SequenceNumber_t(1),
        data_value: vec![0],
    });
    assert!(!w.is_acked_by_all(other));
    let same_but_payload = Arc::new(CacheChange {
        kind: ChangeKind_t::ALIVE,
        writer_guid: guid(1),
        instance_handle: InstanceHandle_t(3),
        sequence_number: SequenceNumber_t(1),
        data_value: vec![99, 98],
    });
    assert!(w.is_acked_by_all(same_but_payload));
}

#[test]
fn matched_reader_lookup_and_remove_unknown_guid() {
    let mut w = writer(false);
    let empty: Vec<Arc<CacheChange>> = Vec::new();
    w.matched_reader_add(proxy(guid(20), &empty, false));
    assert!(w.matched_reader_lookup(guid(21)).is_none());
    w.matched_reader_remove(&proxy(guid(21), &empty, false));
    assert_eq!(w.matched_readers.len(), 1);
    assert_eq!(w.matched_reader_lookup(guid(20)).unwrap().remote_reader_guid, guid(20));
    w.matched_reader_remove(&proxy(guid(20), &empty, false));
    assert_eq!(w.matched_readers.len(), 0);
    assert!(w.matched_reader_lookup(guid(20)).is_none());
}
