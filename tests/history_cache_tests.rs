use std::sync::Arc;

use rtps::cache_change::CacheChange;
use rtps::guid::GUID_t;
use rtps::history_cache::HistoryCache;
use rtps::types::{ChangeKind_t, InstanceHandle_t, SequenceNumber_t};

fn change(sn: i64, kind: ChangeKind_t) -> Arc<CacheChange> {
    Arc::new(CacheChange {
        kind,
        writer_guid: GUID_t::unknown(),
        instance_handle: InstanceHandle_t(1),
        sequence_number: SequenceNumber_t(sn),
        data_value: vec![sn as u8],
    })
}

fn cache(sns: &[i64]) -> HistoryCache {
    let mut c = HistoryCache::new();
    for sn in sns {
        c.add_change(change(*sn, ChangeKind_t::ALIVE));
    }
    c
}

fn seq_nums(c: &HistoryCache) -> Vec<i64> {
    c.get_changes().iter().map(|x| x.sequence_number.0).collect()
}

#[test]
fn min_and_max_are_first_and_last() {
    let c = cache(&[3, 8, 20, 21]);
    assert_eq!(c.get_seq_num_min(), Some(SequenceNumber_t(3)));
    assert_eq!(c.get_seq_num_max(), Some(SequenceNumber_t(21)));
}

#[test]
fn min_and_max_of_empty_cache_are_none() {
    let c = HistoryCache::new();
    assert_eq!(c.get_seq_num_min(), None);
    assert_eq!(c.get_seq_num_max(), None);
    assert!(c.get_changes().is_empty());
}

#[test]
fn single_change_is_min_and_max() {
    let c = cache(&[5]);
    assert_eq!(c.get_seq_num_min(), Some(SequenceNumber_t(5)));
    assert_eq!(c.get_seq_num_max(), Some(SequenceNumber_t(5)));
}

#[test]
fn remove_change_removes_the_equal_one() {
    let mut c = cache(&[1, 2, 4, 7, 9]);
    c.remove_change(change(4, ChangeKind_t::ALIVE));
    assert_eq!(seq_nums(&c), vec![1, 2, 7, 9]);
    c.remove_change(change(9, ChangeKind_t::ALIVE));
    assert_eq!(seq_nums(&c), vec![1, 2, 7]);
    assert_eq!(c.get_seq_num_max(), Some(SequenceNumber_t(7)));
    c.remove_change(change(1, ChangeKind_t::ALIVE));
    assert_eq!(c.get_seq_num_min(), Some(SequenceNumber_t(2)));
}

#[test]
fn remove_change_absent_is_a_no_op() {
    let mut c = cache(&[1, 2, 4]);
    c.remove_change(change(3, ChangeKind_t::ALIVE));
    assert_eq!(seq_nums(&c), vec![1, 2, 4]);
    // same sequence number, but not an equal change
    c.remove_change(change(2, ChangeKind_t::NOT_ALIVE_DISPOSED));
    assert_eq!(seq_nums(&c), vec![1, 2, 4]);
    let mut e = HistoryCache::new();
    e.remove_change(change(1, ChangeKind_t::ALIVE));
    assert!(e.get_changes().is_empty());
}

#[test]
fn cache_change_equality_ignores_payload() {
    let a = change(2, ChangeKind_t::ALIVE);
    let mut b = CacheChange {
        kind: ChangeKind_t::ALIVE,
        writer_guid: GUID_t::unknown(),
        instance_handle: InstanceHandle_t(1),
        sequence_number: SequenceNumber_t(2),
        data_value: vec![42, 43],
    };
    assert!(*a == b);
    b.instance_handle = InstanceHandle_t(2);
    assert!(*a != b);
    assert!(change(1, ChangeKind_t::ALIVE).precedes(&a));
    assert!(!a.precedes(&change(1, ChangeKind_t::ALIVE)));
}
