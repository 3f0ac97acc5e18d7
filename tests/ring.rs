use shrubs::layout::{RcuError, RingLayout};
use shrubs::ring::SlotRing;

fn ring_of_three() -> SlotRing<u64> {
    SlotRing::create(RingLayout::new(8, 8, 3).unwrap())
}

#[test]
fn fresh_ring_reads_nothing() {
    let r = ring_of_three();
    assert_eq!(r.active_index(), 0);
    assert_eq!(r.read(), None);
}

#[test]
fn write_then_read_round_trip() {
    let mut r = ring_of_three();
    for v in [7u64, 0, u64::MAX, 42, 42, 9] {
        r.write(v);
        assert_eq!(r.read(), Some(&v));
    }
}

#[test]
fn write_moves_active_index() {
    let mut r = ring_of_three();
    r.write(1);
    assert_eq!(r.active_index(), 8);
    r.write(2);
    assert_eq!(r.active_index(), 16);
    r.write(3);
    assert_eq!(r.active_index(), 0);
}

#[test]
fn stale_index_survives_two_writes_of_three() {
    let mut r = ring_of_three();
    r.write(10);
    let stale = r.active_index();
    r.write(11);
    assert_eq!(r.read_at(stale), Ok(Some(&10)));
    r.write(12);
    assert_eq!(r.read_at(stale), Ok(Some(&10)));
    // the third overlapping write reuses the slot; the validity pass still accepts the index
    r.write(13);
    assert!(r.read_at(stale).is_ok());
    assert_eq!(r.read(), Some(&13));
}

#[test]
fn read_at_rejects_invalid_index() {
    let r = ring_of_three();
    assert_eq!(r.read_at(4), Err(RcuError::InvalidOffset(4)));
    assert_eq!(r.read_at(24), Err(RcuError::InvalidOffset(24)));
    assert_eq!(r.read_at(16), Ok(None));
}

#[test]
fn readers_see_values_in_publication_order() {
    let mut r = ring_of_three();
    let mut seen = Vec::new();
    for v in 1u64..=7 {
        r.write(v);
        seen.push(*r.read().unwrap());
    }
    assert_eq!(seen, vec![1, 2, 3, 4, 5, 6, 7]);
}

#[test]
fn published_indices_pass_the_validity_pass() {
    let mut r = ring_of_three();
    let l = r.layout();
    for v in 0u64..5 {
        let i = r.active_index();
        assert_eq!(l.check(4096, i), Ok(4096 + i));
        r.write(v);
    }
}
