use shrubs::heartbeat::{Heartbeat, Pid, VersionTag};
use shrubs::layout::{RcuError, RingLayout, SegmentFailure};
use shrubs::ring::SlotRing;
use shrubs::supervisor::{
    assess, create_step, handshake_outcome, CreateStep, HandshakeError, SpawnReason, StartupResult, Verdict,
};

fn tag(s: &str) -> VersionTag {
    VersionTag::new(s.as_bytes()).unwrap()
}

#[test]
fn version_tag_capacity() {
    assert!(VersionTag::new(b"0.1.0").is_some());
    assert!(VersionTag::new(b"12345678901").is_some());
    assert!(VersionTag::new(b"123456789012").is_none());
    assert_eq!(tag("0.1.0").as_bytes(), b"0.1.0");
    assert!(tag("0.1.0").same_as(&tag("0.1.0")));
    assert!(!tag("0.1.0").same_as(&tag("0.1.1")));
    assert!(!tag("0.1").same_as(&tag("0.1.0")));
}

#[test]
fn startup_bytes_round_trip() {
    for r in [StartupResult::Started, StartupResult::Failed, StartupResult::LinkExists] {
        assert_eq!(StartupResult::from_byte(r.to_byte()), Some(r));
    }
    assert_eq!(StartupResult::Started.to_byte(), 1);
    assert_eq!(StartupResult::Failed.to_byte(), 2);
    assert_eq!(StartupResult::from_byte(0), None);
    assert_eq!(StartupResult::from_byte(4), None);
}

#[test]
fn handshake_outcomes() {
    assert_eq!(handshake_outcome(None), Err(HandshakeError::NoResult));
    assert_eq!(handshake_outcome(Some(1)), Ok(()));
    assert_eq!(handshake_outcome(Some(3)), Ok(()));
    assert_eq!(handshake_outcome(Some(2)), Err(HandshakeError::DaemonFailed));
    assert_eq!(handshake_outcome(Some(0)), Err(HandshakeError::InvalidCode(0)));
    assert_eq!(handshake_outcome(Some(200)), Err(HandshakeError::InvalidCode(200)));
}

#[test]
fn live_owner_is_used_without_spawn() {
    let hb = Heartbeat::new(Pid(100), tag("0.1.0"));
    let v = assess(&Ok(hb), true, &tag("0.1.0"));
    assert_eq!(v, Verdict::Use { version_skew: false });
    assert!(!v.should_log());
}

#[test]
fn version_skew_warns_but_uses_segment() {
    let hb = Heartbeat::new(Pid(100), tag("0.0.9"));
    let v = assess(&Ok(hb), true, &tag("0.1.0"));
    assert_eq!(v, Verdict::Use { version_skew: true });
    assert!(v.should_log());
}

#[test]
fn missing_segment_spawns_silently() {
    let v = assess(&Err(RcuError::SharedMemoryError(SegmentFailure::NotFound)), false, &tag("0.1.0"));
    assert_eq!(v, Verdict::Spawn(SpawnReason::NoSegment));
    assert!(!v.should_log());
}

#[test]
fn invalid_mapping_spawns_and_logs() {
    let e = RcuError::InvalidOffset(3);
    let v = assess(&Err(e), true, &tag("0.1.0"));
    assert_eq!(v, Verdict::Spawn(SpawnReason::Unusable(e)));
    assert!(v.should_log());
    let other = RcuError::SharedMemoryError(SegmentFailure::Other);
    assert_eq!(assess(&Err(other), true, &tag("0.1.0")), Verdict::Spawn(SpawnReason::Unusable(other)));
}

#[test]
fn respawn_after_dead_owner() {
    let layout = RingLayout::new(64, 8, 3).unwrap();
    let mut segment: SlotRing<Heartbeat> = SlotRing::create(layout);
    segment.write(Heartbeat::new(Pid(4242), tag("0.1.0")));

    let v = assess(&Ok(segment.read().unwrap().clone()), false, &tag("0.1.0"));
    assert_eq!(v, Verdict::Spawn(SpawnReason::DeadOwner(Pid(4242))));
    assert!(v.should_log());

    // the new daemon recreates the segment and publishes its own identity
    assert_eq!(create_step(0, Ok(()), false), CreateStep::Publish);
    let mut fresh: SlotRing<Heartbeat> = SlotRing::create(layout);
    fresh.write(Heartbeat::new(Pid(5151), tag("0.1.0")));
    let byte = CreateStep::Publish.report().unwrap().to_byte();
    assert_eq!(handshake_outcome(Some(byte)), Ok(()));
    assert_eq!(fresh.read().unwrap().owner_pid, Pid(5151));
    let again = assess(&Ok(fresh.read().unwrap().clone()), true, &tag("0.1.0"));
    assert_eq!(again, Verdict::Use { version_skew: false });
}

#[test]
fn create_race_removes_stale_binding_once() {
    let clash = RcuError::SharedMemoryError(SegmentFailure::NameAlreadyBound);
    assert_eq!(create_step(0, Err(clash), false), CreateStep::RemoveStaleAndRetry);
    assert_eq!(CreateStep::RemoveStaleAndRetry.report(), None);
    assert_eq!(create_step(1, Ok(()), false), CreateStep::Publish);
    assert_eq!(create_step(1, Err(clash), false), CreateStep::Abort(clash));
    assert_eq!(CreateStep::Abort(clash).report(), Some(StartupResult::Failed));
    assert_eq!(CreateStep::Publish.report(), Some(StartupResult::Started));
}

#[test]
fn create_leaves_a_live_holder_alone() {
    let clash = RcuError::SharedMemoryError(SegmentFailure::NameAlreadyBound);
    assert_eq!(create_step(0, Err(clash), true), CreateStep::Yield);
    assert_eq!(create_step(1, Err(clash), true), CreateStep::Yield);
    let byte = CreateStep::Yield.report().unwrap().to_byte();
    assert_eq!(byte, 3);
    assert_eq!(handshake_outcome(Some(byte)), Ok(()));
}

#[test]
fn create_aborts_on_other_failures() {
    let e = RcuError::SharedMemoryError(SegmentFailure::Other);
    assert_eq!(create_step(0, Err(e), true), CreateStep::Abort(e));
    let bad = RcuError::InvalidShmemPtr(true, false);
    assert_eq!(create_step(0, Err(bad), false), CreateStep::Abort(bad));
}

#[test]
fn race_on_create_later_writer_wins() {
    let layout = RingLayout::new(64, 8, 3).unwrap();
    let mut segment: SlotRing<Heartbeat> = SlotRing::create(layout);
    segment.write(Heartbeat::new(Pid(1), tag("0.1.0")));
    segment.write(Heartbeat::new(Pid(2), tag("0.1.0")));
    let hb = segment.read().unwrap();
    assert_eq!(hb.owner_pid, Pid(2));
    assert_eq!(hb.version.as_bytes(), b"0.1.0");
}
