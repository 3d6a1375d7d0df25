use deadline_scheduler::channel::{RecvError, SendError};
use deadline_scheduler::clock::signed_millis;
use deadline_scheduler::error::ScheduleError;
use deadline_scheduler::jwt_payload::JwtPayload;
use deadline_scheduler::uuid_v7_generator::UuidV7Generator;

#[test]
fn schedule_error_carries_its_reason() {
    let e = ScheduleError::Channel(String::from("engine gone"));
    assert_eq!(e.message(), "engine gone");
}

#[test]
fn send_error_carries_its_reason() {
    let e = SendError(String::from("channel closed"));
    assert_eq!(e.message(), "channel closed");
}

#[test]
fn recv_error_names_the_dropped_sender() {
    assert_eq!(RecvError.message(), "send half canceled");
}

#[test]
fn jwt_payload_expiry_is_now_plus_offset() {
    let p = JwtPayload::with_expiry_at(String::from("tok"), (1, 100), 1_000, 250);
    assert_eq!(p.token_id, "tok");
    assert_eq!(p.payload, (1, 100));
    assert_eq!(p.expire_ms, 1_250);
}

#[test]
fn jwt_payload_expiry_saturates() {
    let high = JwtPayload::with_expiry_at(String::from("t"), 0u8, i64::MAX - 1, 5);
    assert_eq!(high.expire_ms, i64::MAX);
    let low = JwtPayload::with_expiry_at(String::from("t"), 0u8, i64::MIN + 1, -5);
    assert_eq!(low.expire_ms, i64::MIN);
}

#[test]
fn jwt_payload_new_reads_a_live_clock() {
    let p = JwtPayload::new(String::from("tok"), 42u32, 1_000);
    assert_eq!(p.token_id, "tok");
    assert_eq!(p.payload, 42);
    // the wall clock stands well past the epoch, so now + 1000 is positive
    assert!(p.expire_ms > 1_000);
}

#[test]
fn signed_millis_counts_whole_milliseconds() {
    assert_eq!(signed_millis(true, 1, 500_000_000), 1_500);
    assert_eq!(signed_millis(true, 0, 999_999), 0);
    assert_eq!(signed_millis(false, 2, 250_000_000), -2_250);
    assert_eq!(signed_millis(false, 0, 0), 0);
}

#[test]
fn signed_millis_clamps_to_the_i64_range() {
    assert_eq!(signed_millis(true, u64::MAX, 999_999_999), i64::MAX);
    assert_eq!(signed_millis(false, u64::MAX, 999_999_999), i64::MIN);
}

#[test]
fn generator_packs_node_id_above_counter() {
    let g = UuidV7Generator::new(1, 8);
    assert_eq!(g.combined(), 1 << 8);
}

#[test]
fn generator_counter_advances_per_uuid() {
    let mut g = UuidV7Generator::new(3, 8);
    let before = g.combined();
    let _ = g.now_uuid().expect("clock past the epoch");
    let after = g.combined();
    assert_eq!(before, 3 << 8);
    assert_eq!(after, (3 << 8) | 1);
}

#[test]
fn drawn_uuids_are_version_seven_and_distinct() {
    let mut g = UuidV7Generator::with_default_counter_bits(7);
    let a = g.now_uuid().expect("clock past the epoch");
    let b = g.now_uuid().expect("clock past the epoch");
    assert_eq!(a.get_version_num(), 7);
    assert_eq!(b.get_version_num(), 7);
    assert_ne!(a, b);
}
