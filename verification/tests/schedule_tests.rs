//! Tests of the schedule reconciler and the full tick around it.

use ledc::state::{SharedAppData, Strip};
use ledc::tick::tick;
use ledc::schedule::reconcile;

fn full_endpoint() -> Vec<Strip> {
    vec![
        Strip { cold: 65535, warm: 65535 },
        Strip { cold: 65535, warm: 65535 },
    ]
}

/// Arm with start "0s" and length "1s" toward a full-brightness endpoint;
/// after more than a second plus a "not running" status, the current
/// strips equal the former endpoint and the schedule is disarmed.
#[test]
fn armed_schedule_swaps_after_deadline() {
    let mut d = SharedAppData::new();
    d.schedule.start = "0s".to_string();
    d.schedule.length = "1s".to_string();
    d.schedule.endpoint = full_endpoint();
    d.arm_schedule(10_000);

    // Still animating: the interpolate frame goes out, nothing swaps.
    let out = tick(&mut d, 0, 10_005, true);
    assert!(!out.schedule_error);
    assert_eq!(out.frame[0], 0x2);
    assert_eq!(&out.frame[1..5], 0u32.to_be_bytes().as_slice());
    assert_eq!(&out.frame[5..9], 1000u32.to_be_bytes().as_slice());
    assert_eq!(d.schedule.armed_at, Some(10_000));

    // Deadline passed and the device reports idle: exactly one swap.
    let out = tick(&mut d, 0, 11_001, false);
    assert!(!out.schedule_error);
    assert_eq!(d.strips, full_endpoint());
    assert_eq!(d.schedule.armed_at, None);
    assert_eq!(
        d.schedule.endpoint,
        vec![Strip { cold: 0, warm: 0 }, Strip { cold: 0, warm: 0 }]
    );
    // The tick that swapped owes the device a cancel-interpolation frame.
    assert_eq!(out.frame[0], 0x4);

    // Later ticks never swap again.
    let strips_after = d.strips.clone();
    for step in 0..4u64 {
        tick(&mut d, 0, 12_000 + step * 1000, false);
        assert_eq!(d.strips, strips_after);
        assert_eq!(d.schedule.armed_at, None);
    }
}

/// The timer alone does not swap: while the device still reports a
/// running animation, the state holds.
#[test]
fn no_swap_while_device_running() {
    let mut d = SharedAppData::new();
    d.schedule.start = "0s".to_string();
    d.schedule.length = "1s".to_string();
    d.schedule.endpoint = full_endpoint();
    d.arm_schedule(10_000);
    tick(&mut d, 0, 10_005, true);
    for t in [11_001u64, 12_000, 50_000] {
        tick(&mut d, 0, t, true);
        assert_eq!(d.schedule.armed_at, Some(10_000));
        assert_ne!(d.strips, full_endpoint());
    }
}

/// The 250 ms safety margin applies only to transitions longer than 10 s:
/// with length 20 s the swap already fires 19.8 s after arming.
#[test]
fn long_transition_swaps_within_margin() {
    let mut d = SharedAppData::new();
    d.schedule.endpoint = full_endpoint();
    d.arm_schedule(0);
    // start 0 ms, length 20000 ms: deadline is 20000 - 250.
    reconcile(&mut d, 19_750, false, 0, 20_000);
    assert_eq!(d.schedule.armed_at, Some(0));
    reconcile(&mut d, 19_751, false, 0, 20_000);
    assert_eq!(d.schedule.armed_at, None);
}

/// A short transition has no margin: the swap waits for the full length.
#[test]
fn short_transition_has_no_margin() {
    let mut d = SharedAppData::new();
    d.schedule.endpoint = full_endpoint();
    d.arm_schedule(0);
    reconcile(&mut d, 1000, false, 0, 1000);
    assert_eq!(d.schedule.armed_at, Some(0));
    reconcile(&mut d, 1001, false, 0, 1000);
    assert_eq!(d.schedule.armed_at, None);
}

/// Duration text goes through the real parser: arming with the default
/// "6h30m"/"30m" texts emits an interpolate frame carrying their exact
/// millisecond readings.
#[test]
fn duration_text_parses_to_milliseconds() {
    let mut d = SharedAppData::new();
    d.arm_schedule(5_000);
    let out = tick(&mut d, 0, 5_001, true);
    assert!(!out.schedule_error);
    assert_eq!(out.frame[0], 0x2);
    assert_eq!(&out.frame[1..5], 23_400_000u32.to_be_bytes().as_slice());
    assert_eq!(&out.frame[5..9], 1_800_000u32.to_be_bytes().as_slice());
}

/// Unparseable duration text is a recoverable error: the tick reports it,
/// skips schedule frames, and leaves every schedule field unchanged.
#[test]
fn bad_duration_text_is_recoverable() {
    let mut d = SharedAppData::new();
    d.schedule.start = "not a duration".to_string();
    d.arm_schedule(1_000);
    let out = tick(&mut d, 0, 2_000, false);
    assert!(out.schedule_error);
    assert_eq!(d.schedule.armed_at, Some(1_000));
    assert!(d.schedule.status_changed);
    assert!(!out.frame.contains(&0x2));
    assert!(!out.frame.contains(&0x4));

    // Mending the text lets the owed frame out on the next tick.
    d.schedule.start = "0s".to_string();
    d.schedule.length = "1s".to_string();
    let out = tick(&mut d, 0, 2_000, true);
    assert!(!out.schedule_error);
    assert_eq!(out.frame[0], 0x2);
}

/// Duration text that would drive the parser into its nanosecond-carry
/// panic (a 2^64 - 1 second total plus a whole second of nanoseconds) is
/// kept away from it by the length bound: the tick reports a recoverable
/// error instead of panicking.
#[test]
fn panic_capable_duration_text_is_rejected() {
    let mut d = SharedAppData::new();
    d.schedule.start = "18446744073709551615s 1000000000ns".to_string();
    d.arm_schedule(1_000);
    let out = tick(&mut d, 0, 2_000, false);
    assert!(out.schedule_error);
    assert_eq!(d.schedule.armed_at, Some(1_000));
    assert!(d.schedule.status_changed);
    assert!(!out.frame.contains(&0x2));
}

/// The parser's length bound: twelve characters of duration text still
/// parse, a thirteenth makes the text count as unparseable for the tick.
#[test]
fn duration_text_length_cutoff() {
    let mut d = SharedAppData::new();
    d.schedule.start = "0s".to_string();
    d.schedule.length = "1d2h3m4s99ms".to_string(); // 12 characters
    d.arm_schedule(1_000);
    let out = tick(&mut d, 0, 1_001, true);
    assert!(!out.schedule_error);
    assert_eq!(out.frame[0], 0x2);
    assert_eq!(&out.frame[5..9], 93_784_099u32.to_be_bytes().as_slice());

    let mut d = SharedAppData::new();
    d.schedule.start = "0s".to_string();
    d.schedule.length = "1d2h3m4s567ms".to_string(); // 13 characters
    d.arm_schedule(1_000);
    let out = tick(&mut d, 0, 1_001, true);
    assert!(out.schedule_error);
    assert!(!out.frame.contains(&0x2));
}

/// Cancelling an armed schedule forces the manual state out immediately.
#[test]
fn cancel_forces_resend() {
    let mut d = SharedAppData::new();
    d.schedule.start = "0s".to_string();
    d.schedule.length = "1s".to_string();
    d.arm_schedule(1_000);
    let _ = tick(&mut d, 0, 1_001, true);
    d.cancel_schedule();
    assert_eq!(d.schedule.armed_at, None);
    assert!(d.strips_changed);
    let out = tick(&mut d, 0, 1_002, true);
    // The cancel frame goes out, then the immediate snapshot.
    assert_eq!(out.frame[0], 0x4);
    assert_eq!(out.frame[1], 0x1);
    assert!(out.realtime);
    assert!(!d.strips_changed);
}
