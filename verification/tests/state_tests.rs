//! Tests of the shared state's defaults and operator transitions.

use ledc::state::{Controller, SharedAppData, Strip};

/// The documented startup defaults.
#[test]
fn fresh_state_defaults() {
    let d = SharedAppData::new();
    assert_eq!(
        d.strips,
        vec![Strip { cold: 0, warm: 0 }, Strip { cold: 0, warm: 0 }]
    );
    assert!(d.strips_changed);
    assert_eq!(d.controller, Controller::Manual);
    assert!(!d.relay_enabled);
    assert!(!d.relay_changed);
    assert_eq!(d.schedule.start, "6h30m");
    assert_eq!(d.schedule.length, "30m");
    assert_eq!(
        d.schedule.endpoint,
        vec![Strip { cold: 65535, warm: 0 }, Strip { cold: 65535, warm: 0 }]
    );
    assert_eq!(d.schedule.armed_at, None);
    assert!(!d.schedule.status_changed);
}

/// Arming records the moment and owes the device a schedule frame.
#[test]
fn arming_sets_moment_and_flag() {
    let mut d = SharedAppData::new();
    d.arm_schedule(42);
    assert_eq!(d.schedule.armed_at, Some(42));
    assert!(d.schedule.status_changed);
}

/// Cancelling disarms and forces the manual state to resend.
#[test]
fn cancelling_disarms_and_marks_strips() {
    let mut d = SharedAppData::new();
    d.strips_changed = false;
    d.arm_schedule(42);
    d.cancel_schedule();
    assert_eq!(d.schedule.armed_at, None);
    assert!(d.schedule.status_changed);
    assert!(d.strips_changed);
}

/// The manual swap trades current levels and endpoint in place.
#[test]
fn swap_trades_strips_and_endpoint() {
    let mut d = SharedAppData::new();
    let strips = d.strips.clone();
    let endpoint = d.schedule.endpoint.clone();
    d.swap_with_endpoint();
    assert_eq!(d.strips, endpoint);
    assert_eq!(d.schedule.endpoint, strips);
}
