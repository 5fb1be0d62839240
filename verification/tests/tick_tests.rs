//! Tests of the tick's frame emission policy.

use ledc::state::{Controller, SharedAppData, Strip, WaveType};
use ledc::tick::{tick, tick_parsed};

/// A fresh state owes the device its strips: the first manual tick sends
/// an Immediate frame (realtime, so no status read), the second sends
/// nothing but the status-read request.
#[test]
fn manual_immediate_sent_once_then_cleared() {
    let mut d = SharedAppData::new();
    let out = tick(&mut d, 0, 0, false);
    assert!(out.realtime);
    assert_eq!(out.frame[0], 0x1);
    // Two strips at (0, 0) invert to eight 0xff payload bytes.
    assert_eq!(&out.frame[1..9], [0xff; 8].as_slice());
    assert!(!out.frame.contains(&0x6));
    assert!(!d.strips_changed);

    let out = tick(&mut d, 5, 5, false);
    assert!(!out.realtime);
    assert_eq!(out.frame, vec![0x6]);
}

/// An armed schedule suppresses redundant pushes of the current manual
/// state even while the change flag is set.
#[test]
fn armed_schedule_suppresses_manual_immediate() {
    let mut d = SharedAppData::new();
    d.schedule.start = "1h".to_string();
    d.schedule.length = "1m".to_string();
    d.arm_schedule(0);
    assert!(d.strips_changed);
    let out = tick(&mut d, 0, 1, true);
    assert!(!out.realtime);
    assert!(!out.frame.contains(&0x1));
    assert!(d.strips_changed);
}

/// Wave mode sends an Immediate frame on every tick.
#[test]
fn wave_mode_always_realtime() {
    let mut d = SharedAppData::new();
    d.strips_changed = false;
    d.controller = Controller::Wave {
        started_at_ms: 0,
        interval_ms: 1000,
        warm: true,
        cold: true,
        ty: WaveType::Square { duty: 32768 },
    };
    for now in [0u64, 5, 10, 2000] {
        let out = tick(&mut d, now, now, false);
        assert!(out.realtime);
        assert_eq!(out.frame[0], 0x1);
        assert!(!out.frame.contains(&0x6));
    }
}

/// A square wave at half duty drives both channels of both groups to full
/// in the first half-period; the wire then carries inverted zeros.
#[test]
fn square_wave_tick_writes_both_channels() {
    let mut d = SharedAppData::new();
    d.strips_changed = false;
    d.controller = Controller::Wave {
        started_at_ms: 0,
        interval_ms: 1000,
        warm: true,
        cold: true,
        ty: WaveType::Square { duty: 32768 },
    };
    let out = tick(&mut d, 100, 100, false);
    assert_eq!(d.strips[0], Strip { cold: 65535, warm: 65535 });
    assert_eq!(d.strips[1], Strip { cold: 65535, warm: 65535 });
    assert_eq!(&out.frame[1..9], [0x00; 8].as_slice());
    let out = tick(&mut d, 600, 600, false);
    assert_eq!(d.strips[0], Strip { cold: 0, warm: 0 });
    assert_eq!(&out.frame[1..9], [0xff; 8].as_slice());
}

/// The relay frame goes out exactly when the relay flag is set, carrying
/// 255 for on and 0 for off, and consumes the flag.
#[test]
fn relay_frame_sent_on_change_only() {
    let mut d = SharedAppData::new();
    d.strips_changed = false;
    d.relay_enabled = true;
    d.relay_changed = true;
    let out = tick(&mut d, 0, 0, false);
    assert_eq!(out.frame, vec![0x5, 255, 0x6]);
    assert!(!d.relay_changed);

    d.relay_enabled = false;
    d.relay_changed = true;
    let out = tick(&mut d, 5, 5, false);
    assert_eq!(out.frame, vec![0x5, 0, 0x6]);

    let out = tick(&mut d, 10, 10, false);
    assert_eq!(out.frame, vec![0x6]);
}

/// The interpolate frame lays out start and length as big-endian 32-bit
/// words followed by the endpoint's inverted levels.
#[test]
fn interpolate_frame_exact_bytes() {
    let mut d = SharedAppData::new();
    d.strips_changed = false;
    d.schedule.endpoint = vec![
        Strip { cold: 65535, warm: 0 },
        Strip { cold: 0x1234, warm: 0xffff },
    ];
    d.arm_schedule(0);
    let out = tick_parsed(&mut d, 0, 1, true, Some(258), Some(772));
    assert!(!out.schedule_error);
    assert_eq!(
        out.frame,
        vec![
            0x2, // interpolate opcode
            0, 0, 1, 2, // start 258 ms
            0, 0, 3, 4, // length 772 ms
            0x00, 0x00, 0xff, 0xff, // endpoint strip 0, inverted
            0xed, 0xcb, 0x00, 0x00, // endpoint strip 1, inverted
            0x6, // no realtime frame went out: ask for status
        ]
    );
    assert!(!d.schedule.status_changed);
}

/// Durations too large for the 32-bit wire are reported like a parse
/// failure and keep the owed frame for a later tick.
#[test]
fn oversized_duration_is_recoverable() {
    let mut d = SharedAppData::new();
    d.strips_changed = false;
    d.arm_schedule(0);
    let out = tick_parsed(&mut d, 0, 1, true, Some(u32::MAX as u128 + 1), Some(0));
    assert!(out.schedule_error);
    assert!(d.schedule.status_changed);
    assert!(!out.frame.contains(&0x2));
}
