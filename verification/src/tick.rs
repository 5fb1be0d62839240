//! One pass of the update engine: evaluate the wave, reconcile the
//! schedule, and build the tick's outgoing frame buffer. The caller runs
//! this under the state lock, then performs the serial I/O with the lock
//! released.

use vstd::prelude::*;
use crate::codec::{
    be32, push_be32, push_strips, strips_wire_bytes, OP_IMMEDIATE, OP_INTERPOLATE_FRAME,
    OP_NO_INTERPOLATE, OP_READ_STATUS, OP_RELAY_CONTROL,
};
use crate::duration::{duration_text_ms, read_duration_ms};
use crate::schedule::{reconcile, should_swap, swapped};
use crate::state::{AppView, Controller, ScheduleView, SharedAppData};
use crate::wave::{evaluate_wave, strips_after_wave};

verus! {

/// What one tick hands back to the I/O loop.
pub struct TickOutcome {
    /// The frames to write, concatenated into one buffer.
    pub frame: Vec<u8>,
    /// An animation-critical frame was sent, so this tick skips the
    /// status-read round trip.
    pub realtime: bool,
    /// The schedule text failed to parse as a duration (or did not fit the
    /// wire), so schedule frames were skipped this tick; recoverable.
    pub schedule_error: bool,
}

/// Schedule phase of a tick: reconcile, then emit the owed schedule frame.
/// Returns the state afterwards, the emitted bytes, and whether the
/// schedule was skipped over bad duration text. A parse failure leaves
/// every schedule field unchanged; an armed schedule whose durations do
/// not fit the 32-bit wire keeps its owed frame for a later tick.
pub open spec fn sched_step(
    v1: AppView,
    now_wall_ms: int,
    animation_running: bool,
    start_ms: Option<u128>,
    length_ms: Option<u128>,
) -> (AppView, Seq<u8>, bool) {
    match (start_ms, length_ms) {
        (Some(s), Some(l)) => {
            let v2 = if should_swap(v1.schedule, now_wall_ms, animation_running, s as int, l as int) {
                swapped(v1)
            } else {
                v1
            };
            if v2.schedule.status_changed {
                match v2.schedule.armed_at {
                    Some(_) => {
                        if s <= u32::MAX && l <= u32::MAX {
                            (
                                AppView {
                                    schedule: ScheduleView { status_changed: false, ..v2.schedule },
                                    ..v2
                                },
                                seq![OP_INTERPOLATE_FRAME] + be32(s as u32) + be32(l as u32)
                                    + strips_wire_bytes(v2.schedule.endpoint),
                                false,
                            )
                        } else {
                            (v2, Seq::empty(), true)
                        }
                    },
                    None => (
                        AppView {
                            schedule: ScheduleView { status_changed: false, ..v2.schedule },
                            ..v2
                        },
                        seq![OP_NO_INTERPOLATE],
                        false,
                    ),
                }
            } else {
                (v2, Seq::empty(), false)
            }
        },
        _ => (v1, Seq::empty(), true),
    }
}

/// Immediate phase of a tick: the strip snapshot goes out on every wave
/// tick, and on manual ticks exactly when the operator changed the strips
/// and no schedule is armed (an armed schedule suppresses redundant pushes
/// of the current state). The manual send consumes the change flag.
pub open spec fn immediate_step(v3: AppView) -> (AppView, Seq<u8>, bool) {
    match v3.controller {
        Controller::Wave { .. } => (
            v3,
            seq![OP_IMMEDIATE] + strips_wire_bytes(v3.strips),
            true,
        ),
        Controller::Manual => {
            if v3.strips_changed && v3.schedule.armed_at is None {
                (
                    AppView { strips_changed: false, ..v3 },
                    seq![OP_IMMEDIATE] + strips_wire_bytes(v3.strips),
                    true,
                )
            } else {
                (v3, Seq::empty(), false)
            }
        },
    }
}

/// Relay phase of a tick: one frame exactly when the relay setting
/// changed; the send consumes the change flag.
pub open spec fn relay_step(v4: AppView) -> (AppView, Seq<u8>) {
    if v4.relay_changed {
        (
            AppView { relay_changed: false, ..v4 },
            seq![
                OP_RELAY_CONTROL,
                if v4.relay_enabled {
                    255u8
                } else {
                    0u8
                },
            ],
        )
    } else {
        (v4, Seq::empty())
    }
}

/// A whole tick: wave evaluation, then the schedule, immediate and relay
/// phases, and a trailing status-read request on ticks that sent no
/// realtime frame. Returns the state afterwards, the frame buffer, the
/// realtime flag and the schedule-error flag.
pub open spec fn tick_spec(
    v: AppView,
    now_mono_ms: int,
    now_wall_ms: int,
    animation_running: bool,
    start_ms: Option<u128>,
    length_ms: Option<u128>,
) -> (AppView, Seq<u8>, bool, bool) {
    let v1 = AppView { strips: strips_after_wave(v.strips, v.controller, now_mono_ms), ..v };
    let (v3, sched_frames, sched_err) = sched_step(
        v1,
        now_wall_ms,
        animation_running,
        start_ms,
        length_ms,
    );
    let (v4, imm_frames, realtime) = immediate_step(v3);
    let (v5, relay_frames) = relay_step(v4);
    let status_frames: Seq<u8> = if realtime {
        Seq::empty()
    } else {
        seq![OP_READ_STATUS]
    };
    (v5, sched_frames + imm_frames + relay_frames + status_frames, realtime, sched_err)
}

/// Schedule phase of [`tick_parsed`]; appends the owed schedule frame.
fn run_sched_step(
    dat: &mut SharedAppData,
    frame: &mut Vec<u8>,
    now_wall_ms: u64,
    animation_running: bool,
    start_ms: Option<u128>,
    length_ms: Option<u128>,
) -> (err: bool)
    requires
        old(dat)@.wf(),
    ensures
        ({
            let r = sched_step(
                old(dat)@,
                now_wall_ms as int,
                animation_running,
                start_ms,
                length_ms,
            );
            &&& final(dat)@ == r.0
            &&& final(frame)@ == old(frame)@ + r.1
            &&& err == r.2
        }),
        final(dat)@.wf(),
{
    match (start_ms, length_ms) {
        (Some(s), Some(l)) => {
            reconcile(dat, now_wall_ms, animation_running, s, l);
            let ghost v2 = dat@;
            if dat.schedule.status_changed {
                if dat.schedule.armed_at.is_some() {
                    if s <= 0xffff_ffff && l <= 0xffff_ffff {
                        frame.push(OP_INTERPOLATE_FRAME);
                        push_be32(frame, s as u32);
                        push_be32(frame, l as u32);
                        push_strips(frame, &dat.schedule.endpoint);
                        dat.schedule.status_changed = false;
                        proof {
                            assert(frame@ =~= old(frame)@ + (seq![OP_INTERPOLATE_FRAME] + be32(
                                s as u32,
                            ) + be32(l as u32) + strips_wire_bytes(v2.schedule.endpoint)));
                            assert(dat@ =~= (AppView {
                                schedule: ScheduleView { status_changed: false, ..v2.schedule },
                                ..v2
                            }));
                        }
                        false
                    } else {
                        proof {
                            assert(frame@ =~= old(frame)@ + Seq::<u8>::empty());
                        }
                        true
                    }
                } else {
                    frame.push(OP_NO_INTERPOLATE);
                    dat.schedule.status_changed = false;
                    proof {
                        assert(frame@ =~= old(frame)@ + seq![OP_NO_INTERPOLATE]);
                        assert(dat@ =~= (AppView {
                            schedule: ScheduleView { status_changed: false, ..v2.schedule },
                            ..v2
                        }));
                    }
                    false
                }
            } else {
                proof {
                    assert(frame@ =~= old(frame)@ + Seq::<u8>::empty());
                }
                false
            }
        },
        _ => {
            proof {
                assert(frame@ =~= old(frame)@ + Seq::<u8>::empty());
            }
            true
        },
    }
}

/// Immediate phase of [`tick_parsed`]; appends the strip snapshot frame
/// when one is due and reports whether this tick is realtime.
fn run_immediate_step(dat: &mut SharedAppData, frame: &mut Vec<u8>) -> (realtime: bool)
    requires
        old(dat)@.wf(),
    ensures
        ({
            let r = immediate_step(old(dat)@);
            &&& final(dat)@ == r.0
            &&& final(frame)@ == old(frame)@ + r.1
            &&& realtime == r.2
        }),
        final(dat)@.wf(),
{
    let send_immediate: bool = match dat.controller {
        Controller::Wave { .. } => true,
        Controller::Manual => dat.strips_changed && dat.schedule.armed_at.is_none(),
    };
    if send_immediate {
        frame.push(OP_IMMEDIATE);
        push_strips(frame, &dat.strips);
        match dat.controller {
            Controller::Manual => {
                dat.strips_changed = false;
            },
            Controller::Wave { .. } => {},
        }
        proof {
            assert(frame@ =~= old(frame)@ + (seq![OP_IMMEDIATE] + strips_wire_bytes(
                old(dat)@.strips,
            )));
            assert(dat@ =~= immediate_step(old(dat)@).0);
        }
        true
    } else {
        proof {
            assert(frame@ =~= old(frame)@ + Seq::<u8>::empty());
            assert(dat@ =~= immediate_step(old(dat)@).0);
        }
        false
    }
}

/// Relay phase of [`tick_parsed`]; appends the relay frame when the
/// setting changed.
fn run_relay_step(dat: &mut SharedAppData, frame: &mut Vec<u8>)
    requires
        old(dat)@.wf(),
    ensures
        ({
            let r = relay_step(old(dat)@);
            &&& final(dat)@ == r.0
            &&& final(frame)@ == old(frame)@ + r.1
        }),
        final(dat)@.wf(),
{
    if dat.relay_changed {
        frame.push(OP_RELAY_CONTROL);
        frame.push(if dat.relay_enabled { 255 } else { 0 });
        dat.relay_changed = false;
        proof {
            assert(frame@ =~= old(frame)@ + relay_step(old(dat)@).1);
            assert(dat@ =~= relay_step(old(dat)@).0);
        }
    } else {
        proof {
            assert(frame@ =~= old(frame)@ + Seq::<u8>::empty());
            assert(dat@ =~= relay_step(old(dat)@).0);
        }
    }
}

/// One tick over already-parsed durations. The public entry point
/// [`tick`] parses the schedule text first; this function carries the
/// whole tick's exact contract for any parse outcome.
pub fn tick_parsed(
    dat: &mut SharedAppData,
    now_mono_ms: u64,
    now_wall_ms: u64,
    animation_running: bool,
    start_ms: Option<u128>,
    length_ms: Option<u128>,
) -> (out: TickOutcome)
    requires
        old(dat)@.wf(),
    ensures
        ({
            let r = tick_spec(
                old(dat)@,
                now_mono_ms as int,
                now_wall_ms as int,
                animation_running,
                start_ms,
                length_ms,
            );
            &&& final(dat)@ == r.0
            &&& out.frame@ == r.1
            &&& out.realtime == r.2
            &&& out.schedule_error == r.3
        }),
        final(dat)@.wf(),
{
    evaluate_wave(dat, now_mono_ms);
    let mut frame: Vec<u8> = Vec::new();
    let schedule_error = run_sched_step(
        dat,
        &mut frame,
        now_wall_ms,
        animation_running,
        start_ms,
        length_ms,
    );
    let realtime = run_immediate_step(dat, &mut frame);
    run_relay_step(dat, &mut frame);
    if !realtime {
        frame.push(OP_READ_STATUS);
    }
    proof {
        let r = tick_spec(
            old(dat)@,
            now_mono_ms as int,
            now_wall_ms as int,
            animation_running,
            start_ms,
            length_ms,
        );
        assert(frame@ =~= r.1);
    }
    TickOutcome { frame, realtime, schedule_error }
}

/// One whole tick of the update engine, parsing the schedule's duration
/// text afresh so edits apply live; text over the parser's length bound
/// counts as failing to parse (see
/// [`crate::duration::MAX_DURATION_TEXT_CHARS`]). Runs under the state
/// lock; the returned buffer is for the caller to write once the lock is
/// released.
pub fn tick(
    dat: &mut SharedAppData,
    now_mono_ms: u64,
    now_wall_ms: u64,
    animation_running: bool,
) -> (out: TickOutcome)
    requires
        old(dat)@.wf(),
    ensures
        ({
            let r = tick_spec(
                old(dat)@,
                now_mono_ms as int,
                now_wall_ms as int,
                animation_running,
                duration_text_ms(old(dat)@.schedule.start),
                duration_text_ms(old(dat)@.schedule.length),
            );
            &&& final(dat)@ == r.0
            &&& out.frame@ == r.1
            &&& out.realtime == r.2
            &&& out.schedule_error == r.3
        }),
        final(dat)@.wf(),
{
    let start_ms = read_duration_ms(dat.schedule.start.as_str());
    let length_ms = read_duration_ms(dat.schedule.length.as_str());
    tick_parsed(dat, now_mono_ms, now_wall_ms, animation_running, start_ms, length_ms)
}

} // verus!
