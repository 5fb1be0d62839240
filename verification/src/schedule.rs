//! The schedule reconciler: the state machine that decides when the armed
//! handoff completes, swapping the current strip levels with the schedule
//! endpoint in agreement with the device's own animation status.

use vstd::prelude::*;
use crate::state::{AppView, ScheduleView, SharedAppData};

verus! {

/// Safety margin subtracted from the ideal handoff deadline. The device's
/// interpolation may finish slightly before or after the host's schedule
/// math, so the timer is only a gate; the status byte is the authoritative
/// signal. 250 ms for transitions longer than 10 s, none otherwise.
pub open spec fn swap_margin_ms(length_ms: int) -> int {
    if length_ms > 10000 {
        250
    } else {
        0
    }
}

/// The reconciliation condition: a handoff is armed, the wall clock has
/// moved past the arming moment by more than `start + length - margin`
/// (never less than zero), and the device reports no running animation.
pub open spec fn should_swap(
    s: ScheduleView,
    now_wall_ms: int,
    animation_running: bool,
    start_ms: int,
    length_ms: int,
) -> bool {
    match s.armed_at {
        Some(t) => {
            let total = start_ms + length_ms;
            let margin = swap_margin_ms(length_ms);
            let deadline = if total >= margin {
                total - margin
            } else {
                0
            };
            &&& now_wall_ms >= t
            &&& now_wall_ms - t > deadline
            &&& !animation_running
        },
        None => false,
    }
}

/// The state after a completed handoff: current and target strip levels
/// trade places, the schedule disarms, and a schedule frame is owed so the
/// device learns the interpolation is over.
pub open spec fn swapped(v: AppView) -> AppView {
    AppView {
        strips: v.schedule.endpoint,
        schedule: ScheduleView {
            endpoint: v.strips,
            armed_at: None,
            status_changed: true,
            ..v.schedule
        },
        ..v
    }
}

/// One reconciliation step. Exactly when [`should_swap`] holds, the swap
/// happens; on every other tick the state is untouched.
pub fn reconcile(
    dat: &mut SharedAppData,
    now_wall_ms: u64,
    animation_running: bool,
    start_ms: u128,
    length_ms: u128,
)
    requires
        old(dat)@.wf(),
    ensures
        final(dat)@.wf(),
        should_swap(
            old(dat)@.schedule,
            now_wall_ms as int,
            animation_running,
            start_ms as int,
            length_ms as int,
        ) ==> final(dat)@ == swapped(old(dat)@),
        !should_swap(
            old(dat)@.schedule,
            now_wall_ms as int,
            animation_running,
            start_ms as int,
            length_ms as int,
        ) ==> final(dat)@ == old(dat)@,
{
    let fire: bool = match dat.schedule.armed_at {
        Some(t) => {
            if now_wall_ms >= t && !animation_running {
                let elapsed: u128 = (now_wall_ms - t) as u128;
                match start_ms.checked_add(length_ms) {
                    Some(total) => {
                        let margin: u128 = if length_ms > 10000 {
                            250
                        } else {
                            0
                        };
                        let deadline: u128 = if total >= margin {
                            total - margin
                        } else {
                            0
                        };
                        elapsed > deadline
                    },
                    None => false,
                }
            } else {
                false
            }
        },
        None => false,
    };
    if fire {
        core::mem::swap(&mut dat.strips, &mut dat.schedule.endpoint);
        dat.schedule.armed_at = None;
        dat.schedule.status_changed = true;
        assert(dat@ =~= swapped(old(dat)@));
    } else {
        assert(dat@ =~= old(dat)@);
    }
}

/// Idempotence of reconciliation: a completed handoff disarms the
/// schedule, and a disarmed schedule never swaps again — whatever later
/// ticks see of the clock, the status byte or the parsed durations.
pub proof fn lemma_reconcile_idempotent(
    v: AppView,
    now_wall_ms: int,
    animation_running: bool,
    start_ms: int,
    length_ms: int,
    later_now: int,
    later_running: bool,
    later_start: int,
    later_length: int,
)
    requires
        should_swap(v.schedule, now_wall_ms, animation_running, start_ms, length_ms),
    ensures
        swapped(v).schedule.armed_at is None,
        !should_swap(swapped(v).schedule, later_now, later_running, later_start, later_length),
{
}

} // verus!
