//! The shared lighting state: strip levels, controller mode, schedule and
//! change flags, together with the operator-driven transitions on it.

use vstd::prelude::*;
use vstd::string::StringExecFns;

verus! {

/// Number of physical strip groups; fixed, not user-resizable.
pub const STRIP_COUNT: usize = 2;

/// A square wave's duty cycle is measured in 1/65536ths of a period, so a
/// duty of `DUTY_ONE` keeps the output high for the whole period.
pub const DUTY_ONE: u32 = 65536;

/// One physical LED group: a cold and a warm 16-bit brightness level.
/// The logical value 0 means "off" and 65535 means "full"; the wire carries
/// the inverted value (a device quirk, see the codec).
#[derive(Clone, Copy, PartialEq, Eq, Structural, Debug)]
pub struct Strip {
    pub cold: u16,
    pub warm: u16,
}

/// Waveform shape for wave mode.
#[derive(Clone, Copy, PartialEq, Eq, Structural, Debug)]
pub enum WaveType {
    Sine,
    /// Square wave; `duty` is the high fraction of each period in
    /// 1/65536ths, at most [`DUTY_ONE`].
    Square { duty: u32 },
}

/// How the strip levels are produced: operator-set static values, or a
/// periodic waveform written into the toggled channels each tick.
#[derive(Clone, Copy, PartialEq, Eq, Structural, Debug)]
pub enum Controller {
    Manual,
    Wave {
        /// Monotonic milliseconds at which the wave's phase started.
        /// Never persisted meaningfully: a restarted process restarts
        /// the phase.
        started_at_ms: u64,
        /// Wave period in milliseconds, at least 1.
        interval_ms: u32,
        /// Apply the wave to the warm channels.
        warm: bool,
        /// Apply the wave to the cold channels.
        cold: bool,
        ty: WaveType,
    },
}

impl Controller {
    /// Validity of the wave configuration: a positive period and a duty
    /// cycle of at most one period.
    pub open spec fn wf(self) -> bool {
        match self {
            Controller::Manual => true,
            Controller::Wave { interval_ms, ty, .. } => {
                &&& interval_ms >= 1
                &&& match ty {
                    WaveType::Sine => true,
                    WaveType::Square { duty } => duty <= DUTY_ONE,
                }
            },
        }
    }
}

/// A timed handoff from the current lighting state toward `endpoint`.
/// `start` and `length` hold human-readable duration text, parsed anew each
/// tick so edits take effect without an explicit apply step.
#[derive(PartialEq, Debug)]
pub struct Schedule {
    /// Duration text: how long after arming the transition begins.
    pub start: String,
    /// Duration text: how long the transition lasts.
    pub length: String,
    /// Target strip levels; the current levels live in
    /// [`SharedAppData::strips`].
    pub endpoint: Vec<Strip>,
    /// Wall-clock milliseconds at which the schedule was armed; `None`
    /// while idle.
    pub armed_at: Option<u64>,
    /// Edge flag: a schedule frame is owed to the device.
    pub status_changed: bool,
}

/// Mathematical model of a [`Schedule`].
#[verifier::ext_equal]
pub ghost struct ScheduleView {
    pub start: Seq<char>,
    pub length: Seq<char>,
    pub endpoint: Seq<Strip>,
    pub armed_at: Option<u64>,
    pub status_changed: bool,
}

impl View for Schedule {
    type V = ScheduleView;

    open spec fn view(&self) -> ScheduleView {
        ScheduleView {
            start: self.start@,
            length: self.length@,
            endpoint: self.endpoint@,
            armed_at: self.armed_at,
            status_changed: self.status_changed,
        }
    }
}

impl ScheduleView {
    pub open spec fn wf(self) -> bool {
        self.endpoint.len() == STRIP_COUNT
    }
}

/// The single shared aggregate of lighting intent and change flags. It is
/// created once at startup, lives behind mutual exclusion for the process
/// lifetime, and is mutated by the presentation layer, the update engine
/// and the persistence debouncer.
#[derive(PartialEq, Debug)]
pub struct SharedAppData {
    /// Current levels of the two strip groups.
    pub strips: Vec<Strip>,
    /// Edge flag: the operator changed `strips` since the last send.
    pub strips_changed: bool,
    pub controller: Controller,
    pub relay_enabled: bool,
    /// Edge flag: `relay_enabled` changed since the last send.
    pub relay_changed: bool,
    pub schedule: Schedule,
}

/// Mathematical model of [`SharedAppData`].
#[verifier::ext_equal]
pub ghost struct AppView {
    pub strips: Seq<Strip>,
    pub strips_changed: bool,
    pub controller: Controller,
    pub relay_enabled: bool,
    pub relay_changed: bool,
    pub schedule: ScheduleView,
}

impl View for SharedAppData {
    type V = AppView;

    open spec fn view(&self) -> AppView {
        AppView {
            strips: self.strips@,
            strips_changed: self.strips_changed,
            controller: self.controller,
            relay_enabled: self.relay_enabled,
            relay_changed: self.relay_changed,
            schedule: self.schedule@,
        }
    }
}

impl AppView {
    /// The structural invariant: exactly one strip pair per physical
    /// channel group, and a valid controller configuration.
    pub open spec fn wf(self) -> bool {
        &&& self.strips.len() == STRIP_COUNT
        &&& self.controller.wf()
        &&& self.schedule.wf()
    }
}

/// The state of a fresh installation: both strip groups off, manual
/// control, relay off, and an idle schedule aiming at full cold
/// brightness. The strips count as changed because the device's previous
/// state is unknown at startup.
pub open spec fn initial_view() -> AppView {
    AppView {
        strips: seq![Strip { cold: 0, warm: 0 }, Strip { cold: 0, warm: 0 }],
        strips_changed: true,
        controller: Controller::Manual,
        relay_enabled: false,
        relay_changed: false,
        schedule: ScheduleView {
            start: "6h30m"@,
            length: "30m"@,
            endpoint: seq![Strip { cold: 65535, warm: 0 }, Strip { cold: 65535, warm: 0 }],
            armed_at: None,
            status_changed: false,
        },
    }
}

impl SharedAppData {
    /// The default state of a fresh installation; see [`initial_view`].
    pub fn new() -> (d: Self)
        ensures
            d@ == initial_view(),
            d@.wf(),
    {
        let mut strips: Vec<Strip> = Vec::new();
        strips.push(Strip { cold: 0, warm: 0 });
        strips.push(Strip { cold: 0, warm: 0 });
        let mut endpoint: Vec<Strip> = Vec::new();
        endpoint.push(Strip { cold: 65535, warm: 0 });
        endpoint.push(Strip { cold: 65535, warm: 0 });
        let d = SharedAppData {
            strips,
            strips_changed: true,
            controller: Controller::Manual,
            relay_enabled: false,
            relay_changed: false,
            schedule: Schedule {
                start: String::from_str("6h30m"),
                length: String::from_str("30m"),
                endpoint,
                armed_at: None,
                status_changed: false,
            },
        };
        assert(d@ =~= initial_view());
        d
    }

    /// Operator transition `Idle -> Armed`: request the timed handoff,
    /// recording the arming moment and owing the device a schedule frame.
    pub fn arm_schedule(&mut self, now_wall_ms: u64)
        ensures
            final(self)@ == (AppView {
                schedule: ScheduleView {
                    armed_at: Some(now_wall_ms),
                    status_changed: true,
                    ..old(self)@.schedule
                },
                ..old(self)@
            }),
    {
        self.schedule.armed_at = Some(now_wall_ms);
        self.schedule.status_changed = true;
    }

    /// Operator transition `Armed -> Idle`: cancel the handoff. The manual
    /// strip state counts as changed so it is resent immediately.
    pub fn cancel_schedule(&mut self)
        ensures
            final(self)@ == (AppView {
                strips_changed: true,
                schedule: ScheduleView {
                    armed_at: None,
                    status_changed: true,
                    ..old(self)@.schedule
                },
                ..old(self)@
            }),
    {
        self.schedule.armed_at = None;
        self.schedule.status_changed = true;
        self.strips_changed = true;
    }

    /// A deep copy of the whole state, model-equal to the original; what
    /// the persistence debouncer keeps as its last-written snapshot.
    pub fn snapshot(&self) -> (c: Self)
        ensures
            c@ == self@,
    {
        let c = SharedAppData {
            strips: clone_strips(&self.strips),
            strips_changed: self.strips_changed,
            controller: self.controller,
            relay_enabled: self.relay_enabled,
            relay_changed: self.relay_changed,
            schedule: Schedule {
                start: self.schedule.start.clone(),
                length: self.schedule.length.clone(),
                endpoint: clone_strips(&self.schedule.endpoint),
                armed_at: self.schedule.armed_at,
                status_changed: self.schedule.status_changed,
            },
        };
        assert(c@ =~= self@);
        c
    }

    /// Trade the current strip levels with the schedule endpoint; current
    /// and target change places.
    pub fn swap_with_endpoint(&mut self)
        ensures
            final(self)@ == (AppView {
                strips: old(self)@.schedule.endpoint,
                schedule: ScheduleView {
                    endpoint: old(self)@.strips,
                    ..old(self)@.schedule
                },
                ..old(self)@
            }),
    {
        core::mem::swap(&mut self.strips, &mut self.schedule.endpoint);
    }
}

impl Default for SharedAppData {
    fn default() -> (d: Self)
        ensures
            d@ == initial_view(),
    {
        Self::new()
    }
}

/// An element-wise copy of a strip list.
fn clone_strips(v: &Vec<Strip>) -> (r: Vec<Strip>)
    ensures
        r@ == v@,
{
    let mut r: Vec<Strip> = Vec::new();
    let n: usize = v.len();
    let mut i: usize = 0;
    while i < n
        invariant
            i <= n,
            n == v@.len(),
            r@ == v@.take(i as int),
        decreases n - i,
    {
        r.push(v[i]);
        proof {
            assert(r@ =~= v@.take(i + 1));
        }
        i = i + 1;
    }
    proof {
        assert(r@ =~= v@);
    }
    r
}

/// Element-wise comparison of two strip lists.
fn strips_eq(x: &Vec<Strip>, y: &Vec<Strip>) -> (r: bool)
    ensures
        r <==> x@ == y@,
{
    if x.len() != y.len() {
        return false;
    }
    let n: usize = x.len();
    let mut i: usize = 0;
    while i < n
        invariant
            i <= n,
            n == x@.len(),
            x@.len() == y@.len(),
            forall|j: int| 0 <= j < i ==> x@[j] == y@[j],
        decreases n - i,
    {
        let a = x[i];
        let b = y[i];
        if a.cold != b.cold || a.warm != b.warm {
            return false;
        }
        i = i + 1;
    }
    proof {
        assert(x@ =~= y@);
    }
    true
}

/// Model-level equality of two whole states: every strip level, flag,
/// controller field and schedule field agrees. What the persistence
/// debouncer uses to skip writes that would repeat the last snapshot.
pub fn config_eq(a: &SharedAppData, b: &SharedAppData) -> (r: bool)
    ensures
        r <==> a@ == b@,
{
    let armed_eq: bool = match (a.schedule.armed_at, b.schedule.armed_at) {
        (Some(x), Some(y)) => x == y,
        (None, None) => true,
        _ => false,
    };
    let r = strips_eq(&a.strips, &b.strips) && a.strips_changed == b.strips_changed
        && a.controller == b.controller && a.relay_enabled == b.relay_enabled
        && a.relay_changed == b.relay_changed && a.schedule.start == b.schedule.start
        && a.schedule.length == b.schedule.length && strips_eq(
        &a.schedule.endpoint,
        &b.schedule.endpoint,
    ) && armed_eq && a.schedule.status_changed == b.schedule.status_changed;
    proof {
        if r {
            assert(a@ =~= b@);
        }
    }
    r
}

} // verus!
