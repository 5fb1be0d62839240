//! The persistence debouncer: a background loop, woken on demand, that
//! coalesces save requests so at most one snapshot is written per debounce
//! window while the last requested state is always eventually written.
//! The blocking parts (parking, the wake signal, the file write) belong to
//! the caller; the decisions live here.

use vstd::prelude::*;
use crate::state::{config_eq, AppView, SharedAppData};

verus! {

/// The debounce window: at most one snapshot write per this many
/// milliseconds.
pub const DEBOUNCE_WINDOW_MS: u64 = 50;

/// The debouncer's state between wakes.
pub struct Debouncer {
    /// The moment the window reopens; saves may happen only strictly
    /// after it.
    pub next_save_ms: u64,
    /// The last snapshot written, kept to skip writes that would repeat
    /// it byte for byte.
    pub last_saved: Option<SharedAppData>,
}

/// Mathematical model of a [`Debouncer`].
#[verifier::ext_equal]
pub ghost struct DebouncerView {
    pub next_save_ms: u64,
    pub last_saved: Option<AppView>,
}

impl View for Debouncer {
    type V = DebouncerView;

    open spec fn view(&self) -> DebouncerView {
        DebouncerView {
            next_save_ms: self.next_save_ms,
            last_saved: match self.last_saved {
                Some(ref d) => Some(d@),
                None => None,
            },
        }
    }
}

/// One evaluated wake of the debouncer. Inside the still-closed window
/// nothing happens (the loop parks again). Past the window the wake is
/// consumed: the window timer re-arms whether or not a write occurs, and
/// a write is due exactly when the current state differs from the last
/// snapshot written.
pub open spec fn wake_step(d: DebouncerView, now_ms: int, current: AppView) -> (
    DebouncerView,
    bool,
) {
    if now_ms <= d.next_save_ms {
        (d, false)
    } else {
        (
            DebouncerView { next_save_ms: (now_ms + 50) as u64, last_saved: Some(current) },
            d.last_saved != Some(current),
        )
    }
}

impl Debouncer {
    /// A fresh debouncer whose window opens at `now_ms` and which has
    /// written nothing yet.
    pub fn new(now_ms: u64) -> (d: Self)
        ensures
            d@ == (DebouncerView { next_save_ms: now_ms, last_saved: None }),
    {
        Debouncer { next_save_ms: now_ms, last_saved: None }
    }

    /// The park-loop gate: the loop leaves its parked state only when a
    /// save was requested and the window has reopened.
    pub fn should_evaluate(&self, save_requested: bool, now_ms: u64) -> (b: bool)
        ensures
            b == (save_requested && now_ms > self.next_save_ms),
    {
        save_requested && now_ms > self.next_save_ms
    }

    /// One evaluated wake; see [`wake_step`]. Returns whether the caller
    /// must write a snapshot of `current` to durable storage now.
    pub fn on_wake(&mut self, now_ms: u64, current: &SharedAppData) -> (write: bool)
        requires
            now_ms + DEBOUNCE_WINDOW_MS <= u64::MAX,
        ensures
            ({
                let r = wake_step(old(self)@, now_ms as int, current@);
                &&& final(self)@ == r.0
                &&& write == r.1
            }),
    {
        if now_ms <= self.next_save_ms {
            return false;
        }
        let write = match &self.last_saved {
            None => true,
            Some(prev) => !config_eq(prev, current),
        };
        self.last_saved = Some(current.snapshot());
        self.next_save_ms = now_ms + DEBOUNCE_WINDOW_MS;
        proof {
            assert(self@ =~= wake_step(old(self)@, now_ms as int, current@).0);
        }
        write
    }
}

/// Fold of [`wake_step`] over a sequence of `(time, state)` wake events,
/// counting the writes.
pub open spec fn run_wakes(d: DebouncerView, events: Seq<(u64, AppView)>) -> (DebouncerView, nat)
    decreases events.len(),
{
    if events.len() == 0 {
        (d, 0)
    } else {
        let first = wake_step(d, events[0].0 as int, events[0].1);
        let rest = run_wakes(first.0, events.drop_first());
        (
            rest.0,
            rest.1 + if first.1 {
                1nat
            } else {
                0nat
            },
        )
    }
}

/// Coalescing law of the debouncer: any number of save requests landing
/// while the window is still closed write nothing and change nothing, and
/// the first evaluated wake after the window reopens writes exactly once —
/// the then-current state, which is the last one requested.
pub proof fn lemma_debounce_coalesces(
    d: DebouncerView,
    events: Seq<(u64, AppView)>,
    t: u64,
    current: AppView,
)
    requires
        forall|i: int| 0 <= i < events.len() ==> #[trigger] events[i].0 <= d.next_save_ms,
        t > d.next_save_ms,
        d.last_saved != Some(current),
        t + DEBOUNCE_WINDOW_MS <= u64::MAX,
    ensures
        run_wakes(d, events).0 == d,
        run_wakes(d, events).1 == 0,
        wake_step(run_wakes(d, events).0, t as int, current).1 == true,
        wake_step(run_wakes(d, events).0, t as int, current).0 == (DebouncerView {
            next_save_ms: (t + DEBOUNCE_WINDOW_MS) as u64,
            last_saved: Some(current),
        }),
    decreases events.len(),
{
    if events.len() > 0 {
        lemma_debounce_coalesces(d, events.drop_first(), t, current);
    }
}

} // verus!
