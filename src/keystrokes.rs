//! Per-keystroke measurements for the threshold rules: flight time, backspaces in
//! a five-second window, and the pause since the last backspace.
use vstd::prelude::*;

use std::collections::VecDeque;

use crate::rules::FlowState;
use crate::score::BACKSPACE_KEY;

verus! {

/// Backspaces older than this many milliseconds leave the window.
pub const BACKSPACE_WINDOW_MS: u64 = 5000;

/// Flight times below this many milliseconds are not measured.
pub const MIN_FLIGHT_TIME_MS: u64 = 10;

/// What one non-backspace key press yields for classification.
#[derive(Clone, Copy, Debug, PartialEq, Eq, Structural)]
pub struct Measurement {
    pub flight_time_ms: u64,
    pub backspace_count: u32,
    pub pause_after_delete_ms: Option<u64>,
}

/// Milliseconds from `earlier` to `now`, zero if `earlier` is not before `now`.
pub open spec fn elapsed(earlier: u64, now: u64) -> u64 {
    if now >= earlier {
        (now - earlier) as u64
    } else {
        0
    }
}

/// Drops from the front of `times` the backspaces that are at least a window old.
pub open spec fn prune(times: Seq<u64>, now: u64) -> Seq<u64>
    decreases times.len(),
{
    if times.len() > 0 && elapsed(times[0], now) >= BACKSPACE_WINDOW_MS {
        prune(times.drop_first(), now)
    } else {
        times
    }
}

/// The abstract state of a tracker.
pub struct TrackerView {
    pub last_key_ms: Option<u64>,
    pub backspace_times: Seq<u64>,
    pub last_backspace_ms: Option<u64>,
    pub last_state: Option<FlowState>,
}

impl TrackerView {
    /// The measurement that a non-backspace key at `now` yields.
    pub open spec fn measurement(self, now: u64) -> Option<Measurement> {
        match self.last_key_ms {
            None => None,
            Some(prev) => if elapsed(prev, now) < MIN_FLIGHT_TIME_MS {
                None
            } else {
                Some(
                    Measurement {
                        flight_time_ms: elapsed(prev, now),
                        backspace_count: if self.backspace_times.len() > u32::MAX {
                            u32::MAX
                        } else {
                            self.backspace_times.len() as u32
                        },
                        pause_after_delete_ms: match self.last_backspace_ms {
                            Some(t) => Some(elapsed(t, now)),
                            None => None,
                        },
                    },
                )
            },
        }
    }
}

/// Turns timed key presses into measurements.
pub struct KeystrokeTracker {
    last_key_ms: Option<u64>,
    backspace_times: VecDeque<u64>,
    last_backspace_ms: Option<u64>,
    last_state: Option<FlowState>,
}

impl View for KeystrokeTracker {
    type V = TrackerView;

    closed spec fn view(&self) -> TrackerView {
        TrackerView {
            last_key_ms: self.last_key_ms,
            backspace_times: self.backspace_times@,
            last_backspace_ms: self.last_backspace_ms,
            last_state: self.last_state,
        }
    }
}

impl KeystrokeTracker {
    /// A tracker that has seen no key yet.
    pub fn new() -> (r: Self)
        ensures
            r@.last_key_ms == None::<u64>,
            r@.backspace_times == Seq::<u64>::empty(),
            r@.last_backspace_ms == None::<u64>,
            r@.last_state == None::<FlowState>,
    {
        KeystrokeTracker {
            last_key_ms: None,
            backspace_times: VecDeque::new(),
            last_backspace_ms: None,
            last_state: None,
        }
    }

    /// Records a backspace at `now_ms` and drops the ones that left the window.
    pub fn on_backspace(&mut self, now_ms: u64)
        ensures
            final(self)@.backspace_times == prune(old(self)@.backspace_times.push(now_ms), now_ms),
            final(self)@.last_backspace_ms == Some(now_ms),
            final(self)@.last_key_ms == old(self)@.last_key_ms,
            final(self)@.last_state == old(self)@.last_state,
    {
        self.backspace_times.push_back(now_ms);
        self.last_backspace_ms = Some(now_ms);
        let ghost pushed = old(self)@.backspace_times.push(now_ms);
        loop
            invariant
                prune(self.backspace_times@, now_ms) == prune(pushed, now_ms),
                self.last_backspace_ms == Some(now_ms),
                self.last_key_ms == old(self)@.last_key_ms,
                self.last_state == old(self)@.last_state,
            ensures
                self.backspace_times@ == prune(pushed, now_ms),
                self.last_backspace_ms == Some(now_ms),
                self.last_key_ms == old(self)@.last_key_ms,
                self.last_state == old(self)@.last_state,
            decreases self.backspace_times@.len(),
        {
            if self.backspace_times.len() == 0 {
                assert(prune(self.backspace_times@, now_ms) == self.backspace_times@);
                break;
            }
            let oldest = self.backspace_times[0];
            if now_ms >= oldest && now_ms - oldest >= BACKSPACE_WINDOW_MS {
                let ghost before = self.backspace_times@;
                self.backspace_times.pop_front();
                assert(self.backspace_times@ == before.drop_first());
            } else {
                assert(prune(self.backspace_times@, now_ms) == self.backspace_times@);
                break;
            }
        }
    }

    /// Records a non-backspace key at `now_ms`; yields a measurement when a previous
    /// key is known and the flight time reaches the minimum.
    pub fn on_key(&mut self, now_ms: u64) -> (r: Option<Measurement>)
        ensures
            r == old(self)@.measurement(now_ms),
            final(self)@.last_key_ms == Some(now_ms),
            final(self)@.backspace_times == old(self)@.backspace_times,
            final(self)@.last_backspace_ms == old(self)@.last_backspace_ms,
            final(self)@.last_state == old(self)@.last_state,
    {
        let r = match self.last_key_ms {
            None => None,
            Some(prev) => {
                let flight_time_ms = if now_ms >= prev {
                    now_ms - prev
                } else {
                    0
                };
                if flight_time_ms < MIN_FLIGHT_TIME_MS {
                    None
                } else {
                    let len = self.backspace_times.len();
                    let backspace_count = if len > u32::MAX as usize {
                        u32::MAX
                    } else {
                        len as u32
                    };
                    let pause_after_delete_ms = match self.last_backspace_ms {
                        Some(t) => Some(
                            if now_ms >= t {
                                now_ms - t
                            } else {
                                0
                            },
                        ),
                        None => None,
                    };
                    Some(Measurement { flight_time_ms, backspace_count, pause_after_delete_ms })
                }
            },
        };
        self.last_key_ms = Some(now_ms);
        r
    }

    /// Handles one key press: a backspace goes to the window, any other key is
    /// measured.
    pub fn on_key_down(&mut self, now_ms: u64, vk_code: u32) -> (r: Option<Measurement>)
        ensures
            vk_code == BACKSPACE_KEY ==> r == None::<Measurement> && final(self)@.backspace_times
                == prune(old(self)@.backspace_times.push(now_ms), now_ms)
                && final(self)@.last_backspace_ms == Some(now_ms) && final(self)@.last_key_ms
                == old(self)@.last_key_ms && final(self)@.last_state == old(self)@.last_state,
            vk_code != BACKSPACE_KEY ==> r == old(self)@.measurement(now_ms)
                && final(self)@.last_key_ms == Some(now_ms) && final(self)@.backspace_times
                == old(self)@.backspace_times && final(self)@.last_backspace_ms == old(
                self,
            )@.last_backspace_ms && final(self)@.last_state == old(self)@.last_state,
    {
        if vk_code == BACKSPACE_KEY {
            self.on_backspace(now_ms);
            None
        } else {
            self.on_key(now_ms)
        }
    }

    /// Notes the latest classified state; true when it differs from the one before.
    pub fn note_state(&mut self, state: FlowState) -> (changed: bool)
        ensures
            changed == (old(self)@.last_state != Some(state)),
            final(self)@.last_state == Some(state),
            final(self)@.last_key_ms == old(self)@.last_key_ms,
            final(self)@.backspace_times == old(self)@.backspace_times,
            final(self)@.last_backspace_ms == old(self)@.last_backspace_ms,
    {
        let changed = match self.last_state {
            Some(s) => s != state,
            None => true,
        };
        self.last_state = Some(state);
        changed
    }

    /// Number of backspaces in the window.
    pub fn backspace_count(&self) -> (r: usize)
        ensures
            r == self@.backspace_times.len(),
    {
        self.backspace_times.len()
    }
}

} // verus!
