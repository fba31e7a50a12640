//! Threshold rules that classify a single keystroke measurement.
use vstd::prelude::*;

verus! {

/// Cognitive state as decided by the threshold rules.
#[derive(Clone, Copy, Debug, PartialEq, Eq, Structural)]
pub enum FlowState {
    /// Fast, steady typing with few corrections.
    Flow,
    /// Moderate delays or occasional corrections.
    Incubation,
    /// Long delays or many deletions.
    Stuck,
}

/// Pause after a deletion, in milliseconds, from which the typist counts as hesitating.
pub const HESITATION_MS: u64 = 2000;

impl FlowState {
    pub open spec fn label(self) -> Seq<char> {
        match self {
            FlowState::Flow => "FLOW"@,
            FlowState::Incubation => "INCUBATION"@,
            FlowState::Stuck => "STUCK"@,
        }
    }

    /// The state's name in capitals.
    pub fn as_str(&self) -> (r: &'static str)
        ensures
            r@ == self.label(),
    {
        match self {
            FlowState::Flow => "FLOW",
            FlowState::Incubation => "INCUBATION",
            FlowState::Stuck => "STUCK",
        }
    }
}

/// Stuck on a hesitation after deleting, on a flight time over 500 ms or on more
/// than five recent backspaces; flow when the flight time is under 100 ms with at
/// most one backspace; incubation otherwise.
pub open spec fn classify_spec(
    flight_time_ms: u64,
    backspace_count: u32,
    pause_after_delete_ms: Option<u64>,
) -> FlowState {
    if (pause_after_delete_ms matches Some(ms) && ms >= HESITATION_MS) || flight_time_ms > 500
        || backspace_count > 5 {
        FlowState::Stuck
    } else if flight_time_ms < 100 && backspace_count < 2 {
        FlowState::Flow
    } else {
        FlowState::Incubation
    }
}

/// Classifies one measurement: the flight time since the previous key, the number
/// of backspaces in the recent window and, if a backspace was seen, the time since it.
pub fn classify_state(
    flight_time_ms: u64,
    backspace_count: u32,
    pause_after_delete_ms: Option<u64>,
) -> (r: FlowState)
    ensures
        r == classify_spec(flight_time_ms, backspace_count, pause_after_delete_ms),
{
    if let Some(ms) = pause_after_delete_ms {
        if ms >= HESITATION_MS {
            return FlowState::Stuck;
        }
    }
    let flight_time_exceeds_threshold = flight_time_ms > 500;
    let backspace_exceeds_threshold = backspace_count > 5;
    let flight_time_normal = flight_time_ms < 100;
    let backspace_minimal = backspace_count < 2;
    if flight_time_exceeds_threshold || backspace_exceeds_threshold {
        FlowState::Stuck
    } else if flight_time_normal && backspace_minimal {
        FlowState::Flow
    } else {
        FlowState::Incubation
    }
}

} // verus!
