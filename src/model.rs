//! The fixed parameters of the three-state model and the belief vector.
use vstd::prelude::*;

verus! {

/// Probabilities are held in parts per billion: `PROB_SCALE` stands for 1.0.
pub const PROB_SCALE: u64 = 1_000_000_000;

/// Number of observation symbols: ten score bins and the correction bin.
pub const NUM_SYMBOLS: usize = 11;

/// The symbol reserved for a long run of backspaces.
pub const CORRECTION_SYMBOL: usize = 10;

/// The three hidden states of the model.
#[derive(Clone, Copy, Debug, PartialEq, Eq, Hash, Structural)]
pub enum CognitiveState {
    Flow,
    Incubation,
    Stuck,
}

impl CognitiveState {
    /// Row / column of the state in the model's matrices.
    pub open spec fn index(self) -> int {
        match self {
            CognitiveState::Flow => 0,
            CognitiveState::Incubation => 1,
            CognitiveState::Stuck => 2,
        }
    }
}

/// Transition probability from state `from` to state `to`, in percent.
pub open spec fn transition_pct(from: int, to: int) -> int {
    let row: Seq<int> = if from == 0 {
        seq![92, 7, 1]
    } else if from == 1 {
        seq![10, 82, 8]
    } else {
        seq![5, 15, 80]
    };
    row[to]
}

/// Probability of observation symbol `obs` in state `state`, in percent.
pub open spec fn emission_pct(state: int, obs: int) -> int {
    let row: Seq<int> = if state == 0 {
        seq![35, 25, 15, 10, 7, 5, 2, 1, 0, 0, 0]
    } else if state == 1 {
        seq![2, 3, 5, 8, 10, 15, 20, 20, 10, 6, 1]
    } else {
        seq![0, 0, 1, 2, 5, 10, 20, 30, 20, 10, 99]
    };
    row[obs]
}

pub fn transition(from: usize, to: usize) -> (r: u64)
    requires
        from < 3,
        to < 3,
    ensures
        r as int == transition_pct(from as int, to as int),
        r <= 100,
{
    let row: [u64; 3] = if from == 0 {
        [92, 7, 1]
    } else if from == 1 {
        [10, 82, 8]
    } else {
        [5, 15, 80]
    };
    row[to]
}


pub fn emission(state: usize, obs: usize) -> (r: u64)
    requires
        state < 3,
        obs < NUM_SYMBOLS,
    ensures
        r as int == emission_pct(state as int, obs as int),
        r <= 100,
{
    let row: [u64; 11] = if state == 0 {
        [35, 25, 15, 10, 7, 5, 2, 1, 0, 0, 0]
    } else if state == 1 {
        [2, 3, 5, 8, 10, 15, 20, 20, 10, 6, 1]
    } else {
        [0, 0, 1, 2, 5, 10, 20, 30, 20, 10, 99]
    };
    row[obs]
}

/// A probability distribution over the three states, in parts per billion.
#[derive(Clone, Copy, Debug, PartialEq, Eq, Structural)]
pub struct Belief {
    pub flow: u64,
    pub incubation: u64,
    pub stuck: u64,
}

impl Belief {
    /// Probability of the state with index `i`.
    pub open spec fn prob(self, i: int) -> int {
        if i == 0 {
            self.flow as int
        } else if i == 1 {
            self.incubation as int
        } else {
            self.stuck as int
        }
    }

    /// The three probabilities add up to exactly one.
    pub open spec fn wf(self) -> bool {
        self.flow + self.incubation + self.stuck == PROB_SCALE
    }

    /// The prior of a freshly started estimator: mostly flow.
    pub open spec fn initial() -> Belief {
        Belief { flow: 700_000_000, incubation: 200_000_000, stuck: 100_000_000 }
    }

    /// The near-certain flow vector used when evidence is discarded.
    pub open spec fn near_flow() -> Belief {
        Belief { flow: 980_000_000, incubation: 10_000_000, stuck: 10_000_000 }
    }

    /// Probability of `state`.
    pub fn get(&self, state: CognitiveState) -> (r: u64)
        ensures
            r as int == self.prob(state.index()),
    {
        match state {
            CognitiveState::Flow => self.flow,
            CognitiveState::Incubation => self.incubation,
            CognitiveState::Stuck => self.stuck,
        }
    }
}

} // verus!
