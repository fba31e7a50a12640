//! The estimator: belief, smoother, backspace streak and pause gate.
use vstd::prelude::*;

use crate::forward::{forward, forward_step};
use crate::model::{Belief, CognitiveState, PROB_SCALE};
use crate::score::{
    next_streak, next_streak_spec, observation_spec, observation_symbol, smooth, smooth_spec,
    stuck_score, stuck_score_spec, Features,
};

verus! {

/// Upper bounds of the flight-time bins, in milliseconds.
pub open spec fn flight_time_bounds() -> Seq<int> {
    seq![80, 120, 160, 200, 300, 400, 500, 700, 1000, 1500]
}

/// The abstract state of an estimator.
#[derive(Clone, Copy, Debug, PartialEq, Eq, Structural)]
pub struct EngineState {
    pub belief: Belief,
    pub paused: bool,
    pub backspace_streak: u32,
    pub smoothed_score: u64,
}

/// One key event as the estimator receives it: the features and the key code.
pub type KeyEvent = (Features, Option<u32>);

impl EngineState {
    /// The belief is a distribution and the smoothed score lies in [0, 1].
    pub open spec fn wf(self) -> bool {
        self.belief.wf() && self.smoothed_score <= PROB_SCALE
    }

    /// A fresh estimator: the initial prior, open gate, no streak, smoother at zero.
    pub open spec fn initial() -> EngineState {
        EngineState {
            belief: Belief::initial(),
            paused: false,
            backspace_streak: 0,
            smoothed_score: 0,
        }
    }

    /// An event is ignored while paused, or when it carries no flight time yet.
    pub open spec fn skips(self, features: Features) -> bool {
        self.paused || features.f1_flight_time_median == 0
    }

    /// The observation symbol that an event which is not skipped feeds to the belief.
    pub open spec fn symbol(self, features: Features, vk_code: Option<u32>) -> int {
        observation_spec(
            smooth_spec(self.smoothed_score as int, stuck_score_spec(features)),
            next_streak_spec(self.backspace_streak, vk_code) as int,
        )
    }

    /// The state after one event.
    pub open spec fn updated(self, features: Features, vk_code: Option<u32>) -> EngineState {
        if self.skips(features) {
            self
        } else {
            EngineState {
                belief: forward(self.belief, self.symbol(features, vk_code)),
                paused: self.paused,
                backspace_streak: next_streak_spec(self.backspace_streak, vk_code),
                smoothed_score: smooth_spec(
                    self.smoothed_score as int,
                    stuck_score_spec(features),
                ) as u64,
            }
        }
    }

    /// The state after a sequence of events, in order.
    pub open spec fn run(self, events: Seq<KeyEvent>) -> EngineState
        decreases events.len(),
    {
        if events.len() == 0 {
            self
        } else {
            let e = events.last();
            self.run(events.drop_last()).updated(e.0, e.1)
        }
    }

    /// The state after evidence is discarded: near-certain flow, smoother cleared.
    pub open spec fn forced_flow(self) -> EngineState {
        EngineState { belief: Belief::near_flow(), smoothed_score: 0, ..self }
    }
}

/// Estimates the cognitive state from a stream of key events.
pub struct CognitiveStateEngine {
    belief: Belief,
    paused: bool,
    backspace_streak: u32,
    smoothed_score: u64,
}

impl View for CognitiveStateEngine {
    type V = EngineState;

    closed spec fn view(&self) -> EngineState {
        EngineState {
            belief: self.belief,
            paused: self.paused,
            backspace_streak: self.backspace_streak,
            smoothed_score: self.smoothed_score,
        }
    }
}

impl CognitiveStateEngine {
    #[verifier::type_invariant]
    spec fn inv(self) -> bool {
        self@.wf()
    }

    /// A fresh estimator: prior 70 % flow, 20 % incubation, 10 % stuck.
    pub fn new() -> (r: Self)
        ensures
            r@ == EngineState::initial(),
            r@.wf(),
            r@.belief.flow >= PROB_SCALE / 2,
    {
        CognitiveStateEngine {
            belief: Belief { flow: 700_000_000, incubation: 200_000_000, stuck: 100_000_000 },
            paused: false,
            backspace_streak: 0,
            smoothed_score: 0,
        }
    }

    /// Opens or closes the pause gate.
    pub fn set_paused(&mut self, paused: bool)
        ensures
            final(self)@ == (EngineState { paused, ..old(self)@ }),
    {
        proof {
            use_type_invariant(&*self);
        }
        self.paused = paused;
    }

    /// Discards the evidence so far: the belief becomes near-certain flow and the
    /// smoother restarts from zero. The pause gate and the streak are kept.
    pub fn force_flow_state(&mut self)
        ensures
            final(self)@ == old(self)@.forced_flow(),
            final(self)@.belief == Belief::near_flow(),
            final(self)@.smoothed_score == 0,
    {
        proof {
            use_type_invariant(&*self);
        }
        self.smoothed_score = 0;
        self.belief = Belief { flow: 980_000_000, incubation: 10_000_000, stuck: 10_000_000 };
    }

    /// Whether the pause gate is closed.
    pub fn get_paused(&self) -> (r: bool)
        ensures
            r == self@.paused,
    {
        self.paused
    }

    /// Feeds one key event to the estimator.
    pub fn update(&mut self, features: &Features, vk_code: Option<u32>)
        ensures
            final(self)@ == old(self)@.updated(*features, vk_code),
            final(self)@.wf(),
    {
        proof {
            use_type_invariant(&*self);
        }
        if self.paused {
            return;
        }
        if features.f1_flight_time_median == 0 {
            return;
        }
        let streak = next_streak(self.backspace_streak, vk_code);
        let raw = stuck_score(features);
        let smoothed = smooth(self.smoothed_score, raw);
        let obs = observation_symbol(smoothed, streak);
        let posterior = forward_step(&self.belief, obs);
        self.backspace_streak = streak;
        self.smoothed_score = smoothed;
        self.belief = posterior;
    }

    /// The bin of a flight time given in thousandths of a millisecond (the unit of
    /// `Features`): the number of the bin bounds (80, 120, 160, 200, 300, 400, 500,
    /// 700, 1000, 1500 ms) it reaches.
    pub fn discretize_flight_time(&self, ft: u64) -> (r: usize)
        ensures
            r <= 10,
            r == 0 || flight_time_bounds()[r - 1] * 1000 <= ft,
            r == 10 || ft < flight_time_bounds()[r as int] * 1000,
    {
        let bounds: [u64; 10] = [
            80_000,
            120_000,
            160_000,
            200_000,
            300_000,
            400_000,
            500_000,
            700_000,
            1_000_000,
            1_500_000,
        ];
        assert(bounds@ == flight_time_bounds().map_values(|b: int| (b * 1000) as u64));
        let mut i: usize = 0;
        while i < 10 && bounds[i] <= ft
            invariant
                i <= 10,
                bounds@ == flight_time_bounds().map_values(|b: int| (b * 1000) as u64),
                i == 0 || flight_time_bounds()[i - 1] * 1000 <= ft,
            decreases 10 - i,
        {
            i = i + 1;
        }
        i
    }

    /// Length of the current run of backspaces.
    pub fn backspace_streak(&self) -> (r: u32)
        ensures
            r == self@.backspace_streak,
    {
        self.backspace_streak
    }

    /// The current smoothed stuck score, in parts per billion.
    pub fn smoothed_score(&self) -> (r: u64)
        ensures
            r == self@.smoothed_score,
    {
        self.smoothed_score
    }

    /// The most probable state (the first in the order flow, incubation, stuck on a tie).
    pub fn most_likely_state(&self) -> (r: CognitiveState)
        ensures
            forall|i: int|
                0 <= i < 3 ==> #[trigger] self@.belief.prob(i) <= self@.belief.prob(r.index()),
            forall|i: int|
                0 <= i < r.index() ==> #[trigger] self@.belief.prob(i) < self@.belief.prob(
                    r.index(),
                ),
    {
        let b = self.belief;
        if b.flow >= b.incubation && b.flow >= b.stuck {
            CognitiveState::Flow
        } else if b.incubation >= b.stuck {
            CognitiveState::Incubation
        } else {
            CognitiveState::Stuck
        }
    }

    /// A snapshot of the current belief.
    pub fn get_current_state(&self) -> (r: Belief)
        ensures
            r == self@.belief,
            r.wf(),
    {
        proof {
            use_type_invariant(self);
        }
        self.belief
    }
}

} // verus!
