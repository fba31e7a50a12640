//! Estimation of a typist's cognitive state (flow, incubation, stuck) from
//! keystroke statistics, in exact fixed-point arithmetic.

pub mod engine;
pub mod error;
pub mod forward;
pub mod ime;
pub mod keystrokes;
pub mod laws;
pub mod model;
pub mod overlay;
pub mod rules;
pub mod score;

pub use engine::{CognitiveStateEngine, EngineState};
pub use error::HookError;
pub use model::{Belief, CognitiveState, PROB_SCALE};
pub use rules::{classify_state, FlowState};
pub use score::Features;
