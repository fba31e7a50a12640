use gse::engine::CognitiveStateEngine;
use gse::forward::forward_step;
use gse::model::{Belief, CognitiveState, PROB_SCALE};
use gse::score::{
    next_streak, observation_symbol, phi, smooth, stuck_score, Features, BACKSPACE_KEY,
};

const A_KEY: u32 = 0x41;

fn features(median_ms: f64, variance: f64, correction: f64, burst: f64, pauses: f64, pad_rate: f64) -> Features {
    let milli = |v: f64| (v * 1000.0).round() as u64;
    Features {
        f1_flight_time_median: milli(median_ms),
        f2_flight_time_variance: milli(variance),
        f3_correction_rate: milli(correction),
        f4_burst_length: milli(burst),
        f5_pause_count: milli(pauses),
        f6_pause_after_del_rate: milli(pad_rate),
    }
}

fn fast_typing() -> Features {
    features(60.0, 50.0, 0.02, 8.0, 0.0, 0.0)
}

fn neutral() -> Features {
    features(250.0, 2000.0, 0.10, 2.0, 3.0, 0.15)
}

fn struggling() -> Features {
    features(900.0, 8000.0, 0.4, 0.5, 8.0, 0.6)
}

fn sum(b: &Belief) -> u64 {
    b.flow + b.incubation + b.stuck
}

fn as_f64(p: u64) -> f64 {
    p as f64 / PROB_SCALE as f64
}

#[test]
fn fresh_engine_favours_flow() {
    let e = CognitiveStateEngine::new();
    let b = e.get_current_state();
    assert!(as_f64(b.flow) >= 0.5);
    assert_eq!(b, Belief { flow: 700_000_000, incubation: 200_000_000, stuck: 100_000_000 });
    assert_eq!(e.most_likely_state(), CognitiveState::Flow);
    assert!(!e.get_paused());
    assert_eq!(e.backspace_streak(), 0);
    assert_eq!(e.smoothed_score(), 0);
}

#[test]
fn sustained_fast_typing_reaches_flow() {
    let mut e = CognitiveStateEngine::new();
    for _ in 0..20 {
        e.update(&fast_typing(), Some(A_KEY));
    }
    assert!(as_f64(e.get_current_state().flow) > 0.8);
    assert_eq!(e.most_likely_state(), CognitiveState::Flow);
}

#[test]
fn backspace_storm_forces_correction_symbol() {
    let mut e = CognitiveStateEngine::new();
    let mut stuck = Vec::new();
    for k in 1..=6 {
        e.update(&neutral(), Some(BACKSPACE_KEY));
        let symbol = observation_symbol(e.smoothed_score(), e.backspace_streak());
        if k >= 5 {
            assert_eq!(symbol, 10);
        } else {
            assert!(symbol < 10);
        }
        stuck.push(e.get_current_state().stuck);
    }
    assert_eq!(e.backspace_streak(), 6);
    assert!(stuck[4] > stuck[3]);
    assert!(stuck[5] > stuck[4]);
    assert_eq!(e.get_current_state().flow, 0);
}

#[test]
fn composition_interruption_resets_to_flow() {
    let mut e = CognitiveStateEngine::new();
    for _ in 0..15 {
        e.update(&struggling(), Some(A_KEY));
    }
    assert_eq!(e.most_likely_state(), CognitiveState::Stuck);
    e.force_flow_state();
    assert!(as_f64(e.get_current_state().flow) >= 0.98);
    assert_eq!(e.get_current_state(), Belief { flow: 980_000_000, incubation: 10_000_000, stuck: 10_000_000 });
    assert_eq!(e.smoothed_score(), 0);
    let raw = stuck_score(&struggling());
    e.update(&struggling(), Some(A_KEY));
    assert_eq!(e.smoothed_score(), smooth(0, raw));
    assert_eq!(sum(&e.get_current_state()), PROB_SCALE);
}

#[test]
fn belief_stays_normalized() {
    let mut e = CognitiveStateEngine::new();
    let inputs = [fast_typing(), neutral(), struggling(), features(1.0, 0.0, 1.0, 0.0, 50.0, 1.0), features(10000.0, 1e9, 0.0, 100.0, 0.0, 0.0)];
    let keys = [Some(A_KEY), Some(BACKSPACE_KEY), None, Some(BACKSPACE_KEY), Some(BACKSPACE_KEY)];
    for round in 0..40 {
        e.update(&inputs[round % inputs.len()], keys[(round / 2) % keys.len()]);
        let b = e.get_current_state();
        assert_eq!(sum(&b), PROB_SCALE);
        assert!(b.flow <= PROB_SCALE && b.incubation <= PROB_SCALE && b.stuck <= PROB_SCALE);
    }
}

#[test]
fn smoothing_approaches_constant_score() {
    let raw = stuck_score(&struggling());
    let mut prev = 0u64;
    let mut distance = raw.abs_diff(prev);
    for _ in 0..200 {
        prev = smooth(prev, raw);
        let d = raw.abs_diff(prev);
        if distance >= 2 {
            assert!(d < distance);
        } else {
            assert!(d <= 1);
        }
        distance = d;
    }
    assert!(distance <= 1);

    let mut e = CognitiveStateEngine::new();
    let mut distance = raw.abs_diff(e.smoothed_score());
    for _ in 0..60 {
        e.update(&struggling(), Some(A_KEY));
        let d = raw.abs_diff(e.smoothed_score());
        assert!(d < distance || d <= 1);
        distance = d;
    }
}

#[test]
fn five_backspaces_override_a_low_score() {
    let mut e = CognitiveStateEngine::new();
    for _ in 0..5 {
        e.update(&fast_typing(), Some(BACKSPACE_KEY));
    }
    assert!(e.smoothed_score() < 100_000_000);
    assert_eq!(observation_symbol(e.smoothed_score(), e.backspace_streak()), 10);
    assert_eq!(observation_symbol(e.smoothed_score(), 4), 0);
}

#[test]
fn paused_updates_change_nothing() {
    let mut e = CognitiveStateEngine::new();
    e.update(&struggling(), Some(BACKSPACE_KEY));
    e.update(&struggling(), Some(BACKSPACE_KEY));
    let belief = e.get_current_state();
    let streak = e.backspace_streak();
    let smoothed = e.smoothed_score();
    e.set_paused(true);
    assert!(e.get_paused());
    for k in 0..10 {
        e.update(&fast_typing(), if k % 2 == 0 { Some(A_KEY) } else { Some(BACKSPACE_KEY) });
    }
    assert_eq!(e.get_current_state(), belief);
    assert_eq!(e.backspace_streak(), streak);
    assert_eq!(e.smoothed_score(), smoothed);
    e.set_paused(false);
    e.update(&fast_typing(), Some(A_KEY));
    assert_eq!(e.backspace_streak(), 0);
}

#[test]
fn force_flow_keeps_pause_and_streak() {
    let mut e = CognitiveStateEngine::new();
    e.update(&neutral(), Some(BACKSPACE_KEY));
    e.set_paused(true);
    e.force_flow_state();
    assert!(e.get_paused());
    assert_eq!(e.backspace_streak(), 1);
    assert_eq!(e.smoothed_score(), 0);
    assert_eq!(e.get_current_state().flow, 980_000_000);
}

#[test]
fn missing_flight_time_is_skipped() {
    let mut e = CognitiveStateEngine::new();
    let mut f = struggling();
    f.f1_flight_time_median = 0;
    e.update(&f, Some(BACKSPACE_KEY));
    assert_eq!(e.get_current_state().flow, 700_000_000);
    assert_eq!(e.backspace_streak(), 0);
    assert_eq!(e.smoothed_score(), 0);
}

#[test]
fn phi_values() {
    assert_eq!(phi(250_000, 250_000), 500_000_000);
    assert_eq!(phi(0, 250_000), 0);
    assert_eq!(phi(500_000, 250_000), 800_000_000);
    assert_eq!(phi(125_000, 250_000), 200_000_000);
    assert_eq!(phi(u64::MAX, 0xFFFF_FFFF), PROB_SCALE);
    assert!(phi(100, 150) < phi(200, 150));
}

#[test]
fn stuck_score_values() {
    assert_eq!(stuck_score(&neutral()), 500_000_000);
    let zero = features(0.0, 0.0, 0.0, 0.0, 0.0, 0.0);
    // only the inverted burst-length term contributes
    assert_eq!(stuck_score(&zero), 150_000_000);
    assert!(stuck_score(&fast_typing()) < 100_000_000);
    assert!(stuck_score(&struggling()) > 700_000_000);
}

#[test]
fn smoothing_values() {
    assert_eq!(smooth(0, PROB_SCALE), 300_000_000);
    assert_eq!(smooth(PROB_SCALE, 0), 700_000_000);
    assert_eq!(smooth(10, 0), 7);
    assert_eq!(smooth(1, 0), 1);
    assert_eq!(smooth(PROB_SCALE, PROB_SCALE), PROB_SCALE);
}

#[test]
fn observation_bins() {
    assert_eq!(observation_symbol(0, 0), 0);
    assert_eq!(observation_symbol(99_999_999, 0), 0);
    assert_eq!(observation_symbol(100_000_000, 0), 1);
    assert_eq!(observation_symbol(999_999_999, 4), 9);
    assert_eq!(observation_symbol(PROB_SCALE, 0), 10);
    assert_eq!(observation_symbol(0, 5), 10);
    assert_eq!(observation_symbol(0, u32::MAX), 10);
}

#[test]
fn streak_tracking() {
    assert_eq!(next_streak(3, Some(BACKSPACE_KEY)), 4);
    assert_eq!(next_streak(3, Some(A_KEY)), 0);
    assert_eq!(next_streak(3, None), 3);
    assert_eq!(next_streak(u32::MAX, Some(BACKSPACE_KEY)), u32::MAX);
}

#[test]
fn forward_step_matches_exact_posterior() {
    let prior = Belief { flow: 700_000_000, incubation: 200_000_000, stuck: 100_000_000 };
    let t = [[0.92, 0.07, 0.01], [0.10, 0.82, 0.08], [0.05, 0.15, 0.80]];
    let e = [[0.35, 0.25, 0.15, 0.10, 0.07, 0.05, 0.02, 0.01, 0.0, 0.0, 0.0],
             [0.02, 0.03, 0.05, 0.08, 0.10, 0.15, 0.20, 0.20, 0.10, 0.06, 0.01],
             [0.0, 0.0, 0.01, 0.02, 0.05, 0.10, 0.20, 0.30, 0.20, 0.10, 0.99]];
    let p = [0.7, 0.2, 0.1];
    for obs in 0..11 {
        let post = forward_step(&prior, obs);
        assert_eq!(sum(&post), PROB_SCALE);
        let mut w = [0.0f64; 3];
        for j in 0..3 {
            let pred: f64 = (0..3).map(|i| p[i] * t[i][j]).sum();
            w[j] = e[j][obs] * pred;
        }
        let total: f64 = w.iter().sum();
        let got = [post.flow, post.incubation, post.stuck];
        for j in 0..3 {
            assert!((as_f64(got[j]) - w[j] / total).abs() < 3e-9, "obs {} state {}", obs, j);
        }
    }
    // observing the correction symbol rules flow out entirely
    assert_eq!(forward_step(&prior, 10).flow, 0);
    assert_eq!(forward_step(&prior, 0).stuck, 0);
}

#[test]
fn belief_accessors() {
    let b = Belief { flow: 1, incubation: 2, stuck: PROB_SCALE - 3 };
    assert_eq!(b.get(CognitiveState::Flow), 1);
    assert_eq!(b.get(CognitiveState::Incubation), 2);
    assert_eq!(b.get(CognitiveState::Stuck), PROB_SCALE - 3);
}

#[test]
fn flight_time_bins() {
    let e = CognitiveStateEngine::new();
    assert_eq!(e.discretize_flight_time(0), 0);
    assert_eq!(e.discretize_flight_time(79_000), 0);
    assert_eq!(e.discretize_flight_time(79_900), 0);
    assert_eq!(e.discretize_flight_time(80_000), 1);
    assert_eq!(e.discretize_flight_time(199_999), 3);
    assert_eq!(e.discretize_flight_time(200_000), 4);
    assert_eq!(e.discretize_flight_time(999_000), 8);
    assert_eq!(e.discretize_flight_time(1_499_500), 9);
    assert_eq!(e.discretize_flight_time(1_500_000), 10);
    assert_eq!(e.discretize_flight_time(u64::MAX), 10);
}

#[test]
fn correction_step_raises_stuck_below_the_bound() {
    let mostly_flow = Belief { flow: 900_000_000, incubation: 90_000_000, stuck: 10_000_000 };
    assert!(forward_step(&mostly_flow, 10).stuck > mostly_flow.stuck);
    let at_bound = Belief { flow: 0, incubation: 5_000_000, stuck: 995_000_000 };
    assert!(forward_step(&at_bound, 10).stuck > at_bound.stuck);
    // close to certainty the pull towards incubation wins
    let near_certain = Belief { flow: 0, incubation: 1_000_000, stuck: 999_000_000 };
    assert!(forward_step(&near_certain, 10).stuck < near_certain.stuck);
}
