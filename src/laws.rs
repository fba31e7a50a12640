//! Properties of the estimator that hold for every input.
use vstd::prelude::*;

use crate::engine::{EngineState, KeyEvent};
use crate::forward::{forward, lemma_shares_fit, predicted, total_weight, weight};
use crate::model::{emission_pct, transition_pct, Belief, CognitiveState, CORRECTION_SYMBOL, NUM_SYMBOLS, PROB_SCALE};
use crate::score::{lemma_stuck_score_bounds, smooth_spec, stuck_score_spec, Features, BACKSPACE_KEY, STREAK_THRESHOLD};

verus! {

proof fn lemma_emission_range(state: int, obs: int)
    requires
        0 <= state < 3,
        0 <= obs < NUM_SYMBOLS,
    ensures
        0 <= emission_pct(state, obs) <= 100,
{
    assert(0 <= obs <= 10);
    if obs == 0 {
    } else if obs == 1 {
    } else if obs == 2 {
    } else if obs == 3 {
    } else if obs == 4 {
    } else if obs == 5 {
    } else if obs == 6 {
    } else if obs == 7 {
    } else if obs == 8 {
    } else if obs == 9 {
    } else {
    }
}

proof fn lemma_weight_nonneg(b: Belief, obs: int, to: int)
    requires
        0 <= to < 3,
        0 <= obs < NUM_SYMBOLS,
    ensures
        weight(b, obs, to) >= 0,
{
    lemma_emission_range(to, obs);
    let t0 = transition_pct(0, to);
    let t1 = transition_pct(1, to);
    let t2 = transition_pct(2, to);
    assert(t0 >= 0 && t1 >= 0 && t2 >= 0);
    let (f, i, s) = (b.flow as int, b.incubation as int, b.stuck as int);
    assert(f * t0 + i * t1 + s * t2 >= 0) by (nonlinear_arith)
        requires
            f >= 0,
            i >= 0,
            s >= 0,
            t0 >= 0,
            t1 >= 0,
            t2 >= 0,
    ;
    let e = emission_pct(to, obs);
    let p = predicted(b, to);
    assert(e * p >= 0) by (nonlinear_arith)
        requires
            e >= 0,
            p >= 0,
    ;
}

/// A forward step from a normalized belief yields a normalized belief: the three
/// probabilities sum to exactly one and each lies between zero and one.
pub proof fn lemma_forward_normalized(b: Belief, obs: int)
    requires
        b.wf(),
        0 <= obs < NUM_SYMBOLS,
    ensures
        forward(b, obs).wf(),
        forall|i: int| 0 <= i < 3 ==> 0 <= #[trigger] forward(b, obs).prob(i) <= PROB_SCALE,
{
    lemma_weight_nonneg(b, obs, 0);
    lemma_weight_nonneg(b, obs, 1);
    lemma_weight_nonneg(b, obs, 2);
    if total_weight(b, obs) != 0 {
        lemma_shares_fit(weight(b, obs, 0), weight(b, obs, 1), weight(b, obs, 2));
    }
}

proof fn lemma_incubation_emits_everything(obs: int)
    requires
        0 <= obs < NUM_SYMBOLS,
    ensures
        emission_pct(1, obs) >= 1,
{
    assert(0 <= obs <= 10);
    if obs == 0 {
    } else if obs == 1 {
    } else if obs == 2 {
    } else if obs == 3 {
    } else if obs == 4 {
    } else if obs == 5 {
    } else if obs == 6 {
    } else if obs == 7 {
    } else if obs == 8 {
    } else if obs == 9 {
    } else {
    }
}

/// From a normalized belief the posterior weights never all vanish, so the
/// fallback to the prior is never taken; and each probability of the posterior is
/// within two parts per billion of its exact value `weight / total`.
pub proof fn lemma_forward_close_to_exact(b: Belief, obs: int)
    requires
        b.wf(),
        0 <= obs < NUM_SYMBOLS,
    ensures
        total_weight(b, obs) > 0,
        forall|j: int|
            0 <= j < 3 ==> {
                let t = total_weight(b, obs);
                &&& weight(b, obs, j) * PROB_SCALE < #[trigger] forward(b, obs).prob(j) * t + t
                &&& forward(b, obs).prob(j) * t <= weight(b, obs, j) * PROB_SCALE + 2 * t
            },
{
    lemma_weight_nonneg(b, obs, 0);
    lemma_weight_nonneg(b, obs, 1);
    lemma_weight_nonneg(b, obs, 2);
    lemma_incubation_emits_everything(obs);
    let e1 = emission_pct(1, obs);
    let p1 = predicted(b, 1);
    assert(transition_pct(0, 1) == 7 && transition_pct(1, 1) == 82 && transition_pct(2, 1) == 15);
    assert(p1 >= 7 * PROB_SCALE);
    assert(e1 * p1 >= 7 * PROB_SCALE) by (nonlinear_arith)
        requires
            e1 >= 1,
            p1 >= 7 * PROB_SCALE,
    ;
    let t = total_weight(b, obs);
    let (w0, w1, w2) = (weight(b, obs, 0), weight(b, obs, 1), weight(b, obs, 2));
    lemma_shares_fit(w0, w1, w2);
    let s = PROB_SCALE as int;
    assert forall|j: int| 0 <= j < 3 implies {
        &&& weight(b, obs, j) * PROB_SCALE < #[trigger] forward(b, obs).prob(j) * t + t
        &&& forward(b, obs).prob(j) * t <= weight(b, obs, j) * PROB_SCALE + 2 * t
    } by {
        let w = weight(b, obs, j);
        let q = w * s / t;
        let rest = s - (w0 * s / t + w1 * s / t + w2 * s / t);
        let p = forward(b, obs).prob(j);
        vstd::arithmetic::div_mod::lemma_fundamental_div_mod(w * s, t);
        assert(q <= p <= q + 2);
        assert(w * s < p * t + t && p * t <= w * s + 2 * t) by (nonlinear_arith)
            requires
                w * s == t * q + (w * s) % t,
                0 <= (w * s) % t < t,
                q <= p <= q + 2,
                t > 0,
        ;
    }
}

/// Every event keeps the estimator well formed: after any event the belief sums to
/// exactly one and the smoothed score stays within the score range.
pub proof fn lemma_update_keeps_wf(s: EngineState, features: Features, vk_code: Option<u32>)
    requires
        s.wf(),
    ensures
        s.updated(features, vk_code).wf(),
{
    if !s.skips(features) {
        lemma_stuck_score_bounds(features);
        lemma_forward_normalized(s.belief, s.symbol(features, vk_code));
    }
}

/// Normalization holds after any sequence of events: the belief's three components
/// sum to exactly one (no rounding error at all) and each lies in [0, 1].
pub proof fn lemma_run_normalized(s: EngineState, events: Seq<KeyEvent>)
    requires
        s.wf(),
    ensures
        s.run(events).wf(),
        forall|i: int| 0 <= i < 3 ==> 0 <= #[trigger] s.run(events).belief.prob(i) <= PROB_SCALE,
    decreases events.len(),
{
    if events.len() > 0 {
        lemma_run_normalized(s, events.drop_last());
        let e = events.last();
        lemma_update_keeps_wf(s.run(events.drop_last()), e.0, e.1);
    }
}

/// A fresh estimator favours flow.
pub proof fn lemma_initial_favours_flow()
    ensures
        EngineState::initial().wf(),
        EngineState::initial().belief.prob(CognitiveState::Flow.index()) >= PROB_SCALE / 2,
{
}


/// Distance between two values.
pub open spec fn distance(a: int, b: int) -> int {
    if a >= b {
        a - b
    } else {
        b - a
    }
}

/// Smoothing towards a constant score `raw` shrinks the distance to it to at most
/// seven tenths (plus half a part for rounding): it strictly decreases while it is
/// two parts or more, and once within one part it stays there.
pub proof fn lemma_smoothing_approaches(prev: int, raw: int)
    requires
        0 <= prev,
        0 <= raw,
    ensures
        10 * distance(smooth_spec(prev, raw), raw) <= 7 * distance(prev, raw) + 5,
        distance(prev, raw) >= 2 ==> distance(smooth_spec(prev, raw), raw) < distance(prev, raw),
        distance(prev, raw) <= 1 ==> distance(smooth_spec(prev, raw), raw) <= 1,
{
    let n = 3 * raw + 7 * prev + 5;
    let q = n / 10;
    assert(10 * q <= n < 10 * q + 10);
}

/// Feeding the same features again moves the smoothed score strictly closer to
/// their stuck score, until it is within one part per billion.
pub proof fn lemma_update_approaches_score(s: EngineState, features: Features, vk_code: Option<u32>)
    requires
        s.wf(),
        !s.skips(features),
    ensures
        ({
            let raw = stuck_score_spec(features);
            let before = distance(s.smoothed_score as int, raw);
            let after = distance(s.updated(features, vk_code).smoothed_score as int, raw);
            &&& before >= 2 ==> after < before
            &&& before <= 1 ==> after <= 1
        }),
{
    lemma_stuck_score_bounds(features);
    lemma_smoothing_approaches(s.smoothed_score as int, stuck_score_spec(features));
    lemma_update_keeps_wf(s, features, vk_code);
}

/// `base` to the power `n`.
pub open spec fn pow(base: int, n: nat) -> int
    decreases n,
{
    if n == 0 {
        1
    } else {
        base * pow(base, (n - 1) as nat)
    }
}

/// The smoother after `n` steps on the constant score `raw`.
pub open spec fn smooth_iter(prev: int, raw: int, n: nat) -> int
    decreases n,
{
    if n == 0 {
        prev
    } else {
        smooth_spec(smooth_iter(prev, raw, (n - 1) as nat), raw)
    }
}

/// After `n` steps on a constant score the distance to it is at most `0.7^n` times
/// the first distance, plus 5/3 of a part per billion for rounding: the smoother
/// converges to the score within two parts per billion.
pub proof fn lemma_smoothing_n_steps(prev: int, raw: int, n: nat)
    requires
        0 <= prev,
        0 <= raw,
    ensures
        smooth_iter(prev, raw, n) >= 0,
        3 * pow(10, n) * distance(smooth_iter(prev, raw, n), raw) <= 3 * pow(7, n) * distance(
            prev,
            raw,
        ) + 5 * pow(10, n),
    decreases n,
{
    if n > 0 {
        let m = (n - 1) as nat;
        lemma_smoothing_n_steps(prev, raw, m);
        let x = smooth_iter(prev, raw, m);
        lemma_smoothing_approaches(x, raw);
        let d1 = distance(smooth_iter(prev, raw, n), raw);
        let dm = distance(x, raw);
        let d0 = distance(prev, raw);
        let (p10, p7) = (pow(10, m), pow(7, m));
        lemma_pow_positive(10, m);
        assert(3 * (10 * p10) * d1 <= 3 * (7 * p7) * d0 + 5 * (10 * p10)) by (nonlinear_arith)
            requires
                10 * d1 <= 7 * dm + 5,
                3 * p10 * dm <= 3 * p7 * d0 + 5 * p10,
                p10 > 0,
        ;
    }
}

proof fn lemma_pow_positive(base: int, n: nat)
    requires
        base > 0,
    ensures
        pow(base, n) > 0,
    decreases n,
{
    if n > 0 {
        lemma_pow_positive(base, (n - 1) as nat);
        assert(base * pow(base, (n - 1) as nat) > 0) by (nonlinear_arith)
            requires
                base > 0,
                pow(base, (n - 1) as nat) > 0,
        ;
    }
}

/// Every event of `events` carries the features `f`.
pub open spec fn all_with_features(events: Seq<KeyEvent>, f: Features) -> bool {
    forall|k: int| 0 <= k < events.len() ==> (#[trigger] events[k]).0 == f
}

/// Feeding the same features (with a flight time) again and again, the estimator's
/// smoothed score is the smoother iterated on their stuck score, so its distance
/// to that score shrinks geometrically, by seven tenths per event, down to two
/// parts per billion.
pub proof fn lemma_constant_features_converge(s: EngineState, f: Features, events: Seq<KeyEvent>)
    requires
        s.wf(),
        !s.paused,
        f.f1_flight_time_median > 0,
        all_with_features(events, f),
    ensures
        s.run(events).smoothed_score == smooth_iter(
            s.smoothed_score as int,
            stuck_score_spec(f),
            events.len(),
        ),
        3 * pow(10, events.len()) * distance(s.run(events).smoothed_score as int, stuck_score_spec(f))
            <= 3 * pow(7, events.len()) * distance(s.smoothed_score as int, stuck_score_spec(f))
            + 5 * pow(10, events.len()),
    decreases events.len(),
{
    lemma_stuck_score_bounds(f);
    lemma_run_normalized(s, events);
    lemma_smoothing_n_steps(s.smoothed_score as int, stuck_score_spec(f), events.len());
    if events.len() > 0 {
        let prefix = events.drop_last();
        assert(all_with_features(prefix, f)) by {
            assert forall|k: int| 0 <= k < prefix.len() implies (#[trigger] prefix[k]).0 == f by {
                assert(prefix[k] == events[k]);
            }
        }
        lemma_constant_features_converge(s, f, prefix);
        lemma_paused_flag_kept(s, prefix);
        lemma_run_normalized(s, prefix);
        assert(events.last() == events[events.len() - 1]);
        assert(prefix.len() == (events.len() - 1) as nat);
    }
}

proof fn lemma_paused_flag_kept(s: EngineState, events: Seq<KeyEvent>)
    ensures
        s.run(events).paused == s.paused,
    decreases events.len(),
{
    if events.len() > 0 {
        lemma_paused_flag_kept(s, events.drop_last());
    }
}

/// Every event of `events` is a backspace with a flight time.
pub open spec fn all_backspaces(events: Seq<KeyEvent>) -> bool {
    forall|k: int|
        0 <= k < events.len() ==> (#[trigger] events[k]).1 == Some(BACKSPACE_KEY)
            && events[k].0.f1_flight_time_median > 0
}

proof fn lemma_streak_counts_backspaces(s: EngineState, events: Seq<KeyEvent>)
    requires
        !s.paused,
        all_backspaces(events),
        events.len() <= u32::MAX,
    ensures
        !s.run(events).paused,
        s.run(events).backspace_streak >= events.len(),
    decreases events.len(),
{
    if events.len() > 0 {
        let prefix = events.drop_last();
        assert(all_backspaces(prefix)) by {
            assert forall|k: int| 0 <= k < prefix.len() implies (#[trigger] prefix[k]).1 == Some(
                BACKSPACE_KEY,
            ) && prefix[k].0.f1_flight_time_median > 0 by {
                assert(prefix[k] == events[k]);
            }
        }
        lemma_streak_counts_backspaces(s, prefix);
        assert(events.last() == events[events.len() - 1]);
    }
}

/// After a run of at least five backspaces (and nothing else), the event that ends it
/// is observed as the correction symbol, whatever the stuck score: the belief moves by
/// exactly the forward step on that symbol.
pub proof fn lemma_backspace_run_forces_correction(s: EngineState, events: Seq<KeyEvent>)
    requires
        s.wf(),
        !s.paused,
        all_backspaces(events),
        STREAK_THRESHOLD <= events.len() <= u32::MAX,
    ensures
        ({
            let before = s.run(events.drop_last());
            let e = events.last();
            &&& before.symbol(e.0, e.1) == CORRECTION_SYMBOL
            &&& s.run(events).belief == forward(before.belief, CORRECTION_SYMBOL as int)
            &&& s.run(events).backspace_streak >= STREAK_THRESHOLD
        }),
{
    lemma_streak_counts_backspaces(s, events);
    let prefix = events.drop_last();
    assert(all_backspaces(prefix)) by {
        assert forall|k: int| 0 <= k < prefix.len() implies (#[trigger] prefix[k]).1 == Some(
            BACKSPACE_KEY,
        ) && prefix[k].0.f1_flight_time_median > 0 by {
            assert(prefix[k] == events[k]);
        }
    }
    lemma_streak_counts_backspaces(s, prefix);
    assert(events.last() == events[events.len() - 1]);
}

/// Bound on the stuck probability below which a correction observation raises it.
pub const RISING_STUCK_BOUND: u64 = 995_000_000;

/// Observing the correction symbol strictly raises the stuck probability, as long
/// as it is at most 99.5 % (close to certainty the pull towards incubation can win).
pub proof fn lemma_correction_raises_stuck(b: Belief)
    requires
        b.wf(),
        b.stuck <= RISING_STUCK_BOUND,
    ensures
        forward(b, CORRECTION_SYMBOL as int).stuck > b.stuck,
{
    let obs = CORRECTION_SYMBOL as int;
    assert(emission_pct(0, obs) == 0 && emission_pct(1, obs) == 1 && emission_pct(2, obs) == 99);
    assert(transition_pct(0, 1) == 7 && transition_pct(1, 1) == 82 && transition_pct(2, 1) == 15);
    assert(transition_pct(0, 2) == 1 && transition_pct(1, 2) == 8 && transition_pct(2, 2) == 80);
    lemma_forward_close_to_exact(b, obs);
    lemma_weight_nonneg(b, obs, 0);
    lemma_weight_nonneg(b, obs, 1);
    lemma_weight_nonneg(b, obs, 2);
    let (f, i, st) = (b.flow as int, b.incubation as int, b.stuck as int);
    let sc = PROB_SCALE as int;
    let w1 = weight(b, obs, 1);
    let w2 = weight(b, obs, 2);
    let t = total_weight(b, obs);
    assert(weight(b, obs, 0) == 0);
    assert(w1 == 7 * f + 82 * i + 15 * st);
    assert(w2 == 99 * (f + 8 * i + 80 * st));
    let d = sc - st;
    assert(d >= 5_000_000);
    // w2 * (d - 1) >= (st + 1) * w1
    if st == 0 {
        assert(w2 >= 99 * sc && w1 <= 82 * sc);
        assert(w2 * (d - 1) >= (st + 1) * w1) by (nonlinear_arith)
            requires
                st == 0,
                d == sc,
                sc == 1_000_000_000,
                w2 >= 99 * sc,
                0 <= w1 <= 82 * sc,
        ;
    } else {
        assert(w2 >= 7920 * st && w1 <= 82 * d + 15 * st);
        assert(w2 * (d - 1) >= (st + 1) * w1) by (nonlinear_arith)
            requires
                st >= 1,
                d >= 5_000_000,
                st <= 995_000_000,
                w2 >= 7920 * st,
                0 <= w1 <= 82 * d + 15 * st,
        ;
    }
    assert(w2 * sc >= (st + 1) * t) by (nonlinear_arith)
        requires
            w2 * (d - 1) >= (st + 1) * w1,
            d == sc - st,
            t == w1 + w2,
    ;
    // forward(b).stuck * t > w2 * sc - t >= st * t
    let p = forward(b, obs).prob(2);
    assert(w2 * sc < p * t + t);
    assert(p > st) by (nonlinear_arith)
        requires
            w2 * sc < p * t + t,
            w2 * sc >= (st + 1) * t,
            t > 0,
    ;
}

/// In a run of backspaces, each event from the fifth on raises the stuck probability,
/// provided it was at most 99.5 % before that event.
pub proof fn lemma_backspace_run_raises_stuck(s: EngineState, events: Seq<KeyEvent>)
    requires
        s.wf(),
        !s.paused,
        all_backspaces(events),
        STREAK_THRESHOLD <= events.len() <= u32::MAX,
        s.run(events.drop_last()).belief.stuck <= RISING_STUCK_BOUND,
    ensures
        s.run(events).belief.stuck > s.run(events.drop_last()).belief.stuck,
{
    lemma_backspace_run_forces_correction(s, events);
    lemma_run_normalized(s, events.drop_last());
    lemma_correction_raises_stuck(s.run(events.drop_last()).belief);
}

/// While paused, any number of events leaves the whole state unchanged.
pub proof fn lemma_paused_run_is_identity(s: EngineState, events: Seq<KeyEvent>)
    requires
        s.paused,
    ensures
        s.run(events) == s,
    decreases events.len(),
{
    if events.len() > 0 {
        lemma_paused_run_is_identity(s, events.drop_last());
    }
}

/// Discarding the evidence gives the same belief and smoother whatever came before:
/// near-certain flow and zero. The pause gate and the streak are left as they were.
pub proof fn lemma_forced_flow_forgets_history(s: EngineState, events: Seq<KeyEvent>)
    ensures
        s.run(events).forced_flow().belief == Belief::near_flow(),
        s.run(events).forced_flow().smoothed_score == 0,
        s.run(events).forced_flow().paused == s.run(events).paused,
        s.run(events).forced_flow().backspace_streak == s.run(events).backspace_streak,
{
}

} // verus!
