//! One step of the forward algorithm over the three-state model.
use vstd::prelude::*;

use crate::model::{emission, emission_pct, transition, transition_pct, Belief, NUM_SYMBOLS, PROB_SCALE};

verus! {

/// Prior mass carried into state `to` by the transition matrix (in ppb times percent).
pub open spec fn predicted(b: Belief, to: int) -> int {
    b.flow * transition_pct(0, to) + b.incubation * transition_pct(1, to) + b.stuck
        * transition_pct(2, to)
}

/// Unnormalized posterior weight of state `to` after observing `obs`.
pub open spec fn weight(b: Belief, obs: int, to: int) -> int {
    emission_pct(to, obs) * predicted(b, to)
}

/// Sum of the unnormalized posterior weights.
pub open spec fn total_weight(b: Belief, obs: int) -> int {
    weight(b, obs, 0) + weight(b, obs, 1) + weight(b, obs, 2)
}

/// Normalized posterior of state `to`, rounded down to whole parts per billion.
pub open spec fn share(b: Belief, obs: int, to: int) -> int {
    weight(b, obs, to) * PROB_SCALE / total_weight(b, obs)
}

/// The state of largest posterior weight (the first one on a tie).
pub open spec fn leading_state(b: Belief, obs: int) -> int {
    if weight(b, obs, 0) >= weight(b, obs, 1) && weight(b, obs, 0) >= weight(b, obs, 2) {
        0
    } else if weight(b, obs, 1) >= weight(b, obs, 2) {
        1
    } else {
        2
    }
}

/// The posterior belief: each share rounded down, the parts lost to rounding given
/// to the leading state. When every weight is zero the prior is kept.
pub open spec fn forward(b: Belief, obs: int) -> Belief {
    if total_weight(b, obs) == 0 {
        b
    } else {
        let rest = PROB_SCALE - (share(b, obs, 0) + share(b, obs, 1) + share(b, obs, 2));
        let lead = leading_state(b, obs);
        Belief {
            flow: (share(b, obs, 0) + if lead == 0 { rest } else { 0 }) as u64,
            incubation: (share(b, obs, 1) + if lead == 1 { rest } else { 0 }) as u64,
            stuck: (share(b, obs, 2) + if lead == 2 { rest } else { 0 }) as u64,
        }
    }
}

fn predicted_mass(prior: &Belief, to: usize) -> (r: u64)
    requires
        prior.wf(),
        to < 3,
    ensures
        r as int == predicted(*prior, to as int),
        r <= 100 * PROB_SCALE,
{
    let t0 = transition(0, to);
    let t1 = transition(1, to);
    let t2 = transition(2, to);
    proof {
        let (f, i, s) = (prior.flow as int, prior.incubation as int, prior.stuck as int);
        assert(f * t0 <= f * 100) by (nonlinear_arith)
            requires
                t0 <= 100,
                f >= 0,
        ;
        assert(i * t1 <= i * 100) by (nonlinear_arith)
            requires
                t1 <= 100,
                i >= 0,
        ;
        assert(s * t2 <= s * 100) by (nonlinear_arith)
            requires
                t2 <= 100,
                s >= 0,
        ;
    }
    prior.flow * t0 + prior.incubation * t1 + prior.stuck * t2
}

fn posterior_weight(prior: &Belief, obs: usize, to: usize) -> (r: u64)
    requires
        prior.wf(),
        obs < NUM_SYMBOLS,
        to < 3,
    ensures
        r as int == weight(*prior, obs as int, to as int),
        r <= 10_000 * PROB_SCALE,
{
    let e = emission(to, obs);
    let p = predicted_mass(prior, to);
    proof {
        assert(e * p <= 100 * (100 * PROB_SCALE)) by (nonlinear_arith)
            requires
                e <= 100,
                p <= 100 * PROB_SCALE,
        ;
    }
    e * p
}

pub(crate) proof fn lemma_shares_fit(w0: int, w1: int, w2: int)
    requires
        w0 >= 0,
        w1 >= 0,
        w2 >= 0,
        w0 + w1 + w2 > 0,
    ensures
        ({
            let t = w0 + w1 + w2;
            let s = PROB_SCALE as int;
            &&& 0 <= w0 * s / t <= s
            &&& 0 <= w1 * s / t <= s
            &&& 0 <= w2 * s / t <= s
            &&& w0 * s / t + w1 * s / t + w2 * s / t <= s
            &&& s - (w0 * s / t + w1 * s / t + w2 * s / t) <= 2
        }),
{
    let t = w0 + w1 + w2;
    let s = PROB_SCALE as int;
    let (a, b, c) = (w0 * s, w1 * s, w2 * s);
    vstd::arithmetic::div_mod::lemma_fundamental_div_mod(a, t);
    vstd::arithmetic::div_mod::lemma_fundamental_div_mod(b, t);
    vstd::arithmetic::div_mod::lemma_fundamental_div_mod(c, t);
    let (qa, qb, qc) = (a / t, b / t, c / t);
    let (ra, rb, rc) = (a % t, b % t, c % t);
    assert(a + b + c == s * t) by (nonlinear_arith)
        requires
            a == w0 * s,
            b == w1 * s,
            c == w2 * s,
            t == w0 + w1 + w2,
    ;
    assert(0 <= qa && 0 <= qb && 0 <= qc) by (nonlinear_arith)
        requires
            a == t * qa + ra,
            b == t * qb + rb,
            c == t * qc + rc,
            0 <= ra < t,
            0 <= rb < t,
            0 <= rc < t,
            a >= 0,
            b >= 0,
            c >= 0,
    ;
    assert(qa + qb + qc <= s && s - (qa + qb + qc) <= 2) by (nonlinear_arith)
        requires
            a == t * qa + ra,
            b == t * qb + rb,
            c == t * qc + rc,
            0 <= ra < t,
            0 <= rb < t,
            0 <= rc < t,
            a + b + c == s * t,
            t > 0,
    ;
}

/// One forward-algorithm step: the posterior after observing `obs` from `prior`.
pub fn forward_step(prior: &Belief, obs: usize) -> (post: Belief)
    requires
        prior.wf(),
        obs < NUM_SYMBOLS,
    ensures
        post == forward(*prior, obs as int),
        post.wf(),
{
    let w0 = posterior_weight(prior, obs, 0);
    let w1 = posterior_weight(prior, obs, 1);
    let w2 = posterior_weight(prior, obs, 2);
    let total = w0 + w1 + w2;
    if total == 0 {
        return *prior;
    }
    proof {
        lemma_shares_fit(w0 as int, w1 as int, w2 as int);
    }
    let s0 = ((w0 as u128) * (PROB_SCALE as u128) / (total as u128)) as u64;
    let s1 = ((w1 as u128) * (PROB_SCALE as u128) / (total as u128)) as u64;
    let s2 = ((w2 as u128) * (PROB_SCALE as u128) / (total as u128)) as u64;
    let rest = PROB_SCALE - (s0 + s1 + s2);
    if w0 >= w1 && w0 >= w2 {
        Belief { flow: s0 + rest, incubation: s1, stuck: s2 }
    } else if w1 >= w2 {
        Belief { flow: s0, incubation: s1 + rest, stuck: s2 }
    } else {
        Belief { flow: s0, incubation: s1, stuck: s2 + rest }
    }
}

} // verus!
