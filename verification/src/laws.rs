//! The library's general guarantees, stated and proved over the models:
//! convergence of repeated movement steps, hold-then-advance, lock-step
//! repeat restart, and once-detachment.

use vstd::prelude::*;

use crate::effect::{
    effect_after_tick, effect_after_transition, effect_finished, transform_after_tick,
    transition_outcome, EffectModel, Mode, TickOutcome,
};
use crate::motion::{
    axis_distance, lemma_no_overshoot, lemma_step_progress, max_axis_distance, stepped_axis,
    Vec3i,
};
use crate::sequence::{
    saturated_add, track_after_step, vec_after_step, vec_after_track_step, NextTransform,
    TrackModel, Transform,
};

verus! {

/// The animated vector after `n` movement steps toward one fixed target
/// with one fixed frame delta.
pub open spec fn vec_after_steps(v: Vec3i, target: NextTransform, delta: u64, n: nat) -> Vec3i
    decreases n,
{
    if n == 0 {
        v
    } else {
        vec_after_step(vec_after_steps(v, target, delta, (n - 1) as nat), target, delta)
    }
}

/// A vector already at the target never moves again.
proof fn lemma_steps_hold(v: Vec3i, target: NextTransform, delta: u64, n: nat)
    requires
        v == target.value,
    ensures
        vec_after_steps(v, target, delta, n) == v,
    decreases n,
{
    if n > 0 {
        lemma_steps_hold(v, target, delta, (n - 1) as nat);
    }
}

/// Iterated steps can be unrolled from the front: `n` steps from `v` are
/// one step from `v` followed by `n - 1` steps.
proof fn lemma_steps_unroll(v: Vec3i, target: NextTransform, delta: u64, n: nat)
    requires
        n >= 1,
    ensures
        vec_after_steps(v, target, delta, n) == vec_after_steps(
            vec_after_step(v, target, delta),
            target,
            delta,
            (n - 1) as nat,
        ),
    decreases n,
{
    let v1 = vec_after_step(v, target, delta);
    if n == 1 {
        assert(vec_after_steps(v, target, delta, 0) == v);
        assert(vec_after_steps(v1, target, delta, 0) == v1);
    } else {
        lemma_steps_unroll(v, target, delta, (n - 1) as nat);
        assert(vec_after_steps(v, target, delta, n) == vec_after_step(
            vec_after_steps(v, target, delta, (n - 1) as nat),
            target,
            delta,
        ));
        assert(vec_after_steps(v1, target, delta, (n - 1) as nat) == vec_after_step(
            vec_after_steps(v1, target, delta, (n - 2) as nat),
            target,
            delta,
        ));
    }
}

/// Convergence: with a positive speed and a positive fixed frame delta,
/// the animated vector reaches the target exactly, within any number of
/// steps `n` whose total travel `n * speed * delta` covers the largest
/// per-axis distance. The overshoot clamp makes the arrival exact.
pub proof fn lemma_convergence(v: Vec3i, target: NextTransform, delta_ms: u64, n: nat)
    requires
        target.speed > 0,
        delta_ms > 0,
        n * ((target.speed as int) * (delta_ms as int)) >= max_axis_distance(v, target.value),
    ensures
        vec_after_steps(v, target, delta_ms, n) == target.value,
    decreases n,
{
    let dist = (target.speed as int) * (delta_ms as int);
    assert(dist >= 1) by (nonlinear_arith)
        requires
            target.speed >= 1,
            delta_ms >= 1,
            dist == (target.speed as int) * (delta_ms as int),
    ;
    if n == 0 {
        assert(n * dist == 0) by (nonlinear_arith)
            requires
                n == 0,
        ;
        assert(max_axis_distance(v, target.value) <= 0);
        assert(axis_distance(v.x as int, target.value.x as int) == 0);
        assert(axis_distance(v.y as int, target.value.y as int) == 0);
        assert(axis_distance(v.z as int, target.value.z as int) == 0);
        assert(v == target.value);
    } else if v == target.value {
        lemma_steps_hold(v, target, delta_ms, n);
    } else {
        let tv = target.value;
        lemma_no_overshoot(v.x as int, tv.x as int, dist);
        lemma_no_overshoot(v.y as int, tv.y as int, dist);
        lemma_no_overshoot(v.z as int, tv.z as int, dist);
        lemma_step_progress(v.x as int, tv.x as int, dist);
        lemma_step_progress(v.y as int, tv.y as int, dist);
        lemma_step_progress(v.z as int, tv.z as int, dist);
        let v1 = vec_after_step(v, target, delta_ms);
        assert(v1.x as int == stepped_axis(v.x as int, tv.x as int, dist));
        assert(v1.y as int == stepped_axis(v.y as int, tv.y as int, dist));
        assert(v1.z as int == stepped_axis(v.z as int, tv.z as int, dist));
        assert((n - 1) * dist == n * dist - dist) by (nonlinear_arith);
        assert((n - 1) * dist >= 0) by (nonlinear_arith)
            requires
                n >= 1,
                dist >= 0,
        ;
        assert((n - 1) * dist >= max_axis_distance(v1, tv));
        lemma_steps_unroll(v, target, delta_ms, n);
        lemma_convergence(v1, target, delta_ms, (n - 1) as nat);
    }
}

/// While the animated vector has not reached the current target, a step
/// moves only the vector: the phase cursor, hold counter and target list
/// stay exactly as they were. Repeated steps of one unfinished phase are
/// therefore the iterated movement steps of `vec_after_steps`.
pub proof fn lemma_movement_keeps_cursor(m: TrackModel, v: Vec3i, delta: u64)
    requires
        v != m.targets[m.phase].value,
    ensures
        track_after_step(m, v, delta) == m,
        vec_after_track_step(m, v, delta) == vec_after_step(v, m.targets[m.phase], delta),
{
}

/// Hold-then-advance: while the animated vector sits at the current
/// target, the vector never moves, and the phase does not advance until
/// the accumulated hold time reaches the target's hold requirement; the
/// advance zeroes the hold counter.
pub proof fn lemma_hold_then_advance(m: TrackModel, v: Vec3i, delta: u64)
    requires
        v == m.targets[m.phase].value,
    ensures
        vec_after_track_step(m, v, delta) == v,
        m.hold < m.targets[m.phase].display_time_ms ==> track_after_step(m, v, delta) == (TrackModel {
            phase: m.phase,
            hold: saturated_add(m.hold, delta),
            targets: m.targets,
        }),
        m.hold >= m.targets[m.phase].display_time_ms ==> track_after_step(m, v, delta) == (TrackModel {
            phase: m.phase + 1,
            hold: 0,
            targets: m.targets,
        }),
{
}

/// Repeat loop: one mode transition of a finished `Repeat` effect keeps
/// the effect running and rewinds every track in lock-step to exactly
/// the state of a first run over the same target lists.
pub proof fn lemma_repeat_restart(m: EffectModel)
    requires
        effect_finished(m),
        m.mode == Mode::Repeat,
    ensures
        transition_outcome(m) == TickOutcome::Continue,
        effect_after_transition(m) == (EffectModel {
            scale: (TrackModel { phase: 0, hold: 0, targets: m.scale.targets }),
            translation: (TrackModel { phase: 0, hold: 0, targets: m.translation.targets }),
            mode: Mode::Repeat,
        }),
{
}

/// Once detachment: the tick of a finished `Once` effect reports
/// `Detach` and changes neither the effect state nor the transform.
pub proof fn lemma_once_detach(m: EffectModel, t: Transform, delta: u64)
    requires
        effect_finished(m),
        m.mode == Mode::Once,
    ensures
        transition_outcome(m) == TickOutcome::Detach,
        effect_after_tick(m, t, delta) == m,
        transform_after_tick(m, t, delta) == t,
{
}

} // verus!
