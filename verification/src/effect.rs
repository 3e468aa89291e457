//! The effect aggregate: a scale track and a translation track under one
//! lifecycle mode, and the per-frame tick that drives them against an
//! entity's transform.

use vstd::prelude::*;

use crate::motion::Vec3i;
use crate::sequence::{
    reset_track, track_after_step, track_finished, vec_after_track_step, NextTransform,
    ScaleSequence, TrackModel, Transform, TransformSequence, TransitionSequence,
};

verus! {

/// What happens once every track of an effect has finished: `Once`
/// effects are detached from their entity by the host, `Repeat` effects
/// rewind all tracks and run again.
#[derive(Clone, Copy, Debug, PartialEq, Eq, Structural)]
pub enum Mode {
    Once,
    Repeat,
}

/// What the host must do with the effect after a tick: keep driving it,
/// or detach it from the entity.
#[derive(Clone, Copy, Debug, PartialEq, Eq, Structural)]
pub enum TickOutcome {
    Continue,
    Detach,
}

/// The mathematical state of an effect: one model per track, plus the
/// lifecycle mode.
#[verifier::ext_equal]
pub ghost struct EffectModel {
    pub scale: TrackModel,
    pub translation: TrackModel,
    pub mode: Mode,
}

/// An animation effect attached to one entity: a scale track and a
/// translation track, driven in lock-step, under one mode.
#[derive(Clone, Debug)]
pub struct UiEffect {
    pub scale_sequence: ScaleSequence,
    pub transition_sequence: TransitionSequence,
    pub mode: Mode,
}

impl Default for Mode {
    /// Effects run a single pass unless asked to repeat.
    fn default() -> (r: Self)
        ensures
            r == Mode::Once,
    {
        Mode::Once
    }
}

impl Default for UiEffect {
    /// An effect with two empty tracks: finished from the start, and
    /// detached by the first tick.
    fn default() -> (r: Self)
        ensures
            r.model() == (EffectModel {
                scale: (TrackModel { phase: 0, hold: 0, targets: Seq::<NextTransform>::empty() }),
                translation: (TrackModel {
                    phase: 0,
                    hold: 0,
                    targets: Seq::<NextTransform>::empty(),
                }),
                mode: Mode::Once,
            }),
    {
        UiEffect {
            scale_sequence: ScaleSequence::default(),
            transition_sequence: TransitionSequence::default(),
            mode: Mode::Once,
        }
    }
}

/// An effect is finished exactly when every track is finished: overall
/// completion waits for the slowest track.
pub open spec fn effect_finished(m: EffectModel) -> bool {
    track_finished(m.scale) && track_finished(m.translation)
}

/// The effect state after the mode policy runs: a finished `Repeat`
/// effect rewinds every track together; anything else is untouched.
pub open spec fn effect_after_transition(m: EffectModel) -> EffectModel {
    if effect_finished(m) && m.mode == Mode::Repeat {
        EffectModel { scale: reset_track(m.scale), translation: reset_track(m.translation), mode: m.mode }
    } else {
        m
    }
}

/// What the mode policy tells the host: `Detach` exactly for a finished
/// `Once` effect.
pub open spec fn transition_outcome(m: EffectModel) -> TickOutcome {
    if effect_finished(m) && m.mode == Mode::Once {
        TickOutcome::Detach
    } else {
        TickOutcome::Continue
    }
}

/// One track within a tick: stepped only while unfinished.
pub open spec fn track_after_tick(m: TrackModel, v: Vec3i, delta: u64) -> TrackModel {
    if track_finished(m) {
        m
    } else {
        track_after_step(m, v, delta)
    }
}

/// One track's animated vector within a tick: moved only while the track
/// is unfinished.
pub open spec fn vec_after_tick(m: TrackModel, v: Vec3i, delta: u64) -> Vec3i {
    if track_finished(m) {
        v
    } else {
        vec_after_track_step(m, v, delta)
    }
}

/// The whole effect after one tick: the mode policy first, then one step
/// of each still-unfinished track. A detached effect is untouched.
pub open spec fn effect_after_tick(m: EffectModel, t: Transform, delta: u64) -> EffectModel {
    if transition_outcome(m) == TickOutcome::Detach {
        m
    } else {
        let m1 = effect_after_transition(m);
        EffectModel {
            scale: track_after_tick(m1.scale, t.scale, delta),
            translation: track_after_tick(m1.translation, t.translation, delta),
            mode: m1.mode,
        }
    }
}

/// The transform after one tick: the scale track moves the scale, the
/// translation track moves the translation, both by the same delta. A
/// detaching tick moves nothing.
pub open spec fn transform_after_tick(m: EffectModel, t: Transform, delta: u64) -> Transform {
    if transition_outcome(m) == TickOutcome::Detach {
        t
    } else {
        let m1 = effect_after_transition(m);
        Transform {
            scale: vec_after_tick(m1.scale, t.scale, delta),
            translation: vec_after_tick(m1.translation, t.translation, delta),
        }
    }
}

impl UiEffect {
    /// The mathematical state of this effect.
    pub open spec fn model(&self) -> EffectModel {
        EffectModel {
            scale: self.scale_sequence.model(),
            translation: self.transition_sequence.model(),
            mode: self.mode,
        }
    }

    /// True exactly when every track has walked past its last phase.
    pub fn is_finished(&self) -> (r: bool)
        ensures
            r == effect_finished(self.model()),
    {
        self.scale_sequence.is_finished() && self.transition_sequence.is_finished()
    }

    /// Runs the lifecycle policy: a finished `Repeat` effect rewinds
    /// every track to phase 0 in lock-step; a finished `Once` effect
    /// asks the host to detach it and is left untouched; an unfinished
    /// effect is left untouched.
    pub fn apply_mode_transition(&mut self) -> (r: TickOutcome)
        ensures
            final(self).model() == effect_after_transition(old(self).model()),
            r == transition_outcome(old(self).model()),
            r == TickOutcome::Detach ==> *final(self) == *old(self),
    {
        if self.is_finished() {
            match self.mode {
                Mode::Repeat => {
                    self.scale_sequence.reset();
                    self.transition_sequence.reset();
                    TickOutcome::Continue
                },
                Mode::Once => TickOutcome::Detach,
            }
        } else {
            TickOutcome::Continue
        }
    }
}

/// Drives one effect by one frame: the mode policy first, then one step
/// of each still-unfinished track against the transform, all with the
/// same delta. Returns `Detach` exactly when the host must remove the
/// effect, and then touches neither the effect nor the transform.
pub fn tick(effect: &mut UiEffect, transform: &mut Transform, delta_ms: u64) -> (r: TickOutcome)
    ensures
        r == transition_outcome(old(effect).model()),
        final(effect).model() == effect_after_tick(old(effect).model(), *old(transform), delta_ms),
        *final(transform) == transform_after_tick(old(effect).model(), *old(transform), delta_ms),
        r == TickOutcome::Detach ==> *final(effect) == *old(effect) && *final(transform) == *old(
            transform,
        ),
{
    let outcome = effect.apply_mode_transition();
    match outcome {
        TickOutcome::Detach => TickOutcome::Detach,
        TickOutcome::Continue => {
            if !effect.scale_sequence.is_finished() {
                effect.scale_sequence.animated(transform, delta_ms);
            }
            if !effect.transition_sequence.is_finished() {
                effect.transition_sequence.animated(transform, delta_ms);
            }
            TickOutcome::Continue
        },
    }
}

} // verus!
