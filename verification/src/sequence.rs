//! Phase sequences: an ordered list of targets walked one phase at a
//! time. Each frame either accumulates hold time at a reached target,
//! advances to the next phase once the hold is over, or moves the
//! animated vector toward the current target at a constant speed.

use vstd::prelude::*;

use crate::motion::{step_axis, stepped_vec, Vec3i};

verus! {

/// One step of a sequence: the value to animate toward, the movement
/// speed in axis units per millisecond, and the minimum time the
/// animated vector must stay at `value` before the phase is complete.
#[derive(Clone, Copy, Debug, PartialEq, Eq, Structural)]
pub struct NextTransform {
    pub value: Vec3i,
    pub speed: u64,
    pub display_time_ms: u64,
}

impl Default for NextTransform {
    /// A zero target: the origin, no movement, no hold time.
    fn default() -> (r: Self)
        ensures
            r == (NextTransform {
                value: Vec3i { x: 0, y: 0, z: 0 },
                speed: 0,
                display_time_ms: 0,
            }),
    {
        NextTransform { value: Vec3i { x: 0, y: 0, z: 0 }, speed: 0, display_time_ms: 0 }
    }
}

/// The mathematical state of one track: a phase cursor, the hold time
/// accumulated at the current target, and the ordered target list.
#[verifier::ext_equal]
pub ghost struct TrackModel {
    pub phase: int,
    pub hold: u64,
    pub targets: Seq<NextTransform>,
}

/// Whether a track has walked past its last phase.
pub open spec fn track_finished(m: TrackModel) -> bool {
    m.phase >= m.targets.len()
}

/// A track rewound for another pass: phase 0, hold counter zeroed, the
/// same targets.
pub open spec fn reset_track(m: TrackModel) -> TrackModel {
    TrackModel { phase: 0, hold: 0, targets: m.targets }
}

/// Hold-time accumulation: millisecond counters saturate instead of
/// wrapping.
pub open spec fn saturated_add(elapsed: u64, delta: u64) -> u64 {
    if elapsed + delta <= u64::MAX {
        (elapsed + delta) as u64
    } else {
        u64::MAX
    }
}

/// The phase cursor after one step: it advances exactly when the
/// animated vector sits at the current target and the hold time is over.
pub open spec fn phase_after_step(phase: int, elapsed: u64, target: NextTransform, v: Vec3i) -> int {
    if v == target.value && elapsed >= target.display_time_ms {
        phase + 1
    } else {
        phase
    }
}

/// The hold counter after one step: it resets on a phase advance, grows
/// by the frame delta while holding at the target, and is untouched
/// while the vector is still moving.
pub open spec fn hold_after_step(elapsed: u64, target: NextTransform, v: Vec3i, delta: u64) -> u64 {
    if v == target.value {
        if elapsed >= target.display_time_ms {
            0
        } else {
            saturated_add(elapsed, delta)
        }
    } else {
        elapsed
    }
}

/// The animated vector after one step: unchanged on the arrival branch
/// (arrival and movement never combine in one tick), otherwise each axis
/// moves toward the target by `speed * delta` with overshoot clamping.
pub open spec fn vec_after_step(v: Vec3i, target: NextTransform, delta: u64) -> Vec3i {
    if v == target.value {
        v
    } else {
        stepped_vec(v, target.value, (target.speed as int) * (delta as int))
    }
}

/// A track's state after one step against the animated vector `v`.
pub open spec fn track_after_step(m: TrackModel, v: Vec3i, delta: u64) -> TrackModel {
    TrackModel {
        phase: phase_after_step(m.phase, m.hold, m.targets[m.phase], v),
        hold: hold_after_step(m.hold, m.targets[m.phase], v, delta),
        targets: m.targets,
    }
}

/// The animated vector after one step of the track `m`.
pub open spec fn vec_after_track_step(m: TrackModel, v: Vec3i, delta: u64) -> Vec3i {
    vec_after_step(v, m.targets[m.phase], delta)
}

/// Advances one track by one frame: `phase`, `displayed_time_ms` and the
/// animated `value` move to exactly the state the step functions above
/// describe for the current target `sequence[phase]`.
pub fn advance_track(
    phase: &mut usize,
    displayed_time_ms: &mut u64,
    sequence: &Vec<NextTransform>,
    value: &mut Vec3i,
    time_delta_ms: u64,
)
    requires
        *old(phase) < sequence.len(),
    ensures
        *final(phase) == phase_after_step(
            *old(phase) as int,
            *old(displayed_time_ms),
            sequence@[*old(phase) as int],
            *old(value),
        ),
        *final(displayed_time_ms) == hold_after_step(
            *old(displayed_time_ms),
            sequence@[*old(phase) as int],
            *old(value),
            time_delta_ms,
        ),
        *final(value) == vec_after_step(*old(value), sequence@[*old(phase) as int], time_delta_ms),
{
    let target = &sequence[*phase];
    if *value == target.value {
        if *displayed_time_ms >= target.display_time_ms {
            *phase = *phase + 1;
            *displayed_time_ms = 0;
        } else {
            if time_delta_ms <= u64::MAX - *displayed_time_ms {
                *displayed_time_ms = *displayed_time_ms + time_delta_ms;
            } else {
                *displayed_time_ms = u64::MAX;
            }
        }
    } else {
        proof {
            let s = target.speed as int;
            let d = time_delta_ms as int;
            assert(s * d <= (u64::MAX as int) * (u64::MAX as int)) by (nonlinear_arith)
                requires
                    0 <= s <= u64::MAX as int,
                    0 <= d <= u64::MAX as int,
            ;
        }
        let dist: u128 = (target.speed as u128) * (time_delta_ms as u128);
        value.x = step_axis(value.x, target.value.x, dist);
        value.y = step_axis(value.y, target.value.y, dist);
        value.z = step_axis(value.z, target.value.z, dist);
    }
}

/// The two transform sub-fields this library animates.
#[derive(Clone, Copy, Debug, PartialEq, Eq, Structural)]
pub struct Transform {
    pub scale: Vec3i,
    pub translation: Vec3i,
}

/// One animation track: a cursor over an ordered target list, driving
/// one transform sub-field. Which sub-field a track animates is fixed by
/// the implementing type through `animated_part` / `with_part`.
pub trait TransformSequence: Sized {
    /// The track's mathematical state.
    spec fn model(&self) -> TrackModel;

    /// The transform sub-field this track animates.
    spec fn animated_part(t: Transform) -> Vec3i;

    /// The transform with this track's sub-field replaced by `v`.
    spec fn with_part(t: Transform, v: Vec3i) -> Transform;

    /// Advances the track by one frame against its transform sub-field:
    /// either the hold/phase bookkeeping moves (vector at the target) or
    /// the vector moves toward the target (cursor untouched), exactly as
    /// the step functions describe. No other part of the transform
    /// changes.
    fn animated(&mut self, transform: &mut Transform, time_delta_ms: u64)
        requires
            old(self).model().phase < old(self).model().targets.len(),
        ensures
            final(self).model() == track_after_step(
                old(self).model(),
                Self::animated_part(*old(transform)),
                time_delta_ms,
            ),
            *final(transform) == Self::with_part(
                *old(transform),
                vec_after_track_step(
                    old(self).model(),
                    Self::animated_part(*old(transform)),
                    time_delta_ms,
                ),
            ),
    ;

    /// True exactly when the cursor has walked past the last phase.
    fn is_finished(&self) -> (r: bool)
        ensures
            r == track_finished(self.model()),
    ;

    /// Rewinds the track to phase 0 with a zeroed hold counter; the
    /// target list is untouched.
    fn reset(&mut self)
        ensures
            final(self).model() == reset_track(old(self).model()),
    ;
}

/// A track that animates the scale sub-field of a transform. A track
/// whose target list is empty counts as finished from the start.
#[derive(Clone, Debug)]
pub struct ScaleSequence {
    pub phase: usize,
    pub displayed_time_ms: u64,
    pub sequence: Vec<NextTransform>,
}

impl Default for ScaleSequence {
    /// An empty track: no targets, so it is finished from the start.
    fn default() -> (r: Self)
        ensures
            r.model() == (TrackModel { phase: 0, hold: 0, targets: Seq::<NextTransform>::empty() }),
    {
        ScaleSequence { phase: 0, displayed_time_ms: 0, sequence: Vec::new() }
    }
}

impl TransformSequence for ScaleSequence {
    open spec fn model(&self) -> TrackModel {
        TrackModel { phase: self.phase as int, hold: self.displayed_time_ms, targets: self.sequence@ }
    }

    open spec fn animated_part(t: Transform) -> Vec3i {
        t.scale
    }

    open spec fn with_part(t: Transform, v: Vec3i) -> Transform {
        Transform { scale: v, translation: t.translation }
    }

    fn animated(&mut self, transform: &mut Transform, time_delta_ms: u64) {
        advance_track(
            &mut self.phase,
            &mut self.displayed_time_ms,
            &self.sequence,
            &mut transform.scale,
            time_delta_ms,
        );
    }

    fn is_finished(&self) -> (r: bool) {
        self.phase >= self.sequence.len()
    }

    fn reset(&mut self) {
        self.phase = 0;
        self.displayed_time_ms = 0;
    }
}

/// A track that animates the translation sub-field of a transform. A
/// track whose target list is empty counts as finished from the start.
#[derive(Clone, Debug)]
pub struct TransitionSequence {
    pub phase: usize,
    pub displayed_time_ms: u64,
    pub sequence: Vec<NextTransform>,
}

impl Default for TransitionSequence {
    /// An empty track: no targets, so it is finished from the start.
    fn default() -> (r: Self)
        ensures
            r.model() == (TrackModel { phase: 0, hold: 0, targets: Seq::<NextTransform>::empty() }),
    {
        TransitionSequence { phase: 0, displayed_time_ms: 0, sequence: Vec::new() }
    }
}

impl TransformSequence for TransitionSequence {
    open spec fn model(&self) -> TrackModel {
        TrackModel { phase: self.phase as int, hold: self.displayed_time_ms, targets: self.sequence@ }
    }

    open spec fn animated_part(t: Transform) -> Vec3i {
        t.translation
    }

    open spec fn with_part(t: Transform, v: Vec3i) -> Transform {
        Transform { scale: t.scale, translation: v }
    }

    fn animated(&mut self, transform: &mut Transform, time_delta_ms: u64) {
        advance_track(
            &mut self.phase,
            &mut self.displayed_time_ms,
            &self.sequence,
            &mut transform.translation,
            time_delta_ms,
        );
    }

    fn is_finished(&self) -> (r: bool) {
        self.phase >= self.sequence.len()
    }

    fn reset(&mut self) {
        self.phase = 0;
        self.displayed_time_ms = 0;
    }
}

} // verus!
