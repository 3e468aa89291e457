//! Single-axis and three-axis constant-speed movement with overshoot
//! clamping: one step moves an axis toward its target by at most `dist`
//! units and never past it.

use vstd::prelude::*;

verus! {

/// A three-component vector with fixed-point integer axes.
#[derive(Clone, Copy, Debug, PartialEq, Eq, Structural)]
pub struct Vec3i {
    pub x: i64,
    pub y: i64,
    pub z: i64,
}

impl Default for Vec3i {
    /// The origin.
    fn default() -> (r: Self)
        ensures
            r == (Vec3i { x: 0, y: 0, z: 0 }),
    {
        Vec3i { x: 0, y: 0, z: 0 }
    }
}

/// The value of one axis after a single movement step: it moves from
/// `cur` toward `tgt` by at most `dist` and snaps to `tgt` instead of
/// overshooting. An axis already at its target stays there.
pub open spec fn stepped_axis(cur: int, tgt: int, dist: int) -> int {
    if cur < tgt {
        if cur + dist >= tgt {
            tgt
        } else {
            cur + dist
        }
    } else {
        if cur - dist <= tgt {
            tgt
        } else {
            cur - dist
        }
    }
}

/// All three axes after one movement step, each moved independently.
pub open spec fn stepped_vec(v: Vec3i, tgt: Vec3i, dist: int) -> Vec3i {
    Vec3i {
        x: stepped_axis(v.x as int, tgt.x as int, dist) as i64,
        y: stepped_axis(v.y as int, tgt.y as int, dist) as i64,
        z: stepped_axis(v.z as int, tgt.z as int, dist) as i64,
    }
}

/// How far apart two axis values are.
pub open spec fn axis_distance(a: int, b: int) -> int {
    if a <= b {
        b - a
    } else {
        a - b
    }
}

/// The largest per-axis distance between two vectors.
pub open spec fn max_axis_distance(v: Vec3i, w: Vec3i) -> int {
    let dx = axis_distance(v.x as int, w.x as int);
    let dy = axis_distance(v.y as int, w.y as int);
    let dz = axis_distance(v.z as int, w.z as int);
    if dx >= dy && dx >= dz {
        dx
    } else if dy >= dz {
        dy
    } else {
        dz
    }
}

/// A step never leaves the closed interval between the current value and
/// the target: the post-step value never passes the target in the
/// direction of travel, whatever the step distance.
pub proof fn lemma_no_overshoot(cur: int, tgt: int, dist: int)
    requires
        dist >= 0,
    ensures
        cur <= tgt ==> cur <= stepped_axis(cur, tgt, dist) <= tgt,
        cur >= tgt ==> tgt <= stepped_axis(cur, tgt, dist) <= cur,
{
}

/// One step shortens the distance to the target by exactly `dist`,
/// stopping at zero.
pub proof fn lemma_step_progress(cur: int, tgt: int, dist: int)
    requires
        dist >= 0,
    ensures
        axis_distance(stepped_axis(cur, tgt, dist), tgt) == if axis_distance(cur, tgt) >= dist {
            axis_distance(cur, tgt) - dist
        } else {
            0
        },
{
}

/// Moves one axis toward `tgt` by at most `dist`, snapping to `tgt` on
/// overshoot.
pub fn step_axis(cur: i64, tgt: i64, dist: u128) -> (r: i64)
    ensures
        r as int == stepped_axis(cur as int, tgt as int, dist as int),
{
    if cur < tgt {
        let gap: u128 = ((tgt as i128) - (cur as i128)) as u128;
        if dist >= gap {
            tgt
        } else {
            ((cur as i128) + (dist as i128)) as i64
        }
    } else {
        let gap: u128 = ((cur as i128) - (tgt as i128)) as u128;
        if dist >= gap {
            tgt
        } else {
            ((cur as i128) - (dist as i128)) as i64
        }
    }
}

} // verus!
