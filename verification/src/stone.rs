//! One animated grid cell: its offset, rotation and phase timer.
//!
//! A stone is always in one of two phases.  During a *transition* it moves
//! by exactly one velocity step per tick toward a sampled target; during a
//! *dwell* it holds still (its velocity is exactly zero).  In both phases
//! `cycles` counts the ticks left; `cycles == 0` marks a phase boundary,
//! at which the animator chooses the next phase.

use vstd::prelude::*;

use crate::fixed::CYCLES_MAX;
use crate::fixed::CYCLES_MIN;
use crate::fixed::OFFSET_MAX;
use crate::fixed::ROTATION_MAX;
use crate::fixed::ROT_VELOCITY_MAX;
use crate::fixed::VELOCITY_MAX;
use crate::fixed::div_tz;
use crate::fixed::lemma_div_tz_bounds;

verus! {

/// The two phases a stone can be in.
#[derive(Clone, Copy, PartialEq, Eq, Structural, Debug)]
pub enum Phase {
    /// Holding still; the velocity is exactly zero.
    Dwell,
    /// Moving one velocity step per tick toward a sampled target.
    Transition,
}

/// The mutable animation state of one grid cell.
///
/// Offsets and rotation are fixed-point ticks (see [`crate::fixed`]);
/// `col` and `row` are the cell's immutable grid coordinates.
#[derive(Clone, Copy, Debug)]
pub struct Stone {
    /// Grid column, fixed at creation.
    pub col: u32,
    /// Grid row, fixed at creation.  Row 0 is the calm top of the grid.
    pub row: u32,
    /// Horizontal displacement from the cell's nominal position.
    pub x_offset: i64,
    /// Vertical displacement from the cell's nominal position.
    pub y_offset: i64,
    /// Rotation about the cell center, fixed-point radians.
    pub rotation: i64,
    /// Horizontal displacement added per transition tick.
    pub x_velocity: i64,
    /// Vertical displacement added per transition tick.
    pub y_velocity: i64,
    /// Rotation added per transition tick.
    pub rot_velocity: i64,
    /// Ticks left in the current phase; 0 means a boundary is due.
    pub cycles: u32,
    /// Which phase the stone is in.
    pub phase: Phase,
}

impl Stone {
    /// Well-formedness: every field is within its bound, a dwelling stone
    /// has zero velocity, and an unfinished phase cannot carry the stone
    /// out of bounds.
    pub open spec fn wf(self) -> bool {
        &&& -OFFSET_MAX <= self.x_offset <= OFFSET_MAX
        &&& -OFFSET_MAX <= self.y_offset <= OFFSET_MAX
        &&& -ROTATION_MAX <= self.rotation <= ROTATION_MAX
        &&& -VELOCITY_MAX <= self.x_velocity <= VELOCITY_MAX
        &&& -VELOCITY_MAX <= self.y_velocity <= VELOCITY_MAX
        &&& -ROT_VELOCITY_MAX <= self.rot_velocity <= ROT_VELOCITY_MAX
        &&& self.cycles < CYCLES_MAX
        &&& self.phase == Phase::Dwell ==> self.x_velocity == 0 && self.y_velocity == 0
            && self.rot_velocity == 0
        &&& self.cycles > 0 ==> {
            &&& -OFFSET_MAX <= self.x_offset + self.cycles * self.x_velocity <= OFFSET_MAX
            &&& -OFFSET_MAX <= self.y_offset + self.cycles * self.y_velocity <= OFFSET_MAX
            &&& -ROTATION_MAX <= self.rotation + self.cycles * self.rot_velocity <= ROTATION_MAX
        }
    }

    /// A fresh stone at `(col, row)`: at rest on its nominal position,
    /// with a phase boundary due on the first tick.
    pub fn new(col: u32, row: u32) -> (s: Stone)
        ensures
            s.wf(),
            s.col == col,
            s.row == row,
            s.x_offset == 0,
            s.y_offset == 0,
            s.rotation == 0,
            s.x_velocity == 0,
            s.y_velocity == 0,
            s.rot_velocity == 0,
            s.cycles == 0,
            s.phase == Phase::Dwell,
    {
        Stone {
            col,
            row,
            x_offset: 0,
            y_offset: 0,
            rotation: 0,
            x_velocity: 0,
            y_velocity: 0,
            rot_velocity: 0,
            cycles: 0,
            phase: Phase::Dwell,
        }
    }

    /// Enter a dwell phase of `duration` ticks: freeze in place.
    ///
    /// The offset and rotation are kept exactly as they are — a stone that
    /// dwells mid-transition freezes where the transition left it.
    pub fn stop(&mut self, duration: u32)
        requires
            old(self).wf(),
            CYCLES_MIN <= duration < CYCLES_MAX,
        ensures
            final(self).wf(),
            final(self).phase == Phase::Dwell,
            final(self).x_velocity == 0,
            final(self).y_velocity == 0,
            final(self).rot_velocity == 0,
            final(self).cycles == duration,
            final(self).x_offset == old(self).x_offset,
            final(self).y_offset == old(self).y_offset,
            final(self).rotation == old(self).rotation,
            final(self).col == old(self).col,
            final(self).row == old(self).row,
    {
        self.x_velocity = 0;
        self.y_velocity = 0;
        self.rot_velocity = 0;
        self.cycles = duration;
        self.phase = Phase::Dwell;
    }

    /// Enter a transition of `duration` ticks toward the given target:
    /// the velocity becomes the per-tick step `(target - current) / duration`,
    /// rounded toward zero so that the stone never overshoots.
    pub fn start_transition(
        &mut self,
        target_x: i64,
        target_y: i64,
        target_rot: i64,
        duration: u32,
    )
        requires
            old(self).wf(),
            CYCLES_MIN <= duration < CYCLES_MAX,
            -OFFSET_MAX <= target_x <= OFFSET_MAX,
            -OFFSET_MAX <= target_y <= OFFSET_MAX,
            -ROTATION_MAX <= target_rot <= ROTATION_MAX,
        ensures
            final(self).wf(),
            final(self).phase == Phase::Transition,
            final(self).cycles == duration,
            final(self).x_velocity == div_tz(
                target_x - old(self).x_offset,
                duration as int,
            ),
            final(self).y_velocity == div_tz(
                target_y - old(self).y_offset,
                duration as int,
            ),
            final(self).rot_velocity == div_tz(
                target_rot - old(self).rotation,
                duration as int,
            ),
            final(self).x_offset == old(self).x_offset,
            final(self).y_offset == old(self).y_offset,
            final(self).rotation == old(self).rotation,
            final(self).col == old(self).col,
            final(self).row == old(self).row,
    {
        proof {
            lemma_velocity_step_fits(
                self.x_offset as int,
                target_x as int,
                duration as int,
                OFFSET_MAX as int,
                VELOCITY_MAX as int,
            );
            lemma_velocity_step_fits(
                self.y_offset as int,
                target_y as int,
                duration as int,
                OFFSET_MAX as int,
                VELOCITY_MAX as int,
            );
            lemma_velocity_step_fits(
                self.rotation as int,
                target_rot as int,
                duration as int,
                ROTATION_MAX as int,
                ROT_VELOCITY_MAX as int,
            );
        }
        let d: i64 = duration as i64;
        self.x_velocity = crate::fixed::div_toward_zero(target_x - self.x_offset, d);
        self.y_velocity = crate::fixed::div_toward_zero(target_y - self.y_offset, d);
        self.rot_velocity = crate::fixed::div_toward_zero(target_rot - self.rotation, d);
        self.cycles = duration;
        self.phase = Phase::Transition;
    }

    /// Advance an active phase by one tick: add one velocity step and
    /// count the tick off.
    pub fn advance(&mut self)
        requires
            old(self).wf(),
            old(self).cycles > 0,
        ensures
            final(self).wf(),
            final(self).x_offset == old(self).x_offset + old(self).x_velocity,
            final(self).y_offset == old(self).y_offset + old(self).y_velocity,
            final(self).rotation == old(self).rotation + old(self).rot_velocity,
            final(self).cycles == old(self).cycles - 1,
            final(self).phase == old(self).phase,
            final(self).x_velocity == old(self).x_velocity,
            final(self).y_velocity == old(self).y_velocity,
            final(self).rot_velocity == old(self).rot_velocity,
            final(self).col == old(self).col,
            final(self).row == old(self).row,
    {
        proof {
            lemma_one_step_stays_bounded(
                self.x_offset as int,
                self.x_velocity as int,
                self.cycles as int,
                OFFSET_MAX as int,
            );
            lemma_one_step_stays_bounded(
                self.y_offset as int,
                self.y_velocity as int,
                self.cycles as int,
                OFFSET_MAX as int,
            );
            lemma_one_step_stays_bounded(
                self.rotation as int,
                self.rot_velocity as int,
                self.cycles as int,
                ROTATION_MAX as int,
            );
        }
        self.x_offset = self.x_offset + self.x_velocity;
        self.y_offset = self.y_offset + self.y_velocity;
        self.rotation = self.rotation + self.rot_velocity;
        self.cycles = self.cycles - 1;
    }
}

/// A position bounded now and at the end of its phase stays bounded after
/// one velocity step: `p + v` lies between `p` and `p + c * v`.
pub proof fn lemma_one_step_stays_bounded(p: int, v: int, c: int, m: int)
    requires
        c >= 1,
        -m <= p <= m,
        -m <= p + c * v <= m,
    ensures
        -m <= p + v <= m,
        (p + v) + (c - 1) * v == p + c * v,
{
    assert(-m <= p + v <= m && (p + v) + (c - 1) * v == p + c * v) by (nonlinear_arith)
        requires
            c >= 1,
            -m <= p <= m,
            -m <= p + c * v <= m,
    ;
}

/// The truncated per-tick step toward a bounded target is itself bounded,
/// and `duration` such steps keep the stone between start and target.
pub proof fn lemma_velocity_step_fits(p: int, t: int, d: int, m: int, vm: int)
    requires
        50 <= d < 300,
        -m <= p <= m,
        -m <= t <= m,
        vm * 50 >= 2 * m,
        m >= 1,
    ensures
        -vm <= div_tz(t - p, d) <= vm,
        -m <= p + d * div_tz(t - p, d) <= m,
{
    let delta = t - p;
    let v = div_tz(delta, d);
    lemma_div_tz_bounds(delta, d);
    if delta >= 0 {
        assert(0 <= v * d <= delta);
        assert(0 <= v <= vm && -m <= p + d * v <= m) by (nonlinear_arith)
            requires
                0 <= v * d <= delta,
                delta == t - p,
                -m <= p <= m,
                -m <= t <= m,
                50 <= d < 300,
                vm * 50 >= 2 * m,
        ;
    } else {
        assert(delta <= v * d <= 0);
        assert(-vm <= v <= 0 && -m <= p + d * v <= m) by (nonlinear_arith)
            requires
                delta <= v * d <= 0,
                delta == t - p,
                -m <= p <= m,
                -m <= t <= m,
                50 <= d < 300,
                vm * 50 >= 2 * m,
        ;
    }
}

} // verus!
