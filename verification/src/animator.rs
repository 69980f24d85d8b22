//! The animator: owns the grid of stones and advances them one tick at
//! a time, or recomputes the whole field from a seed (static mode).
//!
//! Animated mode (`tick`): at a phase boundary a motion draw sends the
//! stone into a dwell (with probability `motion`) or into a transition
//! toward a freshly sampled target; otherwise the active phase advances
//! by one velocity step.
//!
//! Static mode (`apply_static`): every offset is recomputed as a pure
//! function of the seed and the settings, with no per-stone state carried
//! from tick to tick.

use vstd::prelude::*;

use crate::fixed::ANIM_SPREAD;
use crate::fixed::CYCLES_MAX;
use crate::fixed::CYCLES_MIN;
use crate::fixed::MOTION_ONE;
use crate::fixed::QUARTER_PI;
use crate::fixed::STATIC_SPREAD;
use crate::fixed::div_tz;
use crate::rng::Rng64;
use crate::rng::next_state;
use crate::rng::spread_draw;
use crate::rng::state_after;
use crate::sample::compute_row_factor;
use crate::sample::row_factor;
use crate::sample::sample_component;
use crate::sample::target_component;
use crate::settings::ConfigError;
use crate::settings::Settings;
use crate::stone::Phase;
use crate::stone::Stone;

verus! {

/// A stone resting untouched on its nominal grid position.
pub open spec fn at_rest(st: Stone) -> bool {
    &&& st.x_offset == 0
    &&& st.y_offset == 0
    &&& st.rotation == 0
    &&& st.x_velocity == 0
    &&& st.y_velocity == 0
    &&& st.rot_velocity == 0
    &&& st.cycles == 0
    &&& st.phase == Phase::Dwell
}

/// A stone that has just entered a dwell phase: velocity exactly zero,
/// frozen wherever its last phase left it.
pub open spec fn entered_dwell(pre: Stone, post: Stone) -> bool {
    &&& post.phase == Phase::Dwell
    &&& post.x_velocity == 0
    &&& post.y_velocity == 0
    &&& post.rot_velocity == 0
    &&& CYCLES_MIN <= post.cycles < CYCLES_MAX
    &&& post.x_offset == pre.x_offset
    &&& post.y_offset == pre.y_offset
    &&& post.rotation == pre.rotation
    &&& post.col == pre.col
    &&& post.row == pre.row
}

/// A stone that has just entered a transition sampled from the given
/// draws: velocity is the truncated per-tick step toward the target.
pub open spec fn entered_transition_with(
    pre: Stone,
    post: Stone,
    rows: int,
    s: Settings,
    dx: int,
    dy: int,
    dr: int,
    duration: int,
) -> bool {
    let fac = row_factor(pre.row as int, rows);
    let tx = target_component(fac, s.disp_gain as int, dx);
    let ty = target_component(fac, s.disp_gain as int, dy);
    let tr = target_component(fac, s.rot_gain as int, dr);
    &&& CYCLES_MIN <= duration < CYCLES_MAX
    &&& -ANIM_SPREAD <= dx < ANIM_SPREAD
    &&& -ANIM_SPREAD <= dy < ANIM_SPREAD
    &&& -QUARTER_PI <= dr < QUARTER_PI
    &&& post.phase == Phase::Transition
    &&& post.cycles == duration
    &&& post.x_velocity == div_tz(tx - pre.x_offset, duration)
    &&& post.y_velocity == div_tz(ty - pre.y_offset, duration)
    &&& post.rot_velocity == div_tz(tr - pre.rotation, duration)
    &&& post.x_offset == pre.x_offset
    &&& post.y_offset == pre.y_offset
    &&& post.rotation == pre.rotation
    &&& post.col == pre.col
    &&& post.row == pre.row
}

/// A stone that has just entered a transition toward some in-range draws.
pub open spec fn entered_transition(pre: Stone, post: Stone, rows: int, s: Settings) -> bool {
    exists|dx: int, dy: int, dr: int, duration: int| #[trigger] entered_transition_with(
        pre,
        post,
        rows,
        s,
        dx,
        dy,
        dr,
        duration,
    )
}

/// The outcome of one motion draw `u` at a phase boundary: below the
/// motion probability the stone dwells, at or above it the stone starts
/// a new transition.
pub open spec fn boundary_choice(
    u: int,
    pre: Stone,
    post: Stone,
    rows: int,
    s: Settings,
) -> bool {
    &&& 0 <= u < MOTION_ONE
    &&& u < s.motion ==> entered_dwell(pre, post)
    &&& u >= s.motion ==> entered_transition(pre, post, rows, s)
}

/// A stone at a phase boundary was sent into its next phase by some
/// motion draw.
pub open spec fn boundary_stepped(pre: Stone, post: Stone, rows: int, s: Settings) -> bool {
    exists|u: int| #[trigger] boundary_choice(u, pre, post, rows, s)
}

/// A stone in an active phase advanced by exactly one velocity step,
/// with exactly one tick counted off.
pub open spec fn advanced(pre: Stone, post: Stone) -> bool {
    &&& pre.cycles > 0
    &&& post.cycles == pre.cycles - 1
    &&& post.x_offset == pre.x_offset + pre.x_velocity
    &&& post.y_offset == pre.y_offset + pre.y_velocity
    &&& post.rotation == pre.rotation + pre.rot_velocity
    &&& post.x_velocity == pre.x_velocity
    &&& post.y_velocity == pre.y_velocity
    &&& post.rot_velocity == pre.rot_velocity
    &&& post.phase == pre.phase
    &&& post.col == pre.col
    &&& post.row == pre.row
}

/// The full per-stone tick relation: a boundary picks a new phase,
/// anything else advances the active phase.
pub open spec fn stepped(pre: Stone, post: Stone, rows: int, s: Settings) -> bool {
    if pre.cycles == 0 {
        boundary_stepped(pre, post, rows, s)
    } else {
        advanced(pre, post)
    }
}

/// The static field's sample for the stone at linear index `i`: offsets
/// and rotation are a pure function of the seed, the gains and the row,
/// drawn from the generator's states `3i+1 .. 3i+3`.
pub open spec fn static_sampled(
    pre: Stone,
    post: Stone,
    s: Settings,
    rows: int,
    i: int,
) -> bool {
    let fac = row_factor(pre.row as int, rows);
    &&& post.x_offset == target_component(
        fac,
        s.disp_gain as int,
        spread_draw(state_after(s.seed, (3 * i + 1) as nat), STATIC_SPREAD as int),
    )
    &&& post.y_offset == target_component(
        fac,
        s.disp_gain as int,
        spread_draw(state_after(s.seed, (3 * i + 2) as nat), STATIC_SPREAD as int),
    )
    &&& post.rotation == target_component(
        fac,
        s.rot_gain as int,
        spread_draw(state_after(s.seed, (3 * i + 3) as nat), QUARTER_PI as int),
    )
    &&& post.x_velocity == 0
    &&& post.y_velocity == 0
    &&& post.rot_velocity == 0
    &&& post.cycles == 0
    &&& post.phase == Phase::Dwell
    &&& post.col == pre.col
    &&& post.row == pre.row
}

/// The grid of stones, the generator that animates them, and the grid's
/// dimensions.
#[derive(Debug)]
pub struct Animator {
    /// One stone per cell, in row-major order.
    pub stones: Vec<Stone>,
    /// The generator animated mode draws from, advanced continuously.
    pub rng: Rng64,
    /// Number of rows; row 0 is the calm top.
    pub rows: u32,
    /// Number of columns.
    pub cols: u32,
}

impl Animator {
    /// Well-formedness: one well-formed stone per cell, in row-major
    /// order, every row index within the grid.
    pub open spec fn wf(self) -> bool {
        &&& 1 <= self.rows
        &&& 1 <= self.cols
        &&& self.stones@.len() == self.rows as int * self.cols as int
        &&& forall|i: int|
            0 <= i < self.stones@.len() ==> (#[trigger] self.stones@[i]).wf()
        &&& forall|i: int|
            0 <= i < self.stones@.len() ==> (#[trigger] self.stones@[i]).row == i / (
            self.cols as int)
        &&& forall|i: int|
            0 <= i < self.stones@.len() ==> (#[trigger] self.stones@[i]).col == i % (
            self.cols as int)
        &&& forall|i: int|
            0 <= i < self.stones@.len() ==> (#[trigger] self.stones@[i]).row < self.rows
    }

    /// Build the grid: exactly `rows * cols` stones in row-major order,
    /// each at rest, with a phase boundary due on the first tick.
    /// A grid without rows or without columns is refused.
    pub fn new(rows: u32, cols: u32, seed: u64) -> (r: Result<Animator, ConfigError>)
        requires
            rows as int * cols as int <= usize::MAX as int,
        ensures
            r is Ok <==> (rows >= 1 && cols >= 1),
            rows == 0 ==> r == Err::<Animator, ConfigError>(ConfigError::ZeroRows),
            rows >= 1 && cols == 0 ==> r == Err::<Animator, ConfigError>(ConfigError::ZeroCols),
            r is Ok ==> {
                let a = r->Ok_0;
                &&& a.wf()
                &&& a.rows == rows
                &&& a.cols == cols
                &&& a.rng.state == seed
                &&& forall|i: int| 0 <= i < a.stones@.len() ==> at_rest(#[trigger] a.stones@[i])
            },
    {
        if rows == 0 {
            return Err(ConfigError::ZeroRows);
        }
        if cols == 0 {
            return Err(ConfigError::ZeroCols);
        }
        let n: usize = (rows as u64 * cols as u64) as usize;
        let mut stones: Vec<Stone> = Vec::new();
        let mut i: usize = 0;
        while i < n
            invariant
                1 <= rows,
                1 <= cols,
                n == rows as int * cols as int,
                i <= n,
                stones@.len() == i,
                forall|j: int|
                    0 <= j < i as int ==> (#[trigger] stones@[j]).wf() && at_rest(stones@[j]),
                forall|j: int|
                    0 <= j < i as int ==> (#[trigger] stones@[j]).row == j / (cols as int)
                        && stones@[j].col == j % (cols as int) && stones@[j].row < rows,
            decreases n - i,
        {
            proof {
                assert((i as int) < (cols as int) * (rows as int)) by (nonlinear_arith)
                    requires
                        (i as int) < n as int,
                        n as int == rows as int * cols as int,
                ;
                vstd::arithmetic::div_mod::lemma_multiply_divide_lt(
                    i as int,
                    cols as int,
                    rows as int,
                );
                vstd::arithmetic::div_mod::lemma_div_pos_is_pos(i as int, cols as int);
                vstd::arithmetic::div_mod::lemma_mod_bound(i as int, cols as int);
            }
            let row: u32 = (i as u64 / cols as u64) as u32;
            let col: u32 = (i as u64 % cols as u64) as u32;
            stones.push(Stone::new(col, row));
            i = i + 1;
        }
        Ok(Animator { stones, rng: Rng64::new(seed), rows, cols })
    }

    /// Advance every stone by one tick of animated mode.
    ///
    /// Each stone at a phase boundary is sent into a dwell or into a new
    /// transition by its own motion draw; every other stone advances by
    /// exactly one velocity step.
    pub fn tick(&mut self, s: &Settings)
        requires
            old(self).wf(),
            s.wf(),
        ensures
            final(self).wf(),
            final(self).rows == old(self).rows,
            final(self).cols == old(self).cols,
            final(self).stones@.len() == old(self).stones@.len(),
            forall|i: int|
                0 <= i < old(self).stones@.len() ==> #[trigger] stepped(
                    old(self).stones@[i],
                    final(self).stones@[i],
                    old(self).rows as int,
                    *s,
                ),
    {
        let ghost pre_stones = self.stones@;
        let ghost rows_g = self.rows as int;
        let n: usize = self.stones.len();
        let mut i: usize = 0;
        while i < n
            invariant
                self.wf(),
                s.wf(),
                self.rows as int == rows_g,
                self.rows == old(self).rows,
                self.cols == old(self).cols,
                n == self.stones@.len(),
                n == pre_stones.len(),
                pre_stones == old(self).stones@,
                i <= n,
                forall|j: int|
                    0 <= j < i as int ==> #[trigger] stepped(
                        pre_stones[j],
                        self.stones@[j],
                        rows_g,
                        *s,
                    ),
                forall|j: int| i as int <= j < n ==> self.stones@[j] == pre_stones[j],
            decreases n - i,
        {
            let mut st: Stone = self.stones[i];
            let ghost pre_st = st;
            if st.cycles == 0 {
                let u: u32 = self.rng.next_below(MOTION_ONE as u32);
                if (u as i64) < s.motion {
                    let duration: u32 = CYCLES_MIN + self.rng.next_below(CYCLES_MAX - CYCLES_MIN);
                    st.stop(duration);
                    proof {
                        assert(entered_dwell(pre_st, st));
                        assert(boundary_choice(u as int, pre_st, st, rows_g, *s));
                    }
                } else {
                    let fac: i64 = compute_row_factor(st.row, self.rows);
                    let dx: i64 = self.rng.next_spread(ANIM_SPREAD);
                    let dy: i64 = self.rng.next_spread(ANIM_SPREAD);
                    let dr: i64 = self.rng.next_spread(QUARTER_PI);
                    let duration: u32 = CYCLES_MIN + self.rng.next_below(CYCLES_MAX - CYCLES_MIN);
                    let tx: i64 = sample_component(fac, s.disp_gain, dx, ANIM_SPREAD);
                    let ty: i64 = sample_component(fac, s.disp_gain, dy, ANIM_SPREAD);
                    let tr: i64 = sample_component(fac, s.rot_gain, dr, QUARTER_PI);
                    st.start_transition(tx, ty, tr, duration);
                    proof {
                        assert(entered_transition_with(
                            pre_st,
                            st,
                            rows_g,
                            *s,
                            dx as int,
                            dy as int,
                            dr as int,
                            duration as int,
                        ));
                        assert(boundary_choice(u as int, pre_st, st, rows_g, *s));
                    }
                }
            } else {
                st.advance();
            }
            self.stones[i] = st;
            i = i + 1;
        }
    }

    /// Recompute the whole field in static mode: every stone's offsets
    /// and rotation become a pure function of `(seed, gains, row)`,
    /// velocities zero, all phase state cleared.  Bit-identical on every
    /// evaluation with the same settings.
    pub fn apply_static(&mut self, s: &Settings)
        requires
            old(self).wf(),
            s.wf(),
        ensures
            final(self).wf(),
            final(self).rows == old(self).rows,
            final(self).cols == old(self).cols,
            final(self).rng == old(self).rng,
            final(self).stones@.len() == old(self).stones@.len(),
            forall|i: int|
                0 <= i < old(self).stones@.len() ==> #[trigger] static_sampled(
                    old(self).stones@[i],
                    final(self).stones@[i],
                    *s,
                    old(self).rows as int,
                    i,
                ),
    {
        let ghost pre_stones = self.stones@;
        let ghost rows_g = self.rows as int;
        let mut field: Rng64 = Rng64::new(s.seed);
        let n: usize = self.stones.len();
        let mut i: usize = 0;
        while i < n
            invariant
                self.wf(),
                s.wf(),
                self.rows as int == rows_g,
                self.rows == old(self).rows,
                self.cols == old(self).cols,
                self.rng == old(self).rng,
                n == self.stones@.len(),
                n == pre_stones.len(),
                pre_stones == old(self).stones@,
                i <= n,
                field.state == state_after(s.seed, (3 * i as int) as nat),
                forall|j: int|
                    0 <= j < i as int ==> #[trigger] static_sampled(
                        pre_stones[j],
                        self.stones@[j],
                        *s,
                        rows_g,
                        j,
                    ),
                forall|j: int| i as int <= j < n ==> self.stones@[j] == pre_stones[j],
            decreases n - i,
        {
            let st: Stone = self.stones[i];
            let fac: i64 = compute_row_factor(st.row, self.rows);
            proof {
                assert(state_after(s.seed, (3 * i as int + 1) as nat) == next_state(
                    state_after(s.seed, (3 * i as int) as nat),
                ));
                assert(state_after(s.seed, (3 * i as int + 2) as nat) == next_state(
                    state_after(s.seed, (3 * i as int + 1) as nat),
                ));
                assert(state_after(s.seed, (3 * i as int + 3) as nat) == next_state(
                    state_after(s.seed, (3 * i as int + 2) as nat),
                ));
            }
            let dx: i64 = field.next_spread(STATIC_SPREAD);
            let dy: i64 = field.next_spread(STATIC_SPREAD);
            let dr: i64 = field.next_spread(QUARTER_PI);
            let tx: i64 = sample_component(fac, s.disp_gain, dx, STATIC_SPREAD);
            let ty: i64 = sample_component(fac, s.disp_gain, dy, STATIC_SPREAD);
            let tr: i64 = sample_component(fac, s.rot_gain, dr, QUARTER_PI);
            let post: Stone = Stone {
                x_offset: tx,
                y_offset: ty,
                rotation: tr,
                x_velocity: 0,
                y_velocity: 0,
                rot_velocity: 0,
                cycles: 0,
                phase: Phase::Dwell,
                ..st
            };
            self.stones[i] = post;
            i = i + 1;
        }
    }
}

} // verus!
