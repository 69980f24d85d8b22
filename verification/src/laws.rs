//! The guarantees of the animation, stated once and proved from the
//! contracts of the core: phase bookkeeping, dwell stability, transition
//! convergence, the chaos gradient, gain bounds and the determinism of
//! the static field.

use vstd::prelude::*;

use crate::animator::advanced;
use crate::animator::boundary_choice;
use crate::animator::boundary_stepped;
use crate::animator::entered_dwell;
use crate::animator::entered_transition;
use crate::animator::entered_transition_with;
use crate::animator::static_sampled;
use crate::animator::stepped;
use crate::fixed::CYCLES_MIN;
use crate::fixed::GAIN_MAX;
use crate::fixed::MOTION_ONE;
use crate::fixed::SCALE;
use crate::fixed::div_tz;
use crate::fixed::lemma_div_tz_bounds;
use crate::sample::row_factor;
use crate::sample::target_component;
use crate::sample::lemma_row_factor_monotone;
use crate::sample::lemma_target_monotone_in_factor;
use crate::settings::Command;
use crate::settings::Settings;
use crate::settings::command_applied;
use crate::stone::Phase;
use crate::stone::Stone;
use vstd::math::abs;

verus! {

/// The static field is a pure function of seed, settings, row and grid
/// index: two evaluations of the same stone agree bit for bit.
pub proof fn lemma_static_mode_deterministic(
    pre1: Stone,
    post1: Stone,
    pre2: Stone,
    post2: Stone,
    s: Settings,
    rows: int,
    i: int,
)
    requires
        static_sampled(pre1, post1, s, rows, i),
        static_sampled(pre2, post2, s, rows, i),
        pre1.row == pre2.row,
    ensures
        post1.x_offset == post2.x_offset,
        post1.y_offset == post2.y_offset,
        post1.rotation == post2.rotation,
{
}

/// The chaos gradient is monotone in the row: for one gain and one draw,
/// a row further down the grid samples a target of no smaller magnitude.
pub proof fn lemma_chaos_gradient(r1: int, r2: int, rows: int, gain: int, draw: int)
    requires
        0 <= r1 <= r2,
        rows >= 1,
        0 <= gain,
    ensures
        abs(target_component(row_factor(r1, rows), gain, draw)) <= abs(
            target_component(row_factor(r2, rows), gain, draw),
        ),
{
    lemma_row_factor_monotone(r1, r2, rows);
    lemma_target_monotone_in_factor(row_factor(r1, rows), row_factor(r2, rows), gain, draw);
}

/// The top row never moves: its row factor is zero, so every target it
/// samples — offset or rotation, whatever the gain and the draw — is
/// exactly zero.
pub proof fn lemma_top_row_still(rows: int, gain: int, draw: int)
    requires
        rows >= 1,
    ensures
        row_factor(0, rows) == 0,
        target_component(0, gain, draw) == 0,
{
    vstd::arithmetic::div_mod::lemma_div_of0(rows);
    vstd::arithmetic::div_mod::lemma_div_of0(SCALE as int);
    assert(0 * gain == 0) by (nonlinear_arith);
    let strength = crate::fixed::scale_mul(0, gain);
    assert(strength == 0);
    assert(0 * draw == 0) by (nonlinear_arith);
    assert(0 * (-draw) == 0) by (nonlinear_arith);
}

/// Phase bookkeeping: at every tick exactly one of the two events
/// happens to a stone — entering a new phase (its counter was zero
/// before the tick) or advancing the active phase (its counter
/// decremented by exactly one) — never both, never neither.
pub proof fn lemma_phase_dichotomy(pre: Stone, post: Stone, rows: int, s: Settings)
    requires
        stepped(pre, post, rows, s),
    ensures
        pre.cycles == 0 || advanced(pre, post),
        !(pre.cycles == 0 && advanced(pre, post)),
        pre.cycles == 0 ==> boundary_stepped(pre, post, rows, s) && post.cycles >= CYCLES_MIN,
        pre.cycles > 0 ==> post.cycles == pre.cycles - 1,
{
    if pre.cycles == 0 {
        let u = choose|u: int| #[trigger] boundary_choice(u, pre, post, rows, s);
        if u < s.motion {
            assert(entered_dwell(pre, post));
        } else {
            assert(entered_transition(pre, post, rows, s));
            let (dx, dy, dr, duration) = choose|dx: int, dy: int, dr: int, duration: int|
                #[trigger] entered_transition_with(pre, post, rows, s, dx, dy, dr, duration);
            assert(post.cycles == duration);
        }
    }
}

/// Dwell zeroing: a stone that dwells has velocity exactly zero and does
/// not drift — along any run of ticks that starts in a dwell and meets
/// no phase boundary, offset and rotation stay exactly where they were.
pub proof fn lemma_dwell_freezes(trace: Seq<Stone>, rows: int, s: Settings, k: int)
    requires
        0 <= k < trace.len(),
        trace[0].wf(),
        trace[0].phase == Phase::Dwell,
        forall|j: int|
            0 <= j < trace.len() - 1 ==> (#[trigger] trace[j]).cycles > 0 && stepped(
                trace[j],
                trace[j + 1],
                rows,
                s,
            ),
    ensures
        trace[k].phase == Phase::Dwell,
        trace[k].x_velocity == 0,
        trace[k].y_velocity == 0,
        trace[k].rot_velocity == 0,
        trace[k].x_offset == trace[0].x_offset,
        trace[k].y_offset == trace[0].y_offset,
        trace[k].rotation == trace[0].rotation,
    decreases k,
{
    if k > 0 {
        lemma_dwell_freezes(trace, rows, s, k - 1);
        assert(stepped(trace[k - 1], trace[k], rows, s));
        assert(advanced(trace[k - 1], trace[k]));
    }
}

/// Every position along a trace that advances by a constant step `v` is
/// the start plus that many steps.
proof fn lemma_linear_trace(positions: Seq<int>, v: int, k: int)
    requires
        0 <= k < positions.len(),
        forall|j: int| 0 <= j < k ==> positions[j + 1] == #[trigger] positions[j] + v,
    ensures
        positions[k] == positions[0] + k * v,
    decreases k,
{
    if k > 0 {
        lemma_linear_trace(positions, v, k - 1);
        assert(k * v == (k - 1) * v + v) by (nonlinear_arith);
    }
}

/// Transition convergence: a transition of duration `d` from `start`
/// toward `target` advances by the constant step `div_tz(target - start, d)`
/// and, after exactly `d` ticks, lands on `start + d * v` — within `d`
/// fixed-point ticks of the target, and never past it.
pub proof fn lemma_transition_convergence(positions: Seq<int>, start: int, target: int, d: int)
    requires
        d >= 1,
        positions.len() == d + 1,
        positions[0] == start,
        forall|k: int|
            0 <= k < d ==> positions[k + 1] == #[trigger] positions[k] + div_tz(
                target - start,
                d,
            ),
    ensures
        positions[d] == start + d * div_tz(target - start, d),
        abs(target - positions[d]) < d,
        target >= start ==> start <= positions[d] <= target,
        target < start ==> target <= positions[d] <= start,
{
    let v = div_tz(target - start, d);
    lemma_linear_trace(positions, v, d);
    lemma_div_tz_bounds(target - start, d);
    assert(v * d == d * v) by (nonlinear_arith);
}

/// Gain bounds: however many input events are applied, starting from
/// well-formed settings, both gains stay within `[0, GAIN_MAX]` — in
/// particular, repeated "decrease gain" events never drive either gain
/// below zero.
pub proof fn lemma_gains_stay_bounded(states: Seq<Settings>, cmds: Seq<Command>, k: int)
    requires
        states.len() == cmds.len() + 1,
        states[0].wf(),
        forall|j: int|
            0 <= j < cmds.len() ==> command_applied(states[j], states[j + 1], #[trigger] cmds[j]),
        0 <= k < states.len(),
    ensures
        states[k].wf(),
        0 <= states[k].disp_gain <= GAIN_MAX,
        0 <= states[k].rot_gain <= GAIN_MAX,
    decreases k,
{
    if k > 0 {
        lemma_gains_stay_bounded(states, cmds, k - 1);
        assert(command_applied(states[k - 1], states[k], cmds[k - 1]));
    }
}

/// With motion probability zero, a stone at a phase boundary always
/// starts a new transition: it never dwells, and its next phase is
/// strictly positive ticks long.
pub proof fn lemma_zero_motion_transitions(pre: Stone, post: Stone, rows: int, s: Settings)
    requires
        stepped(pre, post, rows, s),
        pre.cycles == 0,
        s.motion == 0,
    ensures
        entered_transition(pre, post, rows, s),
        post.phase == Phase::Transition,
        post.cycles >= CYCLES_MIN,
{
    let u = choose|u: int| #[trigger] boundary_choice(u, pre, post, rows, s);
    assert(entered_transition(pre, post, rows, s));
    let (dx, dy, dr, duration) = choose|dx: int, dy: int, dr: int, duration: int|
        #[trigger] entered_transition_with(pre, post, rows, s, dx, dy, dr, duration);
    assert(post.cycles == duration);
}

/// With motion probability one, a stone at a phase boundary always
/// enters a dwell: velocity exactly zero, frozen wherever it stood.
pub proof fn lemma_full_motion_dwells(pre: Stone, post: Stone, rows: int, s: Settings)
    requires
        stepped(pre, post, rows, s),
        pre.cycles == 0,
        s.motion == MOTION_ONE,
    ensures
        entered_dwell(pre, post),
        post.phase == Phase::Dwell,
        post.x_velocity == 0,
        post.y_velocity == 0,
        post.rot_velocity == 0,
        post.x_offset == pre.x_offset,
        post.y_offset == pre.y_offset,
        post.rotation == pre.rotation,
{
    let u = choose|u: int| #[trigger] boundary_choice(u, pre, post, rows, s);
    assert(u < MOTION_ONE);
}

} // verus!
