//! The shared, externally driven knobs of the animation: the two gains,
//! the motion probability and the seed, together with the discrete
//! commands that mutate them between ticks.

use vstd::prelude::*;

use crate::fixed::GAIN_MAX;
use crate::fixed::GAIN_STEP;
use crate::fixed::MOTION_ONE;
use crate::fixed::SCALE;
use crate::fixed::SEED_RANGE;

verus! {

/// A configuration the core refuses, and why.
#[derive(Clone, Copy, PartialEq, Eq, Structural, Debug)]
pub enum ConfigError {
    /// The grid needs at least one row.
    ZeroRows,
    /// The grid needs at least one column.
    ZeroCols,
    /// The displacement gain must lie in `[0, GAIN_MAX]`.
    DisplacementGainOutOfRange,
    /// The rotation gain must lie in `[0, GAIN_MAX]`.
    RotationGainOutOfRange,
    /// The motion probability must lie in `[0, MOTION_ONE]`.
    MotionOutOfRange,
}

impl ConfigError {
    /// A short description of the refused knob, for the shell to show.
    pub fn describe(&self) -> (m: &'static str)
        ensures
            *self == ConfigError::ZeroRows ==> m@ == "the grid needs at least one row"@,
            *self == ConfigError::ZeroCols ==> m@ == "the grid needs at least one column"@,
            *self == ConfigError::DisplacementGainOutOfRange ==> m@
                == "the displacement gain is out of range"@,
            *self == ConfigError::RotationGainOutOfRange ==> m@
                == "the rotation gain is out of range"@,
            *self == ConfigError::MotionOutOfRange ==> m@
                == "the motion probability is out of range"@,
    {
        match self {
            ConfigError::ZeroRows => "the grid needs at least one row",
            ConfigError::ZeroCols => "the grid needs at least one column",
            ConfigError::DisplacementGainOutOfRange => "the displacement gain is out of range",
            ConfigError::RotationGainOutOfRange => "the rotation gain is out of range",
            ConfigError::MotionOutOfRange => "the motion probability is out of range",
        }
    }
}

/// A discrete input event, applied atomically between ticks.
#[derive(Clone, Copy, PartialEq, Eq, Structural, Debug)]
pub enum Command {
    /// Raise the displacement gain one step (saturating at `GAIN_MAX`).
    IncreaseDisplacement,
    /// Lower the displacement gain one step (never below zero).
    DecreaseDisplacement,
    /// Raise the rotation gain one step (saturating at `GAIN_MAX`).
    IncreaseRotation,
    /// Lower the rotation gain one step (never below zero).
    DecreaseRotation,
    /// Draw a fresh random seed below `SEED_RANGE`.
    Reseed,
    /// Set the motion probability, clamped into `[0, MOTION_ONE]`.
    SetMotion(i64),
    /// Ask the shell to capture the current frame; the core state is untouched.
    CaptureFrame,
}

/// The knobs a tick reads: gains and motion in fixed-point ticks, and the
/// seed that the static field is recomputed from.
#[derive(Clone, Copy, PartialEq, Eq, Structural, Debug)]
pub struct Settings {
    /// Multiplier on the per-row displacement intensity.
    pub disp_gain: i64,
    /// Multiplier on the per-row rotation intensity.
    pub rot_gain: i64,
    /// Probability, in ticks of `MOTION_ONE`, that a stone at a phase
    /// boundary dwells rather than transitions.
    pub motion: i64,
    /// Seed of the static field.
    pub seed: u64,
}

impl Settings {
    /// Every knob within its range.
    pub open spec fn wf(self) -> bool {
        &&& 0 <= self.disp_gain <= GAIN_MAX
        &&& 0 <= self.rot_gain <= GAIN_MAX
        &&& 0 <= self.motion <= MOTION_ONE
    }

    /// Validate a configuration; reject each knob that is out of range.
    pub fn new(disp_gain: i64, rot_gain: i64, motion: i64, seed: u64) -> (r: Result<
        Settings,
        ConfigError,
    >)
        ensures
            r is Ok <==> (0 <= disp_gain <= GAIN_MAX && 0 <= rot_gain <= GAIN_MAX && 0 <= motion
                <= MOTION_ONE),
            r is Ok ==> r->Ok_0 == (Settings { disp_gain, rot_gain, motion, seed })
                && r->Ok_0.wf(),
            !(0 <= disp_gain <= GAIN_MAX) ==> r == Err::<Settings, ConfigError>(
                ConfigError::DisplacementGainOutOfRange,
            ),
            0 <= disp_gain <= GAIN_MAX && !(0 <= rot_gain <= GAIN_MAX) ==> r == Err::<
                Settings,
                ConfigError,
            >(ConfigError::RotationGainOutOfRange),
            0 <= disp_gain <= GAIN_MAX && 0 <= rot_gain <= GAIN_MAX && !(0 <= motion
                <= MOTION_ONE) ==> r == Err::<Settings, ConfigError>(ConfigError::MotionOutOfRange),
    {
        if disp_gain < 0 || disp_gain > GAIN_MAX {
            Err(ConfigError::DisplacementGainOutOfRange)
        } else if rot_gain < 0 || rot_gain > GAIN_MAX {
            Err(ConfigError::RotationGainOutOfRange)
        } else if motion < 0 || motion > MOTION_ONE {
            Err(ConfigError::MotionOutOfRange)
        } else {
            Ok(Settings { disp_gain, rot_gain, motion, seed })
        }
    }

    /// The initial knobs: both gains `1.0`, motion `0.5`.
    pub fn initial(seed: u64) -> (s: Settings)
        ensures
            s.wf(),
            s.disp_gain == SCALE,
            s.rot_gain == SCALE,
            s.motion == MOTION_ONE / 2,
            s.seed == seed,
    {
        Settings { disp_gain: SCALE, rot_gain: SCALE, motion: MOTION_ONE / 2, seed }
    }
}

/// What applying `cmd` to `pre` leaves behind.  A reseed draws fresh
/// entropy, so only the range of the new seed is determined.
pub open spec fn command_applied(pre: Settings, post: Settings, cmd: Command) -> bool {
    match cmd {
        Command::IncreaseDisplacement => post == (Settings {
            disp_gain: if pre.disp_gain + GAIN_STEP <= GAIN_MAX {
                (pre.disp_gain + GAIN_STEP) as i64
            } else {
                GAIN_MAX
            },
            ..pre
        }),
        Command::DecreaseDisplacement => post == (Settings {
            disp_gain: if pre.disp_gain - GAIN_STEP >= 0 {
                (pre.disp_gain - GAIN_STEP) as i64
            } else {
                0
            },
            ..pre
        }),
        Command::IncreaseRotation => post == (Settings {
            rot_gain: if pre.rot_gain + GAIN_STEP <= GAIN_MAX {
                (pre.rot_gain + GAIN_STEP) as i64
            } else {
                GAIN_MAX
            },
            ..pre
        }),
        Command::DecreaseRotation => post == (Settings {
            rot_gain: if pre.rot_gain - GAIN_STEP >= 0 {
                (pre.rot_gain - GAIN_STEP) as i64
            } else {
                0
            },
            ..pre
        }),
        Command::Reseed => post.seed < SEED_RANGE && post == (Settings { seed: post.seed, ..pre }),
        Command::SetMotion(m) => post == (Settings {
            motion: if m < 0 {
                0
            } else if m > MOTION_ONE {
                MOTION_ONE
            } else {
                m
            },
            ..pre
        }),
        Command::CaptureFrame => post == pre,
    }
}

/// Apply one input event.  Returns whether the shell should capture a
/// frame, the one command whose effect lives outside the core.
pub fn apply_command(s: &mut Settings, cmd: Command) -> (capture: bool)
    requires
        old(s).wf(),
    ensures
        final(s).wf(),
        command_applied(*old(s), *final(s), cmd),
        capture <==> cmd == Command::CaptureFrame,
{
    match cmd {
        Command::IncreaseDisplacement => {
            if s.disp_gain + GAIN_STEP <= GAIN_MAX {
                s.disp_gain = s.disp_gain + GAIN_STEP;
            } else {
                s.disp_gain = GAIN_MAX;
            }
            false
        },
        Command::DecreaseDisplacement => {
            if s.disp_gain >= GAIN_STEP {
                s.disp_gain = s.disp_gain - GAIN_STEP;
            } else {
                s.disp_gain = 0;
            }
            false
        },
        Command::IncreaseRotation => {
            if s.rot_gain + GAIN_STEP <= GAIN_MAX {
                s.rot_gain = s.rot_gain + GAIN_STEP;
            } else {
                s.rot_gain = GAIN_MAX;
            }
            false
        },
        Command::DecreaseRotation => {
            if s.rot_gain >= GAIN_STEP {
                s.rot_gain = s.rot_gain - GAIN_STEP;
            } else {
                s.rot_gain = 0;
            }
            false
        },
        Command::Reseed => {
            let raw: u64 = rand::random::<u64>();
            s.seed = raw % SEED_RANGE;
            false
        },
        Command::SetMotion(m) => {
            if m < 0 {
                s.motion = 0;
            } else if m > MOTION_ONE {
                s.motion = MOTION_ONE;
            } else {
                s.motion = m;
            }
            false
        },
        Command::CaptureFrame => true,
    }
}

} // verus!
