//! The work/break cycle as a step function from phase and elapsed time to the
//! next phase and the action to perform.
//!
//! The caller performs each action (announce, set lights, print, sleep) and
//! calls `step` again with the seconds elapsed since the work phase began.
use vstd::prelude::*;
use crate::color::{LightCommand, NOTIFY_TRANSITION, command_of_rgb, get_end_command, get_start_command};

verus! {

/// Seconds between two countdown lines.
pub const TICK_SECS: u64 = 60;

/// The timing of a cycle and whether lights are to be signalled.
#[derive(Clone, Copy, Debug, PartialEq, Eq, Structural)]
pub struct CycleConfig {
    /// Length of the work phase, in seconds.
    pub work_secs: u64,
    /// Length of the break, in seconds.
    pub break_secs: u64,
    /// Seconds slept between two countdown checks.
    pub tick_secs: u64,
    /// Whether lights are signalled when work begins and ends.
    pub lighting: bool,
}

/// Where the cycle stands.
#[derive(Clone, Copy, Debug, PartialEq, Eq, Structural)]
pub enum Phase {
    /// A work phase is about to begin.
    Starting,
    /// Work is in progress.
    Working,
    /// Work has ended; the break is next.
    Resting,
}

/// What the caller does next.
#[derive(Clone, Copy, Debug, PartialEq, Eq, Structural)]
pub enum Action {
    /// Note the start instant, announce a work phase of `work_secs` seconds
    /// and send `lights` to every light, if present.
    BeginWork { work_secs: u64, lights: Option<LightCommand> },
    /// Print `remaining_minutes`, then sleep `sleep_secs` seconds.
    Countdown { remaining_minutes: u64, sleep_secs: u64 },
    /// Send `lights` to every light, if present, and announce the end of work.
    EndWork { lights: Option<LightCommand> },
    /// Sleep `sleep_secs` seconds without interruption.
    Rest { sleep_secs: u64 },
}

/// Whole minutes left of a phase of `duration` seconds after `elapsed`
/// seconds, truncated: zero during the last minute.
pub open spec fn remaining_minutes_spec(duration: int, elapsed: int) -> int {
    (duration - elapsed) / 60
}

/// Whole minutes left of a phase of `duration_secs` seconds after
/// `elapsed_secs` seconds, truncated toward zero.
pub fn remaining_minutes(duration_secs: u64, elapsed_secs: u64) -> (r: u64)
    requires
        elapsed_secs <= duration_secs,
    ensures
        r as int == remaining_minutes_spec(duration_secs as int, elapsed_secs as int),
{
    (duration_secs - elapsed_secs) / 60
}

/// The command sent to the lights when work begins, if lights are signalled.
pub open spec fn start_lights(cfg: CycleConfig) -> Option<LightCommand> {
    if cfg.lighting {
        Some(command_of_rgb(255, 255, 251, NOTIFY_TRANSITION))
    } else {
        None
    }
}

/// The command sent to the lights when work ends, if lights are signalled.
pub open spec fn end_lights(cfg: CycleConfig) -> Option<LightCommand> {
    if cfg.lighting {
        Some(command_of_rgb(255, 147, 41, NOTIFY_TRANSITION))
    } else {
        None
    }
}

/// One step of the cycle: a start begins work; during work, a countdown is
/// printed while fewer than `work_secs` seconds have elapsed, and work ends
/// once they have; after work comes one uninterrupted break, then a new start.
pub open spec fn step_spec(cfg: CycleConfig, phase: Phase, elapsed: u64) -> (Phase, Action) {
    match phase {
        Phase::Starting => (
            Phase::Working,
            Action::BeginWork { work_secs: cfg.work_secs, lights: start_lights(cfg) },
        ),
        Phase::Working => if elapsed < cfg.work_secs {
            (
                Phase::Working,
                Action::Countdown {
                    remaining_minutes: remaining_minutes_spec(
                        cfg.work_secs as int,
                        elapsed as int,
                    ) as u64,
                    sleep_secs: cfg.tick_secs,
                },
            )
        } else {
            (Phase::Resting, Action::EndWork { lights: end_lights(cfg) })
        },
        Phase::Resting => (Phase::Starting, Action::Rest { sleep_secs: cfg.break_secs }),
    }
}

/// Decides the next phase and action from the current phase and the seconds
/// elapsed since the work phase began.
pub fn step(cfg: &CycleConfig, phase: Phase, elapsed_secs: u64) -> (r: (Phase, Action))
    ensures
        r == step_spec(*cfg, phase, elapsed_secs),
{
    match phase {
        Phase::Starting => {
            let lights = if cfg.lighting {
                Some(get_start_command())
            } else {
                None
            };
            (Phase::Working, Action::BeginWork { work_secs: cfg.work_secs, lights })
        },
        Phase::Working => {
            if elapsed_secs < cfg.work_secs {
                let remaining = remaining_minutes(cfg.work_secs, elapsed_secs);
                (
                    Phase::Working,
                    Action::Countdown { remaining_minutes: remaining, sleep_secs: cfg.tick_secs },
                )
            } else {
                let lights = if cfg.lighting {
                    Some(get_end_command())
                } else {
                    None
                };
                (Phase::Resting, Action::EndWork { lights })
            }
        },
        Phase::Resting => (Phase::Starting, Action::Rest { sleep_secs: cfg.break_secs }),
    }
}

/// Work ends exactly when the elapsed time has reached the work duration:
/// never earlier, and until then each step prints the whole minutes left.
pub proof fn lemma_work_ends_only_after_duration(cfg: CycleConfig, elapsed: u64)
    ensures
        (step_spec(cfg, Phase::Working, elapsed).0 == Phase::Resting) <==> elapsed
            >= cfg.work_secs,
        elapsed < cfg.work_secs ==> step_spec(cfg, Phase::Working, elapsed).1 == (
        Action::Countdown {
            remaining_minutes: ((cfg.work_secs - elapsed) / 60) as u64,
            sleep_secs: cfg.tick_secs,
        }),
{
}

/// A work phase prints a countdown line, and stays in work, at any check made
/// before its length has elapsed, the first check included: a phase of one
/// minute checked as it begins prints one before the break.
pub proof fn lemma_countdown_before_break(cfg: CycleConfig, elapsed: u64)
    requires
        elapsed < cfg.work_secs,
    ensures
        step_spec(cfg, Phase::Working, elapsed).0 == Phase::Working,
        step_spec(cfg, Phase::Working, elapsed).1 is Countdown,
        step_spec(cfg, Phase::Working, elapsed).1->Countdown_remaining_minutes == (cfg.work_secs
            - elapsed) / 60,
{
}

/// A work phase of zero length moves straight to the break: its first check
/// ends work without printing a countdown.
pub proof fn lemma_zero_work_skips_countdown(cfg: CycleConfig, elapsed: u64)
    requires
        cfg.work_secs == 0,
    ensures
        step_spec(cfg, Phase::Working, elapsed) == (
        Phase::Resting,
        Action::EndWork { lights: end_lights(cfg) },
    ),
{
}

/// The phases follow each other in the order start, work, rest, start; each
/// entry to and exit from work carries at most one light command, and one
/// exactly when lights are signalled.
pub proof fn lemma_phase_order(cfg: CycleConfig, phase: Phase, elapsed: u64)
    ensures
        step_spec(cfg, phase, elapsed).0 == match phase {
            Phase::Starting => Phase::Working,
            Phase::Working => if elapsed < cfg.work_secs {
                Phase::Working
            } else {
                Phase::Resting
            },
            Phase::Resting => Phase::Starting,
        },
        phase == Phase::Starting ==> step_spec(cfg, phase, elapsed).1 == (Action::BeginWork {
            work_secs: cfg.work_secs,
            lights: start_lights(cfg),
        }),
        start_lights(cfg) is Some <==> cfg.lighting,
        end_lights(cfg) is Some <==> cfg.lighting,
{
}

} // verus!
