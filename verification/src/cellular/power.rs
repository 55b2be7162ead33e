//! Bringing the modem up after power-on: probe it with `AT` until it
//! answers, then turn the command echo off, each with a bounded number of
//! tries.

use vstd::prelude::*;
use crate::ModemError;

verus! {

/// Pause before the first probe, while the modem boots.
pub const BOOT_PAUSE_MS: u64 = 5000;

/// Pause after an unanswered `AT`.
pub const PROBE_PAUSE_MS: u64 = 5000;

/// Pause after a refused `ATE0`.
pub const ECHO_PAUSE_MS: u64 = 500;

/// Tries of `AT` before the modem counts as not responding.
pub const PROBE_TRIES: u8 = 3;

/// Tries of `ATE0` once the modem answers.
pub const ECHO_TRIES: u8 = 3;

/// Where a power-on bring-up stands; the count is the tries already failed.
#[derive(Clone, Copy, Debug, PartialEq, Eq, Structural)]
pub enum PowerOnStage {
    /// Sending `AT` until the modem answers.
    Probe(u8),
    /// Sending `ATE0` until echo is off.
    EchoOff(u8),
}

/// What the driver does next in a bring-up.
#[derive(Clone, Copy, Debug, PartialEq, Eq)]
pub enum PowerOnAction {
    /// Wait `pause_ms`, then send the command of `stage`.
    Send { pause_ms: u64, stage: PowerOnStage },
    /// Wait `pause_ms`, then end the bring-up with `result`.
    Finish { pause_ms: u64, result: Result<(), ModemError> },
}

/// A stage that a bring-up can be in: fewer failed tries than allowed.
pub open spec fn power_on_stage_valid(stage: PowerOnStage) -> bool {
    match stage {
        PowerOnStage::Probe(n) => n < PROBE_TRIES,
        PowerOnStage::EchoOff(n) => n < ECHO_TRIES,
    }
}

/// The commands a bring-up can still send from `stage`, at most.
pub open spec fn power_on_budget(stage: PowerOnStage) -> int {
    match stage {
        PowerOnStage::Probe(n) => (PROBE_TRIES - n) + ECHO_TRIES,
        PowerOnStage::EchoOff(n) => ECHO_TRIES - n,
    }
}

/// The first action: wait for the boot, then probe.
pub open spec fn power_on_first() -> PowerOnAction {
    PowerOnAction::Send { pause_ms: BOOT_PAUSE_MS, stage: PowerOnStage::Probe(0) }
}

/// The bring-up step: what follows the modem's reply (`answered` is whether
/// it replied `OK`) to the command of `stage`. An answered `AT` goes on to
/// `ATE0` at once; an answered `ATE0` ends the bring-up. An unanswered
/// command is tried again after its pause until its tries are spent, and then
/// the bring-up ends, after the same pause, with `NotResponding`.
pub open spec fn power_on_next(stage: PowerOnStage, answered: bool) -> PowerOnAction {
    match stage {
        PowerOnStage::Probe(n) => if answered {
            PowerOnAction::Send { pause_ms: 0, stage: PowerOnStage::EchoOff(0) }
        } else if n + 1 < PROBE_TRIES {
            PowerOnAction::Send { pause_ms: PROBE_PAUSE_MS, stage: PowerOnStage::Probe((n + 1) as u8) }
        } else {
            PowerOnAction::Finish { pause_ms: PROBE_PAUSE_MS, result: Err(ModemError::NotResponding) }
        },
        PowerOnStage::EchoOff(n) => if answered {
            PowerOnAction::Finish { pause_ms: 0, result: Ok(()) }
        } else if n + 1 < ECHO_TRIES {
            PowerOnAction::Send { pause_ms: ECHO_PAUSE_MS, stage: PowerOnStage::EchoOff((n + 1) as u8) }
        } else {
            PowerOnAction::Finish { pause_ms: ECHO_PAUSE_MS, result: Err(ModemError::NotResponding) }
        },
    }
}

/// How a bring-up starts.
pub fn power_on_start() -> (a: PowerOnAction)
    ensures
        a == power_on_first(),
{
    PowerOnAction::Send { pause_ms: BOOT_PAUSE_MS, stage: PowerOnStage::Probe(0) }
}

/// One step of a bring-up.
pub fn power_on_step(stage: PowerOnStage, answered: bool) -> (a: PowerOnAction)
    requires
        power_on_stage_valid(stage),
    ensures
        a == power_on_next(stage, answered),
{
    match stage {
        PowerOnStage::Probe(n) => if answered {
            PowerOnAction::Send { pause_ms: 0, stage: PowerOnStage::EchoOff(0) }
        } else if n + 1 < PROBE_TRIES {
            PowerOnAction::Send { pause_ms: PROBE_PAUSE_MS, stage: PowerOnStage::Probe(n + 1) }
        } else {
            PowerOnAction::Finish { pause_ms: PROBE_PAUSE_MS, result: Err(ModemError::NotResponding) }
        },
        PowerOnStage::EchoOff(n) => if answered {
            PowerOnAction::Finish { pause_ms: 0, result: Ok(()) }
        } else if n + 1 < ECHO_TRIES {
            PowerOnAction::Send { pause_ms: ECHO_PAUSE_MS, stage: PowerOnStage::EchoOff(n + 1) }
        } else {
            PowerOnAction::Finish { pause_ms: ECHO_PAUSE_MS, result: Err(ModemError::NotResponding) }
        },
    }
}

/// A bring-up ends: the first action sends from a valid stage, and every
/// step from a valid stage either ends the bring-up or sends again from a
/// valid stage with fewer commands left to send, so no more than
/// `PROBE_TRIES + ECHO_TRIES` commands are ever sent.
pub proof fn law_power_on_terminates(stage: PowerOnStage, answered: bool)
    requires
        power_on_stage_valid(stage),
    ensures
        power_on_first() matches PowerOnAction::Send { stage: s0, .. } && power_on_stage_valid(s0)
            && power_on_budget(s0) == PROBE_TRIES + ECHO_TRIES,
        0 < power_on_budget(stage) <= PROBE_TRIES + ECHO_TRIES,
        power_on_next(stage, answered) matches PowerOnAction::Send { stage: next, .. } ==> (
            power_on_stage_valid(next) && power_on_budget(next) < power_on_budget(stage)),
{
}

/// A bring-up succeeds exactly when echo is turned off: `Ok` comes only from
/// an answered `ATE0`, and an answered `ATE0` always gives `Ok`.
pub proof fn law_power_on_ok_iff_echo_off(stage: PowerOnStage, answered: bool)
    requires
        power_on_stage_valid(stage),
    ensures
        (power_on_next(stage, answered) matches PowerOnAction::Finish { result: Ok(_), .. })
            <==> (stage is EchoOff && answered),
{
}

} // verus!
