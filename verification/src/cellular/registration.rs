//! Network registration: which registration status to poll after an
//! attach, and what a status means.

use vstd::prelude::*;
use crate::cellular::ModemMode;
use crate::ModemError;

verus! {

/// Which registration an attach is followed by.
#[derive(Clone, Copy, Debug, PartialEq, Eq, Structural)]
pub enum RegistrationKind {
    /// GPRS (`AT+CGREG?`), after a 2G attach.
    Gprs,
    /// EPS (`AT+CEREG?`), after an LTE-M or NB-IoT attach.
    Eps,
}

/// How long an attach and the registration after it may take together.
pub const ATTACH_TIMEOUT_MS: u64 = 60_000;

/// The registration an attach with `mode` is followed by; an attach with no
/// known technology means there is no network.
pub open spec fn registration_kind_of(mode: ModemMode) -> Result<RegistrationKind, ModemError> {
    match mode {
        ModemMode::EDGE | ModemMode::GPRS => Ok(RegistrationKind::Gprs),
        ModemMode::LTEM | ModemMode::NBIoT => Ok(RegistrationKind::Eps),
        ModemMode::Unknown => Err(ModemError::NoNetwork),
    }
}

/// How a registration status (`<stat>`) ends the wait: 1 (home) and 5
/// (roaming) are registered, 2 (searching) keeps waiting, anything else
/// (denied, failed, unknown) means no network.
pub open spec fn registration_outcome(stat: u8) -> Option<Result<(), ModemError>> {
    if stat == 1 || stat == 5 {
        Some(Ok(()))
    } else if stat == 2 {
        None
    } else {
        Some(Err(ModemError::NoNetwork))
    }
}

/// The registration to wait for after attaching with `mode`.
pub fn registration_kind(mode: ModemMode) -> (r: Result<RegistrationKind, ModemError>)
    ensures
        r == registration_kind_of(mode),
{
    match mode {
        ModemMode::EDGE | ModemMode::GPRS => Ok(RegistrationKind::Gprs),
        ModemMode::LTEM | ModemMode::NBIoT => Ok(RegistrationKind::Eps),
        ModemMode::Unknown => Err(ModemError::NoNetwork),
    }
}

/// The end of the registration wait on status `stat`; `None` to keep
/// polling.
pub fn registration_verdict(stat: u8) -> (r: Option<Result<(), ModemError>>)
    ensures
        r == registration_outcome(stat),
{
    if stat == 1 || stat == 5 {
        Some(Ok(()))
    } else if stat == 2 {
        None
    } else {
        Some(Err(ModemError::NoNetwork))
    }
}

/// The time left for registration once the attach took `attach_ms` of
/// `timeout_ms`.
pub fn registration_budget_ms(timeout_ms: u64, attach_ms: u64) -> (r: u64)
    requires
        attach_ms <= timeout_ms,
    ensures
        r == timeout_ms - attach_ms,
{
    timeout_ms - attach_ms
}

/// Pause between two attach polls (`AT+QNWINFO` / `AT+COPS?`).
pub const ATTACH_POLL_MS: u64 = 1000;

/// Pause between two registration polls (`AT+CGREG?` / `AT+CEREG?`).
pub const REGISTRATION_POLL_MS: u64 = 500;

/// What a timed poll does after one poll.
#[derive(Clone, Copy, Debug, PartialEq, Eq)]
pub enum PollStep<T> {
    /// The poll found its answer: stop with it.
    Found(T),
    /// Nothing yet and time is left: pause and poll again.
    Again,
    /// Nothing yet and the time is spent: stop with `OperationTimeout`.
    TimedOut,
}

/// The step after a poll that gave `found`, `elapsed_ms` into a wait of
/// `timeout_ms`: an answer always ends the wait; without one the wait goes
/// on exactly while time is left.
pub open spec fn poll_next<T>(found: Option<T>, elapsed_ms: u64, timeout_ms: u64) -> PollStep<T> {
    match found {
        Some(x) => PollStep::Found(x),
        None => if elapsed_ms < timeout_ms {
            PollStep::Again
        } else {
            PollStep::TimedOut
        },
    }
}

/// One step of the attach or registration wait.
pub fn poll_step<T>(found: Option<T>, elapsed_ms: u64, timeout_ms: u64) -> (s: PollStep<T>)
    ensures
        s == poll_next(found, elapsed_ms, timeout_ms),
{
    match found {
        Some(x) => PollStep::Found(x),
        None => if elapsed_ms < timeout_ms {
            PollStep::Again
        } else {
            PollStep::TimedOut
        },
    }
}

/// Registration: the status 1 (home) or 5 (roaming) registers, 2
/// (searching) keeps the wait going, and every other status (not
/// searching, denied, unknown) ends it with `NoNetwork`. A 2G attach is
/// followed by the GPRS registration, an LTE-M or NB-IoT attach by the EPS
/// registration, and an attach with no known technology is no network.
pub proof fn law_registration_status(stat: u8, mode: ModemMode)
    ensures
        registration_outcome(stat) == Some(Ok::<(), ModemError>(())) <==> (stat == 1 || stat == 5),
        registration_outcome(stat) is None <==> stat == 2,
        !(stat == 1 || stat == 2 || stat == 5) ==> registration_outcome(stat) == Some(
            Err::<(), ModemError>(ModemError::NoNetwork),
        ),
        (mode == ModemMode::EDGE || mode == ModemMode::GPRS) <==> registration_kind_of(mode) == Ok::<
            RegistrationKind,
            ModemError,
        >(RegistrationKind::Gprs),
        (mode == ModemMode::LTEM || mode == ModemMode::NBIoT) <==> registration_kind_of(mode) == Ok::<
            RegistrationKind,
            ModemError,
        >(RegistrationKind::Eps),
        mode == ModemMode::Unknown <==> registration_kind_of(mode) == Err::<RegistrationKind, ModemError>(
            ModemError::NoNetwork,
        ),
{
}

/// A timed poll stops with an answer as soon as it has one, times out only
/// without an answer once the time is spent, and otherwise polls again.
pub proof fn law_poll_step<T>(found: Option<T>, elapsed_ms: u64, timeout_ms: u64)
    ensures
        found matches Some(x) ==> poll_next(found, elapsed_ms, timeout_ms) == PollStep::Found(x),
        poll_next(found, elapsed_ms, timeout_ms) is TimedOut <==> (found is None && elapsed_ms
            >= timeout_ms),
        poll_next(found, elapsed_ms, timeout_ms) is Again <==> (found is None && elapsed_ms
            < timeout_ms),
{
}

} // verus!
