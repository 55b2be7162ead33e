//! SIM readiness: what `AT+CPIN?` and the `+CME ERROR` codes mean, and when
//! the check gives up.

use vstd::prelude::*;
use crate::quectel_atat::urc::Urc;
use crate::text::{chars_contain, str_contains};
use crate::ModemError;

verus! {

/// How many times the SIM status is polled.
pub const SIM_CHECK_ATTEMPTS: usize = 5;

/// What a SIM status reply means: `READY` is ready, `SIM PIN` needs a PIN
/// (a SIM error); anything else is not decided yet.
pub open spec fn sim_status_outcome(code: Seq<char>) -> Option<Result<(), ModemError>> {
    if chars_contain(code, "READY"@) {
        Some(Ok(()))
    } else if chars_contain(code, "SIM PIN"@) {
        Some(Err(ModemError::SimError))
    } else {
        None
    }
}

/// What a `+CME ERROR` during the SIM check means: 10 (not inserted) and
/// 11 (PIN required) are SIM errors; others (13 failure, 14 busy, ...) are
/// transient.
pub open spec fn sim_cme_outcome(err: u8) -> Option<ModemError> {
    if err == 10 || err == 11 {
        Some(ModemError::SimError)
    } else {
        None
    }
}

/// `urc` is a `+CME ERROR` that fails the SIM check.
pub open spec fn is_sim_failure(urc: Urc) -> bool {
    urc matches Urc::CmeError(e) && sim_cme_outcome(e.err) is Some
}

/// How attempt `attempt` (counted from 0) of the SIM check ends, given the
/// status reply (`None` when the command got no direct reply) and the codes
/// queued after it: a decided status ends it, then a failing CME error,
/// then running out of attempts; else the check goes on.
pub open spec fn sim_attempt_outcome(
    attempt: nat,
    status: Option<Seq<char>>,
    urcs: Seq<Urc>,
) -> Option<Result<(), ModemError>> {
    let decided = match status {
        Some(code) => sim_status_outcome(code),
        None => None,
    };
    if decided is Some {
        decided
    } else if exists|i: int| 0 <= i < urcs.len() && is_sim_failure(#[trigger] urcs[i]) {
        Some(Err(ModemError::SimError))
    } else if attempt + 1 >= SIM_CHECK_ATTEMPTS {
        Some(Err(ModemError::SimErrorUnknown))
    } else {
        None
    }
}

/// The meaning of a SIM status reply.
pub fn sim_status_verdict(code: &str) -> (r: Option<Result<(), ModemError>>)
    ensures
        r == sim_status_outcome(code@),
{
    if str_contains(code, "READY") {
        Some(Ok(()))
    } else if str_contains(code, "SIM PIN") {
        Some(Err(ModemError::SimError))
    } else {
        None
    }
}

/// Whether `urc` fails the SIM check.
pub fn sim_failure_urc(urc: &Urc) -> (r: bool)
    ensures
        r == is_sim_failure(*urc),
{
    match urc {
        Urc::CmeError(e) => e.err == 10 || e.err == 11,
        _ => false,
    }
}

/// The end of SIM check attempt `attempt`; `None` to poll again.
pub fn sim_attempt_verdict(attempt: usize, status: Option<&str>, urcs: &[Urc]) -> (r: Option<
    Result<(), ModemError>,
>)
    ensures
        r == sim_attempt_outcome(
            attempt as nat,
            match status {
                Some(s) => Some(s@),
                None => None,
            },
            urcs@,
        ),
{
    let decided = match status {
        Some(code) => sim_status_verdict(code),
        None => None,
    };
    if decided.is_some() {
        return decided;
    }
    let mut i: usize = 0;
    while i < urcs.len()
        invariant
            i <= urcs@.len(),
            match status {
                Some(s) => sim_status_outcome(s@) is None,
                None => true,
            },
            forall|j: int| 0 <= j < i ==> !is_sim_failure(#[trigger] urcs@[j]),
        decreases urcs@.len() - i,
    {
        if sim_failure_urc(&urcs[i]) {
            assert(is_sim_failure(urcs@[i as int]));
            return Some(Err(ModemError::SimError));
        }
        i = i + 1;
    }
    if attempt >= SIM_CHECK_ATTEMPTS - 1 {
        Some(Err(ModemError::SimErrorUnknown))
    } else {
        None
    }
}

/// The SIM check: a status containing `READY` makes it ready; one with
/// `SIM PIN` (and not `READY`) fails it with `SimError`; any other leaves it
/// undecided. The `+CME ERROR` codes 10 (no SIM) and 11 (PIN needed) fail it
/// with `SimError`, and no other code does. An attempt ends with the status
/// when the status decides, else with `SimError` when a failing CME error is
/// queued, else with `SimErrorUnknown` on the last of the attempts; earlier
/// undecided attempts go on.
pub proof fn law_sim_check(code: Seq<char>, err: u8, attempt: nat, status: Option<Seq<char>>, urcs: Seq<Urc>)
    ensures
        chars_contain(code, "READY"@) ==> sim_status_outcome(code) == Some(Ok::<(), ModemError>(())),
        !chars_contain(code, "READY"@) && chars_contain(code, "SIM PIN"@) ==> sim_status_outcome(code)
            == Some(Err::<(), ModemError>(ModemError::SimError)),
        !chars_contain(code, "READY"@) && !chars_contain(code, "SIM PIN"@) ==> sim_status_outcome(
            code,
        ) is None,
        (err == 10 || err == 11) <==> sim_cme_outcome(err) == Some(ModemError::SimError),
        !(err == 10 || err == 11) <==> sim_cme_outcome(err) is None,
        status is Some && sim_status_outcome(status.unwrap()) is Some ==> sim_attempt_outcome(
            attempt,
            status,
            urcs,
        ) == sim_status_outcome(status.unwrap()),
        (status is None || sim_status_outcome(status.unwrap()) is None) && (exists|i: int|
            0 <= i < urcs.len() && #[trigger] urcs[i] == Urc::CmeError(
                crate::quectel_atat::responses::CmeError { err: 10 },
            )) ==> sim_attempt_outcome(attempt, status, urcs) == Some(
            Err::<(), ModemError>(ModemError::SimError),
        ),
        (status is None || sim_status_outcome(status.unwrap()) is None) && (forall|i: int|
            0 <= i < urcs.len() ==> !(#[trigger] urcs[i] is CmeError)) ==> (sim_attempt_outcome(
            attempt,
            status,
            urcs,
        ) is None <==> attempt + 1 < SIM_CHECK_ATTEMPTS),
        (status is None || sim_status_outcome(status.unwrap()) is None) && (forall|i: int|
            0 <= i < urcs.len() ==> !(#[trigger] urcs[i] is CmeError)) && attempt + 1
            >= SIM_CHECK_ATTEMPTS ==> sim_attempt_outcome(attempt, status, urcs) == Some(
            Err::<(), ModemError>(ModemError::SimErrorUnknown),
        ),
{
    if exists|i: int| 0 <= i < urcs.len() && #[trigger] urcs[i] == Urc::CmeError(
        crate::quectel_atat::responses::CmeError { err: 10 },
    ) {
        let i = choose|i: int| 0 <= i < urcs.len() && #[trigger] urcs[i] == Urc::CmeError(
            crate::quectel_atat::responses::CmeError { err: 10 },
        );
        assert(is_sim_failure(urcs[i]));
    }
    if forall|i: int| 0 <= i < urcs.len() ==> !(#[trigger] urcs[i] is CmeError) {
        assert forall|i: int| 0 <= i < urcs.len() implies !is_sim_failure(#[trigger] urcs[i]) by {
            assert(!(urcs[i] is CmeError));
        }
    }
}

} // verus!
