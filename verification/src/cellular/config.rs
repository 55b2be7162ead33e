//! Network time and signal strength.
//!
//! The modem reports time as `yyyy/MM/dd,hh:mm:ss±zz` (NTP) or
//! `yyyy/MM/dd,hh:mm:ss±zz,d` (NITZ); the time-zone and daylight-saving
//! fields are ignored and the time is read as UTC. Turning the text into a
//! Unix timestamp is the `time` crate's work.

use vstd::prelude::*;
use crate::quectel_atat::urc::Urc;
use crate::ModemError;

verus! {

/// Format of an NTP time reply: the time-zone quarters are skipped.
pub const NTP_TIME_FORMAT: &'static str =
    "[year]/[month]/[day],[hour]:[minute]:[second][ignore count:1][ignore count:2]";

/// Format of a NITZ time reply: the time-zone quarters and the
/// daylight-saving flag are skipped.
pub const NITZ_TIME_FORMAT: &'static str =
    "[year]/[month]/[day],[hour]:[minute]:[second][ignore count:1][ignore count:2],[ignore count:1]";

/// The Unix timestamp the `time` crate reads from `text` in the format
/// described by `format`, taken as UTC; `None` when the text does not match
/// the format.
pub uninterp spec fn utc_timestamp(text: Seq<char>, format: Seq<char>) -> Option<i64>;

/// Parses `text` with `time::PrimitiveDateTime::parse`, in the format that
/// `time::format_description::parse_borrowed::<1>` reads from `format`, and
/// returns `unix_timestamp()` of the result taken at UTC
/// (`assume_offset(UtcOffset::UTC)`). The contract claims only that the
/// result is a function of the two texts, named `utc_timestamp`: what the
/// crate accepts and computes is not restated here.
#[verifier::external_body]
fn parse_utc_timestamp(text: &str, format: &str) -> (r: Option<i64>)
    ensures
        r == utc_timestamp(text@, format@),
{
    let items = time::format_description::parse_borrowed::<1>(format).ok()?;
    let dt = time::PrimitiveDateTime::parse(text, &items).ok()?;
    Some(dt.assume_offset(time::UtcOffset::UTC).unix_timestamp())
}

/// What an NTP time lookup gives once the text has been read.
pub open spec fn ntp_result(parsed: Option<i64>) -> Result<i64, ModemError> {
    match parsed {
        Some(t) => Ok(t),
        None => Err(ModemError::NtpRequestFailed),
    }
}

/// The result of an NTP lookup, given what reading its text gave: an
/// unreadable time is a failed NTP request.
pub fn ntp_timestamp_result(parsed: Option<i64>) -> (r: Result<i64, ModemError>)
    ensures
        r == ntp_result(parsed),
{
    match parsed {
        Some(t) => Ok(t),
        None => Err(ModemError::NtpRequestFailed),
    }
}

/// Convert an NTP date-time reply to a Unix timestamp.
pub fn get_timestamp_from_ntp_response(dt_str: &str) -> (r: Result<i64, ModemError>)
    ensures
        r == ntp_result(utc_timestamp(dt_str@, NTP_TIME_FORMAT@)),
{
    let parsed = parse_utc_timestamp(dt_str, NTP_TIME_FORMAT);
    ntp_timestamp_result(parsed)
}

/// The result of a NITZ time lookup, given what reading its text gave; the
/// text must have been readable.
pub fn nitz_timestamp_result(parsed: Option<i64>) -> (r: Result<i64, ModemError>)
    requires
        parsed is Some,
    ensures
        r == Ok::<i64, ModemError>(parsed.unwrap()),
{
    match parsed {
        Some(t) => Ok(t),
        None => Err(ModemError::NtpRequestFailed),
    }
}

/// Convert a NITZ date-time reply to a Unix timestamp. The reply must be
/// readable (see `nitz_timestamp` for a version that checks).
pub fn get_timestamp_from_nitz_response(nitz_str: &str) -> (r: Result<i64, ModemError>)
    requires
        utc_timestamp(nitz_str@, NITZ_TIME_FORMAT@) is Some,
    ensures
        r == Ok::<i64, ModemError>(utc_timestamp(nitz_str@, NITZ_TIME_FORMAT@).unwrap()),
{
    let parsed = parse_utc_timestamp(nitz_str, NITZ_TIME_FORMAT);
    nitz_timestamp_result(parsed)
}

/// The Unix timestamp of a NITZ date-time reply; `None` when it cannot be
/// read.
pub fn nitz_timestamp(nitz_str: &str) -> (r: Option<i64>)
    ensures
        r == utc_timestamp(nitz_str@, NITZ_TIME_FORMAT@),
{
    match parse_utc_timestamp(nitz_str, NITZ_TIME_FORMAT) {
        Some(_) => match get_timestamp_from_nitz_response(nitz_str) {
            Ok(t) => Some(t),
            Err(_) => None,
        },
        None => None,
    }
}

/// How an NTP lookup ends on an unsolicited result code, if it does: a
/// `+QNTP` with an error code fails the request, one without gives the
/// timestamp of its time; any other code is ignored.
pub open spec fn ntp_urc_outcome(urc: Urc) -> Option<Result<i64, ModemError>> {
    match urc {
        Urc::NtpTime(res) => if res.err != 0 {
            Some(Err(ModemError::NtpRequestFailed))
        } else {
            Some(ntp_result(utc_timestamp(res.time@, NTP_TIME_FORMAT@)))
        },
        _ => None,
    }
}

/// The outcome of an NTP lookup on `urc`; `None` to keep waiting.
pub fn ntp_urc_verdict(urc: &Urc) -> (r: Option<Result<i64, ModemError>>)
    ensures
        r == ntp_urc_outcome(*urc),
{
    match urc {
        Urc::NtpTime(res) => if res.err != 0 {
            Some(Err(ModemError::NtpRequestFailed))
        } else {
            Some(get_timestamp_from_ntp_response(res.time.as_str()))
        },
        _ => None,
    }
}

/// Weakest and strongest RSSI that the signal percentage distinguishes.
pub const RSSI_MIN_DBM: i16 = -140;

/// Strongest RSSI that the signal percentage distinguishes.
pub const RSSI_MAX_DBM: i16 = -30;

/// An RSSI limited to the range the percentage covers.
pub open spec fn clamped_rssi(rssi: i16) -> int {
    if rssi < RSSI_MIN_DBM {
        RSSI_MIN_DBM as int
    } else if rssi > RSSI_MAX_DBM {
        RSSI_MAX_DBM as int
    } else {
        rssi as int
    }
}

/// Signal quality in percent: -140 dBm is 0 %, -30 dBm is 100 %, linear in
/// between and rounded down.
pub open spec fn signal_percent(rssi: i16) -> int {
    (100 * (clamped_rssi(rssi) + 140)) / 110
}

/// The signal quality of an RSSI reading, in percent.
pub fn rssi_to_percent(rssi: i16) -> (p: u8)
    ensures
        p == signal_percent(rssi),
        p <= 100,
{
    let clamped: i16 = if rssi < RSSI_MIN_DBM {
        RSSI_MIN_DBM
    } else if rssi > RSSI_MAX_DBM {
        RSSI_MAX_DBM
    } else {
        rssi
    };
    let above: u32 = (clamped + 140) as u32;
    let p: u32 = (100 * above) / 110;
    assert(p <= 100) by (nonlinear_arith)
        requires
            above <= 110,
            p == (100 * above) / 110,
    ;
    p as u8
}

/// The reading of `AT+QCSQ`: the RSSI and its percentage, or `NoNetwork`
/// when the modem reports no RSSI.
pub fn signal_from_rssi(rssi: Option<i16>) -> (r: Result<(i16, u8), ModemError>)
    ensures
        match rssi {
            Some(v) => r == Ok::<(i16, u8), ModemError>((v, signal_percent(v) as u8)),
            None => r == Err::<(i16, u8), ModemError>(ModemError::NoNetwork),
        },
{
    match rssi {
        Some(v) => Ok((v, rssi_to_percent(v))),
        None => Err(ModemError::NoNetwork),
    }
}

/// The signal percentage never exceeds 100 and never falls as the RSSI
/// rises.
pub proof fn lemma_signal_percent_monotone(a: i16, b: i16)
    requires
        a <= b,
    ensures
        0 <= signal_percent(a) <= signal_percent(b) <= 100,
{
    let x = clamped_rssi(a) + 140;
    let y = clamped_rssi(b) + 140;
    assert(0 <= x <= y <= 110);
    assert(0 <= (100 * x) / 110 <= (100 * y) / 110 <= 100) by (nonlinear_arith)
        requires
            0 <= x <= y <= 110,
    ;
}

/// An NTP lookup ends on `+QNTP` only: a non-zero error code fails it with
/// `NtpRequestFailed`, and otherwise it gives the timestamp of the reported
/// time, or `NtpRequestFailed` when that time cannot be read. The signal
/// percentage is 0 at or below -140 dBm, 100 at or above -30 dBm, and never
/// outside 0..=100.
pub proof fn law_ntp_and_signal(r: crate::quectel_atat::responses::NtpTimeResponse, urc: Urc, rssi: i16)
    ensures
        ntp_urc_outcome(urc) is Some <==> urc is NtpTime,
        r.err != 0 ==> ntp_urc_outcome(Urc::NtpTime(r)) == Some(
            Err::<i64, ModemError>(ModemError::NtpRequestFailed),
        ),
        r.err == 0 ==> match utc_timestamp(r.time@, NTP_TIME_FORMAT@) {
            Some(t) => ntp_urc_outcome(Urc::NtpTime(r)) == Some(Ok::<i64, ModemError>(t)),
            None => ntp_urc_outcome(Urc::NtpTime(r)) == Some(
                Err::<i64, ModemError>(ModemError::NtpRequestFailed),
            ),
        },
        rssi <= -140 ==> signal_percent(rssi) == 0,
        rssi >= -30 ==> signal_percent(rssi) == 100,
        0 <= signal_percent(rssi) <= 100,
{
    lemma_signal_percent_monotone(rssi, rssi);
}

} // verus!
