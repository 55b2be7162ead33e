//! Decision logic of the cellular driver: what to send to the modem, and
//! what each reply or unsolicited result code means.

pub mod config;
pub mod digest;
pub mod file;
pub mod mqtt;
pub mod power;
pub mod registration;
pub mod sim;
pub mod socket;

use vstd::prelude::*;
use crate::chip::{revision_of, ChipModel, ModemRevision};
use crate::quectel_atat::types::{utf8_len, AuthenticationMethod};
use crate::quectel_atat::ConfigureContext;
use crate::support::str_from_utf8;
use crate::ModemError;
use vstd::utf8::{decode_utf8, valid_utf8};

verus! {

/// Radio technology the modem attached with.
#[derive(Clone, Copy, Debug, PartialEq, Eq, Structural)]
pub enum ModemMode {
    EDGE,
    GPRS,
    NBIoT,
    LTEM,
    Unknown,
}

/// Size of the AT response ingress buffer.
pub const INGRESS_BUF_SIZE: usize = 1024;

/// Capacity of the URC channel.
pub const URC_CAPACITY: usize = 128;

/// Most subscribers of the URC channel.
pub const URC_SUBSCRIBERS: usize = 3;

/// How many times the firmware version is asked for after power-on.
pub const VERSION_ATTEMPTS: usize = 5;

/// The text of a firmware version reply; empty when it is not UTF-8.
pub open spec fn version_text(code: Seq<u8>) -> Seq<char> {
    if valid_utf8(code) {
        decode_utf8(code)
    } else {
        Seq::empty()
    }
}

/// The revision a firmware version reply (`AT+QGMR`) shows; `None` for an
/// empty reply, which is asked for again.
pub fn revision_from_version(chip: ChipModel, code: &[u8]) -> (r: Option<ModemRevision>)
    ensures
        code@.len() == 0 ==> r is None,
        code@.len() > 0 ==> r == Some(revision_of(chip, version_text(code@))),
{
    if code.len() == 0 {
        return None;
    }
    let text = match str_from_utf8(code) {
        Some(s) => s,
        None => "",
    };
    proof {
        if valid_utf8(code@) {
            vstd::utf8::encode_utf8_decode_utf8(text@);
            assert(text@ == version_text(code@));
        } else {
            reveal_strlit("");
            assert(text@ =~= version_text(code@));
        }
    }
    Some(chip.classify_revision(text))
}

/// The outcome of a GNSS fix check: fix quality 0 means no fix.
pub fn gnss_fix_check(quality: u8) -> (r: Result<(), ModemError>)
    ensures
        quality == 0 ==> r == Err::<(), ModemError>(ModemError::GnssNotFixed),
        quality != 0 ==> r is Ok,
{
    if quality == 0 {
        Err(ModemError::GnssNotFixed)
    } else {
        Ok(())
    }
}

/// The outcome of a power-down: a modem that still answers `AT` has not
/// powered down.
pub fn power_down_check(still_answers: bool) -> (r: Result<(), ModemError>)
    ensures
        still_answers ==> r == Err::<(), ModemError>(ModemError::OperationTimeout),
        !still_answers ==> r is Ok,
{
    if still_answers {
        Err(ModemError::OperationTimeout)
    } else {
        Ok(())
    }
}

/// `AT+QICSGP` for PDP context 1, IPv4, with the given APN and credentials.
pub fn context_configuration(
    apn: &str,
    user: &str,
    pass: &str,
    auth: AuthenticationMethod,
) -> (c: ConfigureContext)
    requires
        utf8_len(apn@) <= 64,
        utf8_len(user@) <= 64,
        utf8_len(pass@) <= 64,
    ensures
        c.context_id == 1,
        c.context_type == 1,
        c.apn@ == apn@,
        c.username@ == user@,
        c.password@ == pass@,
        c.authentication == (match auth {
            AuthenticationMethod::NoAuth => 0u8,
            AuthenticationMethod::PAP => 1u8,
            AuthenticationMethod::CHAP => 2u8,
            AuthenticationMethod::PAPorCHAP => 3u8,
        }),
{
    ConfigureContext {
        context_id: 1,
        context_type: 1,
        apn: apn.to_owned(),
        username: user.to_owned(),
        password: pass.to_owned(),
        authentication: auth.code(),
    }
}

/// What the driver remembers about the modem between commands.
#[derive(Clone, Copy, Debug)]
pub struct DriverState {
    /// The IMEI, as read at start-up.
    pub imei: [u8; 15],
    /// The technology of the last attach.
    pub mode: ModemMode,
    /// The firmware revision, as classified at start-up.
    pub rev: ModemRevision,
    /// Whether the SSL context has been configured since start-up (or the
    /// last factory reset).
    pub ssl_configured: bool,
}

impl DriverState {
    /// The state of a modem just brought up: nothing known yet.
    pub fn new() -> (s: Self)
        ensures
            s.imei@ == seq![0u8; 15],
            s.mode == ModemMode::Unknown,
            s.rev == ModemRevision::Unknown,
            !s.ssl_configured,
    {
        let s = DriverState {
            imei: [0u8; 15],
            mode: ModemMode::Unknown,
            rev: ModemRevision::Unknown,
            ssl_configured: false,
        };
        assert(s.imei@ =~= seq![0u8; 15]);
        s
    }

    /// Record the technology of an attach.
    pub fn set_mode(&mut self, mode: ModemMode)
        ensures
            *final(self) == (DriverState { mode, ..*old(self) }),
    {
        self.mode = mode;
    }

    /// Record the IMEI read from the modem: exactly 15 bytes of text.
    pub fn set_imei(&mut self, imei: &[u8])
        requires
            imei@.len() == 15,
            valid_utf8(imei@),
        ensures
            final(self).imei@ == imei@,
            final(self).mode == old(self).mode,
            final(self).rev == old(self).rev,
            final(self).ssl_configured == old(self).ssl_configured,
    {
        let mut i: usize = 0;
        while i < 15
            invariant
                i <= 15,
                imei@.len() == 15,
                self.mode == old(self).mode,
                self.rev == old(self).rev,
                self.ssl_configured == old(self).ssl_configured,
                forall|k: int| 0 <= k < i ==> self.imei@[k] == imei@[k],
            decreases 15 - i,
        {
            self.imei[i] = imei[i];
            i = i + 1;
        }
        assert(self.imei@ =~= imei@);
    }

    /// Forget the SSL context configuration (as after a factory reset), so
    /// that the next TLS connection configures it again. Sends nothing.
    pub fn reset_ssl_context(&mut self)
        ensures
            *final(self) == (DriverState { ssl_configured: false, ..*old(self) }),
    {
        self.ssl_configured = false;
    }
}

} // verus!
