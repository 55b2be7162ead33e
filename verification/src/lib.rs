//! Driver logic for the Quectel BG9X family of cellular modems.

use vstd::prelude::*;

pub mod cellular;
pub mod chip;
pub mod net;
pub mod ppp;
pub mod quectel_atat;
pub mod support;
pub mod tcp;
pub mod tcp_std;
pub mod text;

verus! {

/// Which transport a modem-backed socket uses.
#[derive(Clone, Copy, Debug, PartialEq, Eq, Structural)]
pub enum Transport {
    /// Plain TCP (`AT+QIOPEN` / `QISEND` / `QIRD` / `QICLOSE`).
    Tcp,
    /// Modem-terminated TLS on a pre-configured SSL context
    /// (`AT+QSSLOPEN` / `QSSLSEND` / `QSSLRECV` / `QSSLCLOSE`).
    Tls {
        /// SSL context id (0-5) configured via `AT+QSSLCFG`.
        ssl_ctx_id: u8,
    },
}

/// Everything that can go wrong while driving the modem.
#[derive(Clone, Copy, Debug, PartialEq, Eq, Structural)]
pub enum ModemError {
    NotResponding,
    SimError,
    SimErrorUnknown,
    NoNetwork,
    NoContext,
    MqttRequestFailed,
    NtpRequestFailed,
    NotSupported,
    OperationTimeout,
    GnssNotFixed,
    FileUploadFailed,
    FileDeletionFailed,
    SslCertificateNotFound,
    SslCertificateInvalid,
    SslHostnameMismatch,
    SslCipherNegotiationFailed,
    SocketOpenFailed,
    SocketSendFailed,
    SocketRecvFailed,
    SocketCloseFailed,
}

/// The human-readable text of each error.
pub open spec fn modem_error_text(e: ModemError) -> Seq<char> {
    match e {
        ModemError::NotResponding => "Modem not responding"@,
        ModemError::SimError => "SIM failure"@,
        ModemError::SimErrorUnknown => "SIM unknown"@,
        ModemError::NoNetwork => "Not attached to network"@,
        ModemError::NoContext => "No active context"@,
        ModemError::MqttRequestFailed => "MQTT error"@,
        ModemError::NtpRequestFailed => "MQTT request failed"@,
        ModemError::NotSupported => "NTP response not valid"@,
        ModemError::OperationTimeout => "Request timeout"@,
        ModemError::GnssNotFixed => "GNSS position not fixed"@,
        ModemError::FileUploadFailed => "File upload failed"@,
        ModemError::FileDeletionFailed => "File deletion failed"@,
        ModemError::SslCertificateNotFound => "SSL certificate not found"@,
        ModemError::SslCertificateInvalid => "SSL certificate invalid"@,
        ModemError::SslHostnameMismatch => "SSL hostname mismatch"@,
        ModemError::SslCipherNegotiationFailed => "SSL cipher negotiation failed"@,
        ModemError::SocketOpenFailed => "Socket open failed"@,
        ModemError::SocketSendFailed => "Socket send failed"@,
        ModemError::SocketRecvFailed => "Socket receive failed"@,
        ModemError::SocketCloseFailed => "Socket close failed"@,
    }
}

impl ModemError {
    /// The human-readable text of the error.
    pub fn message(&self) -> (s: &'static str)
        ensures
            s@ == modem_error_text(*self),
    {
        match self {
            ModemError::NotResponding => "Modem not responding",
            ModemError::SimError => "SIM failure",
            ModemError::SimErrorUnknown => "SIM unknown",
            ModemError::NoNetwork => "Not attached to network",
            ModemError::NoContext => "No active context",
            ModemError::MqttRequestFailed => "MQTT error",
            ModemError::NtpRequestFailed => "MQTT request failed",
            ModemError::NotSupported => "NTP response not valid",
            ModemError::OperationTimeout => "Request timeout",
            ModemError::GnssNotFixed => "GNSS position not fixed",
            ModemError::FileUploadFailed => "File upload failed",
            ModemError::FileDeletionFailed => "File deletion failed",
            ModemError::SslCertificateNotFound => "SSL certificate not found",
            ModemError::SslCertificateInvalid => "SSL certificate invalid",
            ModemError::SslHostnameMismatch => "SSL hostname mismatch",
            ModemError::SslCipherNegotiationFailed => "SSL cipher negotiation failed",
            ModemError::SocketOpenFailed => "Socket open failed",
            ModemError::SocketSendFailed => "Socket send failed",
            ModemError::SocketRecvFailed => "Socket receive failed",
            ModemError::SocketCloseFailed => "Socket close failed",
        }
    }
}

} // verus!
