//! Responses and URC payloads of the Quectel AT command set.

use vstd::prelude::*;

verus! {

#[derive(Clone, Copy, Debug, PartialEq, Eq, Structural)]
pub struct NoResponse;

/// `OK` with its code text
#[derive(Clone, Debug)]
pub struct OkResponse {
    pub code: String,
}

#[derive(Clone, Copy, Debug, PartialEq, Eq, Structural)]
pub struct Ready;

#[derive(Clone, Copy, Debug, PartialEq, Eq, Structural)]
pub struct AppReady;

#[derive(Clone, Copy, Debug, PartialEq, Eq, Structural)]
pub struct MessageWaitingIndication;

/// International Mobile Equipment Identity (IMEI) number of the module
/// (15 digits).
#[derive(Clone, Debug)]
pub struct Imei {
    pub imei: Vec<u8>,
}

/// Integrated Circuit Card Identifier of the (U)SIM card (up to 20 digits).
#[derive(Clone, Debug)]
pub struct Iccid {
    pub iccid: Vec<u8>,
}

/// Response to `AT+CPIN?`: `+CPIN: <code>`.
#[derive(Clone, Debug)]
pub struct SimStatus {
    pub code: String,
}

/// Firmware version identification.
#[derive(Clone, Debug)]
pub struct VersionInfo {
    pub code: Vec<u8>,
}

/// Network information (`+QNWINFO`).
#[derive(Clone, Debug)]
pub struct NetworkInfo {
    /// Access technology selected: "No Service", "GSM", "GPRS", "EDGE",
    /// "eMTC", "NBIoT", ...
    pub act: String,
    /// Operator name in numeric format
    pub oper: Option<String>,
    /// Band selected, e.g. "LTE BAND 20"
    pub band: Option<String>,
    /// Channel selected
    pub channel: Option<u32>,
}

/// Operator selection (`+COPS?`).
#[derive(Clone, Debug)]
pub struct CopsResponse {
    /// Operator selection mode
    pub mode: u8,
    /// Operator name format
    pub format: Option<u8>,
    /// Operator name
    pub oper: Option<String>,
    /// Access technology: 0/3 GSM, 7/8 LTE or Cat-M1, 9 NB-IoT
    pub act: Option<u8>,
}

/// EPS network registration status (`+CEREG`).
#[derive(Clone, Debug)]
pub struct EPSNetworkRegistrationStatusResponse {
    /// Unsolicited result code presentation
    pub n: u8,
    /// Registration status: 0 not registered, 1 home, 2 searching,
    /// 3 denied, 4 unknown, 5 roaming
    pub stat: u8,
    /// Tracking area code (hexadecimal)
    pub tac: Option<String>,
    /// E-UTRAN cell id (hexadecimal)
    pub ci: Option<String>,
    /// Access technology: 8 eMTC, 9 NB-IoT
    pub act: Option<u8>,
    pub cause_type: Option<u8>,
    pub reject_cause: Option<u8>,
    pub active_time: Option<String>,
    pub periodic_tau: Option<String>,
}

/// EGPRS network registration status (`+CGREG`).
#[derive(Clone, Debug)]
pub struct EGPRSNetworkRegistrationStatusResponse {
    /// Unsolicited result code presentation
    pub n: u8,
    /// Registration status: 0 not registered, 1 home, 2 searching,
    /// 3 denied, 4 unknown, 5 roaming
    pub stat: u8,
    /// Location area code (hexadecimal)
    pub lac: Option<String>,
    /// Cell id (hexadecimal)
    pub ci: Option<String>,
    /// Access technology: 0 GSM
    pub act: Option<u8>,
    /// Routing area code
    pub rac: Option<u8>,
    pub cause_type: Option<u8>,
    pub reject_cause: Option<u8>,
    pub active_time: Option<String>,
    pub periodic_rau: Option<String>,
    pub gprs_ready_timer: Option<String>,
}

/// Signal strength (`+QCSQ`).
#[derive(Clone, Debug)]
pub struct GetSignalStrengthResponse {
    /// Service mode
    pub mode: String,
    /// Received signal strength (dBm)
    pub rssi: Option<i16>,
    /// Reference signal received power (LTE)
    pub lte_rsrp: Option<i16>,
    /// Signal to interference plus noise ratio, in fifths of a dB (LTE)
    pub lte_sinr: Option<i16>,
    /// Reference signal received quality in dB (LTE)
    pub lte_rsrq: Option<i16>,
}

/// The first activated PDP context (`+QIACT?`).
#[derive(Clone, Debug)]
pub struct PDPContextInfo {
    pub context_id: u8,
    /// 0 deactivated, 1 activated
    pub context_state: u8,
    /// 1 IPv4, 2 IPv6
    pub context_type: u8,
    pub ip_address: Option<String>,
}

/// Latest time synchronised through the network (`+QLTS`):
/// `"yy/MM/dd,hh:mm:ss±zz,dst"`.
#[derive(Clone, Debug)]
pub struct NitzTimeResponse {
    pub time_and_dst: String,
}

/// NTP synchronisation result (`+QNTP`).
#[derive(Clone, Debug)]
pub struct NtpTimeResponse {
    /// Error code of the operation (0 on success)
    pub err: u8,
    /// `"yyyy/MM/dd,hh:mm:ss±zz"`
    pub time: String,
}

#[derive(Clone, Copy, Debug, PartialEq, Eq, Structural)]
pub struct FileDataModeStarted;

/// `CONNECT <read_length>` response of `AT+QFREAD`, with the bytes read.
#[derive(Clone, Debug)]
pub struct FileReadStarted {
    /// The actual read length
    pub read_length: u32,
    /// Binary data read from the file (at most 256 bytes)
    pub data: Vec<u8>,
}

/// `+QFUPL: <upload_size>,<checksum>`
#[derive(Clone, Debug)]
pub struct FileUploadDoneResponse {
    pub upload_size: u32,
    /// 16 bit XOR checksum in hexadecimal
    pub checksum: Vec<u8>,
}

/// `+QFDWL: <download_size>,<checksum>`
#[derive(Clone, Copy, Debug, PartialEq, Eq, Structural)]
pub struct FileDownloadDoneResponse {
    pub download_size: u32,
    pub checksum: u32,
}

/// `+QFLST: <filename>,<file_size>`
#[derive(Clone, Debug)]
pub struct FileListEntry {
    pub filename: String,
    pub file_size: u32,
}

/// Up to five file list entries.
#[derive(Clone, Debug)]
pub struct FileListResponse {
    pub files: Vec<FileListEntry>,
}

/// `+QFOPEN: <filehandle>`
#[derive(Clone, Copy, Debug, PartialEq, Eq, Structural)]
pub struct FileOpenResponse {
    pub filehandle: u32,
}

/// `+QFWRITE: <written_length>,<total_length>`
#[derive(Clone, Copy, Debug, PartialEq, Eq, Structural)]
pub struct FileWriteResponse {
    pub written_length: u32,
    pub total_length: u32,
}

/// `+QMTOPEN: <tcpconnectID>,<result>`
#[derive(Clone, Copy, Debug, PartialEq, Eq, Structural)]
pub struct MqttOpenResponse {
    pub tcpconnect_id: u8,
    /// -1 network failure, 0 opened, 1 wrong parameter, 2 identifier
    /// occupied, 3 PDP activation failed, 4 domain name failure,
    /// 5 network disconnection
    pub result: i8,
}

/// `+QMTSTAT: <tcpconnectID>,<err>`
#[derive(Clone, Copy, Debug, PartialEq, Eq, Structural)]
pub struct MqttStatusResponse {
    pub tcpconnect_id: u8,
    pub err: u8,
}

/// `+QMTCONN: <tcpconnectID>,<result>[,<ret_code>]`
#[derive(Clone, Copy, Debug, PartialEq, Eq, Structural)]
pub struct MqttConnectResponse {
    pub tcpconnect_id: u8,
    /// 0 sent, 1 retransmission, 2 failed to send
    pub result: u8,
    /// CONNACK return code: 0 accepted, 1 to 5 refused
    pub ret_code: u8,
}

/// `+QMTPUB: <tcpconnectID>,<messageID>,<result>[,<value>]`
#[derive(Clone, Copy, Debug, PartialEq, Eq, Structural)]
pub struct MqttPublishResponse {
    pub tcpconnect_id: u8,
    pub message_id: u16,
    /// 0 sent, 1 retransmission, 2 failed to send
    pub result: u8,
    pub value: Option<u8>,
}

/// `+QMTDISC: <tcpconnectID>,<result>`
#[derive(Clone, Copy, Debug, PartialEq, Eq, Structural)]
pub struct MqttDisconnectResponse {
    pub tcpconnect_id: u8,
    pub result: i8,
}

/// `+QMTCLOSE: <tcpconnectID>,<result>`
#[derive(Clone, Copy, Debug, PartialEq, Eq, Structural)]
pub struct MqttCloseResponse {
    pub tcpconnect_id: u8,
    pub result: i8,
}

/// `+CME ERROR: <err>`
#[derive(Clone, Copy, Debug, PartialEq, Eq, Structural)]
pub struct CmeError {
    pub err: u8,
}

/// `+QSSLOPEN: <clientID>,<err>`
#[derive(Clone, Copy, Debug, PartialEq, Eq, Structural)]
pub struct SslOpenResponse {
    pub client_id: u8,
    /// 0 on success, otherwise a Quectel error code
    pub err: i32,
}

/// `+QSSLURC: "<type>",<clientID>`
#[derive(Clone, Debug)]
pub struct SslUrcResponse {
    /// Event keyword, e.g. "recv" or "closed"
    pub urc_type: String,
    pub client_id: u8,
}

/// Data returned by `AT+QSSLRECV`.
#[derive(Clone, Debug)]
pub struct SslRecvResponse {
    /// Number of valid bytes in `data`
    pub length: u16,
    /// The received bytes (at most 512)
    pub data: Vec<u8>,
}

/// `+QIOPEN: <connectID>,<err>`
#[derive(Clone, Copy, Debug, PartialEq, Eq, Structural)]
pub struct TcpOpenResponse {
    pub connect_id: u8,
    /// 0 on success, otherwise a Quectel error code
    pub err: i32,
}

/// `+QIURC: "<type>",<connectID>`
#[derive(Clone, Debug)]
pub struct TcpUrcResponse {
    /// Event keyword, e.g. "recv" or "closed"
    pub urc_type: String,
    pub connect_id: u8,
}

/// Data returned by `AT+QIRD`.
#[derive(Clone, Debug)]
pub struct TcpRecvResponse {
    /// Number of valid bytes in `data`
    pub length: u16,
    /// The received bytes (at most 512)
    pub data: Vec<u8>,
}

} // verus!
