//! The Quectel AT command set: command parameters, responses and URCs.

pub mod responses;
pub mod types;
pub mod urc;

use vstd::prelude::*;
use vstd::slice::SliceAdditionalExecFns;
use crate::quectel_atat::responses::{FileReadStarted, SslRecvResponse, TcpRecvResponse};
use crate::quectel_atat::types::{
    AuthenticationMethod, ConfigurationEffect, EchoOn, FunctionalityLevelOfUE, GnssConstellation,
    GnssOperatingMode, MqttSslEnable, MqttVersion, PowerDownMode, SslAuthenticationMode,
    SslCheckHostEnable, SslCipherSuites, SslIgnoreLocalTime, SslSniEnable, SslVersion,
};
use crate::text::{
    connect_marker, connect_marker_bytes, crlf, crlf_bytes, decimal_field, decimal_text,
    find_bytes, first_occurrence, lemma_decimal_line, lemma_first_occurrence,
    lemma_first_occurrence_at, parse_decimal_field, push_decimal,
    ssl_recv_header, ssl_recv_header_bytes, tcp_recv_header, tcp_recv_header_bytes,
};

verus! {

/// `AT`
#[derive(Clone, Copy, Debug, PartialEq, Eq, Structural)]
pub struct AT;

/// `ATE<on>`: echo on or off.
#[derive(Clone, Copy, Debug, PartialEq, Eq, Structural)]
pub struct SetEcho {
    pub on: EchoOn,
}

/// `AT&F`: reset all parameters to their factory defaults.
#[derive(Clone, Copy, Debug, PartialEq, Eq, Structural)]
pub struct ResetToFactoryDefault;

/// `AT+CFUN=<fun>`: set the UE functionality (up to 15 s).
#[derive(Clone, Copy, Debug, PartialEq, Eq, Structural)]
pub struct SetUeFunctionality {
    pub fun: FunctionalityLevelOfUE,
}

/// `AT+CPIN?`: query the SIM card status.
#[derive(Clone, Copy, Debug, PartialEq, Eq, Structural)]
pub struct GetSimStatus;

/// `AT+QGMR`: query the firmware version.
#[derive(Clone, Copy, Debug, PartialEq, Eq, Structural)]
pub struct GetVersionInfo;

/// `AT+CGMR`: query the first part of the firmware version.
#[derive(Clone, Copy, Debug, PartialEq, Eq, Structural)]
pub struct GetVersionInfoCGMR;

/// `AT+QCFG="band",<gsm>,<emtc>,<nbiot>,<effect>`
#[derive(Clone, Debug)]
pub struct ConfigureBands {
    /// "band"
    pub param: String,
    /// GSM band mask (hexadecimal, at most 24 digits)
    pub gsm_band_mask: Vec<u8>,
    /// eMTC band mask (hexadecimal, at most 24 digits)
    pub emtc_band_mask: Vec<u8>,
    /// NB-IoT band mask (hexadecimal, at most 24 digits)
    pub nbiot_band_mask: Vec<u8>,
    pub effect: ConfigurationEffect,
}

/// `AT+QCFG="nwscanseq",<scanseq>,<effect>`
#[derive(Clone, Debug)]
pub struct ConfigureRatSearchingSequence {
    /// "nwscanseq"
    pub param: String,
    /// Search sequence, e.g. `020301` for eMTC, NB-IoT, GSM
    pub rat_searching_sequence: Vec<u8>,
    pub effect: ConfigurationEffect,
}

/// `AT+QCFG="nvrestore",0`: restore the factory configuration.
#[derive(Clone, Copy, Debug, PartialEq, Eq, Structural)]
pub struct RestoreFactoryConfiguration;

/// `AT+QCFG="nwscanmode",<scanmode>,<effect>`
#[derive(Clone, Debug)]
pub struct ConfigureRatSearchingMode {
    /// "nwscanmode"
    pub param: String,
    /// 0 automatic, 1 GSM only, 3 LTE only
    pub rat_searching_mode: u8,
    pub effect: ConfigurationEffect,
}

/// `AT+QCFG="servicedomain",<service>,<effect>`
#[derive(Clone, Debug)]
pub struct ConfigureServiceDomain {
    /// "servicedomain"
    pub param: String,
    /// 1 PS only, 2 CS and PS
    pub service_domain: u8,
    pub effect: ConfigurationEffect,
}

/// `AT+QCFG="iotopmode",<mode>,<effect>`
#[derive(Clone, Debug)]
pub struct ConfigureIotOpMode {
    /// "iotopmode"
    pub param: String,
    /// 0 eMTC, 1 NB-IoT, 2 both
    pub mode: u8,
    pub effect: ConfigurationEffect,
}

/// `AT+QICSGP`: configure a TCP/IP context.
#[derive(Clone, Debug)]
pub struct ConfigureContext {
    /// Context id, 1 to 16
    pub context_id: u8,
    /// 1 IPv4, 2 IPv6, 3 IPv4v6
    pub context_type: u8,
    pub apn: String,
    pub username: String,
    pub password: String,
    /// Code of an `AuthenticationMethod`
    pub authentication: u8,
}

/// `AT+QNWINFO`
#[derive(Clone, Copy, Debug, PartialEq, Eq, Structural)]
pub struct GetNetworkInfo;

/// `AT+QENG="servingcell"`
#[derive(Clone, Copy, Debug, PartialEq, Eq, Structural)]
pub struct GetServingCellInfo;

/// `AT+COPS?`
#[derive(Clone, Copy, Debug, PartialEq, Eq, Structural)]
pub struct GetCopsInfo;

/// `AT+CEREG?`
#[derive(Clone, Copy, Debug, PartialEq, Eq, Structural)]
pub struct GetEPSNetworkRegistrationStatus;

/// `AT+CGREG?`
#[derive(Clone, Copy, Debug, PartialEq, Eq, Structural)]
pub struct GetEGPRSNetworkRegistrationStatus;

/// `AT+QCSQ`
#[derive(Clone, Copy, Debug, PartialEq, Eq, Structural)]
pub struct GetSignalStrength;

/// `AT+QIACT=<contextID>` (up to 150 s)
#[derive(Clone, Copy, Debug, PartialEq, Eq, Structural)]
pub struct ActivatePDPContext {
    pub context_id: u8,
}

/// `AT+QIACT?`
#[derive(Clone, Copy, Debug, PartialEq, Eq, Structural)]
pub struct GetPDPContextInfo;

/// `AT+QIDEACT=<contextID>` (up to 40 s)
#[derive(Clone, Copy, Debug, PartialEq, Eq, Structural)]
pub struct DeactivatePDPContext {
    pub context_id: u8,
}

/// `AT+QLTS=<mode>`: latest time synchronised through the network.
#[derive(Clone, Copy, Debug, PartialEq, Eq, Structural)]
pub struct GetNetworkNitzTime {
    /// 0 latest synchronised, 1 current GMT, 2 current local time
    pub mode: u8,
}

/// `AT+QNTP=<contextID>,<server>`
#[derive(Clone, Debug)]
pub struct GetNetworkNtpTime {
    pub context_id: u8,
    /// NTP server, at most 100 bytes
    pub server: String,
}

/// `AT+QMTCFG="version",<id>,<version>`
#[derive(Clone, Debug)]
pub struct ConfigureMqttVersion {
    pub subcommand: String,
    pub tcp_connect_id: u8,
    pub version: MqttVersion,
}

/// `AT+QMTCFG="ssl",<id>,<enable>,<ctx>`
#[derive(Clone, Debug)]
pub struct ConfigureMqttSsl {
    pub subcommand: String,
    pub tcp_connect_id: u8,
    pub ssl_enable: MqttSslEnable,
    pub ssl_ctx_id: u8,
}

/// `AT+QMTOPEN=<id>,<server>,<port>`
#[derive(Clone, Debug)]
pub struct MqttOpen {
    pub tcp_connect_id: u8,
    /// Server, at most 100 bytes
    pub server: String,
    pub port: u16,
}

/// `AT+QMTCONN=<id>,<clientID>[,<username>,<password>]`
#[derive(Clone, Debug)]
pub struct MqttConnect {
    pub tcp_connect_id: u8,
    /// Client id, at most 23 bytes
    pub client_id: String,
    pub username: Option<String>,
    pub password: Option<String>,
}

/// `AT+QMTPUBEX=<id>,<msgid>,<qos>,<retain>,<topic>,<payload>`
#[derive(Clone, Debug)]
pub struct MqttPublishExtended {
    pub tcp_connect_id: u8,
    pub msg_id: u16,
    pub qos: u8,
    pub retain: u8,
    /// Topic, at most 128 bytes
    pub topic: String,
    /// Payload, at most 1024 bytes
    pub payload: String,
}

/// `AT+QMTDISC=<id>`
#[derive(Clone, Copy, Debug, PartialEq, Eq, Structural)]
pub struct MqttDisconnect {
    pub tcp_connect_id: u8,
}

/// `AT+QMTCLOSE=<id>`
#[derive(Clone, Copy, Debug, PartialEq, Eq, Structural)]
pub struct MqttClose {
    pub tcp_connect_id: u8,
}

/// `AT+QPOWD=<mode>`
#[derive(Clone, Copy, Debug, PartialEq, Eq, Structural)]
pub struct PowerDown {
    pub mode: PowerDownMode,
}

/// `AT+GSN`
#[derive(Clone, Copy, Debug, PartialEq, Eq, Structural)]
pub struct GetImei;

/// `AT+QCCID`
#[derive(Clone, Copy, Debug, PartialEq, Eq, Structural)]
pub struct GetIccid;

/// `AT+QGPS=<mode>`
#[derive(Clone, Copy, Debug, PartialEq, Eq, Structural)]
pub struct TurnOnGnss {
    pub mode: GnssOperatingMode,
}

/// `AT+QGPSEND`
#[derive(Clone, Copy, Debug, PartialEq, Eq, Structural)]
pub struct TurnOffGnss;

/// `AT+QGPSLOC=2`
#[derive(Clone, Copy, Debug, PartialEq, Eq, Structural)]
pub struct GetGnssPositionInformation;

/// `AT+QGPSCFG="gnssconfig",<constellation>`
#[derive(Clone, Debug)]
pub struct SetGnssConstellation {
    pub param: String,
    pub constellation: GnssConstellation,
}

/// `AT+QGPSCFG="priority",0,0`
#[derive(Clone, Copy, Debug, PartialEq, Eq, Structural)]
pub struct ConfigureGnssPriorityMode;

/// `AT+QGPSGNMEA="GGA"`
#[derive(Clone, Copy, Debug, PartialEq, Eq, Structural)]
pub struct GetGgaNmeaSentence;

/// `AT+QSSLCFG="sslversion",<ctx>,<version>`
#[derive(Clone, Debug)]
pub struct ConfigureSslVersion {
    pub subcommand: String,
    pub context_id: u8,
    pub ssl_version: SslVersion,
}

/// `AT+QSSLCFG="ciphersuite",<ctx>,<suites>`
#[derive(Clone, Debug)]
pub struct ConfigureSslCipherSuites {
    pub subcommand: String,
    pub context_id: u8,
    pub cipher_suites: SslCipherSuites,
}

/// `AT+QSSLCFG="cacert",<ctx>,<path>`
#[derive(Clone, Debug)]
pub struct ConfigureSslCaCertificate {
    pub subcommand: String,
    pub context_id: u8,
    pub ca_cert_path: String,
}

/// `AT+QSSLCFG="clientcert",<ctx>,<path>`
#[derive(Clone, Debug)]
pub struct ConfigureSslClientCertificate {
    pub subcommand: String,
    pub context_id: u8,
    pub client_cert_path: String,
}

/// `AT+QSSLCFG="clientkey",<ctx>,<path>`
#[derive(Clone, Debug)]
pub struct ConfigureSslClientPrivateKey {
    pub subcommand: String,
    pub context_id: u8,
    pub client_key_path: String,
}

/// `AT+QSSLCFG="seclevel",<ctx>,<level>`
#[derive(Clone, Debug)]
pub struct ConfigureSslSecurityLevel {
    pub subcommand: String,
    pub context_id: u8,
    pub security_level: SslAuthenticationMode,
}

/// `AT+QSSLCFG="ignorelocaltime",<ctx>,<ignore>`
#[derive(Clone, Debug)]
pub struct ConfigureSslIgnoreLocalTime {
    pub subcommand: String,
    pub context_id: u8,
    pub ignore_local_time: SslIgnoreLocalTime,
}

/// `AT+QSSLCFG="sni",<ctx>,<enable>`
#[derive(Clone, Debug)]
pub struct ConfigureSslSni {
    pub subcommand: String,
    pub context_id: u8,
    pub sni_enable: SslSniEnable,
}

/// `AT+QSSLCFG="checkhost",<ctx>,<enable>`
#[derive(Clone, Debug)]
pub struct ConfigureSslCheckHost {
    pub subcommand: String,
    pub context_id: u8,
    pub checkhost_enable: SslCheckHostEnable,
}

/// `AT+QSSLOPEN=<pdpCtxID>,<sslCtxID>,<clientID>,<host>,<port>,<accessMode>`
#[derive(Clone, Debug)]
pub struct SslOpen {
    pub pdp_ctx_id: u8,
    pub ssl_ctx_id: u8,
    pub client_id: u8,
    /// Host, at most 128 bytes
    pub host: String,
    pub port: u16,
    /// 0 buffer access, 1 direct push, 2 transparent
    pub access_mode: u8,
}

/// `AT+QSSLSEND=<clientID>,<length>`
#[derive(Clone, Copy, Debug, PartialEq, Eq, Structural)]
pub struct SslSend {
    pub client_id: u8,
    pub length: u16,
}

/// `AT+QSSLCLOSE=<clientID>,<timeout>`
#[derive(Clone, Copy, Debug, PartialEq, Eq, Structural)]
pub struct SslClose {
    pub client_id: u8,
    pub timeout: u16,
}

/// `AT+QSSLRECV=<clientID>,<length>`: read buffered TLS socket data.
#[derive(Clone, Copy, Debug, PartialEq, Eq, Structural)]
pub struct SslRecv {
    pub client_id: u8,
    /// Most bytes to read (512 at most are kept)
    pub length: u16,
}

/// `AT+QIOPEN=<ctxID>,<connectID>,<service>,<host>,<port>,<localPort>,<accessMode>`
#[derive(Clone, Debug)]
pub struct TcpOpen {
    pub ctx_id: u8,
    pub connect_id: u8,
    /// "TCP"
    pub service_type: String,
    /// Host, at most 128 bytes
    pub host: String,
    pub port: u16,
    pub local_port: u16,
    /// 0 buffer access, 1 direct push, 2 transparent
    pub access_mode: u8,
}

/// `AT+QISEND=<connectID>,<length>`
#[derive(Clone, Copy, Debug, PartialEq, Eq, Structural)]
pub struct TcpSend {
    pub connect_id: u8,
    pub length: u16,
}

/// `AT+QICLOSE=<connectID>,<timeout>`
#[derive(Clone, Copy, Debug, PartialEq, Eq, Structural)]
pub struct TcpClose {
    pub connect_id: u8,
    pub timeout: u16,
}

/// `AT+QIRD=<connectID>,<length>`: read buffered TCP socket data.
#[derive(Clone, Copy, Debug, PartialEq, Eq, Structural)]
pub struct TcpRecv {
    pub connect_id: u8,
    /// Most bytes to read (512 at most are kept)
    pub length: u16,
}

/// `ATD*99#`: dial into PPP data mode.
#[derive(Clone, Copy, Debug, PartialEq, Eq, Structural)]
pub struct DialPpp;

/// `AT+QFUPL=<file>,<size>[,<timeout>[,<ackmode>]]`
#[derive(Clone, Debug)]
pub struct FileUploadToInternalFlash {
    /// File path, at most 80 bytes
    pub file_path: String,
    pub file_size: u32,
    pub timeout: Option<u16>,
    pub ack_mode: Option<bool>,
}

/// Raw data sent after `CONNECT` or a `>` prompt (at most 256 bytes).
#[derive(Clone, Debug)]
pub struct SendRawContents {
    pub bytes: Vec<u8>,
}

/// `AT+QFDEL=<file>`
#[derive(Clone, Debug)]
pub struct DeleteFileFromInternalFlash {
    pub file_path: String,
}

/// `AT+QFLST=<pattern>`
#[derive(Clone, Debug)]
pub struct ListFilesFromInternalFlash {
    pub name_pattern: String,
}

/// `AT+QFDWL=<file>`
#[derive(Clone, Debug)]
pub struct DownloadFileFromInternalFlash {
    pub file_path: String,
}

/// `AT+QFOPEN=<file>[,<mode>]`
#[derive(Clone, Debug)]
pub struct OpenFile {
    pub filename: String,
    /// 0 create or open, 1 create or overwrite, 2 read only, 3 append
    pub mode: Option<u8>,
}

/// `AT+QFSEEK=<handle>,<offset>[,<position>]`
#[derive(Clone, Copy, Debug, PartialEq, Eq, Structural)]
pub struct SeekFile {
    pub filehandle: u32,
    pub offset: u32,
    /// 0 from the start, 1 from the current position, 2 from the end
    pub position: Option<u8>,
}

/// `AT+QFREAD=<handle>[,<length>]`
#[derive(Clone, Copy, Debug, PartialEq, Eq, Structural)]
pub struct ReadFile {
    pub filehandle: u32,
    /// Bytes to read; the whole file when omitted
    pub length: Option<u32>,
}

/// `AT+QFWRITE=<handle>,<length>[,<timeout>]`
#[derive(Clone, Copy, Debug, PartialEq, Eq, Structural)]
pub struct WriteFile {
    pub filehandle: u32,
    pub length: u32,
    pub timeout: Option<u16>,
}

/// `AT+QFCLOSE=<handle>`
#[derive(Clone, Copy, Debug, PartialEq, Eq, Structural)]
pub struct CloseFile {
    pub filehandle: u32,
}

} // verus!

verus! {

/// The smaller of two numbers.
pub open spec fn min_nat(a: nat, b: nat) -> nat {
    if a < b {
        a
    } else {
        b
    }
}

/// Most payload bytes a socket read keeps.
pub const SOCKET_READ_MAX: usize = 512;

/// Most payload bytes a file read keeps.
pub const FILE_READ_MAX: usize = 256;

/// `AT+QSSLRECV=`
pub open spec fn ssl_recv_prefix() -> Seq<u8> {
    seq![65u8, 84u8, 43u8, 81u8, 83u8, 83u8, 76u8, 82u8, 69u8, 67u8, 86u8, 61u8]
}

/// `AT+QIRD=`
pub open spec fn tcp_recv_prefix() -> Seq<u8> {
    seq![65u8, 84u8, 43u8, 81u8, 73u8, 82u8, 68u8, 61u8]
}

/// `AT+QFREAD=`
pub open spec fn file_read_prefix() -> Seq<u8> {
    seq![65u8, 84u8, 43u8, 81u8, 70u8, 82u8, 69u8, 65u8, 68u8, 61u8]
}

/// `<prefix><a>,<b>\r`
pub open spec fn two_arg_command(prefix: Seq<u8>, a: nat, b: nat) -> Seq<u8> {
    prefix + decimal_text(a) + seq![44u8] + decimal_text(b) + seq![13u8]
}

/// The text of an `AT+QFREAD` command.
pub open spec fn read_file_command(c: ReadFile) -> Seq<u8> {
    match c.length {
        Some(len) => two_arg_command(file_read_prefix(), c.filehandle as nat, len as nat),
        None => file_read_prefix() + decimal_text(c.filehandle as nat) + seq![13u8],
    }
}

/// What a socket read response holds: the valid length and the bytes.
///
/// The response is located by its header; the decimal length runs up to
/// the first `\r\n`, and at most 512 of the bytes after it are kept (fewer
/// when fewer arrived). `None` when the header, the line end or a valid
/// length is missing.
pub open spec fn recv_response(data: Seq<u8>, header: Seq<u8>) -> Option<(u16, Seq<u8>)> {
    match first_occurrence(data, header) {
        None => None,
        Some(h) => {
            let after = data.subrange(h + header.len(), data.len() as int);
            match first_occurrence(after, crlf()) {
                None => None,
                Some(nl) => match parse_decimal_field(after.subrange(0, nl), u16::MAX as nat) {
                    None => None,
                    Some(actual) => {
                        let payload = after.subrange(nl + 2, after.len() as int);
                        let n = min_nat(min_nat(actual, SOCKET_READ_MAX as nat), payload.len());
                        Some((n as u16, payload.subrange(0, n as int)))
                    },
                },
            }
        },
    }
}

/// What a file read response holds: the read length and the bytes.
///
/// The response must have `CONNECT ` at its first `C`; the decimal length
/// runs up to the first `\r\n` after it, and at most 256 of the bytes after
/// that are kept. When fewer bytes arrived than announced, the number that
/// arrived is reported as the read length.
pub open spec fn file_read_response(data: Seq<u8>) -> Option<(u32, Seq<u8>)> {
    match first_occurrence(data, seq![67u8]) {
        None => None,
        Some(c) => if c + 8 <= data.len() && data.subrange(c, c + 8) == connect_marker() {
            let after = data.subrange(c + 8, data.len() as int);
            match first_occurrence(after, crlf()) {
                None => None,
                Some(nl) => match parse_decimal_field(after.subrange(0, nl), u32::MAX as nat) {
                    None => None,
                    Some(announced) => {
                        let binary = after.subrange(nl + 2, after.len() as int);
                        let to_copy = min_nat(announced, FILE_READ_MAX as nat);
                        if binary.len() < announced {
                            Some(
                                (
                                    binary.len() as u32,
                                    binary.subrange(0, min_nat(binary.len(), to_copy) as int),
                                ),
                            )
                        } else {
                            Some((announced as u32, binary.subrange(0, to_copy as int)))
                        }
                    },
                },
            }
        } else {
            None
        },
    }
}

/// The reply to `AT+QFREAD` that announces `n` bytes and carries `block`:
/// `CONNECT <n>\r\n` and then the bytes.
pub open spec fn file_read_reply(n: nat, block: Seq<u8>) -> Seq<u8> {
    connect_marker() + (decimal_text(n) + (crlf() + block))
}

/// Reading a file block gives back what the modem sent: a reply that
/// announces `n` bytes reads as `n` bytes when at least `n` follow the
/// length line (as many as follow, when fewer do), and the data kept is
/// exactly the first of those bytes, up to 256.
pub proof fn law_file_read_block(n: nat, block: Seq<u8>)
    requires
        n <= u32::MAX,
    ensures
        block.len() >= n ==> file_read_response(file_read_reply(n, block)) == Some(
            (n as u32, block.subrange(0, min_nat(n, FILE_READ_MAX as nat) as int)),
        ),
        block.len() < n ==> file_read_response(file_read_reply(n, block)) == Some(
            (
                block.len() as u32,
                block.subrange(0, min_nat(block.len(), FILE_READ_MAX as nat) as int),
            ),
        ),
{
    let data = file_read_reply(n, block);
    let d = decimal_text(n);
    let dl = d.len() as int;
    assert(data.subrange(0, 1) =~= seq![67u8]);
    lemma_first_occurrence_at(data, seq![67u8], 0, 0);
    assert(data.subrange(0, 8) =~= connect_marker());
    let after = data.subrange(8, data.len() as int);
    assert(after =~= d + (crlf() + block));
    assert(after.subrange(0, dl) =~= d);
    assert(after.subrange(dl, dl + 2) =~= crlf());
    lemma_decimal_line(after, n, u32::MAX as nat);
    assert(after.subrange(dl + 2, after.len() as int) =~= block);
}

/// `<prefix><a>,<b>\r` as bytes.
fn two_arg_command_bytes(prefix: Vec<u8>, a: u64, b: u64) -> (v: Vec<u8>)
    ensures
        v@ == two_arg_command(prefix@, a as nat, b as nat),
{
    let mut v = prefix;
    push_decimal(&mut v, a);
    v.push(44u8);
    push_decimal(&mut v, b);
    v.push(13u8);
    v
}

/// Copies as much of `text` into `buf` as fits.
fn write_prefix(text: &Vec<u8>, buf: &mut [u8]) -> (n: usize)
    ensures
        n == min_nat(text@.len(), old(buf)@.len()),
        final(buf)@.len() == old(buf)@.len(),
        final(buf)@.subrange(0, n as int) == text@.subrange(0, n as int),
        final(buf)@.subrange(n as int, final(buf)@.len() as int) == old(buf)@.subrange(
            n as int,
            old(buf)@.len() as int,
        ),
{
    let n = if text.len() < buf.len() {
        text.len()
    } else {
        buf.len()
    };
    let mut i: usize = 0;
    while i < n
        invariant
            i <= n,
            n <= text@.len(),
            n <= buf@.len(),
            buf@.len() == old(buf)@.len(),
            forall|k: int| 0 <= k < i ==> buf@[k] == text@[k],
            forall|k: int| i <= k < buf@.len() ==> buf@[k] == old(buf)@[k],
        decreases n - i,
    {
        buf.set(i, text[i]);
        i = i + 1;
    }
    assert(buf@.subrange(0, n as int) =~= text@.subrange(0, n as int));
    assert(buf@.subrange(n as int, buf@.len() as int) =~= old(buf)@.subrange(
        n as int,
        old(buf)@.len() as int,
    ));
    n
}

/// Shared parser of the socket read responses.
fn parse_recv_response(data: &[u8], header: &[u8]) -> (r: Option<(u16, Vec<u8>)>)
    requires
        header@.len() > 0,
    ensures
        match recv_response(data@, header@) {
            Some((n, bytes)) => r matches Some((m, v)) && m == n && v@ == bytes,
            None => r is None,
        },
{
    let data_len = data.len();
    let h = match find_bytes(data, header) {
        Some(h) => h,
        None => return None,
    };
    proof {
        lemma_first_occurrence(data@, header@, 0);
    }
    let after = &data[h + header.len()..data.len()];
    let crlf_v = crlf_bytes();
    let nl = match find_bytes(after, crlf_v.as_slice()) {
        Some(k) => k,
        None => return None,
    };
    proof {
        lemma_first_occurrence(after@, crlf(), 0);
    }
    let actual = match decimal_field(&after[0..nl], u16::MAX as u64) {
        Some(v) => v as usize,
        None => return None,
    };
    let payload = &after[nl + 2..after.len()];
    let mut n = if actual < SOCKET_READ_MAX {
        actual
    } else {
        SOCKET_READ_MAX
    };
    if payload.len() < n {
        n = payload.len();
    }
    let bytes = crate::support::slice_prefix_to_vec(payload, n);
    Some((n as u16, bytes))
}

impl SslRecv {
    /// The command text: `AT+QSSLRECV=<clientID>,<length>\r`.
    pub fn command_bytes(&self) -> (v: Vec<u8>)
        ensures
            v@ == two_arg_command(ssl_recv_prefix(), self.client_id as nat, self.length as nat),
    {
        let prefix = vec![65u8, 84u8, 43u8, 81u8, 83u8, 83u8, 76u8, 82u8, 69u8, 67u8, 86u8, 61u8];
        assert(prefix@ =~= ssl_recv_prefix());
        two_arg_command_bytes(prefix, self.client_id as u64, self.length as u64)
    }

    /// Writes the command text into `buf` (as much as fits) and returns the
    /// number of bytes written.
    pub fn write(&self, buf: &mut [u8]) -> (n: usize)
        requires
            old(buf)@.len() > 0,
        ensures
            n == min_nat(
                two_arg_command(ssl_recv_prefix(), self.client_id as nat, self.length as nat).len(),
                old(buf)@.len(),
            ),
            final(buf)@.len() == old(buf)@.len(),
            final(buf)@.subrange(0, n as int) == two_arg_command(
                ssl_recv_prefix(),
                self.client_id as nat,
                self.length as nat,
            ).subrange(0, n as int),
    {
        let text = self.command_bytes();
        write_prefix(&text, buf)
    }

    /// Reads the response body `+QSSLRECV: <len>\r\n<bytes>`; `None` when
    /// it is not a valid read response.
    pub fn parse(&self, data: &[u8]) -> (r: Option<SslRecvResponse>)
        ensures
            match recv_response(data@, ssl_recv_header()) {
                Some((n, bytes)) => r matches Some(resp) && resp.length == n && resp.data@ == bytes,
                None => r is None,
            },
    {
        let header = ssl_recv_header_bytes();
        match parse_recv_response(data, header.as_slice()) {
            Some((length, data)) => Some(SslRecvResponse { length, data }),
            None => None,
        }
    }
}

impl TcpRecv {
    /// The command text: `AT+QIRD=<connectID>,<length>\r`.
    pub fn command_bytes(&self) -> (v: Vec<u8>)
        ensures
            v@ == two_arg_command(tcp_recv_prefix(), self.connect_id as nat, self.length as nat),
    {
        let prefix = vec![65u8, 84u8, 43u8, 81u8, 73u8, 82u8, 68u8, 61u8];
        assert(prefix@ =~= tcp_recv_prefix());
        two_arg_command_bytes(prefix, self.connect_id as u64, self.length as u64)
    }

    /// Writes the command text into `buf` (as much as fits) and returns the
    /// number of bytes written.
    pub fn write(&self, buf: &mut [u8]) -> (n: usize)
        requires
            old(buf)@.len() > 0,
        ensures
            n == min_nat(
                two_arg_command(tcp_recv_prefix(), self.connect_id as nat, self.length as nat).len(),
                old(buf)@.len(),
            ),
            final(buf)@.len() == old(buf)@.len(),
            final(buf)@.subrange(0, n as int) == two_arg_command(
                tcp_recv_prefix(),
                self.connect_id as nat,
                self.length as nat,
            ).subrange(0, n as int),
    {
        let text = self.command_bytes();
        write_prefix(&text, buf)
    }

    /// Reads the response body `+QIRD: <len>\r\n<bytes>`; `None` when it is
    /// not a valid read response.
    pub fn parse(&self, data: &[u8]) -> (r: Option<TcpRecvResponse>)
        ensures
            match recv_response(data@, tcp_recv_header()) {
                Some((n, bytes)) => r matches Some(resp) && resp.length == n && resp.data@ == bytes,
                None => r is None,
            },
    {
        let header = tcp_recv_header_bytes();
        match parse_recv_response(data, header.as_slice()) {
            Some((length, data)) => Some(TcpRecvResponse { length, data }),
            None => None,
        }
    }
}

impl ReadFile {
    /// The command text: `AT+QFREAD=<handle>,<length>\r`, or
    /// `AT+QFREAD=<handle>\r` without a length.
    pub fn command_bytes(&self) -> (v: Vec<u8>)
        ensures
            v@ == read_file_command(*self),
    {
        let prefix = vec![65u8, 84u8, 43u8, 81u8, 70u8, 82u8, 69u8, 65u8, 68u8, 61u8];
        assert(prefix@ =~= file_read_prefix());
        match self.length {
            Some(len) => two_arg_command_bytes(prefix, self.filehandle as u64, len as u64),
            None => {
                let mut v = prefix;
                push_decimal(&mut v, self.filehandle as u64);
                v.push(13u8);
                v
            },
        }
    }

    /// Writes the command text into `buf` (as much as fits) and returns the
    /// number of bytes written.
    pub fn write(&self, buf: &mut [u8]) -> (n: usize)
        requires
            old(buf)@.len() > 0,
        ensures
            n == min_nat(read_file_command(*self).len(), old(buf)@.len()),
            final(buf)@.len() == old(buf)@.len(),
            final(buf)@.subrange(0, n as int) == read_file_command(*self).subrange(0, n as int),
    {
        let text = self.command_bytes();
        write_prefix(&text, buf)
    }

    /// Reads the response `CONNECT <read_length>\r\n<bytes>`; `None` when it
    /// is not a valid read response.
    pub fn parse(&self, data: &[u8]) -> (r: Option<FileReadStarted>)
        ensures
            match file_read_response(data@) {
                Some((n, bytes)) => r matches Some(resp) && resp.read_length == n && resp.data@
                    == bytes,
                None => r is None,
            },
    {
        let data_len = data.len();
        let c_marker = vec![67u8];
        assert(c_marker@ =~= seq![67u8]);
        let c = match find_bytes(data, c_marker.as_slice()) {
            Some(c) => c,
            None => return None,
        };
        proof {
            lemma_first_occurrence(data@, seq![67u8], 0);
        }
        let connect = connect_marker_bytes();
        if data.len() - c < 8 {
            return None;
        }
        let head = &data[c..c + 8];
        if !crate::support::bytes_equal(head, connect.as_slice()) {
            return None;
        }
        let after = &data[c + 8..data.len()];
        let crlf_v = crlf_bytes();
        let nl = match find_bytes(after, crlf_v.as_slice()) {
            Some(k) => k,
            None => return None,
        };
        proof {
            lemma_first_occurrence(after@, crlf(), 0);
        }
        let announced = match decimal_field(&after[0..nl], u32::MAX as u64) {
            Some(v) => v as u32,
            None => return None,
        };
        let binary = &after[nl + 2..after.len()];
        let to_copy: usize = if (announced as u64) < (FILE_READ_MAX as u64) {
            announced as usize
        } else {
            FILE_READ_MAX
        };
        if (binary.len() as u64) < (announced as u64) {
            let k = if binary.len() < to_copy {
                binary.len()
            } else {
                to_copy
            };
            let bytes = crate::support::slice_prefix_to_vec(binary, k);
            Some(FileReadStarted { read_length: binary.len() as u32, data: bytes })
        } else {
            let bytes = crate::support::slice_prefix_to_vec(binary, to_copy);
            Some(FileReadStarted { read_length: announced, data: bytes })
        }
    }
}

} // verus!
