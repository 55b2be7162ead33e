//! Unsolicited result codes of the modem.

use vstd::prelude::*;
use crate::quectel_atat::responses::{
    CmeError, FileUploadDoneResponse, FileWriteResponse, MessageWaitingIndication,
    MqttCloseResponse, MqttConnectResponse, MqttDisconnectResponse, MqttOpenResponse,
    MqttPublishResponse, MqttStatusResponse, NtpTimeResponse, SslOpenResponse, SslUrcResponse,
    TcpOpenResponse, TcpUrcResponse,
};

verus! {

#[derive(Clone, Debug)]
pub enum Urc {
    /// `APP RDY`
    Ready,
    /// `RDY`
    AppReady,
    /// `+UMWI`
    MessageWaitingIndication(MessageWaitingIndication),
    /// `CONNECT`: file data mode (or PPP data mode) started
    FileDataModeStarted,
    /// `+QFUPL: <upload_size>,<checksum>`
    FileUploadDone(FileUploadDoneResponse),
    /// `+QFWRITE: <written_length>,<total_length>`
    FileWriteDone(FileWriteResponse),
    /// `+QNTP`
    NtpTime(NtpTimeResponse),
    /// `+QMTOPEN`
    MqttOpen(MqttOpenResponse),
    /// `+QMTSTAT`
    MqttStatus(MqttStatusResponse),
    /// `+QMTCONN`
    MqttConnect(MqttConnectResponse),
    /// `+QMTPUB`
    MqttPublish(MqttPublishResponse),
    /// `+QMTDISC`
    MqttDisconnect(MqttDisconnectResponse),
    /// `+QMTCLOSE`
    MqttClose(MqttCloseResponse),
    /// `+QSSLOPEN`
    SslOpen(SslOpenResponse),
    /// `+QSSLURC`
    SslUrc(SslUrcResponse),
    /// `+QIOPEN`
    TcpOpen(TcpOpenResponse),
    /// `+QIURC`
    TcpUrc(TcpUrcResponse),
    /// `POWERED DOWN`
    PowerDown,
    /// `+CME ERROR: <err>`
    CmeError(CmeError),
}

} // verus!
