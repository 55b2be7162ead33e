//! The modem's MQTT client (`AT+QMTOPEN` / `QMTCONN` / `QMTPUBEX` /
//! `QMTDISC`): the commands sent and what each result code means.

use vstd::prelude::*;
use crate::quectel_atat::types::{utf8_len, MqttSslEnable};
use crate::quectel_atat::responses::{
    MqttCloseResponse, MqttConnectResponse, MqttDisconnectResponse, MqttOpenResponse,
    MqttPublishResponse,
};
use crate::quectel_atat::urc::Urc;
use crate::quectel_atat::{ConfigureMqttSsl, MqttConnect, MqttOpen, MqttPublishExtended};
use crate::ModemError;

verus! {

/// The port of MQTT over TLS, on which an open failure is read as a TLS
/// failure.
pub const MQTT_TLS_PORT: u16 = 8883;

/// What a `+QMTOPEN` result code means: `None` when the connection opened.
pub open spec fn mqtt_open_error(result: i8, port: u16) -> Option<ModemError> {
    let tls = port == MQTT_TLS_PORT;
    if result == 0 {
        None
    } else if result == -1 {
        Some(ModemError::NoNetwork)
    } else if result == 1 || result == 2 {
        Some(ModemError::MqttRequestFailed)
    } else if result == 3 {
        Some(ModemError::NoContext)
    } else if result == 4 {
        Some(if tls { ModemError::SslHostnameMismatch } else { ModemError::MqttRequestFailed })
    } else if result == 5 {
        Some(if tls { ModemError::SslCertificateInvalid } else { ModemError::NoNetwork })
    } else {
        Some(
            if tls {
                ModemError::SslCipherNegotiationFailed
            } else {
                ModemError::MqttRequestFailed
            },
        )
    }
}

/// A result of `Ok` or the given error.
pub open spec fn result_of(e: Option<ModemError>) -> Result<(), ModemError> {
    match e {
        None => Ok(()),
        Some(e) => Err(e),
    }
}

/// How waiting for `+QMTOPEN` ends on an unsolicited result code.
pub open spec fn mqtt_open_outcome(urc: Urc, port: u16) -> Option<Result<(), ModemError>> {
    match urc {
        Urc::MqttOpen(r) => Some(result_of(mqtt_open_error(r.result, port))),
        _ => None,
    }
}

/// How waiting for `+QMTCONN` ends: connected only when the packet was sent
/// (result 0) and the broker accepted it (return code 0).
pub open spec fn mqtt_connect_outcome(urc: Urc) -> Option<Result<(), ModemError>> {
    match urc {
        Urc::MqttConnect(r) => Some(
            if r.result == 0 && r.ret_code == 0 {
                Ok(())
            } else {
                Err(ModemError::MqttRequestFailed)
            },
        ),
        _ => None,
    }
}

/// How waiting for `+QMTDISC` ends.
pub open spec fn mqtt_disconnect_outcome(urc: Urc) -> Option<Result<(), ModemError>> {
    match urc {
        Urc::MqttDisconnect(r) => Some(
            if r.result == 0 {
                Ok(())
            } else {
                Err(ModemError::MqttRequestFailed)
            },
        ),
        _ => None,
    }
}

/// Whether `urc` ends the wait for `+QMTSTAT` after a disconnect: any
/// status report does, whatever its error code, and the close follows.
pub open spec fn mqtt_status_seen(urc: Urc) -> bool {
    urc is MqttStatus
}

/// How waiting for `+QMTCLOSE` ends.
pub open spec fn mqtt_close_outcome(urc: Urc) -> Option<Result<(), ModemError>> {
    match urc {
        Urc::MqttClose(r) => Some(
            if r.result == 0 {
                Ok(())
            } else {
                Err(ModemError::MqttRequestFailed)
            },
        ),
        _ => None,
    }
}

/// How waiting for `+QMTPUB` ends.
pub open spec fn mqtt_publish_outcome(urc: Urc) -> Option<Result<(), ModemError>> {
    match urc {
        Urc::MqttPublish(r) => Some(
            if r.result == 0 {
                Ok(())
            } else {
                Err(ModemError::MqttRequestFailed)
            },
        ),
        _ => None,
    }
}

/// The error a `+QMTOPEN` result code stands for; `None` when it opened.
pub fn mqtt_open_result(result: i8, port: u16) -> (e: Option<ModemError>)
    ensures
        e == mqtt_open_error(result, port),
{
    let tls = port == MQTT_TLS_PORT;
    if result == 0 {
        None
    } else if result == -1 {
        Some(ModemError::NoNetwork)
    } else if result == 1 || result == 2 {
        Some(ModemError::MqttRequestFailed)
    } else if result == 3 {
        Some(ModemError::NoContext)
    } else if result == 4 {
        Some(if tls { ModemError::SslHostnameMismatch } else { ModemError::MqttRequestFailed })
    } else if result == 5 {
        Some(if tls { ModemError::SslCertificateInvalid } else { ModemError::NoNetwork })
    } else {
        Some(
            if tls {
                ModemError::SslCipherNegotiationFailed
            } else {
                ModemError::MqttRequestFailed
            },
        )
    }
}

/// The end of the wait for `+QMTOPEN` on `urc`; `None` to keep waiting.
pub fn mqtt_open_verdict(urc: &Urc, port: u16) -> (r: Option<Result<(), ModemError>>)
    ensures
        r == mqtt_open_outcome(*urc, port),
{
    match urc {
        Urc::MqttOpen(res) => match mqtt_open_result(res.result, port) {
            None => Some(Ok(())),
            Some(e) => Some(Err(e)),
        },
        _ => None,
    }
}

/// The end of the wait for `+QMTCONN` on `urc`; `None` to keep waiting.
pub fn mqtt_connect_verdict(urc: &Urc) -> (r: Option<Result<(), ModemError>>)
    ensures
        r == mqtt_connect_outcome(*urc),
{
    match urc {
        Urc::MqttConnect(res) => Some(
            if res.result == 0 && res.ret_code == 0 {
                Ok(())
            } else {
                Err(ModemError::MqttRequestFailed)
            },
        ),
        _ => None,
    }
}

/// The end of the wait for `+QMTDISC` on `urc`; `None` to keep waiting.
pub fn mqtt_disconnect_verdict(urc: &Urc) -> (r: Option<Result<(), ModemError>>)
    ensures
        r == mqtt_disconnect_outcome(*urc),
{
    match urc {
        Urc::MqttDisconnect(res) => Some(
            if res.result == 0 {
                Ok(())
            } else {
                Err(ModemError::MqttRequestFailed)
            },
        ),
        _ => None,
    }
}

/// Whether `urc` ends the wait for `+QMTSTAT`.
pub fn mqtt_status_verdict(urc: &Urc) -> (r: bool)
    ensures
        r == mqtt_status_seen(*urc),
{
    match urc {
        Urc::MqttStatus(_) => true,
        _ => false,
    }
}

/// The end of the wait for `+QMTCLOSE` on `urc`; `None` to keep waiting.
pub fn mqtt_close_verdict(urc: &Urc) -> (r: Option<Result<(), ModemError>>)
    ensures
        r == mqtt_close_outcome(*urc),
{
    match urc {
        Urc::MqttClose(res) => Some(
            if res.result == 0 {
                Ok(())
            } else {
                Err(ModemError::MqttRequestFailed)
            },
        ),
        _ => None,
    }
}

/// The end of the wait for `+QMTPUB` on `urc`; `None` to keep waiting.
pub fn mqtt_publish_verdict(urc: &Urc) -> (r: Option<Result<(), ModemError>>)
    ensures
        r == mqtt_publish_outcome(*urc),
{
    match urc {
        Urc::MqttPublish(res) => Some(
            if res.result == 0 {
                Ok(())
            } else {
                Err(ModemError::MqttRequestFailed)
            },
        ),
        _ => None,
    }
}

/// The commands of an MQTT connection: enabling TLS on a context (when one
/// is given), opening the network connection, and connecting the client.
pub struct MqttConnectCommands {
    pub enable_ssl: Option<ConfigureMqttSsl>,
    pub open: MqttOpen,
    pub connect: MqttConnect,
}

/// The MQTT connection commands for the given broker and credentials; the
/// client always sends a user name and password, empty ones included.
pub fn mqtt_connect_commands(
    url: &str,
    port: u16,
    id: &str,
    user: &str,
    pass: &str,
    ssl_ctx_id: Option<u8>,
) -> (c: MqttConnectCommands)
    requires
        utf8_len(url@) <= 100,
        utf8_len(id@) <= 23,
        utf8_len(user@) <= 64,
        utf8_len(pass@) <= 64,
    ensures
        match ssl_ctx_id {
            Some(ctx) => (c.enable_ssl matches Some(s) && s.subcommand@ == "ssl"@
                && s.tcp_connect_id == 0 && s.ssl_enable == MqttSslEnable::True && s.ssl_ctx_id
                == ctx),
            None => c.enable_ssl is None,
        },
        c.open.tcp_connect_id == 0,
        c.open.server@ == url@,
        c.open.port == port,
        c.connect.tcp_connect_id == 0,
        c.connect.client_id@ == id@,
        c.connect.username matches Some(u) && u@ == user@,
        c.connect.password matches Some(p) && p@ == pass@,
{
    let enable_ssl = match ssl_ctx_id {
        Some(ctx) => Some(
            ConfigureMqttSsl {
                subcommand: "ssl".to_owned(),
                tcp_connect_id: 0,
                ssl_enable: MqttSslEnable::True,
                ssl_ctx_id: ctx,
            },
        ),
        None => None,
    };
    MqttConnectCommands {
        enable_ssl,
        open: MqttOpen { tcp_connect_id: 0, server: url.to_owned(), port },
        connect: MqttConnect {
            tcp_connect_id: 0,
            client_id: id.to_owned(),
            username: Some(user.to_owned()),
            password: Some(pass.to_owned()),
        },
    }
}

/// The message id of a publish: 0 at QoS 0, else 1.
pub open spec fn publish_message_id(qos: u8) -> u16 {
    if qos == 0 {
        0
    } else {
        1
    }
}

/// The `AT+QMTPUBEX` command of a publish, not retained.
pub fn mqtt_publish_command(topic: &str, payload: &str, qos: u8) -> (c: MqttPublishExtended)
    requires
        utf8_len(topic@) <= 128,
        utf8_len(payload@) <= 1024,
    ensures
        c.tcp_connect_id == 0,
        c.msg_id == publish_message_id(qos),
        c.qos == qos,
        c.retain == 0,
        c.topic@ == topic@,
        c.payload@ == payload@,
{
    let msg_id: u16 = if qos == 0 {
        0
    } else {
        1
    };
    MqttPublishExtended {
        tcp_connect_id: 0,
        msg_id,
        qos,
        retain: 0,
        topic: topic.to_owned(),
        payload: payload.to_owned(),
    }
}

/// The stages of an MQTT disconnect.
#[derive(Clone, Copy, Debug, PartialEq, Eq, Structural)]
pub enum DisconnectStage {
    /// Waiting for `+QMTDISC`.
    AwaitDisconnect,
    /// Waiting for `+QMTSTAT` (firmware that needs an explicit close).
    AwaitStatus,
    /// Waiting for `+QMTCLOSE` after sending `AT+QMTCLOSE`.
    AwaitClose,
}

/// What happened while an MQTT stage waited.
#[derive(Clone, Debug)]
pub enum WaitEvent {
    /// An unsolicited result code arrived.
    Received(Urc),
    /// The stage's wait ran out (10 s for the disconnect, 5 s otherwise).
    TimedOut,
}

/// What the driver does next in a disconnect.
#[derive(Clone, Copy, Debug, PartialEq, Eq)]
pub enum DisconnectAction {
    /// Keep waiting in the given stage.
    Wait(DisconnectStage),
    /// Send `AT+QMTCLOSE` (a refusal is `NotResponding`), then wait in
    /// `AwaitClose`.
    SendClose,
    /// The disconnect is over with this result.
    Finish(Result<(), ModemError>),
}

/// The disconnect step: what follows `event` in `stage`.
///
/// A `+QMTDISC` failure ends the disconnect; success, or no reply in time,
/// ends it too unless the firmware needs an explicit close. Then the driver
/// waits for a `+QMTSTAT`, and once it comes or the wait runs out sends
/// `AT+QMTCLOSE`, whose `+QMTCLOSE` ends the disconnect; without that in
/// time the disconnect succeeds.
pub open spec fn disconnect_next(
    stage: DisconnectStage,
    event: WaitEvent,
    explicit_close: bool,
) -> DisconnectAction {
    let after_disconnect = if explicit_close {
        DisconnectAction::Wait(DisconnectStage::AwaitStatus)
    } else {
        DisconnectAction::Finish(Ok(()))
    };
    match (stage, event) {
        (DisconnectStage::AwaitDisconnect, WaitEvent::Received(u)) => match mqtt_disconnect_outcome(u) {
            None => DisconnectAction::Wait(stage),
            Some(Ok(())) => after_disconnect,
            Some(Err(e)) => DisconnectAction::Finish(Err(e)),
        },
        (DisconnectStage::AwaitDisconnect, WaitEvent::TimedOut) => after_disconnect,
        (DisconnectStage::AwaitStatus, WaitEvent::Received(u)) => if mqtt_status_seen(u) {
            DisconnectAction::SendClose
        } else {
            DisconnectAction::Wait(stage)
        },
        (DisconnectStage::AwaitStatus, WaitEvent::TimedOut) => DisconnectAction::SendClose,
        (DisconnectStage::AwaitClose, WaitEvent::Received(u)) => match mqtt_close_outcome(u) {
            None => DisconnectAction::Wait(stage),
            Some(r) => DisconnectAction::Finish(r),
        },
        (DisconnectStage::AwaitClose, WaitEvent::TimedOut) => DisconnectAction::Finish(Ok(())),
    }
}

/// One step of an MQTT disconnect.
pub fn disconnect_step(stage: DisconnectStage, event: &WaitEvent, explicit_close: bool) -> (a:
    DisconnectAction)
    ensures
        a == disconnect_next(stage, *event, explicit_close),
{
    let after_disconnect = if explicit_close {
        DisconnectAction::Wait(DisconnectStage::AwaitStatus)
    } else {
        DisconnectAction::Finish(Ok(()))
    };
    match stage {
        DisconnectStage::AwaitDisconnect => match event {
            WaitEvent::Received(u) => match mqtt_disconnect_verdict(u) {
                None => DisconnectAction::Wait(stage),
                Some(Ok(())) => after_disconnect,
                Some(Err(e)) => DisconnectAction::Finish(Err(e)),
            },
            WaitEvent::TimedOut => after_disconnect,
        },
        DisconnectStage::AwaitStatus => match event {
            WaitEvent::Received(u) => if mqtt_status_verdict(u) {
                DisconnectAction::SendClose
            } else {
                DisconnectAction::Wait(stage)
            },
            WaitEvent::TimedOut => DisconnectAction::SendClose,
        },
        DisconnectStage::AwaitClose => match event {
            WaitEvent::Received(u) => match mqtt_close_verdict(u) {
                None => DisconnectAction::Wait(stage),
                Some(r) => DisconnectAction::Finish(r),
            },
            WaitEvent::TimedOut => DisconnectAction::Finish(Ok(())),
        },
    }
}

/// The stages of an MQTT connection after `AT+QMTOPEN` was sent.
#[derive(Clone, Copy, Debug, PartialEq, Eq, Structural)]
pub enum ConnectStage {
    /// Waiting (10 s) for `+QMTOPEN`.
    AwaitOpen,
    /// Waiting (5 s) for `+QMTCONN` after sending `AT+QMTCONN`.
    AwaitConnect,
}

/// What the driver does next in an MQTT connection.
#[derive(Clone, Copy, Debug, PartialEq, Eq)]
pub enum ConnectAction {
    /// Keep waiting in the given stage.
    Wait(ConnectStage),
    /// Send `AT+QMTCONN` (a refusal is `NotResponding`), then wait in
    /// `AwaitConnect`.
    SendConnect,
    /// The connection attempt is over with this result.
    Finish(Result<(), ModemError>),
}

/// The connection step: what follows `event` in `stage`, for a broker on
/// `port`. A failed open ends the attempt with the error its code stands
/// for; an open, or no reply in time, goes on to connect. The connect
/// reply ends the attempt; without one in time the attempt succeeds.
pub open spec fn connect_next(stage: ConnectStage, event: WaitEvent, port: u16) -> ConnectAction {
    match (stage, event) {
        (ConnectStage::AwaitOpen, WaitEvent::Received(u)) => match mqtt_open_outcome(u, port) {
            None => ConnectAction::Wait(stage),
            Some(Ok(())) => ConnectAction::SendConnect,
            Some(Err(e)) => ConnectAction::Finish(Err(e)),
        },
        (ConnectStage::AwaitOpen, WaitEvent::TimedOut) => ConnectAction::SendConnect,
        (ConnectStage::AwaitConnect, WaitEvent::Received(u)) => match mqtt_connect_outcome(u) {
            None => ConnectAction::Wait(stage),
            Some(r) => ConnectAction::Finish(r),
        },
        (ConnectStage::AwaitConnect, WaitEvent::TimedOut) => ConnectAction::Finish(Ok(())),
    }
}

/// One step of an MQTT connection.
pub fn connect_step(stage: ConnectStage, event: &WaitEvent, port: u16) -> (a: ConnectAction)
    ensures
        a == connect_next(stage, *event, port),
{
    match stage {
        ConnectStage::AwaitOpen => match event {
            WaitEvent::Received(u) => match mqtt_open_verdict(u, port) {
                None => ConnectAction::Wait(stage),
                Some(Ok(())) => ConnectAction::SendConnect,
                Some(Err(e)) => ConnectAction::Finish(Err(e)),
            },
            WaitEvent::TimedOut => ConnectAction::SendConnect,
        },
        ConnectStage::AwaitConnect => match event {
            WaitEvent::Received(u) => match mqtt_connect_verdict(u) {
                None => ConnectAction::Wait(stage),
                Some(r) => ConnectAction::Finish(r),
            },
            WaitEvent::TimedOut => ConnectAction::Finish(Ok(())),
        },
    }
}

/// A publish succeeds exactly when the modem reports the message sent
/// (result 0); a retransmission (1), a failure to send (2) or any other code
/// fails it with `MqttRequestFailed`; no other code ends the wait.
pub proof fn law_mqtt_publish_result(r: MqttPublishResponse, urc: Urc)
    ensures
        mqtt_publish_outcome(Urc::MqttPublish(r)) is Some,
        mqtt_publish_outcome(Urc::MqttPublish(r)) == Some(Ok::<(), ModemError>(())) <==> r.result == 0,
        r.result != 0 ==> mqtt_publish_outcome(Urc::MqttPublish(r)) == Some(
            Err::<(), ModemError>(ModemError::MqttRequestFailed),
        ),
        !(urc is MqttPublish) ==> mqtt_publish_outcome(urc) is None,
{
}

/// A connection succeeds exactly when the CONNECT packet was sent (result
/// 0) and the broker accepted it (return code 0); anything else fails it
/// with `MqttRequestFailed`; no other code ends the wait.
pub proof fn law_mqtt_connect_result(r: MqttConnectResponse, urc: Urc)
    ensures
        mqtt_connect_outcome(Urc::MqttConnect(r)) == Some(Ok::<(), ModemError>(())) <==> (r.result
            == 0 && r.ret_code == 0),
        !(r.result == 0 && r.ret_code == 0) ==> mqtt_connect_outcome(Urc::MqttConnect(r)) == Some(
            Err::<(), ModemError>(ModemError::MqttRequestFailed),
        ),
        !(urc is MqttConnect) ==> mqtt_connect_outcome(urc) is None,
{
}

/// Opening the network connection succeeds exactly on result 0: any other
/// result fails it (-1 as `NoNetwork`, 3 as `NoContext`, wrong parameters
/// or an occupied identifier as `MqttRequestFailed`); no other code ends the
/// wait.
pub proof fn law_mqtt_open_result(r: MqttOpenResponse, port: u16, urc: Urc)
    ensures
        mqtt_open_outcome(Urc::MqttOpen(r), port) == Some(Ok::<(), ModemError>(())) <==> r.result == 0,
        r.result != 0 ==> mqtt_open_outcome(Urc::MqttOpen(r), port) matches Some(Err(_)),
        r.result == -1 ==> mqtt_open_outcome(Urc::MqttOpen(r), port) == Some(
            Err::<(), ModemError>(ModemError::NoNetwork),
        ),
        r.result == 3 ==> mqtt_open_outcome(Urc::MqttOpen(r), port) == Some(
            Err::<(), ModemError>(ModemError::NoContext),
        ),
        (r.result == 1 || r.result == 2) ==> mqtt_open_outcome(Urc::MqttOpen(r), port) == Some(
            Err::<(), ModemError>(ModemError::MqttRequestFailed),
        ),
        !(urc is MqttOpen) ==> mqtt_open_outcome(urc, port) is None,
{
}

/// A disconnect and a close each succeed exactly on result 0 and fail with
/// `MqttRequestFailed` on any other; no other code ends their waits.
pub proof fn law_mqtt_disconnect_close_result(d: MqttDisconnectResponse, c: MqttCloseResponse, urc: Urc)
    ensures
        mqtt_disconnect_outcome(Urc::MqttDisconnect(d)) == Some(Ok::<(), ModemError>(())) <==> d.result
            == 0,
        d.result != 0 ==> mqtt_disconnect_outcome(Urc::MqttDisconnect(d)) == Some(
            Err::<(), ModemError>(ModemError::MqttRequestFailed),
        ),
        mqtt_close_outcome(Urc::MqttClose(c)) == Some(Ok::<(), ModemError>(())) <==> c.result == 0,
        c.result != 0 ==> mqtt_close_outcome(Urc::MqttClose(c)) == Some(
            Err::<(), ModemError>(ModemError::MqttRequestFailed),
        ),
        !(urc is MqttDisconnect) ==> mqtt_disconnect_outcome(urc) is None,
        !(urc is MqttClose) ==> mqtt_close_outcome(urc) is None,
        mqtt_status_seen(urc) <==> urc is MqttStatus,
{
}

/// An MQTT connection: an open reply with result 0, or no open reply in
/// time, goes on to `AT+QMTCONN`, and any other open result ends the attempt
/// with an error; the connect reply ends it, successfully exactly when the
/// packet was sent and accepted; no connect reply in time is taken as
/// success; any other code keeps the stage waiting.
pub proof fn law_mqtt_connect_flow(o: MqttOpenResponse, c: MqttConnectResponse, port: u16, u: Urc)
    ensures
        connect_next(ConnectStage::AwaitOpen, WaitEvent::Received(Urc::MqttOpen(o)), port)
            == ConnectAction::SendConnect <==> o.result == 0,
        o.result != 0 ==> connect_next(ConnectStage::AwaitOpen, WaitEvent::Received(Urc::MqttOpen(o)), port)
            matches ConnectAction::Finish(Err(_)),
        connect_next(ConnectStage::AwaitOpen, WaitEvent::TimedOut, port) == ConnectAction::SendConnect,
        connect_next(ConnectStage::AwaitConnect, WaitEvent::Received(Urc::MqttConnect(c)), port)
            == ConnectAction::Finish(Ok::<(), ModemError>(())) <==> (c.result == 0 && c.ret_code == 0),
        !(c.result == 0 && c.ret_code == 0) ==> connect_next(
            ConnectStage::AwaitConnect,
            WaitEvent::Received(Urc::MqttConnect(c)),
            port,
        ) == ConnectAction::Finish(Err::<(), ModemError>(ModemError::MqttRequestFailed)),
        connect_next(ConnectStage::AwaitConnect, WaitEvent::TimedOut, port) == ConnectAction::Finish(
            Ok::<(), ModemError>(()),
        ),
        !(u is MqttOpen) ==> connect_next(ConnectStage::AwaitOpen, WaitEvent::Received(u), port)
            == ConnectAction::Wait(ConnectStage::AwaitOpen),
        !(u is MqttConnect) ==> connect_next(ConnectStage::AwaitConnect, WaitEvent::Received(u), port)
            == ConnectAction::Wait(ConnectStage::AwaitConnect),
{
}

/// An MQTT disconnect: a failed `+QMTDISC` ends it with
/// `MqttRequestFailed`; a successful one, or none in time, ends it
/// successfully unless the firmware needs an explicit close, which then
/// waits for `+QMTSTAT` and, once it comes or the wait runs out, sends
/// `AT+QMTCLOSE`; the close reply ends it, successfully exactly on result 0,
/// and no reply in time is taken as success. Without an explicit close,
/// `AT+QMTCLOSE` is never sent.
pub proof fn law_mqtt_disconnect_flow(
    d: MqttDisconnectResponse,
    c: MqttCloseResponse,
    stage: DisconnectStage,
    e: WaitEvent,
    explicit_close: bool,
    u: Urc,
)
    ensures
        d.result != 0 ==> disconnect_next(
            DisconnectStage::AwaitDisconnect,
            WaitEvent::Received(Urc::MqttDisconnect(d)),
            explicit_close,
        ) == DisconnectAction::Finish(Err::<(), ModemError>(ModemError::MqttRequestFailed)),
        d.result == 0 ==> disconnect_next(
            DisconnectStage::AwaitDisconnect,
            WaitEvent::Received(Urc::MqttDisconnect(d)),
            explicit_close,
        ) == (if explicit_close {
            DisconnectAction::Wait(DisconnectStage::AwaitStatus)
        } else {
            DisconnectAction::Finish(Ok::<(), ModemError>(()))
        }),
        u is MqttStatus ==> disconnect_next(DisconnectStage::AwaitStatus, WaitEvent::Received(u), true)
            == DisconnectAction::SendClose,
        disconnect_next(DisconnectStage::AwaitStatus, WaitEvent::TimedOut, true)
            == DisconnectAction::SendClose,
        disconnect_next(DisconnectStage::AwaitClose, WaitEvent::Received(Urc::MqttClose(c)), true)
            == DisconnectAction::Finish(Ok::<(), ModemError>(())) <==> c.result == 0,
        c.result != 0 ==> disconnect_next(
            DisconnectStage::AwaitClose,
            WaitEvent::Received(Urc::MqttClose(c)),
            true,
        ) == DisconnectAction::Finish(Err::<(), ModemError>(ModemError::MqttRequestFailed)),
        disconnect_next(DisconnectStage::AwaitClose, WaitEvent::TimedOut, true)
            == DisconnectAction::Finish(Ok::<(), ModemError>(())),
        stage == DisconnectStage::AwaitDisconnect && !explicit_close ==> disconnect_next(
            stage,
            e,
            explicit_close,
        ) != DisconnectAction::SendClose && disconnect_next(stage, e, explicit_close)
            != DisconnectAction::Wait(DisconnectStage::AwaitStatus),
{
}

} // verus!
