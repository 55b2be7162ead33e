use modem_manager_rs::cellular::config::{
    nitz_timestamp_result, ntp_timestamp_result, ntp_urc_verdict, nitz_timestamp, rssi_to_percent, signal_from_rssi,
};
use modem_manager_rs::cellular::file::{
    download_size_check, file_close_result, file_write_step, FileWriteAction, FileWriteEvent,
    FileWriteStage, file_meta_result, file_read_request, file_read_step, file_upload_command,
    upload_urc_verdict, write_urc_verdict,
};
use modem_manager_rs::cellular::mqtt::{
    connect_step, disconnect_step, mqtt_connect_commands, mqtt_open_result, mqtt_publish_command,
    mqtt_status_verdict, ConnectAction, ConnectStage, DisconnectAction, DisconnectStage, WaitEvent,
};
use modem_manager_rs::cellular::power::{
    power_on_start, power_on_step, PowerOnAction, PowerOnStage,
};
use modem_manager_rs::cellular::registration::{
    poll_step, registration_budget_ms, registration_kind, registration_verdict, PollStep,
    RegistrationKind,
};
use modem_manager_rs::cellular::sim::{sim_attempt_verdict, sim_status_verdict};
use modem_manager_rs::cellular::socket::{
    copy_socket_read, payload_chunks, read_poll, socket_closed_in, socket_read_length,
    socket_send_chunks, ssl_context_plan, ssl_setup_steps, ssl_step_result, SslSetupStep, ssl_open_verdict, tcp_open_verdict, ClientIdAllocator,
    ReadPoll,
};
use modem_manager_rs::cellular::{
    context_configuration, gnss_fix_check, power_down_check, revision_from_version, DriverState,
    ModemMode,
};
use modem_manager_rs::quectel_atat::responses::{
    CmeError, FileListEntry, FileUploadDoneResponse, FileWriteResponse, MqttConnectResponse,
    MqttOpenResponse, MqttStatusResponse, NtpTimeResponse, SslOpenResponse, SslUrcResponse,
    TcpOpenResponse, TcpUrcResponse,
};
use modem_manager_rs::quectel_atat::types::{
    AuthenticationMethod, SslCheckHostEnable, SslConfiguration,
};
use modem_manager_rs::quectel_atat::urc::Urc;
use modem_manager_rs::chip::{ChipModel, ModemRevision};
use modem_manager_rs::ModemError;

#[test]
fn signal_percent_formula() {
    assert_eq!(rssi_to_percent(-140), 0);
    assert_eq!(rssi_to_percent(-30), 100);
    assert_eq!(rssi_to_percent(-85), 50);
    assert_eq!(rssi_to_percent(-100), 36);
    assert_eq!(rssi_to_percent(-200), 0);
    assert_eq!(rssi_to_percent(10), 100);
    assert_eq!(signal_from_rssi(Some(-85)), Ok((-85, 50)));
    assert_eq!(signal_from_rssi(None), Err(ModemError::NoNetwork));
}

#[test]
fn signal_percent_is_monotone_on_examples() {
    let mut last = 0u8;
    for rssi in -160i16..0 {
        let p = rssi_to_percent(rssi);
        assert!(p >= last && p <= 100);
        last = p;
    }
}

#[test]
fn ntp_result_and_urc() {
    assert_eq!(ntp_timestamp_result(None), Err(ModemError::NtpRequestFailed));
    assert_eq!(ntp_timestamp_result(Some(42)), Ok(42));
    let ok = Urc::NtpTime(NtpTimeResponse { err: 0, time: "2025/11/11,19:39:05+00".to_string() });
    assert_eq!(ntp_urc_verdict(&ok), Some(Ok(1762889945)));
    let failed = Urc::NtpTime(NtpTimeResponse { err: 1, time: "2025/11/11,19:39:05+00".to_string() });
    assert_eq!(ntp_urc_verdict(&failed), Some(Err(ModemError::NtpRequestFailed)));
    let garbled = Urc::NtpTime(NtpTimeResponse { err: 0, time: "garbage".to_string() });
    assert_eq!(ntp_urc_verdict(&garbled), Some(Err(ModemError::NtpRequestFailed)));
    assert_eq!(ntp_urc_verdict(&Urc::Ready), None);
}

#[test]
fn nitz_timestamp_checks() {
    assert_eq!(nitz_timestamp("2025/11/11,19:39:05+00,1"), Some(1762889945));
    assert_eq!(nitz_timestamp("2025/11/11,19:39:05+00"), None);
}

#[test]
fn registration_decisions() {
    assert_eq!(registration_kind(ModemMode::EDGE), Ok(RegistrationKind::Gprs));
    assert_eq!(registration_kind(ModemMode::GPRS), Ok(RegistrationKind::Gprs));
    assert_eq!(registration_kind(ModemMode::LTEM), Ok(RegistrationKind::Eps));
    assert_eq!(registration_kind(ModemMode::NBIoT), Ok(RegistrationKind::Eps));
    assert_eq!(registration_kind(ModemMode::Unknown), Err(ModemError::NoNetwork));
    assert_eq!(registration_verdict(1), Some(Ok(())));
    assert_eq!(registration_verdict(5), Some(Ok(())));
    assert_eq!(registration_verdict(2), None);
    assert_eq!(registration_verdict(3), Some(Err(ModemError::NoNetwork)));
    assert_eq!(registration_verdict(4), Some(Err(ModemError::NoNetwork)));
    assert_eq!(registration_verdict(0), Some(Err(ModemError::NoNetwork)));
    assert_eq!(registration_budget_ms(60_000, 12_500), 47_500);
}

#[test]
fn sim_decisions() {
    assert_eq!(sim_status_verdict("READY"), Some(Ok(())));
    assert_eq!(sim_status_verdict("SIM PIN"), Some(Err(ModemError::SimError)));
    assert_eq!(sim_status_verdict("SIM PUK"), None);
    let busy = [Urc::CmeError(CmeError { err: 14 })];
    let missing = [Urc::Ready, Urc::CmeError(CmeError { err: 10 })];
    assert_eq!(sim_attempt_verdict(0, None, &busy), None);
    assert_eq!(sim_attempt_verdict(0, None, &missing), Some(Err(ModemError::SimError)));
    assert_eq!(sim_attempt_verdict(4, None, &busy), Some(Err(ModemError::SimErrorUnknown)));
    assert_eq!(sim_attempt_verdict(4, Some("READY"), &busy), Some(Ok(())));
    assert_eq!(sim_attempt_verdict(1, Some("NOT READY YET"), &[]), Some(Ok(())));
}

#[test]
fn socket_send_chunking() {
    let data: Vec<u8> = (0..600u32).map(|i| (i % 251) as u8).collect();
    let chunks = socket_send_chunks(&data).unwrap();
    assert_eq!(chunks.len(), 3);
    assert_eq!(chunks[0].len(), 256);
    assert_eq!(chunks[1].len(), 256);
    assert_eq!(chunks[2].len(), 88);
    let joined: Vec<u8> = chunks.concat();
    assert_eq!(joined, data);
    assert!(socket_send_chunks(&[]).unwrap().is_empty());
    assert_eq!(payload_chunks(&[7u8; 256]).len(), 1);
    let big = vec![0u8; 65536];
    assert_eq!(socket_send_chunks(&big), Err(ModemError::NotSupported));
    assert_eq!(socket_send_chunks(&big[..65535]).unwrap().len(), 256);
}

#[test]
fn socket_read_sizes_and_copy() {
    assert_eq!(socket_read_length(0), 0);
    assert_eq!(socket_read_length(100), 100);
    assert_eq!(socket_read_length(4096), 512);
    let mut buf = [9u8; 8];
    let n = copy_socket_read(5, &[1, 2, 3, 4, 5, 6], &mut buf);
    assert_eq!(n, 5);
    assert_eq!(buf, [1, 2, 3, 4, 5, 9, 9, 9]);
    let mut small = [0u8; 2];
    assert_eq!(copy_socket_read(5, &[1, 2, 3], &mut small), 2);
    assert_eq!(small, [1, 2]);
}

#[test]
fn socket_open_and_close_reports() {
    let ok = Urc::SslOpen(SslOpenResponse { client_id: 1, err: 0 });
    let bad = Urc::SslOpen(SslOpenResponse { client_id: 1, err: 565 });
    let other = Urc::SslOpen(SslOpenResponse { client_id: 2, err: 0 });
    assert_eq!(ssl_open_verdict(&ok, 1), Some(Ok(())));
    assert_eq!(ssl_open_verdict(&bad, 1), Some(Err(ModemError::SocketOpenFailed)));
    assert_eq!(ssl_open_verdict(&other, 1), None);
    let tcp = Urc::TcpOpen(TcpOpenResponse { connect_id: 0, err: 0 });
    assert_eq!(tcp_open_verdict(&tcp, 0), Some(Ok(())));
    assert_eq!(tcp_open_verdict(&ok, 1), None);
    let urcs = [
        Urc::TcpUrc(TcpUrcResponse { urc_type: "recv".to_string(), connect_id: 3 }),
        Urc::SslUrc(SslUrcResponse { urc_type: "closed".to_string(), client_id: 4 }),
    ];
    assert!(socket_closed_in(&urcs, 4));
    assert!(!socket_closed_in(&urcs, 3));
}

#[test]
fn blocking_read_decisions() {
    assert_eq!(read_poll(3, false, 0, Some(30_000)), ReadPoll::Data(3));
    assert_eq!(read_poll(0, true, 0, Some(30_000)), ReadPoll::DrainThenEof);
    assert_eq!(read_poll(0, false, 30_000, Some(30_000)), ReadPoll::TimedOut);
    assert_eq!(read_poll(0, false, 29_999, Some(30_000)), ReadPoll::Retry);
    assert_eq!(read_poll(0, false, u64::MAX, None), ReadPoll::Retry);
}

#[test]
fn client_ids_wrap() {
    let mut ids = ClientIdAllocator::new();
    assert_eq!(ids.allocate(), 0);
    assert_eq!(ids.allocate(), 1);
    for _ in 2..256 {
        ids.allocate();
    }
    assert_eq!(ids.allocate(), 0);
}

#[test]
fn ssl_context_plan_mutual_tls() {
    let mut cfg = SslConfiguration::new();
    cfg.set_ca_cert("ca.pem").unwrap();
    cfg.set_client_cert("client.pem").unwrap();
    cfg.set_client_key("client.key").unwrap();
    let plan = ssl_context_plan(&cfg);
    let ca = plan.ca_cert.unwrap();
    assert_eq!(ca.subcommand, "cacert");
    assert_eq!(ca.ca_cert_path, "ca.pem");
    assert_eq!(ca.context_id, 2);
    let (cert, key) = plan.credentials.unwrap().unwrap();
    assert_eq!(cert.client_cert_path, "client.pem");
    assert_eq!(key.client_key_path, "client.key");
    assert_eq!(plan.cipher_suites.cipher_suites, b"0xFFFF".to_vec());
    assert_eq!(plan.ignore_local_time.subcommand, "ignorelocaltime");
    assert_eq!(plan.check_host.subcommand, "checkhost");
    assert_eq!(plan.check_host.context_id, 2);
    assert_eq!(plan.check_host.checkhost_enable, SslCheckHostEnable::Disable);
    cfg.set_check_host(true);
    assert_eq!(ssl_context_plan(&cfg).check_host.checkhost_enable, SslCheckHostEnable::Enable);
}

#[test]
fn ssl_context_plan_half_credentials_refused() {
    let mut cfg = SslConfiguration::new();
    cfg.set_client_cert("client.pem").unwrap();
    let plan = ssl_context_plan(&cfg);
    assert!(plan.ca_cert.is_none());
    assert!(matches!(plan.credentials, Err(ModemError::SslCertificateInvalid)));
    let none = ssl_context_plan(&SslConfiguration::new());
    assert!(matches!(none.credentials, Ok(None)));
}

#[test]
fn mqtt_open_codes() {
    assert_eq!(mqtt_open_result(0, 1883), None);
    assert_eq!(mqtt_open_result(-1, 1883), Some(ModemError::NoNetwork));
    assert_eq!(mqtt_open_result(1, 1883), Some(ModemError::MqttRequestFailed));
    assert_eq!(mqtt_open_result(2, 8883), Some(ModemError::MqttRequestFailed));
    assert_eq!(mqtt_open_result(3, 8883), Some(ModemError::NoContext));
    assert_eq!(mqtt_open_result(4, 8883), Some(ModemError::SslHostnameMismatch));
    assert_eq!(mqtt_open_result(4, 1883), Some(ModemError::MqttRequestFailed));
    assert_eq!(mqtt_open_result(5, 8883), Some(ModemError::SslCertificateInvalid));
    assert_eq!(mqtt_open_result(5, 1883), Some(ModemError::NoNetwork));
    assert_eq!(mqtt_open_result(7, 8883), Some(ModemError::SslCipherNegotiationFailed));
    assert_eq!(mqtt_open_result(7, 1883), Some(ModemError::MqttRequestFailed));
}

#[test]
fn mqtt_connect_flow() {
    let open_ok = WaitEvent::Received(Urc::MqttOpen(MqttOpenResponse { tcpconnect_id: 0, result: 0 }));
    assert_eq!(connect_step(ConnectStage::AwaitOpen, &open_ok, 1883), ConnectAction::SendConnect);
    assert_eq!(
        connect_step(ConnectStage::AwaitOpen, &WaitEvent::TimedOut, 1883),
        ConnectAction::SendConnect
    );
    let refused = WaitEvent::Received(Urc::MqttConnect(MqttConnectResponse {
        tcpconnect_id: 0,
        result: 0,
        ret_code: 5,
    }));
    assert_eq!(
        connect_step(ConnectStage::AwaitConnect, &refused, 1883),
        ConnectAction::Finish(Err(ModemError::MqttRequestFailed))
    );
    assert_eq!(
        connect_step(ConnectStage::AwaitConnect, &WaitEvent::TimedOut, 1883),
        ConnectAction::Finish(Ok(()))
    );
    let cmds = mqtt_connect_commands("broker", 8883, "id", "", "", Some(2));
    assert_eq!(cmds.enable_ssl.unwrap().ssl_ctx_id, 2);
    assert_eq!(cmds.connect.username, Some(String::new()));
    assert_eq!(mqtt_publish_command("t", "p", 0).msg_id, 0);
    assert_eq!(mqtt_publish_command("t", "p", 1).msg_id, 1);
}

#[test]
fn mqtt_disconnect_flow() {
    let status = WaitEvent::Received(Urc::MqttStatus(MqttStatusResponse { tcpconnect_id: 0, err: 5 }));
    assert!(!mqtt_status_verdict(&Urc::Ready));
    assert!(mqtt_status_verdict(&Urc::MqttStatus(MqttStatusResponse { tcpconnect_id: 0, err: 1 })));
    assert_eq!(
        disconnect_step(DisconnectStage::AwaitDisconnect, &WaitEvent::TimedOut, false),
        DisconnectAction::Finish(Ok(()))
    );
    assert_eq!(
        disconnect_step(DisconnectStage::AwaitDisconnect, &WaitEvent::TimedOut, true),
        DisconnectAction::Wait(DisconnectStage::AwaitStatus)
    );
    assert_eq!(
        disconnect_step(DisconnectStage::AwaitStatus, &status, true),
        DisconnectAction::SendClose
    );
    assert_eq!(
        disconnect_step(DisconnectStage::AwaitStatus, &WaitEvent::TimedOut, true),
        DisconnectAction::SendClose
    );
    assert_eq!(
        disconnect_step(DisconnectStage::AwaitClose, &WaitEvent::TimedOut, true),
        DisconnectAction::Finish(Ok(()))
    );
}

#[test]
fn file_decisions() {
    assert_eq!(file_meta_result(&[]), Err(ModemError::FileUploadFailed));
    let files = [FileListEntry { filename: "ca.pem".to_string(), file_size: 1200 }];
    assert_eq!(file_meta_result(&files), Ok(("ca.pem".to_string(), 1200)));
    assert_eq!(download_size_check(10, 5), Err(ModemError::FileUploadFailed));
    assert_eq!(download_size_check(5, 5), Ok(5));
    assert_eq!(file_read_request(0, 1000), 128);
    assert_eq!(file_read_request(950, 1000), 50);
    let mut buf = [0u8; 6];
    assert_eq!(file_read_step(&mut buf, 0, 4, 4, &[1, 2, 3, 4]), (4, true));
    assert_eq!(file_read_step(&mut buf, 4, 2, 1, &[5]), (5, false));
    assert_eq!(buf, [1, 2, 3, 4, 5, 0]);
    assert_eq!(file_read_step(&mut buf, 5, 1, 0, &[]), (5, false));
    let cmd = file_upload_command("ca.pem", 1200);
    assert_eq!(cmd.file_size, 1200);
    assert_eq!(cmd.timeout, Some(3));
    let done = Urc::FileUploadDone(FileUploadDoneResponse { upload_size: 1199, checksum: vec![] });
    assert_eq!(upload_urc_verdict(&done, 1200), Some(ModemError::FileUploadFailed));
    assert_eq!(upload_urc_verdict(&done, 1199), None);
    let written = Urc::FileWriteDone(FileWriteResponse { written_length: 10, total_length: 10 });
    assert_eq!(write_urc_verdict(&written, 10), Some(Ok(())));
    assert_eq!(write_urc_verdict(&written, 11), Some(Err(ModemError::FileUploadFailed)));
}

#[test]
fn small_driver_decisions() {
    assert_eq!(gnss_fix_check(0), Err(ModemError::GnssNotFixed));
    assert_eq!(gnss_fix_check(1), Ok(()));
    assert_eq!(power_down_check(true), Err(ModemError::OperationTimeout));
    assert_eq!(power_down_check(false), Ok(()));
    let ctx = context_configuration("internet", "", "", AuthenticationMethod::PAP);
    assert_eq!(ctx.context_id, 1);
    assert_eq!(ctx.authentication, 1);
    assert_eq!(ctx.apn, "internet");
    let mut state = DriverState::new();
    state.set_mode(ModemMode::LTEM);
    state.ssl_configured = true;
    state.reset_ssl_context();
    assert!(!state.ssl_configured);
    assert_eq!(state.mode, ModemMode::LTEM);
    state.set_imei(b"123456789012345");
    assert_eq!(&state.imei, b"123456789012345");
}

#[test]
fn error_messages() {
    assert_eq!(ModemError::NotResponding.message(), "Modem not responding");
    assert_eq!(ModemError::SocketRecvFailed.message(), "Socket receive failed");
}

#[test]
fn revision_from_version_reply() {
    assert_eq!(revision_from_version(ChipModel::Bg95, b""), None);
    assert_eq!(
        revision_from_version(ChipModel::Bg95, b"BG95M3LAR02A03_01.200.01.200"),
        Some(ModemRevision::R200)
    );
    assert_eq!(
        revision_from_version(ChipModel::Bg95, &[0xff, 0xfe]),
        Some(ModemRevision::Unknown)
    );
}

/// Runs a bring-up against a modem whose replies are given in order.
fn run_power_on(replies: &[bool]) -> (Vec<(u64, PowerOnStage)>, u64, Result<(), ModemError>) {
    let mut sent = Vec::new();
    let mut action = power_on_start();
    let mut next = 0;
    loop {
        match action {
            PowerOnAction::Send { pause_ms, stage } => {
                sent.push((pause_ms, stage));
                let answered = replies[next];
                next += 1;
                action = power_on_step(stage, answered);
            }
            PowerOnAction::Finish { pause_ms, result } => return (sent, pause_ms, result),
        }
    }
}

#[test]
fn power_on_probes_then_turns_echo_off() {
    let (sent, pause, result) = run_power_on(&[false, true, true]);
    assert_eq!(
        sent,
        vec![
            (5000, PowerOnStage::Probe(0)),
            (5000, PowerOnStage::Probe(1)),
            (0, PowerOnStage::EchoOff(0)),
        ]
    );
    assert_eq!(pause, 0);
    assert_eq!(result, Ok(()));
}

#[test]
fn power_on_gives_up_after_three_silent_probes() {
    let (sent, pause, result) = run_power_on(&[false, false, false]);
    assert_eq!(sent.len(), 3);
    assert!(sent.iter().all(|(_, s)| matches!(s, PowerOnStage::Probe(_))));
    assert_eq!(pause, 5000);
    assert_eq!(result, Err(ModemError::NotResponding));
}

#[test]
fn power_on_fails_when_echo_stays_on() {
    let (sent, pause, result) = run_power_on(&[true, false, false, false]);
    assert_eq!(
        sent,
        vec![
            (5000, PowerOnStage::Probe(0)),
            (0, PowerOnStage::EchoOff(0)),
            (500, PowerOnStage::EchoOff(1)),
            (500, PowerOnStage::EchoOff(2)),
        ]
    );
    assert_eq!(pause, 500);
    assert_eq!(result, Err(ModemError::NotResponding));
}

#[test]
fn timed_poll_steps() {
    assert_eq!(poll_step(Some(ModemMode::LTEM), 70_000, 60_000), PollStep::Found(ModemMode::LTEM));
    assert_eq!(poll_step::<ModemMode>(None, 1_000, 60_000), PollStep::Again);
    assert_eq!(poll_step::<ModemMode>(None, 60_000, 60_000), PollStep::TimedOut);
    assert_eq!(
        poll_step(registration_verdict(3), 500, 30_000),
        PollStep::Found(Err(ModemError::NoNetwork))
    );
    assert_eq!(poll_step(registration_verdict(2), 500, 30_000), PollStep::Again);
}

#[test]
fn file_close_keeps_earlier_errors() {
    assert_eq!(file_close_result(Ok(12usize), true), Ok(12));
    assert_eq!(file_close_result(Ok(12usize), false), Err(ModemError::FileUploadFailed));
    assert_eq!(file_close_result::<()>(Err(ModemError::NotResponding), true), Err(ModemError::NotResponding));
    assert_eq!(file_close_result::<()>(Err(ModemError::NotResponding), false), Err(ModemError::NotResponding));
}

/// Runs a file write of `len` bytes through the given events.
fn run_write(len: u32, events: Vec<FileWriteEvent>) -> Vec<FileWriteAction> {
    let mut stage = FileWriteStage::Opening;
    let mut actions = Vec::new();
    for e in events {
        let (a, next) = file_write_step(stage, &e, len);
        stage = next;
        actions.push(a);
    }
    actions
}

#[test]
fn file_write_opens_writes_and_closes() {
    let done = Urc::FileWriteDone(FileWriteResponse { written_length: 10, total_length: 10 });
    let short = Urc::FileWriteDone(FileWriteResponse { written_length: 4, total_length: 10 });
    assert_eq!(
        run_write(10, vec![FileWriteEvent::Done(false)]),
        vec![FileWriteAction::Finish(Err(ModemError::FileUploadFailed))]
    );
    assert_eq!(
        run_write(
            10,
            vec![
                FileWriteEvent::Done(true),
                FileWriteEvent::Done(true),
                FileWriteEvent::Received(Urc::Ready),
                FileWriteEvent::Received(done),
                FileWriteEvent::Done(true),
            ]
        ),
        vec![
            FileWriteAction::Upload,
            FileWriteAction::Wait,
            FileWriteAction::Wait,
            FileWriteAction::Close(Ok(())),
            FileWriteAction::Finish(Ok(())),
        ]
    );
    assert_eq!(
        run_write(10, vec![FileWriteEvent::Done(true), FileWriteEvent::Done(true), FileWriteEvent::Received(short), FileWriteEvent::Done(true)]),
        vec![
            FileWriteAction::Upload,
            FileWriteAction::Wait,
            FileWriteAction::Close(Err(ModemError::FileUploadFailed)),
            FileWriteAction::Finish(Err(ModemError::FileUploadFailed)),
        ]
    );
    assert_eq!(
        run_write(10, vec![FileWriteEvent::Done(true), FileWriteEvent::Done(false), FileWriteEvent::Done(true)]),
        vec![
            FileWriteAction::Upload,
            FileWriteAction::Close(Err(ModemError::FileUploadFailed)),
            FileWriteAction::Finish(Err(ModemError::FileUploadFailed)),
        ]
    );
    assert_eq!(
        run_write(10, vec![FileWriteEvent::Done(true), FileWriteEvent::Done(true), FileWriteEvent::TimedOut, FileWriteEvent::Done(false)]),
        vec![
            FileWriteAction::Upload,
            FileWriteAction::Wait,
            FileWriteAction::Close(Ok(())),
            FileWriteAction::Finish(Err(ModemError::FileUploadFailed)),
        ]
    );
}

#[test]
fn ssl_setup_steps_in_order() {
    let mut cfg = SslConfiguration::new();
    assert_eq!(
        ssl_setup_steps(&cfg),
        vec![SslSetupStep::SendSecurityLevel, SslSetupStep::SendVersion, SslSetupStep::SendCipherSuites, SslSetupStep::SendSni, SslSetupStep::SendCheckHost, SslSetupStep::SendIgnoreLocalTime]
    );
    cfg.set_ca_cert("ca.pem").unwrap();
    cfg.set_client_cert("client.pem").unwrap();
    assert_eq!(
        ssl_setup_steps(&cfg),
        vec![SslSetupStep::RequireCaFile, SslSetupStep::SendCaCert, SslSetupStep::Fail(ModemError::SslCertificateInvalid)]
    );
    cfg.set_client_key("client.key").unwrap();
    assert_eq!(
        ssl_setup_steps(&cfg),
        vec![
            SslSetupStep::RequireCaFile,
            SslSetupStep::SendCaCert,
            SslSetupStep::RequireClientCertFile,
            SslSetupStep::RequireClientKeyFile,
            SslSetupStep::SendClientCert,
            SslSetupStep::SendClientKey,
            SslSetupStep::SendSecurityLevel,
            SslSetupStep::SendVersion,
            SslSetupStep::SendCipherSuites,
            SslSetupStep::SendSni,
            SslSetupStep::SendCheckHost,
            SslSetupStep::SendIgnoreLocalTime,
        ]
    );
    assert_eq!(ssl_step_result(SslSetupStep::RequireClientKeyFile, false), Err(ModemError::SslCertificateNotFound));
    assert_eq!(ssl_step_result(SslSetupStep::SendSni, false), Err(ModemError::NotResponding));
    assert_eq!(ssl_step_result(SslSetupStep::SendSni, true), Ok(()));
    assert_eq!(ssl_step_result(SslSetupStep::Fail(ModemError::SslCertificateInvalid), true), Err(ModemError::SslCertificateInvalid));
}

#[test]
fn nitz_result_of_a_read_time() {
    assert_eq!(nitz_timestamp_result(Some(1_700_000_000)), Ok(1_700_000_000));
}
