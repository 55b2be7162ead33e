use modem_manager_rs::net::{
    SessionResult,
    CellularNetworkError, Control, NetworkStatus, Supervisor, SupervisorAction, SupervisorEvent,
    SupervisorPhase,
};
use modem_manager_rs::ppp::{ppp_ipv4_to_stack_config, Duplex, PppIpv4Status, Reclaimable};
use modem_manager_rs::tcp;
use modem_manager_rs::tcp_std::{receive_result, QuectelSocket, ReceiveOutcome, SocketError};
use modem_manager_rs::{ModemError, Transport};

#[test]
fn supervisor_backs_off_and_resets() {
    let mut s = Supervisor::new();
    assert_eq!(s.step(SupervisorEvent::Polled(None)), SupervisorAction::OpenSession);
    assert_eq!(s.step(SupervisorEvent::SetupFailed), SupervisorAction::Sleep(2));
    let mut waits = Vec::new();
    for _ in 0..6 {
        assert_eq!(s.step(SupervisorEvent::Polled(None)), SupervisorAction::OpenSession);
        match s.step(SupervisorEvent::SetupFailed) {
            SupervisorAction::Sleep(t) => waits.push(t),
            other => panic!("unexpected {:?}", other),
        }
    }
    assert_eq!(waits, vec![4, 8, 16, 32, 60, 60]);
    s.step(SupervisorEvent::Polled(None));
    assert_eq!(s.step(SupervisorEvent::Connected), SupervisorAction::RunLink);
    assert_eq!(s.backoff_s(), 2);
    assert_eq!(s.step(SupervisorEvent::LinkEnded), SupervisorAction::Sleep(2));
    assert_eq!(s.backoff_s(), 4);
}

#[test]
fn supervisor_pause_resume_shutdown() {
    let mut s = Supervisor::new();
    s.step(SupervisorEvent::Polled(Some(Control::Pause)));
    s.step(SupervisorEvent::Connected);
    assert_eq!(s.step(SupervisorEvent::Requested(Control::Pause)), SupervisorAction::WaitRequest);
    assert_eq!(s.phase(), SupervisorPhase::Paused);
    assert_eq!(s.step(SupervisorEvent::Requested(Control::Pause)), SupervisorAction::WaitRequest);
    assert_eq!(s.step(SupervisorEvent::Requested(Control::Resume)), SupervisorAction::Poll);
    assert_eq!(s.phase(), SupervisorPhase::Idle);
    assert_eq!(
        s.step(SupervisorEvent::Polled(Some(Control::Shutdown))),
        SupervisorAction::ConfirmShutdown
    );
    assert_eq!(s.phase(), SupervisorPhase::Stopped);
    assert_eq!(s.step(SupervisorEvent::Polled(None)), SupervisorAction::Stop);
}

#[test]
fn supervisor_unrecoverable_stops_silently() {
    let mut s = Supervisor::new();
    s.step(SupervisorEvent::Polled(None));
    assert_eq!(s.step(SupervisorEvent::Unrecoverable), SupervisorAction::Stop);
    assert_eq!(s.phase(), SupervisorPhase::Stopped);
}

#[test]
fn network_status_counts_sessions() {
    let mut st = NetworkStatus::default();
    assert_eq!(st.record_session(-85, 50), 1);
    assert_eq!(st.record_session(-90, 45), 2);
    assert_eq!(st, NetworkStatus { rssi_dbm: -90, signal_percent: 45, session_count: 2 });
    let e: CellularNetworkError<()> = ModemError::NoNetwork.into();
    assert!(matches!(e, CellularNetworkError::Modem(ModemError::NoNetwork)));
}

#[test]
fn reclaimable_round_trip() {
    let mut w = Reclaimable::new(5u32);
    *w.inner_mut() += 1;
    assert_eq!(w.take(), 6);
    w.put(9);
    assert_eq!(w.into_inner(), Some(9));
    let d = Duplex::new('r', "w");
    assert_eq!(d.into_parts(), ('r', "w"));
}

#[test]
fn ppp_stack_settings() {
    let status = PppIpv4Status {
        address: Some([10, 0, 0, 2]),
        peer_address: Some([10, 0, 0, 1]),
        dns_servers: [None, Some([8, 8, 8, 8])],
    };
    let cfg = ppp_ipv4_to_stack_config(&status).unwrap();
    assert_eq!(cfg.address, [10, 0, 0, 2]);
    assert_eq!(cfg.prefix_len, 32);
    assert_eq!(cfg.gateway, Some([10, 0, 0, 1]));
    assert_eq!(cfg.dns_servers, vec![[8, 8, 8, 8]]);
    let none = PppIpv4Status { address: None, ..status };
    assert!(ppp_ipv4_to_stack_config(&none).is_none());
}

#[test]
fn blocking_socket_handles() {
    let mut sock = QuectelSocket::new(Transport::Tls { ssl_ctx_id: 2 });
    assert_eq!(sock.send_id(), Err(SocketError::Modem(ModemError::SocketSendFailed)));
    assert_eq!(sock.recv_id(), Err(SocketError::Modem(ModemError::SocketRecvFailed)));
    sock.set_connected(7);
    assert_eq!(sock.client_id(), Some(7));
    assert_eq!(sock.send_id(), Ok(7));
    assert_eq!(sock.transport(), Transport::Tls { ssl_ctx_id: 2 });
    assert_eq!(receive_result(3, true), ReceiveOutcome::Data(3));
    assert_eq!(receive_result(0, true), ReceiveOutcome::Failed(SocketError::Closed));
    assert_eq!(receive_result(0, false), ReceiveOutcome::WouldBlock);
    assert_eq!(SocketError::from(ModemError::NoContext), SocketError::Modem(ModemError::NoContext));
    assert_eq!(tcp::SocketError::from(ModemError::NoContext), tcp::SocketError(ModemError::NoContext));
}

#[test]
fn status_counts_only_connected_sessions() {
    let mut st = NetworkStatus::default();
    st.record_outcome(SessionResult::Connected { rssi_dbm: -80, signal_percent: 60 });
    assert_eq!((st.session_count, st.rssi_dbm, st.signal_percent), (1, -80, 60));
    st.record_outcome(SessionResult::Failed);
    assert_eq!((st.session_count, st.rssi_dbm, st.signal_percent), (1, -80, 60));
    st.record_outcome(SessionResult::Unrecoverable);
    assert_eq!((st.session_count, st.rssi_dbm, st.signal_percent), (1, -80, 60));
    st.record_outcome(SessionResult::Connected { rssi_dbm: -95, signal_percent: 30 });
    assert_eq!((st.session_count, st.rssi_dbm, st.signal_percent), (2, -95, 30));
}
