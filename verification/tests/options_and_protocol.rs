use socket_session::ProtocolType;
use socket_session::SessionError;
use socket_session::SocketOptions;

#[test]
fn absent_and_zero_timeouts_mean_unbounded() {
    let o = SocketOptions { recv_timeout_ms: None, send_timeout_ms: None };
    assert_eq!(o.effective_recv_timeout(), None);
    assert_eq!(o.effective_send_timeout(), None);

    let o = SocketOptions { recv_timeout_ms: Some(0), send_timeout_ms: Some(0) };
    assert_eq!(o.effective_recv_timeout(), None);
    assert_eq!(o.effective_send_timeout(), None);
}

#[test]
fn positive_timeouts_are_kept_as_bounds() {
    let o = SocketOptions { recv_timeout_ms: Some(1), send_timeout_ms: Some(1000) };
    assert_eq!(o.effective_recv_timeout(), Some(1));
    assert_eq!(o.effective_send_timeout(), Some(1000));

    let o = SocketOptions { recv_timeout_ms: Some(u32::MAX), send_timeout_ms: Some(0) };
    assert_eq!(o.effective_recv_timeout(), Some(u32::MAX));
    assert_eq!(o.effective_send_timeout(), None);
}

#[test]
fn every_topology_has_its_transport_number() {
    let expected: [(ProtocolType, u16); 10] = [
        (ProtocolType::Pair0, 0x10),
        (ProtocolType::Pair1, 0x11),
        (ProtocolType::Pub0, 0x20),
        (ProtocolType::Sub0, 0x21),
        (ProtocolType::Req0, 0x30),
        (ProtocolType::Rep0, 0x31),
        (ProtocolType::Surveyor0, 0x62),
        (ProtocolType::Push0, 0x50),
        (ProtocolType::Pull0, 0x51),
        (ProtocolType::Bus0, 0x70),
    ];
    for (p, id) in expected {
        assert_eq!(p.transport_id(), id);
    }
}

#[test]
fn transport_numbers_are_distinct() {
    let all = [
        ProtocolType::Pair0,
        ProtocolType::Pair1,
        ProtocolType::Pub0,
        ProtocolType::Sub0,
        ProtocolType::Req0,
        ProtocolType::Rep0,
        ProtocolType::Surveyor0,
        ProtocolType::Push0,
        ProtocolType::Pull0,
        ProtocolType::Bus0,
    ];
    for (i, a) in all.iter().enumerate() {
        for (j, b) in all.iter().enumerate() {
            assert_eq!(a.transport_id() == b.transport_id(), i == j);
        }
    }
}

#[test]
fn every_error_names_its_operation() {
    let cases = [
        (SessionError::ConstructionFailed, "construct"),
        (SessionError::ConnectFailed, "connect"),
        (SessionError::AlreadyConnected, "connect"),
        (SessionError::NotConnected, "socket not connected"),
        (SessionError::SendTimedOut, "send"),
        (SessionError::SendFailed, "send"),
        (SessionError::ReceiveTimedOut, "receive"),
        (SessionError::ReceiveFailed, "receive"),
        (SessionError::ConnectionClosed, "receive"),
        (SessionError::ListenerActive, "listen"),
        (SessionError::DisposeFailed, "dispose"),
    ];
    for (err, prefix) in cases {
        assert!(err.describe().starts_with(prefix), "{:?}", err);
    }
    assert_eq!(SessionError::NotConnected.describe(), "socket not connected");
    assert_eq!(
        SessionError::ReceiveTimedOut.describe(),
        "receive: timed out waiting for a message"
    );
}
