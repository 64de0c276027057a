use socket_session::Lifecycle;
use socket_session::ProtocolType;
use socket_session::SessionError;
use socket_session::SocketOptions;
use socket_session::SocketSession;
use socket_session::TransportError;

fn opts(recv: Option<u32>, send: Option<u32>) -> SocketOptions {
    SocketOptions { recv_timeout_ms: recv, send_timeout_ms: send }
}

#[test]
fn new_session_is_not_connected() {
    let s = SocketSession::new(opts(None, None));
    assert!(!s.is_connected());
    let s = SocketSession::new(opts(Some(0), Some(0)));
    assert!(!s.is_connected());
    let s = SocketSession::new(opts(Some(1000), Some(1000)));
    assert!(!s.is_connected());
    let s = SocketSession::new(opts(Some(u32::MAX), None));
    assert!(!s.is_connected());
    assert_eq!(s.lifecycle, Lifecycle::Idle);
    assert!(s.endpoint().is_none());
}

#[test]
fn successful_connect_reports_connected() {
    let mut s = SocketSession::new(opts(Some(100), Some(100)));
    assert!(s.begin_connect(ProtocolType::Pair0).is_ok());
    let r = s.finish_connect(String::from("tcp://127.0.0.1:7000"), Ok(()));
    assert!(r.is_ok());
    assert!(s.is_connected());
    assert_eq!(s.endpoint().as_deref(), Some("tcp://127.0.0.1:7000"));
}

#[test]
fn failed_dial_leaves_session_idle_and_retryable() {
    let mut s = SocketSession::new(opts(None, None));
    let r = s.finish_connect(String::from("tcp://nowhere:1"), Err(TransportError::Other));
    assert_eq!(r, Err(SessionError::ConnectFailed));
    assert!(!s.is_connected());
    assert_eq!(s.lifecycle, Lifecycle::Idle);
    // the dial may be retried in place
    let r = s.finish_connect(String::from("tcp://127.0.0.1:7001"), Ok(()));
    assert!(r.is_ok());
    assert!(s.is_connected());
}

#[test]
fn connect_on_connected_session_is_refused() {
    let mut s = SocketSession::new(opts(None, None));
    s.finish_connect(String::from("tcp://127.0.0.1:7002"), Ok(())).unwrap();
    assert_eq!(
        s.begin_connect(ProtocolType::Pair1),
        Err(SessionError::AlreadyConnected)
    );
    let r = s.finish_connect(String::from("tcp://127.0.0.1:7003"), Ok(()));
    assert_eq!(r, Err(SessionError::AlreadyConnected));
    // the refused connect changed nothing
    assert_eq!(s.endpoint().as_deref(), Some("tcp://127.0.0.1:7002"));
}

#[test]
fn close_disconnects_and_is_idempotent() {
    let mut s = SocketSession::new(opts(Some(10), Some(10)));
    s.finish_connect(String::from("tcp://127.0.0.1:7004"), Ok(())).unwrap();
    assert!(s.is_connected());

    let first = s.close();
    assert!(first.close_handle);
    assert!(!s.is_connected());
    assert!(s.endpoint().is_none());

    // the second close is a no-op: no error, nothing left to tear down
    let second = s.close();
    assert!(!second.close_handle);
    assert!(!second.signal_listener);
    assert!(!s.is_connected());
}

#[test]
fn closed_session_cannot_reconnect() {
    let mut s = SocketSession::new(opts(None, None));
    s.finish_connect(String::from("tcp://127.0.0.1:7005"), Ok(())).unwrap();
    s.close();
    s.finish_close();
    assert_eq!(s.lifecycle, Lifecycle::Closed);
    assert_eq!(
        s.begin_connect(ProtocolType::Pair0),
        Err(SessionError::NotConnected)
    );
    let r = s.finish_connect(String::from("tcp://127.0.0.1:7006"), Ok(()));
    assert_eq!(r, Err(SessionError::NotConnected));
    assert!(!s.is_connected());
}

#[test]
fn close_on_idle_session_changes_nothing() {
    let mut s = SocketSession::new(opts(None, None));
    let a = s.close();
    assert!(!a.close_handle);
    assert!(!a.signal_listener);
    assert_eq!(s.lifecycle, Lifecycle::Idle);
    // an idle session may still connect after a stray close
    assert!(s.begin_connect(ProtocolType::Bus0).is_ok());
}

#[test]
fn finish_close_settles_a_closing_session() {
    let mut s = SocketSession::new(opts(None, None));
    s.finish_connect(String::from("tcp://127.0.0.1:7007"), Ok(())).unwrap();
    s.close();
    assert_eq!(s.lifecycle, Lifecycle::Closing);
    s.finish_close();
    assert_eq!(s.lifecycle, Lifecycle::Closed);
    // settling an already-closed session changes nothing
    s.finish_close();
    assert_eq!(s.lifecycle, Lifecycle::Closed);
}
