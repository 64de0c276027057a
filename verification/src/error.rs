//! Failure classification for the session layer.
//!
//! The transport reports failures as one of three plain kinds; the session
//! turns each, together with the operation it interrupted, into one
//! `SessionError`. Nothing is retried here: every error is surfaced to the
//! caller with the operation it belongs to.

use vstd::prelude::*;

verus! {

/// A transport-level failure, as the external transport hands it back:
/// the operation ran out of time, the resource was already closed (or was
/// closed underneath the operation), or anything else.
#[derive(Clone, Copy, Debug, PartialEq, Eq, Structural)]
pub enum TransportError {
    TimedOut,
    Closed,
    Other,
}

/// What went wrong with a session operation.
///
/// Construction and connect failures are recoverable at the caller's
/// discretion (a fresh attempt is permitted); `NotConnected` is a caller
/// error; the send/receive variants report one failed exchange and leave the
/// session as it was; `ConnectionClosed` is terminal for a background
/// listener; `DisposeFailed` is a soft error, safe to ignore.
#[derive(Clone, Copy, Debug, PartialEq, Eq, Structural)]
pub enum SessionError {
    /// Allocating the transport handle or applying its options failed.
    ConstructionFailed,
    /// Dialing the endpoint failed; the session stays unconnected.
    ConnectFailed,
    /// A connect was attempted on a session that already holds a live
    /// connection; a session drives one connection only.
    AlreadyConnected,
    /// The operation needs a live connection, but the session was never
    /// connected or is already closed.
    NotConnected,
    /// Submitting a payload did not complete within the configured window.
    SendTimedOut,
    /// The transport rejected the submission.
    SendFailed,
    /// No reply arrived within the configured window.
    ReceiveTimedOut,
    /// The transport failed while receiving, for a recoverable reason.
    ReceiveFailed,
    /// The connection is gone; no further receive can succeed.
    ConnectionClosed,
    /// A second background listener was requested for the one handle this
    /// session owns; at most one may be outstanding.
    ListenerActive,
    /// The stop signal for a background listener could not be delivered
    /// because the listener already went away.
    DisposeFailed,
}

impl SessionError {
    /// The diagnostic line this error stands for, naming the operation.
    pub open spec fn describe_spec(self) -> Seq<char> {
        match self {
            SessionError::ConstructionFailed => "construct: transport handle setup failed"@,
            SessionError::ConnectFailed => "connect: dial failed"@,
            SessionError::AlreadyConnected => "connect: session already connected"@,
            SessionError::NotConnected => "socket not connected"@,
            SessionError::SendTimedOut => "send: submission timed out"@,
            SessionError::SendFailed => "send: transport rejected the message"@,
            SessionError::ReceiveTimedOut => "receive: timed out waiting for a message"@,
            SessionError::ReceiveFailed => "receive: transport error"@,
            SessionError::ConnectionClosed => "receive: connection closed"@,
            SessionError::ListenerActive => "listen: a receive loop is already running"@,
            SessionError::DisposeFailed => "dispose: stop signal could not be delivered"@,
        }
    }

    /// A diagnostic line naming the failed operation, for the caller to log
    /// or wrap.
    pub fn describe(&self) -> (r: &'static str)
        ensures
            r@ == self.describe_spec(),
    {
        match self {
            SessionError::ConstructionFailed => "construct: transport handle setup failed",
            SessionError::ConnectFailed => "connect: dial failed",
            SessionError::AlreadyConnected => "connect: session already connected",
            SessionError::NotConnected => "socket not connected",
            SessionError::SendTimedOut => "send: submission timed out",
            SessionError::SendFailed => "send: transport rejected the message",
            SessionError::ReceiveTimedOut => "receive: timed out waiting for a message",
            SessionError::ReceiveFailed => "receive: transport error",
            SessionError::ConnectionClosed => "receive: connection closed",
            SessionError::ListenerActive => "listen: a receive loop is already running",
            SessionError::DisposeFailed => "dispose: stop signal could not be delivered",
        }
    }
}

} // verus!
