//! The socket session: one transport handle, one lifecycle.
//!
//! A session is created idle, becomes connected through exactly one
//! successful dial, and ends closed; once closed it cannot be reconnected in
//! place. The transport performs the dial, the submission and the receive;
//! this module decides, for each of those outcomes, what the session's next
//! state and the caller's answer are, and it does so with no partial states:
//! a failed exchange leaves the session exactly as it was.
//!
//! The split mirrors the boundary to the transport: `begin_connect` says
//! whether a dial may happen and with which settings, `finish_connect`
//! records its outcome; `begin_send` guards the exchange, `finish_send`
//! classifies its outcome; `close` hands back what remains to be torn down.

use vstd::prelude::*;

use crate::cancel::CancellationHandle;
use crate::error::SessionError;
use crate::error::TransportError;
use crate::options::SocketOptions;
use crate::protocol::ProtocolType;

verus! {

/// Where a session stands in its life: never connected yet, holding a live
/// connection, tearing the connection down, or gone for good.
#[derive(Clone, Copy, Debug, PartialEq, Eq, Structural)]
pub enum Lifecycle {
    Idle,
    Connected,
    Closing,
    Closed,
}

/// Everything the transport needs to create and dial a handle for this
/// session: the numeric protocol identifier and the resolved timeouts
/// (`None` meaning an unbounded wait).
#[derive(Clone, Copy, Debug, PartialEq, Eq)]
pub struct DialPlan {
    pub protocol_id: u16,
    pub recv_timeout_ms: Option<u32>,
    pub send_timeout_ms: Option<u32>,
}

/// How one request/reply exchange went at the transport: the submission
/// failed, the submission went out but the reply did not arrive, or the
/// reply's bytes came back.
#[derive(Clone, Debug, PartialEq, Eq)]
pub enum ExchangeOutcome {
    SubmitFailed(TransportError),
    ReplyFailed(TransportError),
    Replied(Vec<u8>),
}

/// What a `close` call leaves for the transport to do: close the native
/// handle, and signal a background listener to stop.
#[derive(Clone, Copy, Debug, PartialEq, Eq, Structural)]
pub struct CloseAction {
    pub close_handle: bool,
    pub signal_listener: bool,
}

/// One logical socket session: its lifecycle, its configuration, the
/// endpoint it dialed, and whether a background listener is outstanding.
pub struct SocketSession {
    pub lifecycle: Lifecycle,
    pub options: SocketOptions,
    pub url: Option<String>,
    pub loop_active: bool,
}

/// The answer a finished exchange owes the caller: the reply's bytes when one
/// came back, otherwise the error naming the step that failed and the way it
/// failed. A timed-out submission and a timed-out reply are kept apart, and a
/// connection that is gone is terminal.
pub open spec fn classify_exchange(outcome: ExchangeOutcome) -> Result<Vec<u8>, SessionError> {
    match outcome {
        ExchangeOutcome::Replied(reply) => Ok(reply),
        ExchangeOutcome::SubmitFailed(TransportError::TimedOut) => Err(SessionError::SendTimedOut),
        ExchangeOutcome::SubmitFailed(TransportError::Closed) => Err(SessionError::SendFailed),
        ExchangeOutcome::SubmitFailed(TransportError::Other) => Err(SessionError::SendFailed),
        ExchangeOutcome::ReplyFailed(TransportError::TimedOut) => Err(
            SessionError::ReceiveTimedOut,
        ),
        ExchangeOutcome::ReplyFailed(TransportError::Closed) => Err(SessionError::ConnectionClosed),
        ExchangeOutcome::ReplyFailed(TransportError::Other) => Err(SessionError::ReceiveFailed),
    }
}

/// The state a `close` leaves the session in, and the teardown it asks of
/// the transport. Closing is idempotent: any session not holding a live
/// connection is left untouched, with nothing to tear down.
pub open spec fn close_spec(s: SocketSession) -> (SocketSession, CloseAction) {
    match s.lifecycle {
        Lifecycle::Connected => (
            SocketSession { lifecycle: Lifecycle::Closing, url: None, loop_active: false, ..s },
            CloseAction { close_handle: true, signal_listener: s.loop_active },
        ),
        _ => (s, CloseAction { close_handle: false, signal_listener: false }),
    }
}

impl SocketSession {
    /// The session holds a live connection.
    pub open spec fn connected(self) -> bool {
        self.lifecycle is Connected
    }

    /// The owner is tearing the connection down, or already has.
    pub open spec fn closing(self) -> bool {
        self.lifecycle is Closing || self.lifecycle is Closed
    }

    /// Well-formedness: the endpoint is recorded exactly while the
    /// connection is live, and a listener is outstanding only then.
    pub open spec fn wf(self) -> bool {
        &&& (self.url is Some <==> self.lifecycle is Connected)
        &&& (self.loop_active ==> self.lifecycle is Connected)
    }

    /// Create a session with the given configuration. It starts idle: not
    /// connected, no endpoint, no listener.
    pub fn new(options: SocketOptions) -> (s: Self)
        ensures
            s.lifecycle is Idle,
            !s.connected(),
            s.options == options,
            s.url is None,
            !s.loop_active,
            s.wf(),
    {
        SocketSession { lifecycle: Lifecycle::Idle, options, url: None, loop_active: false }
    }

    /// Whether the session holds a live connection. A pure state read.
    pub fn is_connected(&self) -> (r: bool)
        ensures
            r == self.connected(),
    {
        match self.lifecycle {
            Lifecycle::Connected => true,
            _ => false,
        }
    }

    /// The endpoint the session is connected to, while it is.
    pub fn endpoint(&self) -> (r: &Option<String>)
        ensures
            r == self.url,
    {
        &self.url
    }

    /// Decide whether a dial may happen, and hand back the settings the
    /// transport must create the handle with: the protocol identifier for
    /// the requested topology and the configured timeouts. Only an idle
    /// session may dial: a connected session must be torn down first, and a
    /// closed session is single-use and stays closed.
    pub fn begin_connect(&self, protocol: ProtocolType) -> (r: Result<DialPlan, SessionError>)
        ensures
            r is Ok <==> self.lifecycle is Idle,
            r is Ok ==> r->Ok_0.protocol_id == protocol.transport_id_spec(),
            r is Ok ==> r->Ok_0.recv_timeout_ms == self.options.recv_deadline(),
            r is Ok ==> r->Ok_0.send_timeout_ms == self.options.send_deadline(),
            self.lifecycle is Connected ==> r == Err::<DialPlan, SessionError>(
                SessionError::AlreadyConnected,
            ),
            self.closing() ==> r == Err::<DialPlan, SessionError>(SessionError::NotConnected),
    {
        match self.lifecycle {
            Lifecycle::Idle => Ok(
                DialPlan {
                    protocol_id: protocol.transport_id(),
                    recv_timeout_ms: self.options.effective_recv_timeout(),
                    send_timeout_ms: self.options.effective_send_timeout(),
                },
            ),
            Lifecycle::Connected => Err(SessionError::AlreadyConnected),
            Lifecycle::Closing => Err(SessionError::NotConnected),
            Lifecycle::Closed => Err(SessionError::NotConnected),
        }
    }

    /// Record the outcome of a dial. A successful dial of an idle session
    /// makes it connected and records the endpoint; a failed dial leaves it
    /// idle, free to retry; any other state refuses as `begin_connect` does
    /// and changes nothing.
    pub fn finish_connect(&mut self, url: String, dialed: Result<(), TransportError>) -> (r:
        Result<(), SessionError>)
        requires
            old(self).wf(),
        ensures
            final(self).wf(),
            r is Ok <==> (old(self).lifecycle is Idle && dialed is Ok),
            r is Ok ==> final(self).lifecycle is Connected,
            r is Ok ==> final(self).url == Some(url),
            r is Ok ==> final(self).options == old(self).options,
            r is Ok ==> final(self).loop_active == old(self).loop_active,
            r is Err ==> *final(self) == *old(self),
            old(self).lifecycle is Connected ==> r == Err::<(), SessionError>(
                SessionError::AlreadyConnected,
            ),
            old(self).closing() ==> r == Err::<(), SessionError>(SessionError::NotConnected),
            (old(self).lifecycle is Idle && dialed is Err) ==> r == Err::<(), SessionError>(
                SessionError::ConnectFailed,
            ),
    {
        match self.lifecycle {
            Lifecycle::Idle => match dialed {
                Ok(()) => {
                    self.lifecycle = Lifecycle::Connected;
                    self.url = Some(url);
                    Ok(())
                },
                Err(_) => Err(SessionError::ConnectFailed),
            },
            Lifecycle::Connected => Err(SessionError::AlreadyConnected),
            Lifecycle::Closing => Err(SessionError::NotConnected),
            Lifecycle::Closed => Err(SessionError::NotConnected),
        }
    }

    /// Guard one request/reply exchange: it may only begin on a live
    /// connection. On a session that was never connected or is already
    /// closed, the answer is `NotConnected` and nothing is handed to the
    /// transport, so no transport work is ever attempted for it.
    pub fn begin_send(&self) -> (r: Result<(), SessionError>)
        ensures
            r is Ok <==> self.connected(),
            !self.connected() ==> r == Err::<(), SessionError>(SessionError::NotConnected),
    {
        match self.lifecycle {
            Lifecycle::Connected => Ok(()),
            _ => Err(SessionError::NotConnected),
        }
    }

    /// Classify the outcome of one exchange. The reply's bytes come back
    /// exactly as the transport delivered them; every failure is mapped as
    /// `classify_exchange` says. The session itself is untouched: a failed
    /// exchange leaves no partial state behind.
    pub fn finish_send(&self, outcome: ExchangeOutcome) -> (r: Result<Vec<u8>, SessionError>)
        ensures
            r == classify_exchange(outcome),
    {
        match outcome {
            ExchangeOutcome::Replied(reply) => Ok(reply),
            ExchangeOutcome::SubmitFailed(e) => match e {
                TransportError::TimedOut => Err(SessionError::SendTimedOut),
                TransportError::Closed => Err(SessionError::SendFailed),
                TransportError::Other => Err(SessionError::SendFailed),
            },
            ExchangeOutcome::ReplyFailed(e) => match e {
                TransportError::TimedOut => Err(SessionError::ReceiveTimedOut),
                TransportError::Closed => Err(SessionError::ConnectionClosed),
                TransportError::Other => Err(SessionError::ReceiveFailed),
            },
        }
    }

    /// Start the background listener for this session's handle. Only a
    /// connected session may listen, and at most one listener may be
    /// outstanding per handle; a fresh, undisposed cancellation handle comes
    /// back for the caller to stop it with.
    pub fn start_receive(&mut self) -> (r: Result<CancellationHandle, SessionError>)
        requires
            old(self).wf(),
        ensures
            final(self).wf(),
            r is Ok <==> (old(self).connected() && !old(self).loop_active),
            r is Ok ==> !r->Ok_0.disposed,
            r is Ok ==> final(self).loop_active,
            r is Ok ==> final(self).lifecycle == old(self).lifecycle,
            r is Ok ==> final(self).options == old(self).options,
            r is Ok ==> final(self).url == old(self).url,
            r is Err ==> *final(self) == *old(self),
            !old(self).connected() ==> r == Err::<CancellationHandle, SessionError>(
                SessionError::NotConnected,
            ),
            (old(self).connected() && old(self).loop_active) ==> r == Err::<
                CancellationHandle,
                SessionError,
            >(SessionError::ListenerActive),
    {
        match self.lifecycle {
            Lifecycle::Connected => {
                if self.loop_active {
                    Err(SessionError::ListenerActive)
                } else {
                    self.loop_active = true;
                    Ok(CancellationHandle::new())
                }
            },
            _ => Err(SessionError::NotConnected),
        }
    }

    /// Tear the connection down. Idempotent and infallible: a connected
    /// session moves to closing, forgets its endpoint and stops counting its
    /// listener, and the returned action tells the transport to close the
    /// handle and to signal the listener if one was outstanding; any other
    /// session is left untouched with nothing to do. Afterwards the session
    /// is never connected.
    pub fn close(&mut self) -> (r: CloseAction)
        ensures
            *final(self) == close_spec(*old(self)).0,
            r == close_spec(*old(self)).1,
            !final(self).connected(),
            old(self).wf() ==> final(self).wf(),
    {
        match self.lifecycle {
            Lifecycle::Connected => {
                let had_loop = self.loop_active;
                self.lifecycle = Lifecycle::Closing;
                self.url = None;
                self.loop_active = false;
                CloseAction { close_handle: true, signal_listener: had_loop }
            },
            _ => CloseAction { close_handle: false, signal_listener: false },
        }
    }

    /// Record that the transport handle is gone: a closing session becomes
    /// closed for good; any other session is left untouched.
    pub fn finish_close(&mut self)
        ensures
            old(self).lifecycle is Closing ==> *final(self) == (SocketSession {
                lifecycle: Lifecycle::Closed,
                ..*old(self)
            }),
            !(old(self).lifecycle is Closing) ==> *final(self) == *old(self),
            final(self).connected() == old(self).connected(),
            old(self).wf() ==> final(self).wf(),
    {
        match self.lifecycle {
            Lifecycle::Closing => {
                self.lifecycle = Lifecycle::Closed;
            },
            _ => {},
        }
    }
}

/// Connecting and closing behave as the lifecycle promises: a close leaves
/// the session not connected, and closing again changes nothing and asks
/// nothing more of the transport — the second call is a harmless no-op.
pub proof fn lemma_close_idempotent(s: SocketSession)
    ensures
        !close_spec(s).0.connected(),
        close_spec(close_spec(s).0).0 == close_spec(s).0,
        close_spec(close_spec(s).0).1 == (CloseAction {
            close_handle: false,
            signal_listener: false,
        }),
{
}

/// Round trip: when a cooperating peer echoes the payload back unchanged,
/// the exchange returns exactly those bytes to the caller.
pub proof fn lemma_exchange_round_trip(reply: Vec<u8>)
    ensures
        classify_exchange(ExchangeOutcome::Replied(reply)) == Ok::<Vec<u8>, SessionError>(reply),
{
}

} // verus!
