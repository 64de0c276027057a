//! The background receive loop's policy.
//!
//! A listener repeatedly blocks on the transport's receive and forwards each
//! message to the caller's callback through an order-preserving bridge. The
//! loop itself runs in the embedder's execution context; this module is the
//! single place that decides, for every receive outcome, what the loop does
//! next: which callback invocation (if any) it owes, and whether it keeps
//! running.
//!
//! The policy: a message is delivered and the loop goes on; a timeout is "no
//! message yet" and the loop goes on silently; a closed connection is
//! terminal — reported once, unless the owner is closing the socket itself,
//! in which case the loop leaves silently; any other transport error is
//! reported and survived, again unless the owner is closing. A stop request
//! is honoured at the next opportunity: before the next receive, or right
//! after the one in flight completes.

use vstd::prelude::*;

use crate::error::SessionError;
use crate::error::TransportError;

verus! {

/// One callback invocation the loop owes the caller: a received payload, or
/// a failure with its classified reason.
#[derive(Clone, Debug, PartialEq, Eq)]
pub enum CallbackCall {
    Payload(Vec<u8>),
    Failure(SessionError),
}

/// What one loop iteration decides: the callback invocation it owes (none
/// for a silent iteration), and whether the loop keeps running.
#[derive(Clone, Debug, PartialEq, Eq)]
pub struct LoopDecision {
    pub callback: Option<CallbackCall>,
    pub keep_running: bool,
}

/// The loop's decision for one receive outcome, given whether a stop was
/// requested and whether the owner is closing the socket.
pub open spec fn loop_step_spec(
    stop_requested: bool,
    owner_closing: bool,
    outcome: Result<Vec<u8>, TransportError>,
) -> LoopDecision {
    match outcome {
        Ok(message) => LoopDecision {
            callback: Some(CallbackCall::Payload(message)),
            keep_running: !stop_requested,
        },
        Err(TransportError::TimedOut) => LoopDecision {
            callback: None,
            keep_running: !stop_requested,
        },
        Err(TransportError::Closed) => LoopDecision {
            callback: if owner_closing {
                None
            } else {
                Some(CallbackCall::Failure(SessionError::ConnectionClosed))
            },
            keep_running: false,
        },
        Err(TransportError::Other) => if owner_closing {
            LoopDecision { callback: None, keep_running: false }
        } else {
            LoopDecision {
                callback: Some(CallbackCall::Failure(SessionError::ReceiveFailed)),
                keep_running: !stop_requested,
            }
        },
    }
}

/// Decide one loop iteration from the receive outcome that just completed.
///
/// A message is always delivered, even when a stop request arrived while the
/// receive was in flight — that one invocation is allowed to complete — but
/// the loop then stops. A timeout is survived silently. A closed connection
/// ends the loop, reported once as terminal unless the owner itself is
/// closing the socket. Any other error is reported and survived, unless the
/// owner is closing, in which case the loop leaves silently.
pub fn loop_step(
    stop_requested: bool,
    owner_closing: bool,
    outcome: Result<Vec<u8>, TransportError>,
) -> (d: LoopDecision)
    ensures
        d == loop_step_spec(stop_requested, owner_closing, outcome),
{
    match outcome {
        Ok(message) => LoopDecision {
            callback: Some(CallbackCall::Payload(message)),
            keep_running: !stop_requested,
        },
        Err(TransportError::TimedOut) => LoopDecision {
            callback: None,
            keep_running: !stop_requested,
        },
        Err(TransportError::Closed) => {
            if owner_closing {
                LoopDecision { callback: None, keep_running: false }
            } else {
                LoopDecision {
                    callback: Some(CallbackCall::Failure(SessionError::ConnectionClosed)),
                    keep_running: false,
                }
            }
        },
        Err(TransportError::Other) => {
            if owner_closing {
                LoopDecision { callback: None, keep_running: false }
            } else {
                LoopDecision {
                    callback: Some(CallbackCall::Failure(SessionError::ReceiveFailed)),
                    keep_running: !stop_requested,
                }
            }
        },
    }
}

/// The callback invocations an undisturbed run of the loop makes over a
/// sequence of receive outcomes: each outcome is stepped in order, its
/// callback (if any) appended, until an outcome ends the loop or the
/// outcomes run out. No stop request arrives during such a run.
pub open spec fn listener_actions(
    owner_closing: bool,
    outcomes: Seq<Result<Vec<u8>, TransportError>>,
) -> Seq<CallbackCall>
    decreases outcomes.len(),
{
    if outcomes.len() == 0 {
        Seq::empty()
    } else {
        let d = loop_step_spec(false, owner_closing, outcomes[0]);
        let head = match d.callback {
            Some(call) => seq![call],
            None => Seq::empty(),
        };
        if d.keep_running {
            head + listener_actions(owner_closing, outcomes.drop_first())
        } else {
            head
        }
    }
}

/// Ordering: over a run in which every receive yields a message, the loop
/// invokes the callback exactly once per message, with the payloads in the
/// order the transport delivered them — nothing reordered, dropped or
/// batched.
pub proof fn lemma_listener_preserves_order(
    owner_closing: bool,
    outcomes: Seq<Result<Vec<u8>, TransportError>>,
)
    requires
        forall|i: int| 0 <= i < outcomes.len() ==> outcomes[i] is Ok,
    ensures
        listener_actions(owner_closing, outcomes).len() == outcomes.len(),
        forall|i: int|
            0 <= i < outcomes.len() ==> listener_actions(owner_closing, outcomes)[i]
                == CallbackCall::Payload(outcomes[i]->Ok_0),
    decreases outcomes.len(),
{
    if outcomes.len() > 0 {
        assert(outcomes[0] is Ok);
        assert(forall|i: int|
            0 <= i < outcomes.drop_first().len() ==> outcomes.drop_first()[i] == outcomes[i + 1]);
        lemma_listener_preserves_order(owner_closing, outcomes.drop_first());
    }
}

/// Cancellation: once a stop is requested, no iteration decides to keep
/// running — whatever the in-flight receive came back with, the loop ends
/// with at most that one invocation; and when the in-flight receive merely
/// ran out of time, it ends with none at all.
pub proof fn lemma_stop_request_halts(
    owner_closing: bool,
    outcome: Result<Vec<u8>, TransportError>,
)
    ensures
        !loop_step_spec(true, owner_closing, outcome).keep_running,
        outcome == Err::<Vec<u8>, TransportError>(TransportError::TimedOut) ==> loop_step_spec(
            true,
            owner_closing,
            outcome,
        ).callback is None,
{
}

/// A close by the owner is silent: while the owner is closing the socket,
/// no iteration reports a failure to the callback — a teardown never
/// surfaces as an error, though an in-flight message may still be
/// delivered.
pub proof fn lemma_owner_close_reports_no_failure(
    stop_requested: bool,
    outcome: Result<Vec<u8>, TransportError>,
)
    ensures
        !(loop_step_spec(stop_requested, true, outcome).callback matches Some(
            CallbackCall::Failure(_),
        )),
{
}

} // verus!
