//! The caller-held token that stops a background listener.
//!
//! Starting a listener hands the caller a `CancellationHandle`. Disposing it
//! asks for the one-shot stop signal to be sent; disposing it again is a
//! harmless no-op, never an error, and never a second signal.

use vstd::prelude::*;

use crate::error::SessionError;

verus! {

/// The disposable token for one background listener. It remembers whether
/// it was already disposed, so that the stop signal is sent at most once.
#[derive(Clone, Copy, Debug, PartialEq, Eq, Structural)]
pub struct CancellationHandle {
    pub disposed: bool,
}

/// The state a `dispose` leaves the handle in, and whether this call is the
/// one that sends the stop signal.
pub open spec fn dispose_spec(h: CancellationHandle) -> (CancellationHandle, bool) {
    (CancellationHandle { disposed: true }, !h.disposed)
}

impl CancellationHandle {
    /// A fresh, undisposed handle.
    pub fn new() -> (h: Self)
        ensures
            !h.disposed,
    {
        CancellationHandle { disposed: false }
    }

    /// Mark the handle disposed. The result says whether the stop signal is
    /// owed now: true exactly on the first call, so the signal goes out at
    /// most once however often the caller disposes.
    pub fn dispose(&mut self) -> (send_signal: bool)
        ensures
            final(self).disposed,
            send_signal == !old(self).disposed,
            *final(self) == dispose_spec(*old(self)).0,
            send_signal == dispose_spec(*old(self)).1,
    {
        let first: bool = !self.disposed;
        self.disposed = true;
        first
    }
}

/// Judge the delivery of the stop signal: delivered means the listener will
/// see it; a signal that could not be delivered — the listener already went
/// away — is a soft failure, safe for the caller to ignore.
pub fn dispose_outcome(delivered: bool) -> (r: Result<(), SessionError>)
    ensures
        r is Ok <==> delivered,
        !delivered ==> r == Err::<(), SessionError>(SessionError::DisposeFailed),
{
    if delivered {
        Ok(())
    } else {
        Err(SessionError::DisposeFailed)
    }
}

/// Disposal is idempotent: the first disposal of a fresh handle sends the
/// signal, every later one changes nothing and sends nothing.
pub proof fn lemma_dispose_idempotent(h: CancellationHandle)
    ensures
        !h.disposed ==> dispose_spec(h).1,
        dispose_spec(dispose_spec(h).0).0 == dispose_spec(h).0,
        !dispose_spec(dispose_spec(h).0).1,
{
}

} // verus!
