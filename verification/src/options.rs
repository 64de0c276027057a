//! Timeout configuration for a socket session.
//!
//! Both timeouts are read once, when the transport handle is created, and
//! applied before any exchange takes place. A timeout that is absent or zero
//! means "wait indefinitely".

use vstd::prelude::*;

verus! {

/// Configuration for one socket session: an optional receive timeout and an
/// optional send timeout, each in milliseconds.
#[derive(Clone, Copy, Debug, PartialEq, Eq)]
pub struct SocketOptions {
    pub recv_timeout_ms: Option<u32>,
    pub send_timeout_ms: Option<u32>,
}

/// The deadline a configured timeout stands for: `None` (absent) and zero both
/// mean an unbounded wait, any other value is a bound in milliseconds.
pub open spec fn effective_timeout(t: Option<u32>) -> Option<u32> {
    match t {
        Option::None => Option::None,
        Option::Some(ms) => if ms == 0 { Option::None } else { Option::Some(ms) },
    }
}

impl SocketOptions {
    /// The receive deadline this configuration stands for.
    pub open spec fn recv_deadline(self) -> Option<u32> {
        effective_timeout(self.recv_timeout_ms)
    }

    /// The send deadline this configuration stands for.
    pub open spec fn send_deadline(self) -> Option<u32> {
        effective_timeout(self.send_timeout_ms)
    }

    /// Resolve the configured receive timeout: `None` for an unbounded wait,
    /// `Some(ms)` for a bound of `ms` milliseconds.
    pub fn effective_recv_timeout(&self) -> (r: Option<u32>)
        ensures
            r == self.recv_deadline(),
    {
        match self.recv_timeout_ms {
            Option::None => Option::None,
            Option::Some(ms) => if ms == 0 { Option::None } else { Option::Some(ms) },
        }
    }

    /// Resolve the configured send timeout: `None` for an unbounded wait,
    /// `Some(ms)` for a bound of `ms` milliseconds.
    pub fn effective_send_timeout(&self) -> (r: Option<u32>)
        ensures
            r == self.send_deadline(),
    {
        match self.send_timeout_ms {
            Option::None => Option::None,
            Option::Some(ms) => if ms == 0 { Option::None } else { Option::Some(ms) },
        }
    }
}

} // verus!
