//! A verified session layer over a brokerless messaging transport.
//!
//! The library models one logical socket: its lifecycle (idle, connected,
//! closing, closed), the strict request/reply exchange, the policy of a
//! background receive loop with cooperative cancellation, and the
//! classification of transport failures. The transport itself (dialing an
//! endpoint, moving bytes, closing the native handle) and the callback bridge
//! into the caller's execution context are external collaborators: they hand
//! this library plain values — dial and receive outcomes — and the library
//! decides, with a proved contract, what each outcome means for the session.

pub mod cancel;
pub mod error;
pub mod listener;
pub mod options;
pub mod protocol;
pub mod session;

pub use cancel::CancellationHandle;
pub use error::SessionError;
pub use error::TransportError;
pub use listener::CallbackCall;
pub use listener::LoopDecision;
pub use options::SocketOptions;
pub use protocol::ProtocolType;
pub use session::CloseAction;
pub use session::DialPlan;
pub use session::ExchangeOutcome;
pub use session::Lifecycle;
pub use session::SocketSession;
