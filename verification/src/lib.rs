//! Authorization and state-transition core of a cross-chain NFT bridge.
//!
//! Every value-moving operation is gated behind a signature from an off-chain
//! validator quorum and executes at most once per action id. The crate holds
//! the action-authorization protocol (canonical message construction, domain
//! separation, hashing, Ed25519 verification, anti-replay bookkeeping), the
//! bridge state machine (pause/whitelist policy gates and the NFT movement
//! flows), and the event encoder that produces the log records an off-chain
//! relayer consumes.
use vstd::prelude::*;

pub mod auth;
pub mod contract;
pub mod crypto;
pub mod encode;
pub mod events;
pub mod labels;
pub mod msg;
pub mod state;
pub mod util;

verus! {

/// The errors a bridge operation can fail with. All errors are terminal for
/// the invocation: the host discards every buffered state write.
#[derive(Clone, Copy, Debug, PartialEq, Eq, Structural)]
pub enum BridgeError {
    /// The action id was already consumed in its namespace.
    DuplicateAction,
    /// Signature verification failed, or required metadata was absent.
    Unauthorized,
    /// The operation is blocked by the pause gate.
    Paused,
    /// The freeze source contract is not whitelisted.
    NotWhitelisted,
    /// No payment in the bridge's fee denomination was attached.
    FeeRequired,
}

} // verus!
