//! Plain types shared by the runtime modules.

use vstd::prelude::*;

verus! {

/// Execution weight, measured in reference-time units.
pub type Weight = u64;

/// Relay-chain block number.
pub type BlockNumber = u32;

/// Index of a session.
pub type SessionIndex = u32;

/// Raw sr25519 public key identifying a parachain validator.
pub type ValidatorId = [u8; 32];

/// Consensus-engine digest items emitted by the parachains runtime.
#[derive(Clone, Copy, Debug, PartialEq, Eq, Structural)]
pub enum ConsensusLog {
    /// Forcibly treat all parachain blocks in relay blocks up to and including
    /// the given number as valid and finalizable.
    ForceApprove(BlockNumber),
}

/// The class of a dispatchable call, which decides the share of the block it
/// may use.
#[derive(Clone, Copy, Debug, PartialEq, Eq, Structural)]
pub enum DispatchClass {
    /// Ordinary transactions.
    Normal,
    /// Calls that keep the chain operating, served from reserved capacity.
    Operational,
    /// Calls that must be included whatever the block's weight.
    Mandatory,
}

/// Reasons a dispatchable call is refused.
#[derive(Clone, Copy, Debug, PartialEq, Eq, Structural)]
pub enum DispatchError {
    /// The call was made from an origin that may not make it.
    BadOrigin,
}

} // verus!
