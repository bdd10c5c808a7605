//! Custody transfer requests.
//!
//! The engine never moves assets itself: each successful operation returns
//! one [`TransferRequest`] naming the source vault, the destination vault,
//! the amount, and the authority under which the external custody
//! collaborator must execute it. The host commits the ledger mutation and
//! the transfer atomically: both happen, or neither does.

use vstd::prelude::*;

verus! {

/// A custodial vault the engine can name in a transfer request: the single
/// shared pool vault, or a participant's own vault, keyed by the owner
/// identity.
#[derive(Clone, Copy, Debug, PartialEq, Eq)]
pub enum VaultRef {
    PoolVault,
    UserVault(u64),
}

/// The capability a transfer is authorized under: the acting user's own
/// credential, or the pool's derived signer, which no user controls.
/// Deposits and pool funding are user-authorized; withdrawal payouts leave
/// under the pool's signer, never the caller's.
#[derive(Clone, Copy, Debug, PartialEq, Eq)]
pub enum Authority {
    UserSigner(u64),
    PoolSigner,
}

/// One custody transfer the host must execute against the external custody
/// collaborator.
#[derive(Clone, Copy, Debug, PartialEq, Eq)]
pub struct TransferRequest {
    pub from: VaultRef,
    pub to: VaultRef,
    pub amount: u64,
    pub authority: Authority,
}

} // verus!
