//! Shared request and result types of the transfer-authorization core.

use vstd::prelude::*;

verus! {

/// How the requester claims the right to move funds out of the source
/// account: either a signing key that the surrounding call context has
/// already authenticated, or an address derived deterministically from the
/// source identity and a discriminator byte.
pub enum AuthorityMode {
    /// A direct signing key. `ambient_verified` is the fact, supplied
    /// explicitly by the surrounding environment, that this identity was
    /// cryptographically authenticated for the current call; this core
    /// never re-verifies signatures itself.
    DirectSigner { identity: [u8; 32], ambient_verified: bool },
    /// A derived address: the requester claims that `derived_address` is
    /// the deterministic derivation for the source account and
    /// `discriminator_byte`, which the derivation engine replays to verify.
    DerivedAuthority { derived_address: [u8; 32], discriminator_byte: u8 },
}

/// One transfer request, immutable once constructed and consumed once.
pub struct TransferRequest {
    pub source: [u8; 32],
    pub destination: [u8; 32],
    /// The claimed authority; absent means the request is malformed.
    pub authority: Option<AuthorityMode>,
    pub amount: u64,
}

/// Failure of the derivation engine: the claimed address is not the
/// derivation for the presented seed components.
#[derive(Clone, Copy, PartialEq, Eq, Structural, Debug)]
pub enum DerivationError {
    AddressMismatch,
}

/// Failure of authority resolution.
#[derive(Clone, Copy, PartialEq, Eq, Structural, Debug)]
pub enum AuthError {
    /// No authority identity was supplied with the request.
    MissingAuthority,
    /// Direct mode was requested but the identity was not authenticated by
    /// the surrounding call context.
    NotASigner,
    /// The derivation engine rejected the claimed derived address;
    /// propagated unchanged.
    Derivation(DerivationError),
}

/// Failure classification reported by the external ledger service, relayed
/// unchanged to the caller.
#[derive(Clone, Copy, PartialEq, Eq, Structural, Debug)]
pub enum ErrorCode {
    InvalidAuthority,
    TokenAccountMismatch,
    InsufficientFunds,
}

/// Everything that can make a transfer request fail.
#[derive(Clone, Copy, PartialEq, Eq, Structural, Debug)]
pub enum TransferError {
    /// Authority resolution failed; the ledger service is never reached.
    Auth(AuthError),
    /// The ledger service itself rejected the dispatched transfer.
    LedgerFailure { cause: ErrorCode },
}

/// What the caller gets back for one request.
#[derive(Clone, Copy, PartialEq, Eq, Structural, Debug)]
pub enum TransferOutcome {
    Success { amount: u64 },
    Failure { error: TransferError },
}

/// The proof of authority handed to the external ledger service together
/// with a dispatched transfer: either an ambient-verified signer identity,
/// or the seed sequence of a verified derivation.
pub enum SignerProof {
    Direct { identity: [u8; 32] },
    Derived { seeds: Vec<Vec<u8>> },
}

/// A fully authorized transfer, ready to be handed to the external ledger
/// service. This core never touches balances: building this value is the
/// last step it performs itself.
pub struct PreparedTransfer {
    pub source: [u8; 32],
    pub destination: [u8; 32],
    pub amount: u64,
    pub proof: SignerProof,
}

} // verus!
