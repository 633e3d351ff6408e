//! Transfer dispatch: thin orchestration that turns a request and its
//! resolved authority into the exact call handed to the external ledger
//! service, and relays the ledger's reply as the request's outcome. The
//! ledger call itself (account I/O and balance bookkeeping) belongs to the
//! host environment; this core only decides and packages.

use vstd::prelude::*;

use crate::derivation::canonical_seeds;
use crate::derivation::derivation_accepts;
use crate::resolver::resolve;
use crate::resolver::ResolvedAuthority;
use crate::types::AuthError;
use crate::types::AuthorityMode;
use crate::types::DerivationError;
use crate::types::ErrorCode;
use crate::types::PreparedTransfer;
use crate::types::SignerProof;
use crate::types::TransferError;
use crate::types::TransferOutcome;
use crate::types::TransferRequest;

verus! {

/// Builds the dispatch for an authorized request: source, destination and
/// amount are forwarded unchanged, and the proof is the resolved authority's
/// — the signer identity in direct mode, the capability's seed sequence in
/// derived mode. Consumes the capability: it countersigns exactly this one
/// dispatch.
pub fn execute(request: &TransferRequest, resolved: ResolvedAuthority) -> (p: PreparedTransfer)
    ensures
        p.source@ == request.source@,
        p.destination@ == request.destination@,
        p.amount == request.amount,
        resolved matches ResolvedAuthority::Direct { identity } ==> (p.proof
            matches SignerProof::Direct { identity: sent } && sent@ == identity@),
        resolved matches ResolvedAuthority::Derived { capability } ==> (p.proof
            matches SignerProof::Derived { seeds } && seeds.deep_view()
            == capability.seeds_view()),
{
    let proof = match resolved {
        ResolvedAuthority::Direct { identity } => SignerProof::Direct { identity },
        ResolvedAuthority::Derived { capability } => SignerProof::Derived {
            seeds: capability.into_seed_sequence(),
        },
    };
    PreparedTransfer {
        source: request.source,
        destination: request.destination,
        amount: request.amount,
        proof,
    }
}

/// Relays the external ledger service's reply to one dispatched transfer:
/// success reports the amount moved, and a ledger failure is propagated
/// unchanged as the outcome's cause. This core made no mutation of its own,
/// so there is nothing to roll back.
pub fn settle(dispatched_amount: u64, ledger_reply: Result<(), ErrorCode>) -> (o: TransferOutcome)
    ensures
        ledger_reply is Ok ==> o == (TransferOutcome::Success { amount: dispatched_amount }),
        ledger_reply matches Err(cause) ==> o == (TransferOutcome::Failure {
            error: TransferError::LedgerFailure { cause },
        }),
{
    match ledger_reply {
        Ok(()) => TransferOutcome::Success { amount: dispatched_amount },
        Err(cause) => TransferOutcome::Failure { error: TransferError::LedgerFailure { cause } },
    }
}

/// Authorizes a direct-signer transfer. It succeeds exactly when an
/// authority is supplied and the surrounding call context marked it as an
/// authenticated signer; a missing authority and an unauthenticated one are
/// rejected before anything is dispatched. The amount is forwarded opaquely:
/// this core puts no bound on it, not even a lower one.
pub fn transfer_direct(
    source: &[u8; 32],
    destination: &[u8; 32],
    authority: Option<[u8; 32]>,
    authority_is_ambient_signer: bool,
    amount: u64,
) -> (r: Result<PreparedTransfer, TransferError>)
    ensures
        r is Ok <==> (authority is Some && authority_is_ambient_signer),
        authority is None ==> r == Err::<PreparedTransfer, TransferError>(
            TransferError::Auth(AuthError::MissingAuthority),
        ),
        authority is Some && !authority_is_ambient_signer ==> r == Err::<
            PreparedTransfer,
            TransferError,
        >(TransferError::Auth(AuthError::NotASigner)),
        r matches Ok(p) ==> {
            &&& p.source@ == source@
            &&& p.destination@ == destination@
            &&& p.amount == amount
            &&& (p.proof matches SignerProof::Direct { identity } && identity@
                == authority.unwrap()@)
        },
{
    let request = TransferRequest {
        source: *source,
        destination: *destination,
        authority: match authority {
            Some(identity) => Some(
                AuthorityMode::DirectSigner {
                    identity,
                    ambient_verified: authority_is_ambient_signer,
                },
            ),
            None => None,
        },
        amount,
    };
    // Direct mode never consults the program namespace: resolution of a
    // direct signer is independent of it.
    let namespace = [0u8; 32];
    match resolve(&request, &namespace) {
        Ok(resolved) => Ok(execute(&request, resolved)),
        Err(e) => Err(TransferError::Auth(e)),
    }
}

/// Authorizes a derived-authority transfer. It succeeds exactly when an
/// authority is supplied and is the true derivation for the source account
/// and discriminator byte under the program namespace; every mismatch is
/// rejected with `AddressMismatch` before anything is dispatched, and the
/// dispatched proof is the verified three-part seed sequence. The amount is
/// forwarded opaquely, with no bound of this core's own.
pub fn transfer_with_derived_authority(
    source: &[u8; 32],
    destination: &[u8; 32],
    derived_authority: Option<[u8; 32]>,
    amount: u64,
    discriminator_byte: u8,
    program_namespace: &[u8; 32],
) -> (r: Result<PreparedTransfer, TransferError>)
    ensures
        r is Ok <==> (derived_authority matches Some(claimed) && derivation_accepts(
            source@,
            discriminator_byte,
            program_namespace@,
            claimed@,
        )),
        derived_authority is None ==> r == Err::<PreparedTransfer, TransferError>(
            TransferError::Auth(AuthError::MissingAuthority),
        ),
        derived_authority matches Some(claimed) && !derivation_accepts(
            source@,
            discriminator_byte,
            program_namespace@,
            claimed@,
        ) ==> r == Err::<PreparedTransfer, TransferError>(
            TransferError::Auth(AuthError::Derivation(DerivationError::AddressMismatch)),
        ),
        r matches Ok(p) ==> {
            &&& p.source@ == source@
            &&& p.destination@ == destination@
            &&& p.amount == amount
            &&& (p.proof matches SignerProof::Derived { seeds } && seeds.deep_view()
                == canonical_seeds(source@, discriminator_byte))
        },
{
    let request = TransferRequest {
        source: *source,
        destination: *destination,
        authority: match derived_authority {
            Some(derived_address) => Some(
                AuthorityMode::DerivedAuthority { derived_address, discriminator_byte },
            ),
            None => None,
        },
        amount,
    };
    match resolve(&request, program_namespace) {
        Ok(resolved) => Ok(execute(&request, resolved)),
        Err(e) => Err(TransferError::Auth(e)),
    }
}

} // verus!
