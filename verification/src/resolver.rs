//! Authority resolver: classifies a transfer request into its authorization
//! mode and validates the requester accordingly, delegating the
//! derived-address case to the derivation engine.

use vstd::prelude::*;

use crate::derivation::canonical_seeds;
use crate::derivation::derivation_accepts;
use crate::derivation::derive_and_verify;
use crate::derivation::SigningCapability;
use crate::types::AuthError;
use crate::types::AuthorityMode;
use crate::types::DerivationError;
use crate::types::TransferRequest;

verus! {

/// The authority a request resolved to: either an ambient-verified signing
/// key, or the signing capability issued for a verified derivation.
pub enum ResolvedAuthority {
    Direct { identity: [u8; 32] },
    Derived { capability: SigningCapability },
}

/// True exactly when resolution succeeds: an authority is present and it is
/// either an ambient-verified direct signer or the true derivation for the
/// request's source account.
pub open spec fn resolve_ok(request: TransferRequest, program_namespace: Seq<u8>) -> bool {
    match request.authority {
        None => false,
        Some(AuthorityMode::DirectSigner { identity, ambient_verified }) => ambient_verified,
        Some(
            AuthorityMode::DerivedAuthority { derived_address, discriminator_byte },
        ) => derivation_accepts(
            request.source@,
            discriminator_byte,
            program_namespace,
            derived_address@,
        ),
    }
}

/// Everything `resolve` promises of its result, per authority shape: which
/// error each rejected shape yields, and what the resolved authority carries
/// on success.
pub open spec fn resolve_post(
    request: TransferRequest,
    program_namespace: Seq<u8>,
    r: Result<ResolvedAuthority, AuthError>,
) -> bool {
    &&& r is Ok <==> resolve_ok(request, program_namespace)
    &&& request.authority is None ==> r == Err::<ResolvedAuthority, AuthError>(
        AuthError::MissingAuthority,
    )
    &&& (request.authority matches Some(AuthorityMode::DirectSigner { identity, ambient_verified })
        ==> {
        &&& !ambient_verified ==> r == Err::<ResolvedAuthority, AuthError>(AuthError::NotASigner)
        &&& ambient_verified ==> (r matches Ok(ResolvedAuthority::Direct { identity: resolved })
            && resolved@ == identity@)
    })
    &&& (request.authority matches Some(
        AuthorityMode::DerivedAuthority { derived_address, discriminator_byte },
    ) ==> {
        &&& !derivation_accepts(
            request.source@,
            discriminator_byte,
            program_namespace,
            derived_address@,
        ) ==> r == Err::<ResolvedAuthority, AuthError>(
            AuthError::Derivation(DerivationError::AddressMismatch),
        )
        &&& (r matches Ok(resolved) ==> resolved matches ResolvedAuthority::Derived { capability }
            && capability.seeds_view() == canonical_seeds(request.source@, discriminator_byte)
            && capability.address_view() == derived_address@)
    })
}

/// Classifies the request's authority and validates it: a missing authority
/// is rejected, a direct signer is accepted exactly when the surrounding
/// call context marked it as authenticated, and a derived authority is
/// accepted exactly when the derivation engine verifies the claimed address,
/// whose error is propagated unchanged. Pure in its inputs; never falls back
/// from one mode to the other.
pub fn resolve(request: &TransferRequest, program_namespace: &[u8; 32]) -> (r: Result<
    ResolvedAuthority,
    AuthError,
>)
    ensures
        resolve_post(*request, program_namespace@, r),
{
    match &request.authority {
        None => Err(AuthError::MissingAuthority),
        Some(AuthorityMode::DirectSigner { identity, ambient_verified }) => {
            if *ambient_verified {
                Ok(ResolvedAuthority::Direct { identity: *identity })
            } else {
                Err(AuthError::NotASigner)
            }
        },
        Some(AuthorityMode::DerivedAuthority { derived_address, discriminator_byte }) => {
            match derive_and_verify(
                &request.source,
                derived_address,
                *discriminator_byte,
                program_namespace,
            ) {
                Ok(capability) => Ok(ResolvedAuthority::Derived { capability }),
                Err(e) => Err(AuthError::Derivation(e)),
            }
        },
    }
}

} // verus!
