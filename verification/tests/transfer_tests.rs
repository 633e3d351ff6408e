//! End-to-end scenarios over the authorization pipeline: resolve, execute,
//! settle, and the two entry points.

use solana_pubkey::Pubkey;
use token_transfer_cpi::dispatch::settle;
use token_transfer_cpi::dispatch::transfer_direct;
use token_transfer_cpi::dispatch::transfer_with_derived_authority;
use token_transfer_cpi::resolver::resolve;
use token_transfer_cpi::resolver::ResolvedAuthority;
use token_transfer_cpi::types::AuthError;
use token_transfer_cpi::types::AuthorityMode;
use token_transfer_cpi::types::DerivationError;
use token_transfer_cpi::types::ErrorCode;
use token_transfer_cpi::types::SignerProof;
use token_transfer_cpi::types::TransferError;
use token_transfer_cpi::types::TransferOutcome;
use token_transfer_cpi::types::TransferRequest;

const DOMAIN_TAG: &[u8] = b"token-auth";

const S1: [u8; 32] = [1u8; 32];
const D1: [u8; 32] = [2u8; 32];
const S1_OWNER: [u8; 32] = [3u8; 32];
const NAMESPACE: [u8; 32] = [4u8; 32];

/// A source identity whose derivation exists for the given discriminator
/// byte, found by varying one byte of a base identity.
fn source_with_valid_discriminator(bump: u8) -> ([u8; 32], [u8; 32]) {
    let program_id = Pubkey::new_from_array(NAMESPACE);
    for candidate in 0..=255u8 {
        let mut source = S1;
        source[31] = candidate;
        if let Ok(address) =
            Pubkey::create_program_address(&[DOMAIN_TAG, &source, &[bump]], &program_id)
        {
            return (source, address.to_bytes());
        }
    }
    panic!("no source identity with a valid derivation was found");
}

#[test]
fn scenario_direct_transfer_succeeds() {
    let prepared = transfer_direct(&S1, &D1, Some(S1_OWNER), true, 1000)
        .expect("an ambient-verified direct signer must be accepted");
    assert_eq!(prepared.source, S1);
    assert_eq!(prepared.destination, D1);
    assert_eq!(prepared.amount, 1000);
    match prepared.proof {
        SignerProof::Direct { identity } => assert_eq!(identity, S1_OWNER),
        SignerProof::Derived { .. } => panic!("direct mode must dispatch a direct proof"),
    }
    let outcome = settle(prepared.amount, Ok(()));
    assert_eq!(outcome, TransferOutcome::Success { amount: 1000 });
}

#[test]
fn scenario_derived_authority_succeeds() {
    let bump = 7u8;
    let (source, claimed) = source_with_valid_discriminator(bump);
    let prepared = transfer_with_derived_authority(&source, &D1, Some(claimed), 250, bump, &NAMESPACE)
        .expect("the true derivation must be accepted");
    assert_eq!(prepared.source, source);
    assert_eq!(prepared.destination, D1);
    assert_eq!(prepared.amount, 250);
    match prepared.proof {
        SignerProof::Derived { seeds } => {
            assert_eq!(seeds.len(), 3);
            assert_eq!(seeds[0].as_slice(), DOMAIN_TAG);
            assert_eq!(seeds[1].as_slice(), &source);
            assert_eq!(seeds[2].as_slice(), &[bump]);
        },
        SignerProof::Direct { .. } => panic!("derived mode must dispatch a seed-sequence proof"),
    }
}

#[test]
fn scenario_wrong_discriminator_byte_is_rejected() {
    // The claimed address is the true derivation for discriminator byte 7,
    // presented with discriminator byte 8: never dispatched.
    let (source, claimed_for_7) = source_with_valid_discriminator(7u8);
    let r = transfer_with_derived_authority(&source, &D1, Some(claimed_for_7), 250, 8u8, &NAMESPACE);
    assert_eq!(
        r.err(),
        Some(TransferError::Auth(AuthError::Derivation(DerivationError::AddressMismatch)))
    );
}

#[test]
fn scenario_zero_amount_is_forwarded() {
    // This core puts no lower bound on the amount; only the ledger service
    // may reject it.
    let prepared = transfer_direct(&S1, &D1, Some(S1_OWNER), true, 0)
        .expect("a zero amount must be accepted by this core");
    assert_eq!(prepared.amount, 0);
    let outcome = settle(prepared.amount, Err(ErrorCode::InsufficientFunds));
    assert_eq!(
        outcome,
        TransferOutcome::Failure {
            error: TransferError::LedgerFailure { cause: ErrorCode::InsufficientFunds },
        }
    );
}

#[test]
fn unverified_direct_signer_is_rejected() {
    let r = transfer_direct(&S1, &D1, Some(S1_OWNER), false, 1000);
    assert_eq!(r.err(), Some(TransferError::Auth(AuthError::NotASigner)));
}

#[test]
fn missing_authority_is_rejected_in_both_modes() {
    let direct = transfer_direct(&S1, &D1, None, true, 1000);
    assert_eq!(direct.err(), Some(TransferError::Auth(AuthError::MissingAuthority)));
    let derived = transfer_with_derived_authority(&S1, &D1, None, 1000, 7u8, &NAMESPACE);
    assert_eq!(derived.err(), Some(TransferError::Auth(AuthError::MissingAuthority)));
}

#[test]
fn resolve_classifies_each_mode() {
    let direct_request = TransferRequest {
        source: S1,
        destination: D1,
        authority: Some(AuthorityMode::DirectSigner {
            identity: S1_OWNER,
            ambient_verified: true,
        }),
        amount: 5,
    };
    match resolve(&direct_request, &NAMESPACE) {
        Ok(ResolvedAuthority::Direct { identity }) => assert_eq!(identity, S1_OWNER),
        _ => panic!("an ambient-verified direct signer must resolve to a direct authority"),
    }

    let bump = 11u8;
    let (source, claimed) = source_with_valid_discriminator(bump);
    let derived_request = TransferRequest {
        source,
        destination: D1,
        authority: Some(AuthorityMode::DerivedAuthority {
            derived_address: claimed,
            discriminator_byte: bump,
        }),
        amount: 5,
    };
    match resolve(&derived_request, &NAMESPACE) {
        Ok(ResolvedAuthority::Derived { capability }) => {
            assert_eq!(capability.derived_address_bytes(), &claimed);
        },
        _ => panic!("the true derivation must resolve to a derived authority"),
    }
}

#[test]
fn resolve_reports_each_error() {
    let missing = TransferRequest { source: S1, destination: D1, authority: None, amount: 5 };
    assert_eq!(resolve(&missing, &NAMESPACE).err(), Some(AuthError::MissingAuthority));

    let unsigned = TransferRequest {
        source: S1,
        destination: D1,
        authority: Some(AuthorityMode::DirectSigner {
            identity: S1_OWNER,
            ambient_verified: false,
        }),
        amount: 5,
    };
    assert_eq!(resolve(&unsigned, &NAMESPACE).err(), Some(AuthError::NotASigner));

    let forged = TransferRequest {
        source: S1,
        destination: D1,
        authority: Some(AuthorityMode::DerivedAuthority {
            derived_address: D1,
            discriminator_byte: 7u8,
        }),
        amount: 5,
    };
    assert_eq!(
        resolve(&forged, &NAMESPACE).err(),
        Some(AuthError::Derivation(DerivationError::AddressMismatch))
    );
}

#[test]
fn settle_relays_every_ledger_reply() {
    assert_eq!(settle(42, Ok(())), TransferOutcome::Success { amount: 42 });
    for cause in [
        ErrorCode::InvalidAuthority,
        ErrorCode::TokenAccountMismatch,
        ErrorCode::InsufficientFunds,
    ] {
        assert_eq!(
            settle(42, Err(cause)),
            TransferOutcome::Failure { error: TransferError::LedgerFailure { cause } }
        );
    }
}
