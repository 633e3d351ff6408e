//! Derivation engine: recomputes the deterministic derived address for a
//! source account and discriminator byte, checks it against the address the
//! requester claims, and on a match issues a one-shot signing capability
//! that packages the verified seed sequence.

use vstd::prelude::*;

use crate::bytes_equal_32;
use crate::types::DerivationError;

verus! {

/// The fixed domain tag that opens every seed sequence: the bytes of
/// "token-auth".
pub open spec fn domain_tag() -> Seq<u8> {
    seq![116u8, 111u8, 107u8, 101u8, 110u8, 45u8, 97u8, 117u8, 116u8, 104u8]
}

/// The canonical seed sequence for one source identity and discriminator
/// byte: the domain tag, then the raw source identity bytes, then the single
/// discriminator byte. Order is significant and fixed.
pub open spec fn canonical_seeds(source: Seq<u8>, discriminator_byte: u8) -> Seq<Seq<u8>> {
    seq![domain_tag(), source, seq![discriminator_byte]]
}

/// The deterministic address that the platform derives from a seed sequence
/// and a program namespace identity, or `None` where no address exists for
/// those seeds (the hash lands on the curve, or a seed is over the length
/// limit). Its value is fixed by the platform's derivation function; this
/// core only applies it.
pub uninterp spec fn program_address_of(seeds: Seq<Seq<u8>>, program_namespace: Seq<u8>) -> Option<
    Seq<u8>,
>;

/// True exactly when `claimed` is the platform derivation for this seed
/// sequence and namespace.
pub open spec fn derivation_accepts(
    source: Seq<u8>,
    discriminator_byte: u8,
    program_namespace: Seq<u8>,
    claimed: Seq<u8>,
) -> bool {
    program_address_of(canonical_seeds(source, discriminator_byte), program_namespace) == Some(
        claimed,
    )
}

/// Relies on `solana_pubkey::Pubkey::create_program_address`: the result is
/// a deterministic function of the seed bytes and the program id alone (a
/// SHA-256 of the seeds, the program id and a fixed marker), it is an error
/// rather than an address whenever the hash lies on the ed25519 curve or a
/// seed exceeds the platform's length limit, and the call returns on every
/// input without panicking.
#[verifier::external_body]
fn create_program_address(seeds: &Vec<Vec<u8>>, program_namespace: &[u8; 32]) -> (r: Option<
    [u8; 32],
>)
    ensures
        r is Some <==> program_address_of(seeds.deep_view(), program_namespace@) is Some,
        r matches Some(a) ==> program_address_of(seeds.deep_view(), program_namespace@) == Some(
            a@,
        ),
{
    let seed_refs: Vec<&[u8]> = seeds.iter().map(|s: &Vec<u8>| s.as_slice()).collect();
    let program_id = solana_pubkey::Pubkey::new_from_array(*program_namespace);
    match solana_pubkey::Pubkey::create_program_address(&seed_refs, &program_id) {
        Ok(address) => Some(address.to_bytes()),
        Err(_) => None,
    }
}

/// The domain tag as a byte vector.
fn domain_tag_bytes() -> (v: Vec<u8>)
    ensures
        v@ == domain_tag(),
{
    let mut v: Vec<u8> = Vec::new();
    v.push(116u8);
    v.push(111u8);
    v.push(107u8);
    v.push(101u8);
    v.push(110u8);
    v.push(45u8);
    v.push(97u8);
    v.push(117u8);
    v.push(116u8);
    v.push(104u8);
    assert(v@ =~= domain_tag());
    v
}

/// Builds the canonical seed sequence for one request, fresh per call.
fn build_seeds(source_identity: &[u8; 32], discriminator_byte: u8) -> (seeds: Vec<Vec<u8>>)
    ensures
        seeds.deep_view() == canonical_seeds(source_identity@, discriminator_byte),
{
    let mut source: Vec<u8> = Vec::new();
    let mut i: usize = 0;
    while i < 32
        invariant
            i <= 32,
            source@.len() == i,
            forall|j: int| 0 <= j < i ==> source@[j] == source_identity@[j],
        decreases 32 - i,
    {
        source.push(source_identity[i]);
        i += 1;
    }
    assert(source@ =~= source_identity@);
    let mut discriminator: Vec<u8> = Vec::new();
    discriminator.push(discriminator_byte);
    let mut seeds: Vec<Vec<u8>> = Vec::new();
    seeds.push(domain_tag_bytes());
    seeds.push(source);
    seeds.push(discriminator);
    assert(seeds.deep_view() =~~= canonical_seeds(source_identity@, discriminator_byte));
    seeds
}

/// An ephemeral proof that one derivation was verified: it binds the exact
/// seed sequence (including the verified discriminator byte) to the right to
/// countersign exactly one dispatched transfer. Never persisted or reused.
pub struct SigningCapability {
    seeds: Vec<Vec<u8>>,
    derived_address: [u8; 32],
}

impl SigningCapability {
    /// The seed sequence this capability was issued for.
    pub closed spec fn seeds_view(&self) -> Seq<Seq<u8>> {
        self.seeds.deep_view()
    }

    /// The verified derived address this capability signs as.
    pub closed spec fn address_view(&self) -> Seq<u8> {
        self.derived_address@
    }

    /// The verified derived address, as raw bytes.
    pub fn derived_address_bytes(&self) -> (a: &[u8; 32])
        ensures
            a@ == self.address_view(),
    {
        &self.derived_address
    }

    /// Consumes the capability into the seed sequence presented to the
    /// external ledger service as the signer substitute.
    pub fn into_seed_sequence(self) -> (seeds: Vec<Vec<u8>>)
        ensures
            seeds.deep_view() == self.seeds_view(),
    {
        self.seeds
    }
}

/// Everything `derive_and_verify` promises of its result: it succeeds
/// exactly on the true derivation, the issued capability packages the
/// canonical seed sequence and the verified address, and the only failure
/// is `AddressMismatch`.
pub open spec fn derive_and_verify_post(
    source: Seq<u8>,
    claimed: Seq<u8>,
    discriminator_byte: u8,
    program_namespace: Seq<u8>,
    r: Result<SigningCapability, DerivationError>,
) -> bool {
    &&& r is Ok <==> derivation_accepts(source, discriminator_byte, program_namespace, claimed)
    &&& r matches Ok(cap) ==> cap.seeds_view() == canonical_seeds(source, discriminator_byte)
        && cap.address_view() == claimed
    &&& r matches Err(e) ==> e == DerivationError::AddressMismatch
}

/// Recomputes the derived address for `(domain tag, source_identity,
/// discriminator_byte)` under `program_namespace` and compares it
/// byte-exactly to `claimed_address`. On a match it issues the signing
/// capability for that exact seed sequence; on any mismatch it fails with
/// `AddressMismatch`, with no fallback discriminator search.
pub fn derive_and_verify(
    source_identity: &[u8; 32],
    claimed_address: &[u8; 32],
    discriminator_byte: u8,
    program_namespace: &[u8; 32],
) -> (r: Result<SigningCapability, DerivationError>)
    ensures
        derive_and_verify_post(
            source_identity@,
            claimed_address@,
            discriminator_byte,
            program_namespace@,
            r,
        ),
{
    let seeds = build_seeds(source_identity, discriminator_byte);
    match create_program_address(&seeds, program_namespace) {
        Some(expected_address) => {
            if bytes_equal_32(&expected_address, claimed_address) {
                Ok(SigningCapability { seeds, derived_address: expected_address })
            } else {
                Err(DerivationError::AddressMismatch)
            }
        },
        None => Err(DerivationError::AddressMismatch),
    }
}

/// Law: for one source identity, discriminator byte and namespace there is
/// at most one claimed address the derivation engine accepts, so
/// `derive_and_verify` succeeds for exactly one address.
pub proof fn lemma_accepted_address_unique(
    source: Seq<u8>,
    discriminator_byte: u8,
    program_namespace: Seq<u8>,
    claimed_a: Seq<u8>,
    claimed_b: Seq<u8>,
)
    requires
        derivation_accepts(source, discriminator_byte, program_namespace, claimed_a),
        derivation_accepts(source, discriminator_byte, program_namespace, claimed_b),
    ensures
        claimed_a == claimed_b,
{
}

/// Law: the derivation check is a pure function of its inputs — any two
/// results that `derive_and_verify` can return for identical inputs agree:
/// both succeed or both fail, successful capabilities carry byte-identical
/// seed sequences and addresses, and failures carry the same error.
pub proof fn lemma_derive_and_verify_deterministic(
    source: Seq<u8>,
    claimed: Seq<u8>,
    discriminator_byte: u8,
    program_namespace: Seq<u8>,
    r1: Result<SigningCapability, DerivationError>,
    r2: Result<SigningCapability, DerivationError>,
)
    requires
        derive_and_verify_post(source, claimed, discriminator_byte, program_namespace, r1),
        derive_and_verify_post(source, claimed, discriminator_byte, program_namespace, r2),
    ensures
        r1 is Ok <==> r2 is Ok,
        r1 matches Ok(c1) ==> (r2 matches Ok(c2) ==> c1.seeds_view() == c2.seeds_view()
            && c1.address_view() == c2.address_view()),
        r1 matches Err(e1) ==> (r2 matches Err(e2) ==> e1 == e2),
{
}

} // verus!
