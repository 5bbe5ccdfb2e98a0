//! A client's signing key pair (ML-DSA-87), drawn from the operating
//! system's entropy.
use fips204::traits::SerDes;
use rand_chacha::rand_core::SeedableRng;
use rand_chacha::ChaCha20Rng;
use vstd::prelude::*;

verus! {

/// The ChaCha20 generator of `rand_chacha`, carried through opaquely.
#[verifier::external_type_specification]
#[verifier::external_body]
pub struct ExChaCha20Rng(ChaCha20Rng);

/// Length in bytes of an ML-DSA-87 public key.
pub const PUBLIC_KEY_LEN: usize = 2592;

/// Length in bytes of an ML-DSA-87 private key.
pub const PRIVATE_KEY_LEN: usize = 4896;

/// `SeedableRng::from_rng(OsRng)` for `ChaCha20Rng`: a generator seeded
/// with the operating system's entropy, or `None` when that source fails.
/// Nothing is stated of the seed: it is chance.
#[verifier::external_body]
fn chacha_from_os_entropy() -> (rng: Option<ChaCha20Rng>) {
    match ChaCha20Rng::from_rng(rand_chacha::rand_core::OsRng) {
        Ok(rng) => Some(rng),
        Err(_) => None,
    }
}

/// The encoding of the ML-DSA-87 public key that fips204 derives from the
/// private key encoded as `private` (`PrivateKey::get_public_key`, then
/// `SerDes::into_bytes`).
pub uninterp spec fn ml_dsa_87_public_of(private: Seq<u8>) -> Seq<u8>;

/// `fips204::ml_dsa_87::try_keygen_with_rng`, with both keys turned into
/// their byte encodings (`SerDes::into_bytes`). It fails only when the
/// generator fails to give bytes, which a ChaCha generator never does, so it
/// always gives a pair. The public key is the one fips204 derives from the
/// private key. The keys are drawn from the generator, so their bytes are
/// otherwise not stated.
#[verifier::external_body]
fn ml_dsa_87_keygen(rng: &mut ChaCha20Rng) -> (keys: Option<(Vec<u8>, Vec<u8>)>)
    ensures
        keys is Some,
        keys matches Some((public, private)) ==> public@.len() == PUBLIC_KEY_LEN
            && private@.len() == PRIVATE_KEY_LEN && public@ == ml_dsa_87_public_of(private@),
{
    match fips204::ml_dsa_87::try_keygen_with_rng(rng) {
        Ok((public, private)) => Some((public.into_bytes().to_vec(), private.into_bytes().to_vec())),
        Err(_) => None,
    }
}

/// Draws a fresh ML-DSA-87 key pair: the public key, then the private key
/// it belongs to. `None` when entropy could not be had.
pub fn generate_keypair() -> (keys: Option<(Vec<u8>, Vec<u8>)>)
    ensures
        keys matches Some((public, private)) ==> public@.len() == PUBLIC_KEY_LEN
            && private@.len() == PRIVATE_KEY_LEN && public@ == ml_dsa_87_public_of(private@),
{
    let mut rng = match chacha_from_os_entropy() {
        Some(rng) => rng,
        None => return None,
    };
    ml_dsa_87_keygen(&mut rng)
}

} // verus!
