//! The ephemeral X25519 key pair of one session, drawn through ring.
use ring::agreement::EphemeralPrivateKey;
use vstd::prelude::*;

verus! {

#[verifier::external_type_specification]
#[verifier::external_body]
pub struct ExEphemeralPrivateKey(EphemeralPrivateKey);

/// Relies on ring::agreement::EphemeralPrivateKey::generate for X25519, fed
/// by ring::rand::SystemRandom: a fresh private key, or `None` where the
/// system's random source fails. Nothing is known of which key comes out.
#[verifier::external_body]
fn generate_private_key() -> (r: Option<EphemeralPrivateKey>) {
    let rng = ring::rand::SystemRandom::new();
    EphemeralPrivateKey::generate(&ring::agreement::X25519, &rng).ok()
}

/// The bytes of the public half of a private key, as ring computes them.
pub uninterp spec fn public_half(k: EphemeralPrivateKey) -> Seq<u8>;

/// Relies on ring::agreement::EphemeralPrivateKey::compute_public_key: the
/// public half of `key`, which depends on the key alone and whose bytes, 32
/// for X25519, are copied out; `None` where ring reports a failure or the
/// key's algorithm has a public half of another length.
#[verifier::external_body]
fn public_key_of(key: &EphemeralPrivateKey) -> (r: Option<[u8; 32]>)
    ensures
        r matches Some(p) ==> p@ == public_half(*key),
{
    match key.compute_public_key() {
        Ok(public) => <[u8; 32]>::try_from(public.as_ref()).ok(),
        Err(_) => None,
    }
}

/// An ephemeral key pair: the public half as it goes on the wire, and the
/// private half kept for a later key agreement.
pub struct KeyPair {
    pub public_key: [u8; 32],
    pub private_key: EphemeralPrivateKey,
}

impl KeyPair {
    /// Draws a fresh key pair; `None` where the random source or the key
    /// computation fails. The public key is the public half of the private
    /// key that comes with it.
    pub fn generate() -> (r: Option<KeyPair>)
        ensures
            r matches Some(kp) ==> kp.public_key@ == public_half(kp.private_key),
    {
        let private = match generate_private_key() {
            Some(k) => k,
            None => return None,
        };
        match public_key_of(&private) {
            Some(public_key) => Some(KeyPair { public_key, private_key: private }),
            None => None,
        }
    }
}

} // verus!
