//! Random numbers and the Diffie-Hellman key exchange.

use crate::call::outcome;
use rand::RngCore;
use vstd::prelude::*;
use x25519_dalek::{PublicKey, StaticSecret};

verus! {

/// Calls `fill_bytes` of `rand::thread_rng` on a buffer of `N` bytes, each of
/// which is overwritten with a random one. Nothing holds of every outcome but
/// the length, which the type gives.
#[verifier::external_body]
fn draw<const N: usize>() -> (bytes: [u8; N]) {
    let mut bytes: [u8; N] = [0u8; N];
    rand::thread_rng().fill_bytes(&mut bytes);
    bytes
}

/// Whether these bytes were drawn at random.
pub closed spec fn is_drawn<const N: usize>(bytes: [u8; N]) -> bool {
    call_ensures(draw::<N>, (), bytes)
}

/// A fresh secret for a key exchange: thirty-two bytes, drawn at random.
pub fn random_secret() -> (secret: [u8; 32])
    ensures
        is_drawn(secret),
{
    outcome(draw::<32>)
}

/// A fresh nonce for a chat message: eight bytes, drawn at random.
pub fn random_nonce() -> (nonce: [u8; 8])
    ensures
        is_drawn(nonce),
{
    outcome(draw::<8>)
}

/// The X25519 public key of a secret, as `x25519_dalek` computes it.
pub uninterp spec fn x25519_public(secret: Seq<u8>) -> Seq<u8>;

/// The X25519 shared key of a secret and a public key, as `x25519_dalek`
/// computes it.
pub uninterp spec fn x25519_shared(secret: Seq<u8>, public: Seq<u8>) -> Seq<u8>;

/// Calls `x25519_dalek::PublicKey::from` on a secret: the public key is a
/// function of the secret alone.
#[verifier::external_body]
pub(crate) fn public_key(secret: &[u8; 32]) -> (public: [u8; 32])
    ensures
        public@ == x25519_public(secret@),
{
    PublicKey::from(&StaticSecret::from(*secret)).to_bytes()
}

/// Calls `x25519_dalek::StaticSecret::diffie_hellman`: the shared key is a
/// function of the secret and of the other side's public key, and it is the
/// one that the other side computes from its own secret and this secret's
/// public key. It is as long as that public key: both have thirty-two bytes.
#[verifier::external_body]
pub(crate) fn diffie_hellman(secret: &[u8; 32], their_public: &[u8; 32]) -> (shared: [u8; 32])
    ensures
        shared@ == x25519_shared(secret@, their_public@),
        forall|theirs: Seq<u8>|
            theirs.len() == 32 && their_public@ == #[trigger] x25519_public(theirs) ==> shared@
                == x25519_shared(theirs, x25519_public(secret@)),
        shared@.len() == x25519_public(secret@).len(),
{
    StaticSecret::from(*secret).diffie_hellman(&PublicKey::from(*their_public)).to_bytes()
}

/// What `x25519_dalek` promises of two secrets: their public keys have
/// thirty-two bytes, and each side computes the other side's key.
pub open spec fn exchange_agrees(ours: Seq<u8>, theirs: Seq<u8>) -> bool {
    &&& x25519_public(ours).len() == 32
    &&& x25519_public(theirs).len() == 32
    &&& x25519_shared(ours, x25519_public(theirs)) == x25519_shared(theirs, x25519_public(ours))
}

} // verus!
