use vstd::prelude::*;

verus! {

/// The Ed25519 public key that the 32-byte secret seed `secret` yields.
pub uninterp spec fn ed25519_public_of(secret: Seq<u8>) -> Seq<u8>;

/// The Ed25519 signature of `msg` under the secret seed `secret`.
pub uninterp spec fn ed25519_signature_of(secret: Seq<u8>, msg: Seq<u8>) -> Seq<u8>;

/// The 64-bit xxHash of `data` under `seed`.
pub uninterp spec fn xxhash64_of(seed: u64, data: Seq<u8>) -> u64;

/// The 256-bit BLAKE2b digest of `data`, without a key.
pub uninterp spec fn blake2_256_of(data: Seq<u8>) -> Seq<u8>;

/// Relies on ed25519_dalek's `SecretKey::from_bytes` (which accepts exactly 32
/// bytes) and `PublicKey::from`: the public key, 32 bytes.
#[verifier::external_body]
pub(crate) fn ed25519_public(secret: &[u8]) -> (r: Vec<u8>)
    requires
        secret@.len() == 32,
    ensures
        r@ == ed25519_public_of(secret@),
        r@.len() == 32,
{
    let sk = ed25519_dalek::SecretKey::from_bytes(secret).unwrap();
    ed25519_dalek::PublicKey::from(&sk).to_bytes().to_vec()
}

/// Relies on ed25519_dalek's `ExpandedSecretKey::sign`, which signs
/// deterministically: a 64-byte signature of `msg` under the key from `secret`.
#[verifier::external_body]
pub(crate) fn ed25519_sign(secret: &[u8], msg: &[u8]) -> (r: Vec<u8>)
    requires
        secret@.len() == 32,
    ensures
        r@ == ed25519_signature_of(secret@, msg@),
        r@.len() == 64,
{
    let sk = ed25519_dalek::SecretKey::from_bytes(secret).unwrap();
    let pk = ed25519_dalek::PublicKey::from(&sk);
    ed25519_dalek::ExpandedSecretKey::from(&sk).sign(msg, &pk).to_bytes().to_vec()
}

/// Relies on twox_hash's `XxHash64::with_seed` and its `Hasher` impl: the
/// 64-bit xxHash of `data` under `seed`.
#[verifier::external_body]
pub(crate) fn xxhash64(seed: u64, data: &[u8]) -> (r: u64)
    ensures
        r == xxhash64_of(seed, data@),
{
    let mut h = twox_hash::XxHash64::with_seed(seed);
    std::hash::Hasher::write(&mut h, data);
    std::hash::Hasher::finish(&h)
}

/// Relies on blake2_rfc's `blake2b` with a 32-byte output and no key.
#[verifier::external_body]
pub(crate) fn blake2_256(data: &[u8]) -> (r: Vec<u8>)
    ensures
        r@ == blake2_256_of(data@),
        r@.len() == 32,
{
    blake2_rfc::blake2b::blake2b(32, &[], data).as_bytes().to_vec()
}

} // verus!
