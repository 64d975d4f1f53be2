use vstd::prelude::*;
use vstd::string::StringSliceAdditionalSpecFns;
use crate::crypto::{ed25519_public, ed25519_public_of, ed25519_sign, ed25519_signature_of};

verus! {

/// The seed text's bytes cut or padded with spaces to 32 bytes.
pub open spec fn padded_seed(s: Seq<u8>) -> Seq<u8> {
    Seq::new(32, |i: int| if i < s.len() { s[i] } else { 0x20u8 })
}

/// A seed given as text. Its keys are derived with no key-derivation function
/// and no added entropy: this is for development chains and tests only.
pub struct RawSeed {
    pub text: Vec<u8>,
}

/// A signing key and its public key.
pub struct Keypair {
    pub secret: Vec<u8>,
    pub public: Vec<u8>,
}

impl Keypair {
    /// The keypair that the secret seed `secret` yields.
    pub open spec fn from_secret(self, secret: Seq<u8>) -> bool {
        &&& self.secret@ == secret
        &&& self.public@ == ed25519_public_of(secret)
    }

    pub open spec fn wf(self) -> bool {
        &&& self.secret@.len() == 32
        &&& self.public@.len() == 32
        &&& self.from_secret(self.secret@)
    }

    /// Signs `msg` with the secret key.
    pub fn sign(&self, msg: &[u8]) -> (r: Vec<u8>)
        requires
            self.wf(),
        ensures
            r@ == ed25519_signature_of(self.secret@, msg@),
            r@.len() == 64,
    {
        ed25519_sign(self.secret.as_slice(), msg)
    }
}

impl RawSeed {
    pub fn new(seed: &str) -> (r: RawSeed)
        ensures
            r.text@ == seed.spec_bytes(),
    {
        RawSeed { text: vstd::slice::slice_to_vec(seed.as_bytes()) }
    }

    /// The 32-byte secret seed: the text cut to 32 bytes, or padded on the right
    /// with spaces.
    pub fn secret(&self) -> (r: Vec<u8>)
        ensures
            r@ == padded_seed(self.text@),
    {
        let mut s: Vec<u8> = Vec::new();
        let mut i: usize = 0;
        while i < 32
            invariant
                i <= 32,
                s@.len() == i,
                forall|j: int| 0 <= j < i ==> s@[j] == padded_seed(self.text@)[j],
            decreases 32 - i,
        {
            if i < self.text.len() {
                s.push(self.text[i]);
            } else {
                s.push(0x20u8);
            }
            i = i + 1;
        }
        assert(s@ == padded_seed(self.text@));
        s
    }

    pub fn pair(&self) -> (r: Keypair)
        ensures
            r.wf(),
            r.from_secret(padded_seed(self.text@)),
    {
        let secret = self.secret();
        let public = ed25519_public(secret.as_slice());
        Keypair { secret, public }
    }

    pub fn account_id(&self) -> (r: Vec<u8>)
        ensures
            r@ == ed25519_public_of(padded_seed(self.text@)),
            r@.len() == 32,
    {
        let pair = self.pair();
        pair.public
    }
}

/// Key derivation is a function of the seed alone: two keypairs derived from
/// equal seed texts are equal, and so are their account ids.
pub proof fn derivation_is_deterministic(text: Seq<u8>, a: Keypair, b: Keypair)
    requires
        a.from_secret(padded_seed(text)),
        b.from_secret(padded_seed(text)),
    ensures
        a.secret@ == b.secret@,
        a.public@ == b.public@,
{
}

} // verus!
