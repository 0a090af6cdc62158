//! Account keys as 32-byte arrays, and signers that carry their key.

use vstd::prelude::*;

verus! {

/// The all-zero key, which the Token-2022 builders read as "no address".
pub open spec fn is_zero_key(k: [u8; 32]) -> bool {
    forall|i: int| 0 <= i < 32 ==> k[i] == 0
}

/// Whether `a` and `b` are the same key.
pub fn keys_equal(a: &[u8; 32], b: &[u8; 32]) -> (r: bool)
    ensures
        r == (*a == *b),
{
    let mut i: usize = 0;
    while i < 32
        invariant
            0 <= i <= 32,
            forall|j: int| 0 <= j < i ==> a[j] == b[j],
        decreases 32 - i,
    {
        if a[i] != b[i] {
            return false;
        }
        i = i + 1;
    }
    assert(*a =~= *b);
    true
}

/// A borrowed keypair together with its public key.
///
/// A value of this type is only made by [`KeyedSigner::new`], which reads the
/// key from the keypair itself, so `key` is always the keypair's public key.
#[derive(Clone, Copy)]
pub struct KeyedSigner<'a> {
    keypair: &'a solana_keypair::Keypair,
    key: [u8; 32],
}

impl<'a> View for KeyedSigner<'a> {
    type V = [u8; 32];

    closed spec fn view(&self) -> [u8; 32] {
        self.key
    }
}

impl<'a> KeyedSigner<'a> {
    /// Calls `Signer::pubkey` on the keypair and keeps its bytes beside the
    /// keypair itself. The key depends on the secret inside the keypair, which
    /// this crate cannot see, so nothing is stated of its value; that the
    /// keypair kept is the one given is stated.
    #[verifier::external_body]
    pub(crate) fn new(keypair: &'a solana_keypair::Keypair) -> (s: Self)
        ensures
            s.signing_keypair() == keypair,
    {
        KeyedSigner { keypair, key: solana_signer::Signer::pubkey(keypair).to_bytes() }
    }

    /// The signer's public key.
    pub fn key(&self) -> (k: [u8; 32])
        ensures
            k == self@,
    {
        self.key
    }

    /// The keypair held beside the key.
    pub closed spec fn signing_keypair(&self) -> &'a solana_keypair::Keypair {
        self.keypair
    }

    /// The keypair that signs for this key.
    pub(crate) fn keypair(&self) -> (kp: &'a solana_keypair::Keypair)
        ensures
            kp == self.signing_keypair(),
    {
        self.keypair
    }
}

} // verus!
