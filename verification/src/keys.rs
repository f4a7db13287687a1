use vstd::prelude::*;
use crate::cipher::SYMMETRIC_KEY_SIZE;
use crate::cipher::SymmetricKey;
use crate::errors::MixerError;
use crate::rng::os_random_bytes;

verus! {

/// Whether 32 bytes form a valid secp256k1 private scalar (nonzero and below
/// the curve order), as libsecp256k1::SecretKey::parse decides it: a
/// function of the bytes alone.
pub uninterp spec fn sec_valid(key: Seq<u8>) -> bool;

/// The serialized uncompressed secp256k1 public key derived from a valid
/// private scalar: a function of the scalar bytes alone.
pub uninterp spec fn pubkey_of(key: Seq<u8>) -> Seq<u8>;

/// Relies on libsecp256k1: SecretKey::parse accepts exactly the nonzero
/// scalars below the curve order, PublicKey::from_secret_key derives the
/// public point deterministically, and PublicKey::serialize emits its
/// 65-byte uncompressed form.
#[verifier::external_body]
fn secp_derive_pubkey(key: &SymmetricKey) -> (r: Option<Vec<u8>>)
    ensures
        r is Some <==> sec_valid(key@),
        r matches Some(p) ==> p@ == pubkey_of(key@) && p@.len() == 65,
{
    let secret = match libsecp256k1::SecretKey::parse(key) {
        Ok(s) => s,
        Err(_) => return None,
    };
    let public = libsecp256k1::PublicKey::from_secret_key(&secret);
    Some(public.serialize().to_vec())
}

/// Owns the deal's long-lived symmetric key. The key is generated once, at
/// construction, from the secure random source, and is immutable thereafter;
/// only the derived public point ever leaves the store.
pub struct KeyStore {
    key: Option<SymmetricKey>,
}

impl KeyStore {
    /// A stored key is always a valid secp256k1 private scalar, so public-key
    /// derivation is owed to succeed on it.
    pub closed spec fn wf(self) -> bool {
        self.key matches Some(k) ==> sec_valid(k@)
    }

    /// Whether a symmetric key has been generated and stored.
    pub closed spec fn initialized(self) -> bool {
        self.key is Some
    }

    /// The stored symmetric key bytes.
    pub closed spec fn key_view(self) -> Seq<u8>
        recommends
            self.initialized(),
    {
        self.key->Some_0@
    }

    /// An empty store: no key yet.
    pub fn new() -> (s: KeyStore)
        ensures
            !s.initialized(),
            s.wf(),
    {
        KeyStore { key: None::<SymmetricKey> }
    }

    /// Generates a fresh symmetric key from the secure random source and
    /// stores it. Calling this twice overwrites the key and invalidates any
    /// previously issued public key; callers must run it exactly once, at
    /// construction. Fails, leaving the store untouched, only when the
    /// random source refused or yielded an unusable scalar.
    pub fn initialize(&mut self) -> (r: Result<(), MixerError>)
        ensures
            r is Ok ==> final(self).initialized() && final(self).wf(),
            r matches Err(e) ==> e == MixerError::RandomnessUnavailable && *final(self)
                == *old(self),
    {
        let drawn = match os_random_bytes(SYMMETRIC_KEY_SIZE) {
            Some(b) => b,
            None => return Err(MixerError::RandomnessUnavailable),
        };
        let mut fresh: SymmetricKey = [0u8; 32];
        let mut i: usize = 0;
        while i < SYMMETRIC_KEY_SIZE
            invariant
                drawn@.len() == 32,
                i <= 32,
            decreases 32 - i,
        {
            fresh[i] = drawn[i];
            i = i + 1;
        }
        match secp_derive_pubkey(&fresh) {
            Some(_) => {
                self.key = Some(fresh);
                Ok(())
            },
            None => Err(MixerError::RandomnessUnavailable),
        }
    }

    /// Hands out the stored symmetric key; fails with `UninitializedKey` if
    /// and only if no key has been stored yet.
    pub fn get_symmetric_key(&self) -> (r: Result<SymmetricKey, MixerError>)
        ensures
            r matches Ok(k) ==> self.initialized() && k@ == self.key_view(),
            r matches Err(e) ==> e == MixerError::UninitializedKey && !self.initialized(),
    {
        match self.key {
            Some(k) => Ok(k),
            None => Err(MixerError::UninitializedKey),
        }
    }

    /// Derives the keypair from the stored symmetric key and returns only
    /// the public component: 65 bytes, the same bytes on every call for a
    /// given stored key. Fails with `UninitializedKey` if and only if no key
    /// has been stored yet.
    pub fn get_public_key(&self) -> (r: Result<Vec<u8>, MixerError>)
        requires
            self.wf(),
        ensures
            r matches Ok(p) ==> self.initialized() && p@ == pubkey_of(self.key_view())
                && p@.len() == 65,
            r matches Err(e) ==> e == MixerError::UninitializedKey && !self.initialized(),
    {
        let k = match self.key {
            Some(k) => k,
            None => return Err(MixerError::UninitializedKey),
        };
        match secp_derive_pubkey(&k) {
            Some(p) => Ok(p),
            None => {
                proof {
                    assert(false);
                }
                Err(MixerError::UninitializedKey)
            },
        }
    }
}

/// Law (key-derivation stability): the public key is a pure function of the
/// stored symmetric key, so any two reads against the same key agree.
pub proof fn lemma_pub_key_stable(key: Seq<u8>, first: Seq<u8>, second: Seq<u8>)
    ensures
        first == pubkey_of(key) && second == pubkey_of(key) ==> first == second,
{
}

} // verus!
