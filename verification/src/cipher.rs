use vstd::prelude::*;
use crate::errors::MixerError;
use crate::rng::os_random_bytes;
use aes_gcm::KeyInit;
use aes_gcm::aead::Aead;

verus! {

/// Width in bytes of the symmetric key.
pub const SYMMETRIC_KEY_SIZE: usize = 32;

/// Width in bytes of the nonce a ciphertext starts with.
pub const NONCE_SIZE: usize = 12;

/// Width in bytes of the integrity tag a ciphertext ends with.
pub const TAG_SIZE: usize = 16;

/// A symmetric key: 32 secret bytes, generated once per contract instance.
pub type SymmetricKey = [u8; 32];

/// What AES-256-GCM decryption returns for a key, a nonce and a tagged
/// ciphertext: the recovered plaintext, or nothing when the tag does not
/// verify. The outcome is a function of the three arguments alone.
pub uninterp spec fn gcm_open(key: Seq<u8>, nonce: Seq<u8>, ct: Seq<u8>) -> Option<Seq<u8>>;

/// Relies on aes_gcm::Aes256Gcm (aead::Aead::decrypt): AES-256-GCM with a
/// 16-byte postfix tag. The outcome depends on key, nonce and ciphertext
/// alone, and a recovered plaintext is exactly 16 bytes shorter than the
/// tagged ciphertext.
#[verifier::external_body]
fn gcm_decrypt(key: &SymmetricKey, nonce: &[u8], ct: &[u8]) -> (r: Option<Vec<u8>>)
    requires
        nonce@.len() == 12,
    ensures
        r matches Some(p) ==> gcm_open(key@, nonce@, ct@) == Some(p@) && ct@.len() >= 16
            && p@.len() == ct@.len() - 16,
        r is None ==> gcm_open(key@, nonce@, ct@) is None,
{
    let cipher = match aes_gcm::Aes256Gcm::new_from_slice(key.as_slice()) {
        Ok(c) => c,
        Err(_) => return None,
    };
    match cipher.decrypt(aes_gcm::Nonce::from_slice(nonce), ct) {
        Ok(p) => Some(p),
        Err(_) => None,
    }
}

/// Relies on aes_gcm::Aes256Gcm (aead::Aead::encrypt): it seals the plaintext
/// under the key and nonce, appending a 16-byte tag, and decrypting the
/// result with the same key and nonce recovers the plaintext.
#[verifier::external_body]
fn gcm_encrypt(key: &SymmetricKey, nonce: &[u8], m: &[u8]) -> (r: Option<Vec<u8>>)
    requires
        nonce@.len() == 12,
    ensures
        r matches Some(c) ==> c@.len() == m@.len() + 16 && gcm_open(key@, nonce@, c@)
            == Some(m@),
{
    let cipher = match aes_gcm::Aes256Gcm::new_from_slice(key.as_slice()) {
        Ok(c) => c,
        Err(_) => return None,
    };
    match cipher.encrypt(aes_gcm::Nonce::from_slice(nonce), m) {
        Ok(c) => Some(c),
        Err(_) => None,
    }
}

/// What a self-contained ciphertext (nonce, then tagged ciphertext) opens to
/// under a key: the plaintext, or nothing when the buffer is too short to
/// hold a nonce or the tag does not verify.
pub open spec fn block_open(key: Seq<u8>, c: Seq<u8>) -> Option<Seq<u8>> {
    if c.len() >= 12 {
        gcm_open(key, c.take(12), c.skip(12))
    } else {
        None::<Seq<u8>>
    }
}

/// Authenticated decryption: recovers the plaintext of a self-contained
/// ciphertext, or fails with `Authentication` when the integrity tag does
/// not verify. No partial or garbage output is ever observable.
pub fn decrypt(c: &[u8], key: &SymmetricKey) -> (r: Result<Vec<u8>, MixerError>)
    ensures
        r matches Ok(p) ==> block_open(key@, c@) == Some(p@) && c@.len() >= 28
            && p@.len() == c@.len() - 28,
        r matches Err(e) ==> e == MixerError::Authentication && block_open(key@, c@) is None,
{
    if c.len() < NONCE_SIZE {
        return Err(MixerError::Authentication);
    }
    let nonce = vstd::slice::slice_subrange(c, 0, NONCE_SIZE);
    let ct = vstd::slice::slice_subrange(c, NONCE_SIZE, c.len());
    match gcm_decrypt(key, nonce, ct) {
        Some(p) => {
            assert(c@.take(12) == nonce@);
            assert(c@.skip(12) == ct@);
            Ok(p)
        },
        None => {
            assert(c@.take(12) == nonce@);
            assert(c@.skip(12) == ct@);
            Err(MixerError::Authentication)
        },
    }
}

/// Authenticated encryption: seals the plaintext under the key behind a
/// fresh random 12-byte nonce, producing `nonce || ciphertext || tag`.
/// `None` only when the secure randomness source refused a nonce or the
/// cipher refused the message; otherwise the result opens back to the
/// plaintext under the same key.
pub fn encrypt(m: &[u8], key: &SymmetricKey) -> (r: Option<Vec<u8>>)
    requires
        m@.len() + 28 <= usize::MAX,
    ensures
        r matches Some(c) ==> c@.len() == m@.len() + 28 && block_open(key@, c@) == Some(m@),
{
    let nonce = match os_random_bytes(NONCE_SIZE) {
        Some(n) => n,
        None => return None,
    };
    match gcm_encrypt(key, nonce.as_slice(), m) {
        Some(ct) => {
            let mut out = nonce;
            let mut tail = ct;
            out.append(&mut tail);
            assert(out@.take(12) == nonce@);
            assert(out@.skip(12) == ct@);
            Some(out)
        },
        None => None,
    }
}

/// Law (round trip): decrypting what `encrypt` produced, under the same key,
/// returns exactly the original plaintext. Whenever encryption succeeded,
/// decryption succeeds and hands the plaintext back unchanged.
pub fn encrypt_then_decrypt(m: &[u8], key: &SymmetricKey) -> (r: Option<Vec<u8>>)
    requires
        m@.len() + 28 <= usize::MAX,
    ensures
        r matches Some(p) ==> p@ == m@,
{
    match encrypt(m, key) {
        Some(c) => {
            match decrypt(c.as_slice(), key) {
                Ok(p) => Some(p),
                Err(_) => None,
            }
        },
        None => None,
    }
}

} // verus!
