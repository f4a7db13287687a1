use vstd::prelude::*;
use crate::cipher::block_open;
use crate::codec::Recipient;
use crate::codec::block_recovers;
use crate::codec::decode;
use crate::codec::decoded_in_order;
use crate::errors::MixerError;
use crate::hexenc::bytes_to_hex;
use crate::hexenc::hex_of;
use crate::keys::KeyStore;
use crate::keys::pubkey_of;
use crate::shuffle::permute;

verus! {

/// The operations one deal-mixing contract instance exposes to its callers.
pub trait ContractInterface: Sized {
    /// Whether construction has run and a symmetric key is stored.
    spec fn st_initialized(&self) -> bool;

    /// The stored symmetric key bytes.
    spec fn st_key(&self) -> Seq<u8>;

    /// The stored hex-encoded mixer address; empty before construction.
    spec fn st_mixer_addr(&self) -> Seq<char>;

    /// The instance's internal invariant: a stored key is usable for
    /// public-key derivation.
    spec fn st_wf(&self) -> bool;

    /// Records the address of the on-chain mixer contract (hex-encoded) and
    /// generates the instance's symmetric key. Must run exactly once, at
    /// instance creation: running it again overwrites the key and
    /// invalidates any previously issued public key. On failure nothing is
    /// persisted.
    fn construct(&mut self, mixer_eth_addr: &[u8; 20]) -> (r: Result<(), MixerError>)
        requires
            old(self).st_wf(),
        ensures
            final(self).st_wf(),
            r is Ok ==> final(self).st_initialized() && final(self).st_mixer_addr() == hex_of(
                mixer_eth_addr@,
            ),
            r matches Err(e) ==> e == MixerError::RandomnessUnavailable && *final(self) == *old(
                self,
            ),
    ;

    /// Returns the public component of the keypair derived from the stored
    /// symmetric key: the same bytes on every call for a given stored key,
    /// with no side effect. Fails with `UninitializedKey` if and only if
    /// construction has not run.
    fn get_pub_key(&self) -> (r: Result<Vec<u8>, MixerError>)
        requires
            self.st_wf(),
        ensures
            r matches Ok(p) ==> self.st_initialized() && p@ == pubkey_of(self.st_key())
                && p@.len() == 65,
            r matches Err(e) ==> e == MixerError::UninitializedKey && !self.st_initialized(),
    ;

    /// Runs one deal: validates the batch shape, recovers the recipient
    /// addresses by authenticated decryption, and returns an unlinkable
    /// reordering of them - the same multiset of addresses as the decoded
    /// batch, with no duplication or loss. Nothing is persisted, whatever
    /// the outcome. Fails with `MalformedInput` exactly when the batch
    /// length is not `nb_recipients * 70`, with `UninitializedKey` exactly
    /// when the shape fits but construction has not run, and with
    /// `Authentication` exactly when some block fails to decrypt. A deal of
    /// at most one authentic recipient needs no random draw, so on it the
    /// call is owed to succeed.
    fn execute_deal(&self, deal_id: &[u8; 32], nb_recipients: u64, enc_recipients: &Vec<u8>) -> (r:
        Result<Vec<Recipient>, MixerError>)
        requires
            self.st_wf(),
        ensures
            r == Err::<Vec<Recipient>, MixerError>(MixerError::MalformedInput) <==> enc_recipients@.len()
                != nb_recipients * 70,
            r == Err::<Vec<Recipient>, MixerError>(MixerError::UninitializedKey) <==> enc_recipients@.len()
                == nb_recipients * 70 && !self.st_initialized(),
            r == Err::<Vec<Recipient>, MixerError>(MixerError::Authentication) <==> enc_recipients@.len()
                == nb_recipients * 70 && self.st_initialized() && (exists|i: int|
                0 <= i < nb_recipients && !block_recovers(self.st_key(), enc_recipients@, i)),
            r == Err::<Vec<Recipient>, MixerError>(MixerError::RandomnessUnavailable)
                ==> enc_recipients@.len() == nb_recipients * 70 && self.st_initialized(),
            enc_recipients@.len() == nb_recipients * 70 && self.st_initialized()
                && nb_recipients <= 1 && (forall|i: int|
                0 <= i < nb_recipients ==> #[trigger] block_recovers(
                    self.st_key(),
                    enc_recipients@,
                    i,
                )) ==> r is Ok,
            r matches Ok(out) ==> self.st_initialized() && out@.len() == nb_recipients
                && (exists|rs: Seq<Recipient>|
                #[trigger] decoded_in_order(
                    self.st_key(),
                    enc_recipients@,
                    nb_recipients as int,
                    rs,
                ) && out@.to_multiset() == rs.to_multiset()),
    ;
}

/// One deal-mixing contract instance: the persisted state is an explicit
/// store owned by the instance, with one slot for the mixer address and one
/// for the symmetric key.
pub struct Contract {
    mixer_eth_addr: Option<String>,
    keys: KeyStore,
}

impl Contract {
    /// A fresh, unconstructed instance: both state slots empty.
    pub fn new() -> (c: Contract)
        ensures
            !c.st_initialized(),
            c.st_wf(),
            c.st_mixer_addr() == Seq::<char>::empty(),
    {
        Contract { mixer_eth_addr: None::<String>, keys: KeyStore::new() }
    }

    /// The hex-encoded address of the on-chain mixer contract, or the empty
    /// string when construction has not recorded one.
    pub fn get_mixer_eth_addr(&self) -> (r: String)
        ensures
            r@ == self.st_mixer_addr(),
    {
        match &self.mixer_eth_addr {
            Some(s) => s.clone(),
            None => String::new(),
        }
    }

    /// Decrypts a message under the instance's symmetric key. Fails with
    /// `UninitializedKey` exactly when construction has not run, and with
    /// `Authentication` exactly when the integrity tag does not verify.
    pub fn decrypt(&self, enc_msg: &Vec<u8>) -> (r: Result<Vec<u8>, MixerError>)
        requires
            self.st_wf(),
        ensures
            r matches Ok(p) ==> self.st_initialized() && block_open(self.st_key(), enc_msg@)
                == Some(p@),
            r == Err::<Vec<u8>, MixerError>(MixerError::UninitializedKey) <==> !self.st_initialized(),
            r == Err::<Vec<u8>, MixerError>(MixerError::Authentication) <==> self.st_initialized()
                && block_open(self.st_key(), enc_msg@) is None,
            r is Err ==> r == Err::<Vec<u8>, MixerError>(MixerError::UninitializedKey) || r
                == Err::<Vec<u8>, MixerError>(MixerError::Authentication),
    {
        let key = match self.keys.get_symmetric_key() {
            Ok(k) => k,
            Err(e) => {
                return Err(e);
            },
        };
        match crate::cipher::decrypt(enc_msg.as_slice(), &key) {
            Ok(p) => Ok(p),
            Err(e) => Err(e),
        }
    }

    /// Encrypts a message under the instance's symmetric key, behind a fresh
    /// random nonce. Fails with `UninitializedKey` exactly when construction
    /// has not run, and with `RandomnessUnavailable` only when the secure
    /// random source refused a nonce.
    pub fn encrypt(&self, plaintext_msg: &Vec<u8>) -> (r: Result<Vec<u8>, MixerError>)
        requires
            self.st_wf(),
            plaintext_msg@.len() + 28 <= usize::MAX,
        ensures
            r matches Ok(c) ==> self.st_initialized() && c@.len() == plaintext_msg@.len() + 28
                && block_open(self.st_key(), c@) == Some(plaintext_msg@),
            r == Err::<Vec<u8>, MixerError>(MixerError::UninitializedKey) <==> !self.st_initialized(),
            r matches Err(e) ==> e == MixerError::UninitializedKey
                || e == MixerError::RandomnessUnavailable,
    {
        let key = match self.keys.get_symmetric_key() {
            Ok(k) => k,
            Err(e) => {
                return Err(e);
            },
        };
        match crate::cipher::encrypt(plaintext_msg.as_slice(), &key) {
            Some(c) => Ok(c),
            None => Err(MixerError::RandomnessUnavailable),
        }
    }
}

impl ContractInterface for Contract {
    closed spec fn st_initialized(&self) -> bool {
        self.keys.initialized()
    }

    closed spec fn st_key(&self) -> Seq<u8> {
        self.keys.key_view()
    }

    closed spec fn st_mixer_addr(&self) -> Seq<char> {
        match self.mixer_eth_addr {
            Some(s) => s@,
            None => Seq::empty(),
        }
    }

    closed spec fn st_wf(&self) -> bool {
        self.keys.wf()
    }

    fn construct(&mut self, mixer_eth_addr: &[u8; 20]) -> (r: Result<(), MixerError>) {
        match self.keys.initialize() {
            Ok(()) => {
                let hex = bytes_to_hex(mixer_eth_addr.as_slice());
                self.mixer_eth_addr = Some(hex);
                Ok(())
            },
            Err(e) => Err(e),
        }
    }

    fn get_pub_key(&self) -> (r: Result<Vec<u8>, MixerError>) {
        self.keys.get_public_key()
    }

    fn execute_deal(
        &self,
        _deal_id: &[u8; 32],
        nb_recipients: u64,
        enc_recipients: &Vec<u8>,
    ) -> (r: Result<Vec<Recipient>, MixerError>) {
        let blen = enc_recipients.len();
        if nb_recipients > usize::MAX as u64 {
            assert(enc_recipients@.len() != nb_recipients * 70);
            return Err(MixerError::MalformedInput);
        }
        let count = nb_recipients as usize;
        let total = match count.checked_mul(70) {
            Some(t) => t,
            None => {
                assert(enc_recipients@.len() != nb_recipients * 70);
                return Err(MixerError::MalformedInput);
            },
        };
        if blen != total {
            return Err(MixerError::MalformedInput);
        }
        let key = match self.keys.get_symmetric_key() {
            Ok(k) => k,
            Err(e) => {
                return Err(e);
            },
        };
        let ordered = match decode(enc_recipients.as_slice(), count, &key) {
            Ok(rs) => rs,
            Err(e) => {
                proof {
                    let i0 = choose|i: int|
                        0 <= i < count && !block_recovers(key@, enc_recipients@, i);
                    assert(!block_recovers(self.st_key(), enc_recipients@, i0));
                }
                return Err(e);
            },
        };
        let ghost in_order = ordered@;
        match permute(ordered) {
            Some(out) => {
                proof {
                    assert(decoded_in_order(
                        self.st_key(),
                        enc_recipients@,
                        nb_recipients as int,
                        in_order,
                    ));
                }
                Ok(out)
            },
            None => Err(MixerError::RandomnessUnavailable),
        }
    }
}

} // verus!
