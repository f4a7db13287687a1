//! Confidential core of a coinjoin-style mixing service.
//!
//! Given a batch of encrypted recipient addresses submitted for one deal, the
//! engine recovers the addresses with authenticated decryption, produces an
//! unlinkable reordering of them, and returns the mixed list. Key material is
//! held in an explicit state store owned by the contract instance.

mod cipher;
mod codec;
mod engine;
mod errors;
mod hexenc;
mod keys;
mod rng;
mod shuffle;

pub use cipher::NONCE_SIZE;
pub use cipher::SYMMETRIC_KEY_SIZE;
pub use cipher::SymmetricKey;
pub use cipher::TAG_SIZE;
pub use cipher::block_open;
pub use cipher::decrypt;
pub use cipher::encrypt;
pub use cipher::encrypt_then_decrypt;
pub use cipher::gcm_open;
pub use codec::ADDRESS_SIZE;
pub use codec::ENC_RECIPIENT_SIZE;
pub use codec::Recipient;
pub use codec::block_at;
pub use codec::block_recovers;
pub use codec::decode;
pub use codec::decoded_in_order;
pub use codec::recovered_at;
pub use engine::Contract;
pub use engine::ContractInterface;
pub use errors::MixerError;
pub use shuffle::permute;
pub use keys::KeyStore;
pub use keys::lemma_pub_key_stable;
pub use keys::pubkey_of;
pub use keys::sec_valid;
pub use hexenc::hex_of;
pub use rng::random_index;
