use coinjoin::Contract;
use coinjoin::ContractInterface;
use coinjoin::KeyStore;
use coinjoin::MixerError;
use coinjoin::Recipient;

const BLOCK: usize = 70;

fn constructed(addr_byte: u8) -> Contract {
    let mut c = Contract::new();
    let addr = [addr_byte; 20];
    c.construct(&addr).expect("randomness source available");
    c
}

fn make_block(c: &Contract, addr: [u8; 20]) -> Vec<u8> {
    let mut plain = addr.to_vec();
    plain.extend(std::iter::repeat(0u8).take(22));
    assert_eq!(plain.len(), 42);
    let block = c.encrypt(&plain).expect("encryption succeeds");
    assert_eq!(block.len(), BLOCK);
    block
}

#[test]
fn round_trip_under_contract_key() {
    let c = constructed(0xAA);
    let msg: Vec<u8> = (0u8..42).collect();
    let sealed = c.encrypt(&msg).expect("encryption succeeds");
    let opened = c.decrypt(&sealed).expect("fresh ciphertext authenticates");
    assert_eq!(opened, msg);
}

#[test]
fn round_trip_free_functions() {
    let key: [u8; 32] = [7u8; 32];
    let msg = vec![1u8, 2, 3, 4, 5];
    let sealed = coinjoin::encrypt(&msg, &key).expect("encryption succeeds");
    assert_eq!(sealed.len(), msg.len() + 28);
    let opened = coinjoin::decrypt(&sealed, &key).expect("fresh ciphertext authenticates");
    assert_eq!(opened, msg);
    let through = coinjoin::encrypt_then_decrypt(&msg, &key).expect("round trip succeeds");
    assert_eq!(through, msg);
}

#[test]
fn encrypting_twice_differs() {
    let c = constructed(0xAA);
    let msg = vec![9u8; 42];
    let first = c.encrypt(&msg).expect("encryption succeeds");
    let second = c.encrypt(&msg).expect("encryption succeeds");
    assert_ne!(first, second, "a fresh nonce must make ciphertexts differ");
}

#[test]
fn tampering_any_byte_fails_authentication() {
    let key: [u8; 32] = [3u8; 32];
    let msg = vec![0x5Au8; 42];
    let sealed = coinjoin::encrypt(&msg, &key).expect("encryption succeeds");
    for pos in 0..sealed.len() {
        let mut corrupt = sealed.clone();
        corrupt[pos] ^= 0x01;
        match coinjoin::decrypt(&corrupt, &key) {
            Err(MixerError::Authentication) => {}
            other => panic!("tampered byte {} gave {:?}", pos, other),
        }
    }
}

#[test]
fn wrong_key_fails_authentication() {
    let key: [u8; 32] = [3u8; 32];
    let other_key: [u8; 32] = [4u8; 32];
    let sealed = coinjoin::encrypt(&vec![1u8; 42], &key).expect("encryption succeeds");
    assert_eq!(
        coinjoin::decrypt(&sealed, &other_key),
        Err(MixerError::Authentication)
    );
}

#[test]
fn pub_key_is_stable_and_long_enough() {
    let c = constructed(0xAA);
    let first = c.get_pub_key().expect("key stored at construction");
    let second = c.get_pub_key().expect("key stored at construction");
    assert_eq!(first, second);
    assert!(first.len() >= 32);
    assert_eq!(first.len(), 65);
}

#[test]
fn pub_key_before_construct_fails() {
    let c = Contract::new();
    assert_eq!(c.get_pub_key(), Err(MixerError::UninitializedKey));
}

#[test]
fn keystore_lifecycle() {
    let mut ks = KeyStore::new();
    assert_eq!(ks.get_symmetric_key(), Err(MixerError::UninitializedKey));
    assert_eq!(ks.get_public_key(), Err(MixerError::UninitializedKey));
    ks.initialize().expect("randomness source available");
    let key = ks.get_symmetric_key().expect("key stored");
    assert_eq!(key.len(), 32);
    let p1 = ks.get_public_key().expect("stored key is a valid scalar");
    let p2 = ks.get_public_key().expect("stored key is a valid scalar");
    assert_eq!(p1, p2);
    assert_eq!(p1.len(), 65);
}

#[test]
fn mixer_addr_is_hex_encoded() {
    let mut c = Contract::new();
    assert_eq!(c.get_mixer_eth_addr(), "");
    let mut addr = [0u8; 20];
    for (i, b) in addr.iter_mut().enumerate() {
        *b = i as u8;
    }
    c.construct(&addr).expect("randomness source available");
    assert_eq!(
        c.get_mixer_eth_addr(),
        "000102030405060708090a0b0c0d0e0f10111213"
    );
}

#[test]
fn deal_with_two_recipients_is_one_of_two_orders() {
    let c = constructed(0xAA);
    let a = [0x11u8; 20];
    let b = [0x22u8; 20];
    let mut batch = make_block(&c, a);
    batch.extend(make_block(&c, b));
    let deal_id = [0u8; 32];
    let out = c.execute_deal(&deal_id, 2, &batch).expect("valid deal");
    assert_eq!(out.len(), 2);
    let got: Vec<[u8; 20]> = out.iter().map(|r| r.bytes).collect();
    assert!(
        got == vec![a, b] || got == vec![b, a],
        "result must be a permutation of the two addresses, got {:?}",
        got
    );
}

#[test]
fn deal_output_is_multiset_of_decoded_batch() {
    let c = constructed(0x33);
    let addrs: Vec<[u8; 20]> = (0u8..5).map(|i| [i + 1; 20]).collect();
    let mut batch = Vec::new();
    for a in &addrs {
        batch.extend(make_block(&c, *a));
    }
    let out = c.execute_deal(&[9u8; 32], 5, &batch).expect("valid deal");
    let mut got: Vec<[u8; 20]> = out.iter().map(|r| r.bytes).collect();
    let mut want = addrs.clone();
    got.sort();
    want.sort();
    assert_eq!(got, want, "same multiset of addresses, no loss, no duplication");
}

#[test]
fn wrong_batch_length_is_malformed() {
    let c = constructed(0xAA);
    let batch = vec![0u8; 2 * BLOCK];
    assert_eq!(
        c.execute_deal(&[0u8; 32], 3, &batch),
        Err(MixerError::MalformedInput)
    );
}

#[test]
fn malformed_input_leaves_state_unchanged() {
    let c = constructed(0xAA);
    let key_before = c.get_pub_key().expect("key stored");
    let addr_before = c.get_mixer_eth_addr();
    let batch = vec![0u8; BLOCK + 1];
    assert_eq!(
        c.execute_deal(&[0u8; 32], 1, &batch),
        Err(MixerError::MalformedInput)
    );
    assert_eq!(c.get_pub_key().expect("key stored"), key_before);
    assert_eq!(c.get_mixer_eth_addr(), addr_before);
}

#[test]
fn deal_before_construct_is_uninitialized() {
    let c = Contract::new();
    let batch = vec![0u8; BLOCK];
    assert_eq!(
        c.execute_deal(&[0u8; 32], 1, &batch),
        Err(MixerError::UninitializedKey)
    );
}

#[test]
fn corrupted_tag_fails_whole_deal() {
    let c = constructed(0xAA);
    let a = [0x11u8; 20];
    let b = [0x22u8; 20];
    let mut batch = make_block(&c, a);
    batch.extend(make_block(&c, b));
    // Flip a bit inside the second block's tag region.
    let pos = BLOCK + 60;
    batch[pos] ^= 0x80;
    assert_eq!(
        c.execute_deal(&[0u8; 32], 2, &batch),
        Err(MixerError::Authentication),
        "no partial recipient list may be produced"
    );
}

#[test]
fn single_recipient_deal_succeeds() {
    let c = constructed(0xAA);
    let a = [0x77u8; 20];
    let batch = make_block(&c, a);
    let out = c.execute_deal(&[1u8; 32], 1, &batch).expect("one authentic block");
    assert_eq!(out.len(), 1);
    assert_eq!(out[0].bytes, a);
}

#[test]
fn empty_deal_succeeds() {
    let c = constructed(0xAA);
    let out = c.execute_deal(&[0u8; 32], 0, &Vec::new()).expect("empty deal");
    assert!(out.is_empty());
}

#[test]
fn decode_preserves_input_order() {
    let key = [5u8; 32];
    let addrs: Vec<[u8; 20]> = (0u8..3).map(|i| [0x10 * (i + 1); 20]).collect();
    let mut batch = Vec::new();
    for a in &addrs {
        let mut plain = a.to_vec();
        plain.extend(std::iter::repeat(0u8).take(22));
        batch.extend(coinjoin::encrypt(&plain, &key).expect("encryption succeeds"));
    }
    let decoded = coinjoin::decode(&batch, 3, &key).expect("all blocks authenticate");
    let got: Vec<[u8; 20]> = decoded.iter().map(|r| r.bytes).collect();
    assert_eq!(got, addrs, "the codec must keep input order");
}

#[test]
fn decode_rejects_wrong_count() {
    let key = [5u8; 32];
    assert_eq!(
        coinjoin::decode(&vec![0u8; BLOCK], 2, &key),
        Err(MixerError::MalformedInput)
    );
}

#[test]
fn decode_rejects_garbage_block() {
    let key = [5u8; 32];
    assert_eq!(
        coinjoin::decode(&vec![0u8; BLOCK], 1, &key),
        Err(MixerError::Authentication)
    );
}

#[test]
fn permute_keeps_elements() {
    let input: Vec<Recipient> = (0u8..7).map(|i| Recipient { bytes: [i; 20] }).collect();
    let out = coinjoin::permute(input.clone()).expect("randomness source available");
    assert_eq!(out.len(), input.len());
    let mut got: Vec<[u8; 20]> = out.iter().map(|r| r.bytes).collect();
    let mut want: Vec<[u8; 20]> = input.iter().map(|r| r.bytes).collect();
    got.sort();
    want.sort();
    assert_eq!(got, want);
}

#[test]
fn shuffle_is_not_a_fixed_order() {
    let input: Vec<Recipient> = (0u8..6).map(|i| Recipient { bytes: [i; 20] }).collect();
    let mut seen = Vec::new();
    for _ in 0..64 {
        let out = coinjoin::permute(input.clone()).expect("randomness source available");
        let order: Vec<u8> = out.iter().map(|r| r.bytes[0]).collect();
        if !seen.contains(&order) {
            seen.push(order);
        }
    }
    assert!(
        seen.len() >= 2,
        "independent runs over the same input must not all share one order"
    );
}

#[test]
fn random_index_stays_below_bound() {
    for bound in 1..20usize {
        for _ in 0..50 {
            let j = coinjoin::random_index(bound).expect("randomness source available");
            assert!(j < bound);
        }
    }
}
