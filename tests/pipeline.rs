use chainx_rpc::extrinsic::ProtocolVersion::{Plain, Versioned};
use chainx_rpc::extrinsic::{
    create_call, encode_signing_payload, privileged, put_code_call, sign_payload, signing_message, SignedExtrinsic,
};
use chainx_rpc::query::{account_nonce_key, check_notification, sequence_number_key, twox_128, NotificationError};
use chainx_rpc::{
    account_nonce, deploy_contract, generate_create_contract_tx, generate_put_code_tx, generate_tx, genesis_hash,
    CallPayload, QueryError, RawSeed, RpcReply, SubmissionError,
};
use ed25519_dalek::Verifier;
use std::hash::Hasher;

fn alice_secret() -> [u8; 32] {
    let mut s = [b' '; 32];
    s[..5].copy_from_slice(b"Alice");
    s
}

fn dalek_keys(secret: &[u8]) -> (ed25519_dalek::SecretKey, ed25519_dalek::PublicKey) {
    let sk = ed25519_dalek::SecretKey::from_bytes(secret).unwrap();
    let pk = ed25519_dalek::PublicKey::from(&sk);
    (sk, pk)
}

fn dalek_sign(secret: &[u8], msg: &[u8]) -> Vec<u8> {
    let (sk, pk) = dalek_keys(secret);
    ed25519_dalek::ExpandedSecretKey::from(&sk).sign(msg, &pk).to_bytes().to_vec()
}

fn lower_hex(b: &[u8]) -> String {
    let mut s = String::from("0x");
    for x in b {
        s.push_str(&format!("{:02x}", x));
    }
    s
}

fn blake2(b: &[u8]) -> Vec<u8> {
    blake2_rfc::blake2b::blake2b(32, &[], b).as_bytes().to_vec()
}

const WASM_HEAD: [u8; 4] = [0x00, 0x61, 0x73, 0x6d];

#[test]
fn seed_is_padded_with_spaces() {
    let seed = RawSeed::new("Alice");
    assert_eq!(seed.secret(), alice_secret().to_vec());
}

#[test]
fn long_seed_is_truncated() {
    let seed = RawSeed::new("0123456789abcdef0123456789abcdefXYZ");
    assert_eq!(seed.secret(), b"0123456789abcdef0123456789abcdef".to_vec());
}

#[test]
fn empty_seed_is_all_spaces() {
    assert_eq!(RawSeed::new("").secret(), vec![b' '; 32]);
}

#[test]
fn derivation_is_deterministic_for_alice() {
    let a = RawSeed::new("Alice");
    let b = RawSeed::new("Alice");
    let (pa, pb) = (a.pair(), b.pair());
    assert_eq!(pa.secret, pb.secret);
    assert_eq!(pa.public, pb.public);
    assert_eq!(a.account_id(), b.account_id());
    let (_, pk) = dalek_keys(&alice_secret());
    assert_eq!(a.account_id(), pk.to_bytes().to_vec());
    assert_ne!(a.account_id(), RawSeed::new("Bob").account_id());
}

#[test]
fn short_payload_is_signed_directly() {
    let pair = RawSeed::new("Alice").pair();
    let payload = vec![7u8; 256];
    assert_eq!(signing_message(payload.clone()), payload);
    let sig = sign_payload(&pair, payload.clone());
    let (_, pk) = dalek_keys(&pair.secret);
    let sig = ed25519_dalek::Signature::from_bytes(&sig).unwrap();
    assert!(pk.verify(&payload, &sig).is_ok());
}

#[test]
fn long_payload_has_its_digest_signed() {
    let pair = RawSeed::new("Alice").pair();
    let payload = vec![7u8; 257];
    let msg = signing_message(payload.clone());
    assert_eq!(msg, blake2(&payload));
    let sig = sign_payload(&pair, payload.clone());
    let (_, pk) = dalek_keys(&pair.secret);
    let sig = ed25519_dalek::Signature::from_bytes(&sig).unwrap();
    assert!(pk.verify(&blake2(&payload), &sig).is_ok());
    assert!(pk.verify(&payload, &sig).is_err());
}

#[test]
fn compact_nonce_forms() {
    let call = put_code_call(vec![]);
    let genesis = [0u8; 32];
    assert_eq!(encode_signing_payload(0, &call, &genesis, Plain)[0], 0x00);
    assert_eq!(encode_signing_payload(1, &call, &genesis, Plain)[0], 0x04);
    assert_eq!(&encode_signing_payload(64, &call, &genesis, Plain)[..2], &[0x01, 0x01]);
    assert_eq!(&encode_signing_payload(16384, &call, &genesis, Plain)[..4], &[0x02, 0x00, 0x01, 0x00]);
    assert_eq!(
        &encode_signing_payload(1 << 30, &call, &genesis, Plain)[..5],
        &[0x03, 0x00, 0x00, 0x00, 0x40]
    );
    assert_eq!(
        &encode_signing_payload(u64::MAX, &call, &genesis, Plain)[..9],
        &[0x13, 0xff, 0xff, 0xff, 0xff, 0xff, 0xff, 0xff, 0xff]
    );
}

#[test]
fn put_code_call_encoding() {
    let payload = encode_signing_payload(0, &put_code_call(WASM_HEAD.to_vec()), &[0u8; 32], Plain);
    let mut expected = vec![0x00, 14, 1, 0x9f, 0x86, 0x01, 0, 0, 0, 0, 0, 0x10];
    expected.extend_from_slice(&WASM_HEAD);
    expected.push(0x00);
    expected.extend_from_slice(&[0u8; 32]);
    assert_eq!(payload, expected);
}

#[test]
fn create_call_encoding() {
    let call = create_call(&WASM_HEAD);
    let payload = encode_signing_payload(5, &call, &[1u8; 32], Plain);
    let mut expected = vec![0x14, 14, 3, 100];
    expected.extend_from_slice(&[0u8; 15]);
    expected.extend_from_slice(&[0x40, 0x42, 0x0f, 0, 0, 0, 0, 0]);
    expected.extend_from_slice(&blake2(&WASM_HEAD));
    expected.push(0x00);
    expected.push(0x00);
    expected.extend_from_slice(&[1u8; 32]);
    assert_eq!(payload, expected);
}

#[test]
fn privileged_call_golden_extrinsic() {
    let seed = RawSeed::new("Alice");
    let sender = seed.account_id();
    let genesis = [0u8; 32];
    let call = privileged(put_code_call(WASM_HEAD.to_vec()));
    let tx = generate_tx(&seed, sender.clone(), call, 0, &genesis, Plain);

    let mut call_bytes = vec![15u8, 0, 14, 1, 0x9f, 0x86, 0x01, 0, 0, 0, 0, 0, 0x10];
    call_bytes.extend_from_slice(&WASM_HEAD);
    let mut payload = vec![0x00];
    payload.extend_from_slice(&call_bytes);
    payload.push(0x00);
    payload.extend_from_slice(&genesis);
    let sig = dalek_sign(&alice_secret(), &payload);
    let mut body = vec![0x81, 0xff];
    body.extend_from_slice(&sender);
    body.extend_from_slice(&sig);
    body.push(0x00);
    body.push(0x00);
    body.extend_from_slice(&call_bytes);
    assert_eq!(body.len(), 117);
    let mut wire = vec![0xd5, 0x01];
    wire.extend_from_slice(&body);
    assert_eq!(tx, lower_hex(&wire));

    let again = generate_tx(&seed, sender, privileged(put_code_call(WASM_HEAD.to_vec())), 0, &genesis, Plain);
    assert_eq!(tx, again);
}

#[test]
fn large_code_takes_the_digest_path() {
    let code = vec![0xabu8; 10 * 1024];
    let call = put_code_call(code.clone());
    let payload = encode_signing_payload(0, &call, &[0u8; 32], Plain);
    assert!(payload.len() > 256);
    let msg = signing_message(payload.clone());
    assert_eq!(msg.len(), 32);
    assert_eq!(msg, blake2(&payload));

    let seed = RawSeed::new("Alice");
    let tx = generate_put_code_tx(&seed, seed.account_id(), 0, &[0u8; 32], code);
    let sig = dalek_sign(&alice_secret(), &msg);
    let sig_hex = lower_hex(&sig);
    assert!(tx.contains(&sig_hex[2..]));
}

#[test]
fn create_contract_tx_is_well_formed() {
    let seed = RawSeed::new("Alice");
    let tx = generate_create_contract_tx(&seed, seed.account_id(), 3, &[2u8; 32], &WASM_HEAD);
    assert!(tx.starts_with("0x"));
    // 2 + 32 + 64 + 1 + 1 + 58 + 1 body bytes behind a two-byte length.
    assert_eq!(tx.len(), 2 + 2 * (2 + 159));
}

#[test]
fn signed_extrinsic_encoding() {
    let x = SignedExtrinsic {
        version: Plain,
        nonce: 1,
        call: CallPayload::PutCode { gas_limit: 2, code: vec![9] },
        sender: vec![3u8; 32],
        signature: vec![4u8; 64],
    };
    let mut body = vec![0x81, 0xff];
    body.extend_from_slice(&[3u8; 32]);
    body.extend_from_slice(&[4u8; 64]);
    body.extend_from_slice(&[0x04, 0x00, 14, 1, 2, 0, 0, 0, 0, 0, 0, 0, 0x04, 9]);
    assert_eq!(body.len(), 112);
    let mut expected = vec![0xc1, 0x01];
    expected.extend_from_slice(&body);
    assert_eq!(x.encode(), expected);
}

#[test]
fn storage_key_is_stable() {
    let account = RawSeed::new("Alice").account_id();
    assert_eq!(sequence_number_key(&account), sequence_number_key(&account));
    assert_eq!(account_nonce_key(&account), account_nonce_key(&account));
    let mut raw = b"System AccountNonce".to_vec();
    raw.extend_from_slice(&account);
    let key = sequence_number_key(&account);
    assert_eq!(key, twox_128(&raw));
    assert_eq!(account_nonce_key(&account), lower_hex(&key));
    assert_ne!(sequence_number_key(&account), sequence_number_key(&[0u8; 32]));
}

#[test]
fn twox_128_matches_xxhash() {
    let data = b"System AccountNonce";
    let mut expected = Vec::new();
    for seed in 0..2u64 {
        let mut h = twox_hash::XxHash64::with_seed(seed);
        h.write(data);
        expected.extend_from_slice(&h.finish().to_le_bytes());
    }
    assert_eq!(twox_128(data), expected);
    assert_eq!(twox_128(b""), vec![0x99, 0xe9, 0xd8, 0x51, 0x37, 0xdb, 0x46, 0xef, 0x4b, 0xbe, 0xa3, 0x36, 0x13, 0xba, 0xaf, 0xd5]);
}

#[test]
fn missing_nonce_is_zero() {
    assert_eq!(account_nonce(&RpcReply::Absent), Ok(0));
}

#[test]
fn nonce_is_read_little_endian() {
    assert_eq!(account_nonce(&RpcReply::Text(String::from("0x0500000000000000"))), Ok(5));
    assert_eq!(account_nonce(&RpcReply::Text(String::from("0x0001000000000000"))), Ok(256));
    assert_eq!(account_nonce(&RpcReply::Text(String::from("0xFFffffffffffffff"))), Ok(u64::MAX));
}

#[test]
fn malformed_nonce_is_an_error() {
    let bad = Err(QueryError::MalformedResponse);
    assert_eq!(account_nonce(&RpcReply::Text(String::from("0x05"))), bad);
    assert_eq!(account_nonce(&RpcReply::Text(String::from("0x050000000000000000"))), bad);
    assert_eq!(account_nonce(&RpcReply::Text(String::from("0500000000000000"))), bad);
    assert_eq!(account_nonce(&RpcReply::Text(String::from("0x05000000000000zz"))), bad);
    assert_eq!(account_nonce(&RpcReply::Text(String::from("0x050000000000000"))), bad);
    assert_eq!(account_nonce(&RpcReply::Number(5)), bad);
    assert_eq!(account_nonce(&RpcReply::Other), bad);
}

#[test]
fn genesis_hash_decoding() {
    let text = format!("0x{}", "ab".repeat(32));
    assert_eq!(genesis_hash(&RpcReply::Text(text)), Ok(vec![0xab; 32]));
    assert_eq!(genesis_hash(&RpcReply::Text(String::from("0xabcd"))), Err(QueryError::MalformedResponse));
    assert_eq!(genesis_hash(&RpcReply::Absent), Err(QueryError::MalformedResponse));
}

#[test]
fn submission_error_object_is_rejected() {
    assert_eq!(deploy_contract(&RpcReply::Failure), Err(SubmissionError::Rejected));
    assert_eq!(deploy_contract(&RpcReply::Text(String::from("oops"))), Err(SubmissionError::Rejected));
    assert_eq!(deploy_contract(&RpcReply::Number(42)), Ok(42));
}

#[test]
fn notifications_are_matched_by_subscription() {
    assert_eq!(check_notification(7, &RpcReply::Number(7)), Ok(()));
    assert_eq!(check_notification(7, &RpcReply::Number(8)), Err(NotificationError::UnknownSubscription));
    assert_eq!(check_notification(7, &RpcReply::Absent), Err(NotificationError::MalformedPayload));
    assert_eq!(check_notification(7, &RpcReply::Text(String::from("7"))), Err(NotificationError::MalformedPayload));
}

#[test]
fn versioned_format_appends_the_version() {
    let call = put_code_call(vec![]);
    let plain = encode_signing_payload(2, &call, &[0u8; 32], Plain);
    let versioned = encode_signing_payload(2, &call, &[0u8; 32], Versioned);
    let mut expected = plain.clone();
    expected.push(0x04);
    assert_eq!(versioned, expected);

    let x = SignedExtrinsic {
        version: Versioned,
        nonce: 2,
        call: CallPayload::PutCode { gas_limit: 0, code: vec![] },
        sender: vec![3u8; 32],
        signature: vec![4u8; 64],
    };
    let mut body = vec![0x81, 0xff];
    body.extend_from_slice(&[3u8; 32]);
    body.extend_from_slice(&[4u8; 64]);
    body.extend_from_slice(&[0x08, 0x00, 0x04, 14, 1, 0, 0, 0, 0, 0, 0, 0, 0, 0x00]);
    assert_eq!(body.len(), 112);
    let mut wire = vec![0xc1, 0x01];
    wire.extend_from_slice(&body);
    assert_eq!(x.encode(), wire);
}
