use balance_proof::codec::decode_u64;
use balance_proof::engine::{verify, PROGRAM_ID};
use balance_proof::ownership::{challenge_message, verify_bitcoin_signature};
use balance_proof::service::{build_witness, generate_proof};
use balance_proof::types::{OwnershipError, ServiceError, UTXO};

const SEGWIT_ADDR: &str = "bc1qw508d6qejxtdg4y5r3zarvary0c5xw7kv8f3t4";
const P2SH_ADDR: &str = "3J98t1WpEZ73CNmQviecrnyiWrnqRhWNLy";

fn keypair(seed: u8) -> (bitcoin::secp256k1::SecretKey, String) {
    let secp = bitcoin::secp256k1::Secp256k1::new();
    let sk = bitcoin::secp256k1::SecretKey::from_slice(&[seed; 32]).unwrap();
    let pk = bitcoin::PublicKey::new(sk.public_key(&secp));
    let addr = bitcoin::Address::p2pkh(&pk, bitcoin::Network::Bitcoin);
    (sk, addr.to_string())
}

fn sign_message(sk: &bitcoin::secp256k1::SecretKey, msg: &str) -> String {
    let secp = bitcoin::secp256k1::Secp256k1::new();
    let h = bitcoin::sign_message::signed_msg_hash(msg);
    let digest = bitcoin::hashes::Hash::to_byte_array(h);
    let m = bitcoin::secp256k1::Message::from_digest(digest);
    let rec = secp.sign_ecdsa_recoverable(&m, sk);
    bitcoin::sign_message::MessageSignature::new(rec, true).to_base64()
}

fn utxo_for(addr: &str, amount: u64) -> UTXO {
    let script_pubkey = addr
        .parse::<bitcoin::Address<bitcoin::address::NetworkUnchecked>>()
        .unwrap()
        .require_network(bitcoin::Network::Bitcoin)
        .unwrap()
        .script_pubkey()
        .into_bytes();
    UTXO { txid: "ab".repeat(32), vout: 0, amount, script_pubkey }
}

#[test]
fn valid_challenge_signature_accepted() {
    let (sk, addr) = keypair(0x42);
    let sig = sign_message(&sk, challenge_message());
    assert_eq!(verify_bitcoin_signature(&addr, &sig), Ok(()));
}

#[test]
fn signature_over_wrong_message_rejected() {
    let (sk, addr) = keypair(0x42);
    let sig = sign_message(&sk, "some other message");
    assert_eq!(verify_bitcoin_signature(&addr, &sig), Err(OwnershipError::InvalidSignature));
}

#[test]
fn signature_by_other_key_rejected() {
    let (_, addr) = keypair(0x42);
    let (other_sk, _) = keypair(0x43);
    let sig = sign_message(&other_sk, challenge_message());
    assert_eq!(verify_bitcoin_signature(&addr, &sig), Err(OwnershipError::InvalidSignature));
}

#[test]
fn garbage_signature_rejected() {
    let (_, addr) = keypair(0x42);
    assert_eq!(
        verify_bitcoin_signature(&addr, "not-base64!"),
        Err(OwnershipError::InvalidSignature)
    );
}

#[test]
fn malformed_address_rejected_first() {
    // The malformed address wins over everything else about the request.
    assert_eq!(
        verify_bitcoin_signature("not-an-address", "irrelevant"),
        Err(OwnershipError::MalformedAddress)
    );
}

#[test]
fn unsupported_address_types_rejected() {
    let (sk, _) = keypair(0x42);
    let sig = sign_message(&sk, challenge_message());
    assert_eq!(
        verify_bitcoin_signature(SEGWIT_ADDR, &sig),
        Err(OwnershipError::UnsupportedAddressType)
    );
    assert_eq!(
        verify_bitcoin_signature(P2SH_ADDR, &sig),
        Err(OwnershipError::UnsupportedAddressType)
    );
}

#[test]
fn generate_proof_end_to_end() {
    let (sk, addr) = keypair(0x42);
    let sig = sign_message(&sk, challenge_message());
    let artifact = generate_proof(
        addr.clone(),
        sig,
        4_000_000_000,
        vec![utxo_for(&addr, 5_000_000_000)],
    )
    .expect("owned and sufficient");
    assert_eq!(verify(&artifact, &PROGRAM_ID), Ok(4_000_000_000));
    assert_eq!(decode_u64(&artifact.public_output_bytes), 4_000_000_000);
}

#[test]
fn generate_proof_collapses_statement_failures() {
    // Insufficient balance and a duplicated outpoint must be
    // indistinguishable to the caller: one unspecific denial.
    let (sk, addr) = keypair(0x42);
    let sig = sign_message(&sk, challenge_message());
    let short = generate_proof(addr.clone(), sig.clone(), 200, vec![utxo_for(&addr, 100)]);
    assert_eq!(short.err(), Some(ServiceError::Denied));
    let doubled = generate_proof(
        addr.clone(),
        sig.clone(),
        150,
        vec![utxo_for(&addr, 100), utxo_for(&addr, 100)],
    );
    assert_eq!(doubled.err(), Some(ServiceError::Denied));
    // A foreign-locked output is also just "denied": the caller cannot
    // tell an ownership miss from a short balance.
    let (_, other_addr) = keypair(0x44);
    let foreign = generate_proof(addr, sig, 100, vec![utxo_for(&other_addr, 5_000_000_000)]);
    assert_eq!(foreign.err(), Some(ServiceError::Denied));
}

#[test]
fn generate_proof_rejects_malformed_address_before_any_work() {
    let r = generate_proof(
        "not-an-address".to_string(),
        "irrelevant".to_string(),
        0,
        vec![],
    );
    assert_eq!(r.err(), Some(ServiceError::Ownership(OwnershipError::MalformedAddress)));
}

#[test]
fn generate_proof_requires_ownership_even_with_funds() {
    let (_, addr) = keypair(0x42);
    let (other_sk, _) = keypair(0x43);
    let sig = sign_message(&other_sk, challenge_message());
    let r = generate_proof(addr.clone(), sig, 100, vec![utxo_for(&addr, 5_000_000_000)]);
    assert_eq!(r.err(), Some(ServiceError::Ownership(OwnershipError::InvalidSignature)));
}

#[test]
fn build_witness_is_pure_assembly() {
    let w = build_witness("anything".to_string(), 7, vec![utxo_for(P2SH_ADDR, 1)]);
    assert_eq!(w.address, "anything");
    assert_eq!(w.threshold_amount, 7);
    assert_eq!(w.utxo_set.len(), 1);
    assert_eq!(w.utxo_set[0].amount, 1);
}
