use zkbob_gate::field::FieldElem;
use zkbob_gate::gate::{handle_request, verify_zkbob_secret, InputPayload};
use zkbob_gate::outcome::{respond, MarketError, VerificationOutcome};
use zkbob_gate::pubinput::{decode_public, PublicInputs};
use zkbob_gate::transfer::{recompute_eta, recompute_out_commit, recompute_root, verify};
use zkbob_gate::witness::decode_private;

const MODULUS_BE: [u8; 32] = [
    0x30, 0x64, 0x4e, 0x72, 0xe1, 0x31, 0xa0, 0x29, 0xb8, 0x50, 0x45, 0xb6, 0x81, 0x81, 0x58,
    0x5d, 0x28, 0x33, 0xe8, 0x48, 0x79, 0xb9, 0x70, 0x91, 0x43, 0xe1, 0xf5, 0x93, 0xf0, 0x00,
    0x00, 0x01,
];

fn be_word(v: u8) -> [u8; 32] {
    let mut w = [0u8; 32];
    w[31] = v;
    w
}

fn public_hex(words: &[[u8; 32]; 5]) -> String {
    let mut bytes: Vec<u8> = Vec::new();
    for w in words.iter() {
        bytes.extend_from_slice(w);
    }
    hex::encode(bytes)
}

fn account_json(d: u64, p_d: u64, i: u64, b: u64, e: u64) -> String {
    format!(
        "{{\"d\":\"{}\",\"p_d\":\"{}\",\"i\":\"{}\",\"b\":\"{}\",\"e\":\"{}\"}}",
        d, p_d, i, b, e
    )
}

fn note_json(d: u64, p_d: u64, b: u64, t: u64) -> String {
    format!("{{\"d\":\"{}\",\"p_d\":\"{}\",\"b\":\"{}\",\"t\":\"{}\"}}", d, p_d, b, t)
}

fn proof_json() -> String {
    let mut sibling = String::from("[");
    let mut path = String::from("[");
    for k in 0..48 {
        if k > 0 {
            sibling.push(',');
            path.push(',');
        }
        sibling.push_str("\"15\"");
        path.push_str("false");
    }
    sibling.push(']');
    path.push(']');
    format!("{{\"sibling\":{},\"path\":{}}}", sibling, path)
}

/// A full transfer-secret JSON document with `in_d` as the input account's
/// diversifier and the fixed complement of 3 input notes, 127 output notes
/// and a depth-48 proof.
fn witness_json(in_d: u64) -> String {
    let acc_in = account_json(in_d, 2, 3, 4, 5);
    let acc_out = account_json(6, 7, 8, 9, 10);
    let note = note_json(11, 12, 13, 14);
    let mut out_notes = String::from("[");
    for k in 0..127 {
        if k > 0 {
            out_notes.push(',');
        }
        out_notes.push_str(&note);
    }
    out_notes.push(']');
    let in_notes = format!("[{},{},{}]", note, note, note);
    let pr = proof_json();
    let note_proofs = format!("[{},{},{}]", pr, pr, pr);
    format!(
        "{{\"tx\":{{\"input\":[{},{}],\"output\":[{},{}]}},\"in_proof\":[{},{}],\"eddsa_s\":\"16\",\"eddsa_r\":\"17\",\"eddsa_a\":\"18\"}}",
        acc_in, in_notes, acc_out, out_notes, pr, note_proofs
    )
}

fn witness_hex(in_d: u64) -> String {
    hex::encode(witness_json(in_d).as_bytes())
}

#[test]
fn decode_public_reads_five_words() {
    let encoded = public_hex(&[be_word(1), be_word(2), be_word(3), be_word(4), be_word(5)]);
    let p = decode_public(&encoded).unwrap();
    assert_eq!(p.root.bytes, be_word(1).to_vec());
    assert_eq!(p.nullifier.bytes, be_word(2).to_vec());
    assert_eq!(p.out_commit.bytes, be_word(3).to_vec());
    assert_eq!(p.delta.bytes, be_word(4).to_vec());
    assert_eq!(p.memo.bytes, be_word(5).to_vec());
}

#[test]
fn decode_public_rejects_bad_input() {
    // Not hex.
    assert!(decode_public("zz").is_none());
    // Odd length.
    assert!(decode_public("abc").is_none());
    // Too short for five words.
    assert!(decode_public(&hex::encode([0u8; 159])).is_none());
    // A word at the modulus is not a canonical field element.
    let encoded = public_hex(&[MODULUS_BE, be_word(2), be_word(3), be_word(4), be_word(5)]);
    assert!(decode_public(&encoded).is_none());
}

#[test]
fn decode_public_accepts_modulus_minus_one() {
    let mut below = MODULUS_BE;
    below[31] = 0x00;
    let encoded = public_hex(&[below, be_word(2), be_word(3), be_word(4), be_word(5)]);
    let p = decode_public(&encoded).unwrap();
    assert_eq!(p.root.bytes, below.to_vec());
}

#[test]
fn decode_public_is_deterministic() {
    let encoded = public_hex(&[be_word(9), be_word(8), be_word(7), be_word(6), be_word(5)]);
    let a = decode_public(&encoded).unwrap();
    let b = decode_public(&encoded).unwrap();
    assert_eq!(a.root.bytes, b.root.bytes);
    assert_eq!(a.memo.bytes, b.memo.bytes);
}

#[test]
fn decode_private_reads_witness() {
    let w = decode_private(&witness_hex(1)).unwrap();
    assert_eq!(w.in_account.d.bytes, be_word(1).to_vec());
    assert_eq!(w.in_account.p_d.bytes, be_word(2).to_vec());
    assert_eq!(w.out_account.d.bytes, be_word(6).to_vec());
    assert_eq!(w.out_notes.len(), 127);
    assert_eq!(w.out_notes[0].d.bytes, be_word(11).to_vec());
    assert_eq!(w.out_notes[126].t.bytes, be_word(14).to_vec());
    assert_eq!(w.sibling.len(), 48);
    assert_eq!(w.sibling[47].bytes, be_word(15).to_vec());
    assert_eq!(w.path.len(), 48);
    assert!(w.path.iter().all(|&b| !b));
    assert_eq!(w.key_a.bytes, be_word(18).to_vec());
}

#[test]
fn decode_private_is_deterministic() {
    let a = decode_private(&witness_hex(3)).unwrap();
    let b = decode_private(&witness_hex(3)).unwrap();
    assert_eq!(a.in_account.d.bytes, b.in_account.d.bytes);
    assert_eq!(a.out_notes.len(), b.out_notes.len());
}

#[test]
fn decode_private_rejects_bad_input() {
    // Not hex.
    assert!(decode_private("nothex").is_none());
    // Hex of bytes that are not JSON.
    assert!(decode_private(&hex::encode(b"not json")).is_none());
    // A wrong note count: drop one output note.
    let json = witness_json(1).replacen(&note_json(11, 12, 13, 14), "", 1)
        .replacen("[,", "[", 1);
    assert!(decode_private(&hex::encode(json.as_bytes())).is_none());
}

#[test]
fn verifier_accepts_matching_witness() {
    // A witness whose recomputed commitment and root equal the submitted
    // public values is accepted.
    let w = decode_private(&witness_hex(1)).unwrap();
    let commit = recompute_out_commit(&w).unwrap();
    let root = recompute_root(&w).unwrap();
    let p = PublicInputs {
        root: FieldElem { bytes: root.bytes.clone() },
        nullifier: FieldElem { bytes: be_word(0).to_vec() },
        out_commit: FieldElem { bytes: commit.bytes.clone() },
        delta: FieldElem { bytes: be_word(0).to_vec() },
        memo: FieldElem { bytes: be_word(0).to_vec() },
    };
    assert_eq!(verify(&p, &w), VerificationOutcome::Valid);
}

#[test]
fn flipping_input_account_byte_invalidates() {
    // Flipping a single byte in the witness's input account changes the
    // recomputed root, so the same public values are no longer matched.
    let w = decode_private(&witness_hex(1)).unwrap();
    let commit = recompute_out_commit(&w).unwrap();
    let root = recompute_root(&w).unwrap();
    let p = PublicInputs {
        root,
        nullifier: FieldElem { bytes: be_word(0).to_vec() },
        out_commit: commit,
        delta: FieldElem { bytes: be_word(0).to_vec() },
        memo: FieldElem { bytes: be_word(0).to_vec() },
    };
    let mut tampered = decode_private(&witness_hex(1)).unwrap();
    tampered.in_account.d.bytes[31] ^= 0x01;
    assert_eq!(verify(&p, &tampered), VerificationOutcome::Invalid);
}

#[test]
fn wrong_commitment_is_invalid() {
    let w = decode_private(&witness_hex(1)).unwrap();
    let root = recompute_root(&w).unwrap();
    let p = PublicInputs {
        root,
        nullifier: FieldElem { bytes: be_word(0).to_vec() },
        out_commit: FieldElem { bytes: be_word(1).to_vec() },
        delta: FieldElem { bytes: be_word(0).to_vec() },
        memo: FieldElem { bytes: be_word(0).to_vec() },
    };
    assert_eq!(verify(&p, &w), VerificationOutcome::Invalid);
}

#[test]
fn malformed_witness_shape_is_reported() {
    // A witness with a short proof path violates the Merkle primitive's
    // precondition and is reported, not allowed to abort.
    let mut w = decode_private(&witness_hex(1)).unwrap();
    w.path.pop();
    let p = PublicInputs {
        root: FieldElem { bytes: be_word(0).to_vec() },
        nullifier: FieldElem { bytes: be_word(0).to_vec() },
        out_commit: FieldElem { bytes: be_word(0).to_vec() },
        delta: FieldElem { bytes: be_word(0).to_vec() },
        memo: FieldElem { bytes: be_word(0).to_vec() },
    };
    assert_eq!(verify(&p, &w), VerificationOutcome::MalformedPayload);
    assert!(recompute_out_commit(&w).is_none());
    assert!(recompute_root(&w).is_none());
}

#[test]
fn commitment_depends_on_witness() {
    // The commitment wrapper really hashes: two witnesses that differ in an
    // output note give different commitments, and neither hands back its
    // input bytes.
    let w1 = decode_private(&witness_hex(1)).unwrap();
    let mut w2 = decode_private(&witness_hex(1)).unwrap();
    w2.out_notes[0].b.bytes[31] = 0x2a;
    let c1 = recompute_out_commit(&w1).unwrap();
    let c2 = recompute_out_commit(&w2).unwrap();
    assert_ne!(c1.bytes, c2.bytes);
    assert_ne!(c1.bytes, w1.out_account.d.bytes);
    let r1 = recompute_root(&w1).unwrap();
    assert_ne!(r1.bytes, c1.bytes);
}

#[test]
fn eta_depends_on_key_material() {
    // The key-derivation wrapper really hashes: eta differs from the key
    // material, and different key material gives different eta.
    let w1 = decode_private(&witness_hex(1)).unwrap();
    let e1 = recompute_eta(&w1).unwrap();
    assert_ne!(e1.bytes, w1.key_a.bytes);
    let mut w2 = decode_private(&witness_hex(1)).unwrap();
    w2.key_a.bytes[31] = 0x19;
    let e2 = recompute_eta(&w2).unwrap();
    assert_ne!(e1.bytes, e2.bytes);
    // Key material at the modulus is rejected, not hashed.
    let mut w3 = decode_private(&witness_hex(1)).unwrap();
    w3.key_a.bytes = MODULUS_BE.to_vec();
    assert!(recompute_eta(&w3).is_none());
}

#[test]
fn verify_zkbob_secret_checks_payload() {
    let w = decode_private(&witness_hex(1)).unwrap();
    let commit = recompute_out_commit(&w).unwrap();
    let root = recompute_root(&w).unwrap();
    let mut root_word = [0u8; 32];
    root_word.copy_from_slice(&root.bytes);
    let mut commit_word = [0u8; 32];
    commit_word.copy_from_slice(&commit.bytes);
    let good = InputPayload {
        public: public_hex(&[root_word, be_word(0), commit_word, be_word(0), be_word(0)]),
        private: witness_hex(1),
        market_id: [0x0c; 32],
    };
    assert_eq!(verify_zkbob_secret(&good), Ok(true));
    let bad = InputPayload {
        public: public_hex(&[root_word, be_word(0), be_word(1), be_word(0), be_word(0)]),
        private: witness_hex(1),
        market_id: [0x0c; 32],
    };
    assert_eq!(verify_zkbob_secret(&bad), Ok(false));
    let malformed = InputPayload {
        public: String::from("zz"),
        private: witness_hex(1),
        market_id: [0x0c; 32],
    };
    assert_eq!(verify_zkbob_secret(&malformed), Err(MarketError::MalformedPayload));
}

#[test]
fn supported_market_valid_payload_accepts() {
    // Market id on the supported list, witness whose recomputed commitment
    // and root equal the submitted public values: accept "Payload is valid".
    let w = decode_private(&witness_hex(1)).unwrap();
    let commit = recompute_out_commit(&w).unwrap();
    let root = recompute_root(&w).unwrap();
    let mut root_word = [0u8; 32];
    root_word.copy_from_slice(&root.bytes);
    let mut commit_word = [0u8; 32];
    commit_word.copy_from_slice(&commit.bytes);
    let market = [0x0du8; 32];
    let payload = InputPayload {
        public: public_hex(&[root_word, be_word(0), commit_word, be_word(0), be_word(0)]),
        private: witness_hex(1),
        market_id: market,
    };
    let exempt = format!("[\"{}\"]", hex::encode([0x01u8; 32]));
    let supported = format!("[\"{}\"]", hex::encode(market));
    let outcome = handle_request(&payload, Some(&exempt), Some(&supported));
    assert_eq!(outcome, VerificationOutcome::Valid);
    assert_eq!(respond(&outcome).unwrap(), "Payload is valid");

    // Same request, but the submitted out_commit differs from the
    // recomputed one: reject "Payload is not valid".
    let tampered = InputPayload {
        public: public_hex(&[root_word, be_word(0), be_word(2), be_word(0), be_word(0)]),
        private: witness_hex(1),
        market_id: market,
    };
    let outcome = handle_request(&tampered, Some(&exempt), Some(&supported));
    assert_eq!(outcome, VerificationOutcome::Invalid);
    let err = respond(&outcome).unwrap_err();
    assert_eq!(err, MarketError::PayloadNotValid);
    assert_eq!(err.message(), "Payload is not valid");
    assert_eq!(err.status_code(), 400);
}
