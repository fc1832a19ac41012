//! The transfer commitment verifier: recomputes the output commitment and
//! the Merkle root from the witness and compares them with the claimed
//! public inputs.  The poseidon primitives are called through the trusted
//! wrappers below; the orchestration around them is verified.

use vstd::prelude::*;
use crate::field::{check_fe_in_range, fe_eq, fe_in_range, FieldElem};
use crate::outcome::VerificationOutcome;
use crate::pubinput::{PublicInputs, PublicView};
use crate::witness::{
    account_wf, note_wf, witness_wf, AccountData, AccountView, NoteData, NoteView, PrivateWitness,
    WitnessView, OUT_NOTES, PROOF_DEPTH,
};
use libzeropool_zkbob::fawkes_crypto::engines::bn256::Fr;
use libzeropool_zkbob::fawkes_crypto::engines::U256;
use libzeropool_zkbob::fawkes_crypto::ff_uint::{Num, NumRepr, Uint};
use libzeropool_zkbob::fawkes_crypto::native::poseidon::{poseidon_merkle_proof_root, MerkleProof};
use libzeropool_zkbob::native::account::Account;
use libzeropool_zkbob::native::boundednum::BoundedNum;
use libzeropool_zkbob::native::key;
use libzeropool_zkbob::native::note::Note;
use libzeropool_zkbob::native::params::PoolParams;
use libzeropool_zkbob::native::tx;
use libzeropool_zkbob::POOL_PARAMS;

verus! {

/// The poseidon hash of an account's five field elements, under the pool's
/// account parameters.
pub uninterp spec fn account_hash_of(a: AccountView) -> Seq<u8>;

/// The poseidon hash of a note's four field elements, under the pool's note
/// parameters.
pub uninterp spec fn note_hash_of(n: NoteView) -> Seq<u8>;

/// The commitment combining a sequence of output hashes: the root of the
/// padded binary poseidon tree over them.
pub uninterp spec fn commitment_of(items: Seq<Seq<u8>>) -> Seq<u8>;

/// The Merkle root recomputed from a leaf and an inclusion proof.
pub uninterp spec fn merkle_root_of(leaf: Seq<u8>, sibling: Seq<Seq<u8>>, path: Seq<bool>) -> Seq<u8>;

/// The intermediate key `eta` derived from the key material `a`.
pub uninterp spec fn eta_of(a: Seq<u8>) -> Seq<u8>;

/// Relies on `Account::hash` of libzeropool-zkbob: the poseidon hash of the
/// account's five field elements under the pool's account parameters, a
/// function of those values alone; its result is a field element.
#[verifier::external_body]
fn hash_account(a: &AccountData) -> (r: FieldElem)
    requires
        a.wf(),
    ensures
        r@ == account_hash_of(a@),
        r.wf(),
{
    let nm = |f: &FieldElem| Num::<Fr>::from_uint(NumRepr(U256::from_big_endian(&f.bytes))).unwrap();
    let acc = Account::<Fr> {
        d: BoundedNum::new_unchecked(nm(&a.d)),
        p_d: nm(&a.p_d),
        i: BoundedNum::new_unchecked(nm(&a.i)),
        b: BoundedNum::new_unchecked(nm(&a.b)),
        e: BoundedNum::new_unchecked(nm(&a.e)),
    };
    FieldElem { bytes: acc.hash(&*POOL_PARAMS).to_uint().0.to_big_endian() }
}

/// Relies on `Note::hash` of libzeropool-zkbob: the poseidon hash of the
/// note's four field elements under the pool's note parameters, a function
/// of those values alone; its result is a field element.
#[verifier::external_body]
fn hash_note(n: &NoteData) -> (r: FieldElem)
    requires
        n.wf(),
    ensures
        r@ == note_hash_of(n@),
        r.wf(),
{
    let nm = |f: &FieldElem| Num::<Fr>::from_uint(NumRepr(U256::from_big_endian(&f.bytes))).unwrap();
    let note = Note::<Fr> {
        d: BoundedNum::new_unchecked(nm(&n.d)),
        p_d: nm(&n.p_d),
        b: BoundedNum::new_unchecked(nm(&n.b)),
        t: BoundedNum::new_unchecked(nm(&n.t)),
    };
    FieldElem { bytes: note.hash(&*POOL_PARAMS).to_uint().0.to_big_endian() }
}

/// Relies on `tx::out_commitment_hash` of libzeropool-zkbob: the root of the
/// padded binary poseidon tree over exactly `OUT_NOTES + 1` items, under the pool's
/// compression parameters, a function of the items alone; its result is a
/// field element.
#[verifier::external_body]
fn out_commitment(items: &Vec<FieldElem>) -> (r: FieldElem)
    requires
        items@.len() == OUT_NOTES + 1,
        forall|i: int| 0 <= i < items@.len() ==> fe_in_range((#[trigger] items@[i])@),
    ensures
        r@ == commitment_of(items@.map_values(|f: FieldElem| f@)),
        r.wf(),
{
    let nums: Vec<Num<Fr>> = items.iter().map(
        |f| Num::<Fr>::from_uint(NumRepr(U256::from_big_endian(&f.bytes))).unwrap(),
    ).collect();
    FieldElem { bytes: tx::out_commitment_hash(&nums, &*POOL_PARAMS).to_uint().0.to_big_endian() }
}

/// Relies on `poseidon_merkle_proof_root` of fawkes-crypto: folds the leaf
/// with each sibling, ordered by the path bit, under the pool's compression
/// parameters, a function of leaf and proof alone; its result is a field
/// element.
#[verifier::external_body]
fn merkle_root(leaf: &FieldElem, sibling: &Vec<FieldElem>, path: &Vec<bool>) -> (r: FieldElem)
    requires
        leaf.wf(),
        sibling@.len() == PROOF_DEPTH,
        path@.len() == PROOF_DEPTH,
        forall|i: int| 0 <= i < sibling@.len() ==> fe_in_range((#[trigger] sibling@[i])@),
    ensures
        r@ == merkle_root_of(leaf@, sibling@.map_values(|f: FieldElem| f@), path@),
        r.wf(),
{
    let nm = |f: &FieldElem| Num::<Fr>::from_uint(NumRepr(U256::from_big_endian(&f.bytes))).unwrap();
    let pr = MerkleProof::<Fr, 48> {
        sibling: sibling.iter().map(|f| nm(f)).collect(),
        path: path.iter().copied().collect(),
    };
    FieldElem {
        bytes: poseidon_merkle_proof_root(nm(leaf), &pr, POOL_PARAMS.compress()).to_uint().0
            .to_big_endian(),
    }
}

/// Relies on `key::derive_key_eta` of libzeropool-zkbob: the poseidon hash
/// of the key material under the pool's hash parameters, a function of the
/// argument alone; its result is a field element.
#[verifier::external_body]
fn derive_eta(a: &FieldElem) -> (r: FieldElem)
    requires
        a.wf(),
    ensures
        r@ == eta_of(a@),
        r.wf(),
{
    let n = Num::<Fr>::from_uint(NumRepr(U256::from_big_endian(&a.bytes))).unwrap();
    FieldElem { bytes: key::derive_key_eta(n, &*POOL_PARAMS).to_uint().0.to_big_endian() }
}

/// The account's five field elements are canonical.
fn account_ok(a: &AccountData) -> (r: bool)
    ensures
        r == account_wf(a@),
{
    check_fe_in_range(&a.d.bytes) && check_fe_in_range(&a.p_d.bytes) && check_fe_in_range(
        &a.i.bytes,
    ) && check_fe_in_range(&a.b.bytes) && check_fe_in_range(&a.e.bytes)
}

/// The note's four field elements are canonical.
fn note_ok(n: &NoteData) -> (r: bool)
    ensures
        r == note_wf(n@),
{
    check_fe_in_range(&n.d.bytes) && check_fe_in_range(&n.p_d.bytes) && check_fe_in_range(
        &n.b.bytes,
    ) && check_fe_in_range(&n.t.bytes)
}

/// Decides whether the witness satisfies every hashing primitive's
/// precondition: full note complement, full-depth proof, canonical field
/// elements throughout.
pub fn witness_shape_ok(w: &PrivateWitness) -> (r: bool)
    ensures
        r == witness_wf(w@),
{
    if !account_ok(&w.in_account) || !account_ok(&w.out_account) {
        return false;
    }
    if w.out_notes.len() != OUT_NOTES {
        return false;
    }
    let n = w.out_notes.len();
    let mut i: usize = 0;
    while i < n
        invariant
            n == w.out_notes@.len(),
            0 <= i <= n,
            forall|k: int| 0 <= k < i ==> note_wf(#[trigger] w@.out_notes[k]),
        decreases n - i,
    {
        let ok = note_ok(&w.out_notes[i]);
        proof {
            assert(w@.out_notes[i as int] == w.out_notes@[i as int]@);
        }
        if !ok {
            return false;
        }
        i = i + 1;
    }
    if w.sibling.len() != PROOF_DEPTH || w.path.len() != PROOF_DEPTH {
        return false;
    }
    let m = w.sibling.len();
    let mut j: usize = 0;
    while j < m
        invariant
            m == w.sibling@.len(),
            0 <= j <= m,
            forall|k: int| 0 <= k < j ==> fe_in_range(#[trigger] w@.sibling[k]),
        decreases m - j,
    {
        let ok = check_fe_in_range(&w.sibling[j].bytes);
        proof {
            assert(w@.sibling[j as int] == w.sibling@[j as int]@);
        }
        if !ok {
            return false;
        }
        j = j + 1;
    }
    check_fe_in_range(&w.key_a.bytes)
}

/// The output-hash sequence: the output account's hash followed by each
/// output note's hash, in note order.
pub open spec fn out_hash_items(w: WitnessView) -> Seq<Seq<u8>> {
    seq![account_hash_of(w.out_account)] + w.out_notes.map_values(|n: NoteView| note_hash_of(n))
}

/// The commitment the witness stands for.
pub open spec fn spec_out_commit(w: WitnessView) -> Seq<u8> {
    commitment_of(out_hash_items(w))
}

/// The Merkle root the witness stands for: the input account's hash folded
/// through the inclusion proof.
pub open spec fn spec_root(w: WitnessView) -> Seq<u8> {
    merkle_root_of(account_hash_of(w.in_account), w.sibling, w.path)
}

/// The verifier's contract: a malformed witness shape is reported, never
/// allowed to abort; otherwise the outcome is Valid exactly when both the
/// recomputed commitment and the recomputed root equal the claimed ones.
pub open spec fn spec_verify(p: PublicView, w: WitnessView) -> VerificationOutcome {
    if !witness_wf(w) {
        VerificationOutcome::MalformedPayload
    } else if spec_out_commit(w) == p.out_commit && spec_root(w) == p.root {
        VerificationOutcome::Valid
    } else {
        VerificationOutcome::Invalid
    }
}

/// Recomputes the output commitment: the poseidon tree root over the output
/// account hash and the 127 output note hashes.
fn out_commit_checked(witness: &PrivateWitness) -> (r: FieldElem)
    requires
        witness.wf(),
    ensures
        r@ == spec_out_commit(witness@),
        r.wf(),
{
    let out_account_hash = hash_account(&witness.out_account);
    let mut items: Vec<FieldElem> = Vec::new();
    items.push(out_account_hash);
    let n = witness.out_notes.len();
    let mut idx: usize = 0;
    proof {
        assert(items@.map_values(|f: FieldElem| f@) =~= out_hash_items(witness@).take(1));
    }
    while idx < n
        invariant
            witness.wf(),
            n == witness.out_notes@.len(),
            0 <= idx <= n,
            items@.len() == idx + 1,
            out_hash_items(witness@).len() == n + 1,
            items@.map_values(|f: FieldElem| f@) == out_hash_items(witness@).take(idx + 1),
            forall|k: int| 0 <= k < items@.len() ==> fe_in_range((#[trigger] items@[k])@),
        decreases n - idx,
    {
        proof {
            assert(witness@.out_notes[idx as int] == witness.out_notes@[idx as int]@);
            assert(note_wf(witness.out_notes@[idx as int]@));
            assert(out_hash_items(witness@)[idx + 1] == note_hash_of(witness.out_notes@[idx as int]@));
        }
        let h = hash_note(&witness.out_notes[idx]);
        items.push(h);
        proof {
            assert(items@.map_values(|f: FieldElem| f@) =~= out_hash_items(witness@).take(
                idx + 2,
            ));
        }
        idx = idx + 1;
    }
    proof {
        assert(out_hash_items(witness@).take(n + 1) =~= out_hash_items(witness@));
    }
    out_commitment(&items)
}

/// Recomputes the Merkle root of the input account under the witness's
/// inclusion proof.
fn root_checked(witness: &PrivateWitness) -> (r: FieldElem)
    requires
        witness.wf(),
    ensures
        r@ == spec_root(witness@),
        r.wf(),
{
    let in_account_hash = hash_account(&witness.in_account);
    proof {
        assert forall|i: int| 0 <= i < witness.sibling@.len() implies fe_in_range(
            (#[trigger] witness.sibling@[i])@,
        ) by {
            assert(witness@.sibling[i] == witness.sibling@[i]@);
        }
    }
    merkle_root(&in_account_hash, &witness.sibling, &witness.path)
}

/// Recomputes the output commitment of a witness, or `None` when the
/// witness shape would violate a primitive's precondition.
pub fn recompute_out_commit(witness: &PrivateWitness) -> (r: Option<FieldElem>)
    ensures
        r is Some <==> witness.wf(),
        r matches Some(f) ==> f@ == spec_out_commit(witness@) && f.wf(),
{
    if witness_shape_ok(witness) {
        Some(out_commit_checked(witness))
    } else {
        None
    }
}

/// Recomputes the Merkle root of a witness, or `None` when the witness
/// shape would violate a primitive's precondition.
pub fn recompute_root(witness: &PrivateWitness) -> (r: Option<FieldElem>)
    ensures
        r is Some <==> witness.wf(),
        r matches Some(f) ==> f@ == spec_root(witness@) && f.wf(),
{
    if witness_shape_ok(witness) {
        Some(root_checked(witness))
    } else {
        None
    }
}

/// Recomputes the intermediate key `eta` from the witness's key material,
/// or `None` when that material is not a canonical field element.  `eta` is
/// retained for completeness and takes no part in the equality check.
pub fn recompute_eta(witness: &PrivateWitness) -> (r: Option<FieldElem>)
    ensures
        r is Some <==> fe_in_range(witness@.key_a),
        r matches Some(f) ==> f@ == eta_of(witness@.key_a) && f.wf(),
{
    if check_fe_in_range(&witness.key_a.bytes) {
        Some(derive_eta(&witness.key_a))
    } else {
        None
    }
}

/// Recomputes commitment and root from the witness and compares them with
/// the claimed public inputs: Valid exactly when both match; a witness whose
/// shape would violate a primitive's precondition is reported as a
/// malformed payload, never allowed to abort.
pub fn verify(public_inputs: &PublicInputs, witness: &PrivateWitness) -> (r: VerificationOutcome)
    ensures
        r == spec_verify(public_inputs@, witness@),
{
    if !witness_shape_ok(witness) {
        return VerificationOutcome::MalformedPayload;
    }
    let commit = out_commit_checked(witness);
    let root_val = root_checked(witness);
    let _eta = derive_eta(&witness.key_a);
    if fe_eq(&commit, &public_inputs.out_commit) && fe_eq(&root_val, &public_inputs.root) {
        VerificationOutcome::Valid
    } else {
        VerificationOutcome::Invalid
    }
}

/// The verifier accepts exactly the witnesses whose recomputed commitment
/// and root both equal the claimed public values.
pub proof fn lemma_verify_valid_iff(p: PublicView, w: WitnessView)
    requires
        witness_wf(w),
    ensures
        spec_verify(p, w) == VerificationOutcome::Valid <==> (spec_out_commit(w) == p.out_commit
            && spec_root(w) == p.root),
        spec_verify(p, w) == VerificationOutcome::Valid || spec_verify(p, w)
            == VerificationOutcome::Invalid,
{
}

} // verus!
