//! The private witness of a transfer, modelled as plain field-element bytes,
//! and its decoding from the hex-encoded JSON the request carries.

use vstd::prelude::*;
use crate::field::{fe_in_range, FieldElem};
use crate::hexstr::{all_hex_digits, hex_bytes, hex_decode};
use libzeropool_zkbob::fawkes_crypto::engines::bn256::Fr;
use libzeropool_zkbob::fawkes_crypto::ff_uint::{Num, Uint};
use libzeropool_zkbob::native::account::Account;
use libzeropool_zkbob::native::tx::TransferSec;

verus! {

/// Number of output notes a witness carries.
pub const OUT_NOTES: usize = 127;

/// Depth of the Merkle inclusion proof.
pub const PROOF_DEPTH: usize = 48;

/// The account fields the hashing primitive reads: diversifier, public key,
/// index, balance, energy.
pub struct AccountData {
    pub d: FieldElem,
    pub p_d: FieldElem,
    pub i: FieldElem,
    pub b: FieldElem,
    pub e: FieldElem,
}

pub ghost struct AccountView {
    pub d: Seq<u8>,
    pub p_d: Seq<u8>,
    pub i: Seq<u8>,
    pub b: Seq<u8>,
    pub e: Seq<u8>,
}

impl View for AccountData {
    type V = AccountView;

    open spec fn view(&self) -> AccountView {
        AccountView { d: self.d@, p_d: self.p_d@, i: self.i@, b: self.b@, e: self.e@ }
    }
}

pub open spec fn account_wf(a: AccountView) -> bool {
    &&& fe_in_range(a.d)
    &&& fe_in_range(a.p_d)
    &&& fe_in_range(a.i)
    &&& fe_in_range(a.b)
    &&& fe_in_range(a.e)
}

impl AccountData {
    pub open spec fn wf(&self) -> bool {
        account_wf(self@)
    }
}

/// The note fields the hashing primitive reads: diversifier, public key,
/// balance, salt.
pub struct NoteData {
    pub d: FieldElem,
    pub p_d: FieldElem,
    pub b: FieldElem,
    pub t: FieldElem,
}

pub ghost struct NoteView {
    pub d: Seq<u8>,
    pub p_d: Seq<u8>,
    pub b: Seq<u8>,
    pub t: Seq<u8>,
}

impl View for NoteData {
    type V = NoteView;

    open spec fn view(&self) -> NoteView {
        NoteView { d: self.d@, p_d: self.p_d@, b: self.b@, t: self.t@ }
    }
}

pub open spec fn note_wf(n: NoteView) -> bool {
    &&& fe_in_range(n.d)
    &&& fe_in_range(n.p_d)
    &&& fe_in_range(n.b)
    &&& fe_in_range(n.t)
}

impl NoteData {
    pub open spec fn wf(&self) -> bool {
        note_wf(self@)
    }
}

/// What the verifier reads of a transfer's private witness: the input
/// account, the output account and its notes, the Merkle inclusion proof of
/// the input account, and the key material `eta` is derived from.
pub struct PrivateWitness {
    pub in_account: AccountData,
    pub out_account: AccountData,
    pub out_notes: Vec<NoteData>,
    pub sibling: Vec<FieldElem>,
    pub path: Vec<bool>,
    pub key_a: FieldElem,
}

pub ghost struct WitnessView {
    pub in_account: AccountView,
    pub out_account: AccountView,
    pub out_notes: Seq<NoteView>,
    pub sibling: Seq<Seq<u8>>,
    pub path: Seq<bool>,
    pub key_a: Seq<u8>,
}

impl View for PrivateWitness {
    type V = WitnessView;

    open spec fn view(&self) -> WitnessView {
        WitnessView {
            in_account: self.in_account@,
            out_account: self.out_account@,
            out_notes: self.out_notes@.map_values(|n: NoteData| n@),
            sibling: self.sibling@.map_values(|f: FieldElem| f@),
            path: self.path@,
            key_a: self.key_a@,
        }
    }
}

/// The witness shape every hashing primitive's precondition needs: the full
/// complement of output notes, a proof of the full depth, and every field
/// element canonical.
pub open spec fn witness_wf(w: WitnessView) -> bool {
    &&& account_wf(w.in_account)
    &&& account_wf(w.out_account)
    &&& w.out_notes.len() == OUT_NOTES
    &&& forall|i: int| 0 <= i < w.out_notes.len() ==> note_wf(#[trigger] w.out_notes[i])
    &&& w.sibling.len() == PROOF_DEPTH
    &&& forall|i: int| 0 <= i < w.sibling.len() ==> fe_in_range(#[trigger] w.sibling[i])
    &&& w.path.len() == PROOF_DEPTH
    &&& fe_in_range(w.key_a)
}

impl PrivateWitness {
    pub open spec fn wf(&self) -> bool {
        witness_wf(self@)
    }
}

/// What the private-witness bytes deserialize to: `Some` of the witness data
/// when the bytes are UTF-8 JSON in the transfer-secret shape (with every
/// number below its bound), `None` otherwise.  The result is a function of
/// the bytes alone.
pub uninterp spec fn witness_of(bytes: Seq<u8>) -> Option<WitnessView>;

/// Relies on `serde_json::from_slice::<TransferSec<Fr>>` of libzeropool-zkbob:
/// it accepts exactly UTF-8 JSON of the transfer-secret shape, rejecting any
/// field element at or above the modulus, a bounded number at or above its
/// bit bound, or a wrong array length; deterministic in the bytes.  This
/// wrapper hands out the account half of the parse — input account, output
/// account, key material — each number as its canonical big-endian bytes.
#[verifier::external_body]
fn parse_witness_accounts(bytes: &Vec<u8>) -> (r: Option<(AccountData, AccountData, FieldElem)>)
    ensures
        r is Some <==> witness_of(bytes@) is Some,
        r matches Some(t) ==> witness_of(bytes@) matches Some(w) && t.0@ == w.in_account && t.1@
            == w.out_account && t.2@ == w.key_a && t.0.wf() && t.1.wf() && fe_in_range(t.2@),
{
    let s: TransferSec<Fr> = serde_json::from_slice(bytes).ok()?;
    let fe = |n: Num<Fr>| FieldElem { bytes: n.to_uint().0.to_big_endian() };
    let ac = |a: &Account<Fr>| AccountData {
        d: fe(a.d.to_num()), p_d: fe(a.p_d), i: fe(a.i.to_num()), b: fe(a.b.to_num()), e: fe(a.e.to_num()),
    };
    Some((ac(&s.tx.input.0), ac(&s.tx.output.0), fe(s.eddsa_a)))
}

/// Relies on the same `serde_json::from_slice::<TransferSec<Fr>>` parse as
/// `parse_witness_accounts`, on the same bytes; this wrapper hands out the
/// other half — the output notes and the input account's inclusion proof —
/// each number as its canonical big-endian bytes.
#[verifier::external_body]
fn parse_witness_parts(bytes: &Vec<u8>) -> (r: Option<(Vec<NoteData>, Vec<FieldElem>, Vec<bool>)>)
    ensures
        r is Some <==> witness_of(bytes@) is Some,
        r matches Some(t) ==> witness_of(bytes@) matches Some(w) && t.0@.map_values(
            |n: NoteData| n@,
        ) == w.out_notes && t.1@.map_values(|f: FieldElem| f@) == w.sibling && t.2@ == w.path,
        r matches Some(t) ==> t.0@.len() == OUT_NOTES && t.1@.len() == PROOF_DEPTH && t.2@.len()
            == PROOF_DEPTH && (forall|i: int|
            0 <= i < t.0@.len() ==> (#[trigger] t.0@[i]).wf()) && (forall|i: int|
            0 <= i < t.1@.len() ==> fe_in_range((#[trigger] t.1@[i])@)),
{
    let s: TransferSec<Fr> = serde_json::from_slice(bytes).ok()?;
    let fe = |n: Num<Fr>| FieldElem { bytes: n.to_uint().0.to_big_endian() };
    let notes = s.tx.output.1.as_slice().iter().map(|n| NoteData {
        d: fe(n.d.to_num()), p_d: fe(n.p_d), b: fe(n.b.to_num()), t: fe(n.t.to_num()),
    }).collect();
    let sib = s.in_proof.0.sibling.as_slice().iter().map(|x| fe(*x)).collect();
    Some((notes, sib, s.in_proof.0.path.as_slice().to_vec()))
}

/// What `decode_private` yields for an encoded string: hex-decode it, then
/// deserialize the bytes as a transfer secret; `None` on any stage failure.
pub open spec fn spec_decode_private(s: Seq<char>) -> Option<WitnessView> {
    if s.len() % 2 == 0 && all_hex_digits(s) {
        witness_of(hex_bytes(s))
    } else {
        None
    }
}

/// Decodes the request's `private` string into a typed witness: hex, then
/// UTF-8 JSON in the transfer-secret shape.  `None` stands for a malformed
/// payload; the function is pure, so equal strings always yield equal
/// results.
pub fn decode_private(encoded: &str) -> (r: Option<PrivateWitness>)
    ensures
        r is Some <==> spec_decode_private(encoded@) is Some,
        r matches Some(w) ==> spec_decode_private(encoded@) == Some(w@) && w.wf(),
{
    let bytes = match hex_decode(encoded) {
        Some(b) => b,
        None => {
            return None;
        },
    };
    let (in_account, out_account, key_a) = match parse_witness_accounts(&bytes) {
        Some(t) => t,
        None => {
            return None;
        },
    };
    let (out_notes, sibling, path) = match parse_witness_parts(&bytes) {
        Some(t) => t,
        None => {
            return None;
        },
    };
    let w = PrivateWitness { in_account, out_account, out_notes, sibling, path, key_a };
    proof {
        assert(witness_of(bytes@) matches Some(v) && w@ == v);
        assert forall|i: int| 0 <= i < w@.out_notes.len() implies note_wf(
            #[trigger] w@.out_notes[i],
        ) by {
            assert(w@.out_notes[i] == w.out_notes@[i]@);
            assert(w.out_notes@[i].wf());
        }
        assert forall|i: int| 0 <= i < w@.sibling.len() implies fe_in_range(
            #[trigger] w@.sibling[i],
        ) by {
            assert(w@.sibling[i] == w.sibling@[i]@);
        }
        assert(witness_wf(w@));
    }
    Some(w)
}

/// Decoding the private payload is deterministic: identical encoded strings
/// produce identical witnesses, or fail identically.
pub proof fn lemma_decode_private_deterministic(s1: Seq<char>, s2: Seq<char>)
    requires
        s1 == s2,
    ensures
        spec_decode_private(s1) == spec_decode_private(s2),
{
}

} // verus!
