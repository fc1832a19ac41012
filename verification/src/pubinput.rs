//! The public inputs of a transfer and their decoding from the request's
//! hex-encoded ABI payload.

use vstd::prelude::*;
use crate::field::{check_fe_in_range, fe_in_range, FieldElem};
use crate::hexstr::{all_hex_digits, hex_bytes, hex_decode};

verus! {

/// The five field elements the proof system's public-input structure holds.
pub struct PublicInputs {
    pub root: FieldElem,
    pub nullifier: FieldElem,
    pub out_commit: FieldElem,
    pub delta: FieldElem,
    pub memo: FieldElem,
}

pub ghost struct PublicView {
    pub root: Seq<u8>,
    pub nullifier: Seq<u8>,
    pub out_commit: Seq<u8>,
    pub delta: Seq<u8>,
    pub memo: Seq<u8>,
}

impl View for PublicInputs {
    type V = PublicView;

    open spec fn view(&self) -> PublicView {
        PublicView {
            root: self.root@,
            nullifier: self.nullifier@,
            out_commit: self.out_commit@,
            delta: self.delta@,
            memo: self.memo@,
        }
    }
}

pub open spec fn public_wf(p: PublicView) -> bool {
    &&& fe_in_range(p.root)
    &&& fe_in_range(p.nullifier)
    &&& fe_in_range(p.out_commit)
    &&& fe_in_range(p.delta)
    &&& fe_in_range(p.memo)
}

impl PublicInputs {
    pub open spec fn wf(&self) -> bool {
        public_wf(self@)
    }
}

/// Word `k` of an ABI encoding: 32 big-endian bytes at offset `32 k`.
pub open spec fn abi_word(bs: Seq<u8>, k: int) -> Seq<u8> {
    bs.subrange(32 * k, 32 * k + 32)
}

/// What `decode_public` yields for an encoded string: hex-decode it, read
/// the bytes as the ABI encoding of a fixed array of five 256-bit words, and
/// take each word as a field element; `None` when the hex is bad, the bytes
/// are too short for five words, or a word is not below the field modulus.
pub open spec fn spec_decode_public(s: Seq<char>) -> Option<PublicView> {
    if !(s.len() % 2 == 0 && all_hex_digits(s)) {
        None
    } else {
        let bs = hex_bytes(s);
        if bs.len() < 160 {
            None
        } else if fe_in_range(abi_word(bs, 0)) && fe_in_range(abi_word(bs, 1)) && fe_in_range(
            abi_word(bs, 2),
        ) && fe_in_range(abi_word(bs, 3)) && fe_in_range(abi_word(bs, 4)) {
            Some(
                PublicView {
                    root: abi_word(bs, 0),
                    nullifier: abi_word(bs, 1),
                    out_commit: abi_word(bs, 2),
                    delta: abi_word(bs, 3),
                    memo: abi_word(bs, 4),
                },
            )
        } else {
            None
        }
    }
}

/// Copies ABI word `k` out of the decoded bytes.
fn take_word(bs: &Vec<u8>, k: usize) -> (r: Vec<u8>)
    requires
        k < 5,
        bs@.len() >= 160,
    ensures
        r@ == abi_word(bs@, k as int),
{
    let mut word: Vec<u8> = Vec::new();
    let base = 32 * k;
    let mut j: usize = 0;
    while j < 32
        invariant
            0 <= j <= 32,
            base == 32 * k,
            k < 5,
            bs@.len() >= 160,
            word@ =~= bs@.subrange(base as int, base + j),
        decreases 32 - j,
    {
        word.push(bs[base + j]);
        j = j + 1;
    }
    word
}

/// Decodes the request's `public` string into the five public field
/// elements: hex, then the ABI encoding of `uint256[5]`, positions 0 to 4
/// giving root, nullifier, out_commit, delta and memo.  `None` stands for a
/// malformed payload; the function is pure, so equal strings always yield
/// equal results.
pub fn decode_public(encoded: &str) -> (r: Option<PublicInputs>)
    ensures
        r is Some <==> spec_decode_public(encoded@) is Some,
        r matches Some(p) ==> spec_decode_public(encoded@) == Some(p@) && p.wf(),
{
    let bs = match hex_decode(encoded) {
        Some(b) => b,
        None => {
            return None;
        },
    };
    if bs.len() < 160 {
        return None;
    }
    let root = take_word(&bs, 0);
    let nullifier = take_word(&bs, 1);
    let out_commit = take_word(&bs, 2);
    let delta = take_word(&bs, 3);
    let memo = take_word(&bs, 4);
    if !(check_fe_in_range(&root) && check_fe_in_range(&nullifier) && check_fe_in_range(&out_commit)
        && check_fe_in_range(&delta) && check_fe_in_range(&memo)) {
        return None;
    }
    Some(
        PublicInputs {
            root: FieldElem { bytes: root },
            nullifier: FieldElem { bytes: nullifier },
            out_commit: FieldElem { bytes: out_commit },
            delta: FieldElem { bytes: delta },
            memo: FieldElem { bytes: memo },
        },
    )
}

/// Decoding the public payload is deterministic: identical encoded strings
/// produce identical public inputs, or fail identically.
pub proof fn lemma_decode_public_deterministic(s1: Seq<char>, s2: Seq<char>)
    requires
        s1 == s2,
    ensures
        spec_decode_public(s1) == spec_decode_public(s2),
{
}

} // verus!
