//! Field elements of the proof system, carried as canonical big-endian bytes.

use vstd::prelude::*;

verus! {

/// Big-endian bytes of the scalar-field modulus of BN254,
/// 21888242871839275222246405745257275088548364400416034343698204186575808495617.
pub open spec fn modulus_be() -> Seq<u8> {
    seq![
        0x30u8, 0x64, 0x4e, 0x72, 0xe1, 0x31, 0xa0, 0x29,
        0xb8, 0x50, 0x45, 0xb6, 0x81, 0x81, 0x58, 0x5d,
        0x28, 0x33, 0xe8, 0x48, 0x79, 0xb9, 0x70, 0x91,
        0x43, 0xe1, 0xf5, 0x93, 0xf0, 0x00, 0x00, 0x01,
    ]
}

/// Big-endian lexicographic "less than the modulus", starting at byte `i`.
pub open spec fn be_lt_modulus_from(s: Seq<u8>, i: int) -> bool
    decreases 32 - i,
{
    if i < 0 || i >= 32 {
        false
    } else if s[i] < modulus_be()[i] {
        true
    } else if s[i] > modulus_be()[i] {
        false
    } else {
        be_lt_modulus_from(s, i + 1)
    }
}

/// A byte sequence is a canonical field element: 32 big-endian bytes whose
/// value lies below the field modulus.
pub open spec fn fe_in_range(s: Seq<u8>) -> bool {
    s.len() == 32 && be_lt_modulus_from(s, 0)
}

/// One field element of the proof system's scalar field, as the 32
/// big-endian bytes of its canonical (reduced) integer representative.
pub struct FieldElem {
    pub bytes: Vec<u8>,
}

impl View for FieldElem {
    type V = Seq<u8>;

    open spec fn view(&self) -> Seq<u8> {
        self.bytes@
    }
}

impl FieldElem {
    /// The bytes are a canonical encoding of a field element.
    pub open spec fn wf(&self) -> bool {
        fe_in_range(self@)
    }
}

/// The modulus bytes, for the executable range check.
fn modulus_be_bytes() -> (r: [u8; 32])
    ensures
        r@ == modulus_be(),
{
    let r: [u8; 32] = [
        0x30u8, 0x64, 0x4e, 0x72, 0xe1, 0x31, 0xa0, 0x29,
        0xb8, 0x50, 0x45, 0xb6, 0x81, 0x81, 0x58, 0x5d,
        0x28, 0x33, 0xe8, 0x48, 0x79, 0xb9, 0x70, 0x91,
        0x43, 0xe1, 0xf5, 0x93, 0xf0, 0x00, 0x00, 0x01,
    ];
    proof {
        assert(r@ =~= modulus_be());
    }
    r
}

/// Decides whether `b` is a canonical field-element encoding.
pub fn check_fe_in_range(b: &Vec<u8>) -> (r: bool)
    ensures
        r == fe_in_range(b@),
{
    if b.len() != 32 {
        return false;
    }
    let m = modulus_be_bytes();
    let mut i: usize = 0;
    while i < 32
        invariant
            0 <= i <= 32,
            b@.len() == 32,
            m@ == modulus_be(),
            be_lt_modulus_from(b@, 0) == be_lt_modulus_from(b@, i as int),
        decreases 32 - i,
    {
        if b[i] < m[i] {
            return true;
        }
        if b[i] > m[i] {
            return false;
        }
        i = i + 1;
    }
    false
}

/// Byte equality of two field elements.
pub fn fe_eq(a: &FieldElem, b: &FieldElem) -> (r: bool)
    ensures
        r == (a@ == b@),
{
    if a.bytes.len() != b.bytes.len() {
        return false;
    }
    let mut i: usize = 0;
    while i < a.bytes.len()
        invariant
            0 <= i <= a@.len(),
            a@.len() == b@.len(),
            forall|j: int| 0 <= j < i ==> a@[j] == b@[j],
        decreases a@.len() - i,
    {
        if a.bytes[i] != b.bytes[i] {
            return false;
        }
        i = i + 1;
    }
    proof {
        assert(a@ =~= b@);
    }
    true
}

} // verus!
