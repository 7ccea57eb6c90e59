//! Byte strings: comparison, copying into fixed-size blocks, and the
//! lexicographic order used to put two handshake contributions in a
//! canonical sequence.

use vstd::prelude::*;

verus! {

/// Byte-lexicographic "less than or equal": the first position at which the
/// two strings differ decides, and a proper prefix precedes its extensions.
pub open spec fn lex_le(a: Seq<u8>, b: Seq<u8>) -> bool
    decreases a.len(),
{
    if a.len() == 0 {
        true
    } else if b.len() == 0 {
        false
    } else if a[0] != b[0] {
        a[0] < b[0]
    } else {
        lex_le(a.skip(1), b.skip(1))
    }
}

/// Any two byte strings are comparable.
pub proof fn lemma_lex_le_total(a: Seq<u8>, b: Seq<u8>)
    ensures
        lex_le(a, b) || lex_le(b, a),
    decreases a.len(),
{
    if a.len() != 0 && b.len() != 0 && a[0] == b[0] {
        lemma_lex_le_total(a.skip(1), b.skip(1));
    }
}

/// Two byte strings that precede each other are the same string.
pub proof fn lemma_lex_le_antisymmetric(a: Seq<u8>, b: Seq<u8>)
    requires
        lex_le(a, b),
        lex_le(b, a),
    ensures
        a == b,
    decreases a.len(),
{
    if a.len() == 0 || b.len() == 0 {
        assert(a =~= b);
    } else {
        lemma_lex_le_antisymmetric(a.skip(1), b.skip(1));
        assert(a =~= seq![a[0]] + a.skip(1));
        assert(b =~= seq![b[0]] + b.skip(1));
    }
}

/// Whether `a` and `b` hold the same bytes.
pub fn same_bytes(a: &[u8], b: &[u8]) -> (same: bool)
    ensures
        same == (a@ == b@),
{
    if a.len() != b.len() {
        return false;
    }
    let mut i: usize = 0;
    while i < a.len()
        invariant
            i <= a@.len(),
            a@.len() == b@.len(),
            forall|j: int| 0 <= j < i ==> a@[j] == b@[j],
        decreases a@.len() - i,
    {
        if a[i] != b[i] {
            return false;
        }
        i += 1;
    }
    assert(a@ =~= b@);
    true
}

/// Whether `a` precedes or equals `b` in byte-lexicographic order.
pub fn precedes(a: &[u8], b: &[u8]) -> (le: bool)
    ensures
        le == lex_le(a@, b@),
{
    let mut i: usize = 0;
    assert(a@.skip(0) =~= a@ && b@.skip(0) =~= b@);
    while i < a.len() && i < b.len()
        invariant
            i <= a@.len(),
            i <= b@.len(),
            lex_le(a@, b@) == lex_le(a@.skip(i as int), b@.skip(i as int)),
        decreases a@.len() - i,
    {
        if a[i] != b[i] {
            return a[i] < b[i];
        }
        assert(a@.skip(i as int).skip(1) =~= a@.skip(i + 1));
        assert(b@.skip(i as int).skip(1) =~= b@.skip(i + 1));
        i += 1;
    }
    i == a.len()
}

/// Copies a slice of exactly 32 bytes into a block.
pub fn block32(bytes: &[u8]) -> (block: Option<[u8; 32]>)
    ensures
        bytes@.len() == 32 ==> block is Some && block.unwrap()@ == bytes@,
        bytes@.len() != 32 ==> block is None,
{
    if bytes.len() != 32 {
        return None;
    }
    let mut block = [0u8; 32];
    let mut i: usize = 0;
    while i < 32
        invariant
            i <= 32,
            bytes@.len() == 32,
            forall|j: int| 0 <= j < i ==> block@[j] == bytes@[j],
        decreases 32 - i,
    {
        block[i] = bytes[i];
        i += 1;
    }
    Some(block)
}

/// Copies a slice of exactly 64 bytes into a block.
pub fn block64(bytes: &[u8]) -> (block: Option<[u8; 64]>)
    ensures
        bytes@.len() == 64 ==> block is Some && block.unwrap()@ == bytes@,
        bytes@.len() != 64 ==> block is None,
{
    if bytes.len() != 64 {
        return None;
    }
    let mut block = [0u8; 64];
    let mut i: usize = 0;
    while i < 64
        invariant
            i <= 64,
            bytes@.len() == 64,
            forall|j: int| 0 <= j < i ==> block@[j] == bytes@[j],
        decreases 64 - i,
    {
        block[i] = bytes[i];
        i += 1;
    }
    Some(block)
}

} // verus!
