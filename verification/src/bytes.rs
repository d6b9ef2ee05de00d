//! Byte-string helpers shared by the key schedule and the message layers.

use vstd::prelude::*;

verus! {

/// The eight bytes of `x`, most significant first.
pub open spec fn be_bytes(x: u64) -> Seq<u8> {
    seq![
        ((x >> 56) & 0xff) as u8,
        ((x >> 48) & 0xff) as u8,
        ((x >> 40) & 0xff) as u8,
        ((x >> 32) & 0xff) as u8,
        ((x >> 24) & 0xff) as u8,
        ((x >> 16) & 0xff) as u8,
        ((x >> 8) & 0xff) as u8,
        (x & 0xff) as u8,
    ]
}

/// `n` zero bytes.
pub open spec fn zeros(n: nat) -> Seq<u8> {
    Seq::new(n, |i: int| 0u8)
}

/// Encodes `x` big-endian.
pub fn u64_be_bytes(x: u64) -> (out: [u8; 8])
    ensures
        out@ == be_bytes(x),
{
    let out: [u8; 8] = [
        ((x >> 56) & 0xff) as u8,
        ((x >> 48) & 0xff) as u8,
        ((x >> 40) & 0xff) as u8,
        ((x >> 32) & 0xff) as u8,
        ((x >> 24) & 0xff) as u8,
        ((x >> 16) & 0xff) as u8,
        ((x >> 8) & 0xff) as u8,
        (x & 0xff) as u8,
    ];
    assert(out@ =~= be_bytes(x));
    out
}

/// Copies a slice into a fresh vector.
pub fn to_vec(a: &[u8]) -> (out: Vec<u8>)
    ensures
        out@ == a@,
{
    let mut out: Vec<u8> = Vec::new();
    let mut i: usize = 0;
    while i < a.len()
        invariant
            i <= a.len(),
            out@ == a@.subrange(0, i as int),
        decreases a.len() - i,
    {
        out.push(a[i]);
        i += 1;
        assert(out@ =~= a@.subrange(0, i as int));
    }
    assert(a@.subrange(0, a.len() as int) =~= a@);
    out
}

/// The bytes of a slice as an array of `N` bytes, where the slice has that
/// many.
pub fn to_array<const N: usize>(a: &[u8]) -> (out: Option<[u8; N]>)
    ensures
        out is Some <==> a@.len() == N,
        out matches Some(array) ==> array@ == a@,
{
    if a.len() != N {
        return None;
    }
    let mut array: [u8; N] = [0u8; N];
    let mut i: usize = 0;
    while i < N
        invariant
            i <= N,
            a@.len() == N,
            forall|j: int| 0 <= j < i ==> array@[j] == a@[j],
        decreases N - i,
    {
        array[i] = a[i];
        i += 1;
    }
    assert(array@ =~= a@);
    Some(array)
}

/// `a` followed by `b`.
pub fn concat(a: &[u8], b: &[u8]) -> (out: Vec<u8>)
    ensures
        out@ == a@ + b@,
{
    let mut out = to_vec(a);
    let mut i: usize = 0;
    while i < b.len()
        invariant
            i <= b.len(),
            out@ == a@ + b@.subrange(0, i as int),
        decreases b.len() - i,
    {
        out.push(b[i]);
        i += 1;
        assert(out@ =~= a@ + b@.subrange(0, i as int));
    }
    assert(b@.subrange(0, b.len() as int) =~= b@);
    out
}

/// `a` begins with `prefix`.
pub open spec fn has_prefix(a: Seq<u8>, prefix: Seq<u8>) -> bool {
    prefix.len() <= a.len() && a.subrange(0, prefix.len() as int) == prefix
}

/// `a` ends with `suffix`.
pub open spec fn has_suffix(a: Seq<u8>, suffix: Seq<u8>) -> bool {
    suffix.len() <= a.len() && a.subrange(a.len() - suffix.len(), a.len() as int) == suffix
}

/// Whether `a` holds `part` from position `at` on.
fn holds_at(a: &[u8], at: usize, part: &[u8]) -> (found: bool)
    requires
        at + part@.len() <= a@.len(),
    ensures
        found == (a@.subrange(at as int, at + part@.len()) == part@),
{
    let total = a.len();
    let mut i: usize = 0;
    while i < part.len()
        invariant
            i <= part.len(),
            total == a@.len(),
            at + part@.len() <= a@.len(),
            forall|j: int| 0 <= j < i ==> a@[at + j] == part@[j],
        decreases part.len() - i,
    {
        if a[at + i] != part[i] {
            assert(a@.subrange(at as int, at + part@.len())[i as int] == a@[at + i]);
            return false;
        }
        i += 1;
    }
    assert(a@.subrange(at as int, at + part@.len()) =~= part@);
    true
}

/// Whether `a` begins with `prefix`.
pub fn starts_with(a: &[u8], prefix: &[u8]) -> (found: bool)
    ensures
        found == has_prefix(a@, prefix@),
{
    if prefix.len() > a.len() {
        return false;
    }
    holds_at(a, 0, prefix)
}

/// Whether `a` ends with `suffix`.
pub fn ends_with(a: &[u8], suffix: &[u8]) -> (found: bool)
    ensures
        found == has_suffix(a@, suffix@),
{
    if suffix.len() > a.len() {
        return false;
    }
    holds_at(a, a.len() - suffix.len(), suffix)
}

proof fn lemma_fold_difference(acc: u8, x: u8, y: u8)
    ensures
        ((acc | (x ^ y)) == 0u8) <==> (acc == 0u8 && x == y),
{
    assert(((acc | (x ^ y)) == 0u8) <==> (acc == 0u8 && x == y)) by (bit_vector);
}

/// Byte-string equality whose running time depends on the lengths alone:
/// every position is read and folded into one accumulator, with no early
/// exit on the first difference.
pub fn ct_eq(a: &[u8], b: &[u8]) -> (same: bool)
    ensures
        same == (a@ == b@),
{
    if a.len() != b.len() {
        return false;
    }
    let mut acc: u8 = 0;
    let mut i: usize = 0;
    while i < a.len()
        invariant
            i <= a.len(),
            a.len() == b.len(),
            (acc == 0) <==> (forall|j: int| 0 <= j < i ==> a@[j] == b@[j]),
        decreases a.len() - i,
    {
        proof {
            lemma_fold_difference(acc, a@[i as int], b@[i as int]);
        }
        acc = acc | (a[i] ^ b[i]);
        i += 1;
    }
    if acc == 0 {
        assert(a@ =~= b@);
    }
    acc == 0
}

} // verus!
