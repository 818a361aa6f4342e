//! Byte-string helpers: slicing, concatenation, XOR and constant-time equality.
use vstd::prelude::*;

verus! {

/// Byte-wise XOR of `a` with the first `a.len()` bytes of `b`.
pub open spec fn spec_xor(a: Seq<u8>, b: Seq<u8>) -> Seq<u8> {
    Seq::new(a.len(), |i: int| a[i] ^ b[i])
}

/// `n` zero bytes.
pub open spec fn spec_zeros(n: nat) -> Seq<u8> {
    Seq::new(n, |i: int| 0u8)
}

/// Byte-wise XOR of `a` with as many leading bytes of `b`.
pub fn xor(a: &[u8], b: &[u8]) -> (out: Vec<u8>)
    requires
        a@.len() <= b@.len(),
    ensures
        out@ == spec_xor(a@, b@),
{
    let mut out: Vec<u8> = Vec::new();
    let mut i: usize = 0;
    while i < a.len()
        invariant
            i <= a@.len() <= b@.len(),
            out@.len() == i,
            forall|j: int| 0 <= j < i ==> out@[j] == a@[j] ^ b@[j],
        decreases a@.len() - i,
    {
        out.push(a[i] ^ b[i]);
        i += 1;
    }
    assert(out@ =~= spec_xor(a@, b@));
    out
}

/// The bytes of `v` from index `from` up to, not including, `to`.
pub fn subrange(v: &[u8], from: usize, to: usize) -> (out: Vec<u8>)
    requires
        from <= to <= v@.len(),
    ensures
        out@ == v@.subrange(from as int, to as int),
{
    let mut out: Vec<u8> = Vec::new();
    let mut i: usize = from;
    while i < to
        invariant
            from <= i <= to <= v@.len(),
            out@.len() == i - from,
            forall|j: int| 0 <= j < i - from ==> out@[j] == v@[from + j],
        decreases to - i,
    {
        out.push(v[i]);
        i += 1;
    }
    assert(out@ =~= v@.subrange(from as int, to as int));
    out
}

/// Appends the bytes of `tail` to `buf`.
pub fn append(buf: &mut Vec<u8>, tail: &[u8])
    ensures
        final(buf)@ == old(buf)@ + tail@,
{
    let ghost before = buf@;
    let mut i: usize = 0;
    while i < tail.len()
        invariant
            i <= tail@.len(),
            buf@ == before + tail@.subrange(0, i as int),
        decreases tail@.len() - i,
    {
        buf.push(tail[i]);
        i += 1;
        assert(buf@ =~= before + tail@.subrange(0, i as int));
    }
    assert(tail@.subrange(0, i as int) =~= tail@);
}

/// Appends `n` zero bytes to `buf`.
pub fn append_zeros(buf: &mut Vec<u8>, n: usize)
    ensures
        final(buf)@ == old(buf)@ + spec_zeros(n as nat),
{
    let ghost before = buf@;
    let mut i: usize = 0;
    while i < n
        invariant
            i <= n,
            buf@ == before + spec_zeros(i as nat),
        decreases n - i,
    {
        buf.push(0u8);
        i += 1;
        assert(buf@ =~= before + spec_zeros(i as nat));
    }
}

/// Copies a byte string of length `N` into an array.
pub fn to_array<const N: usize>(v: &[u8]) -> (out: [u8; N])
    requires
        v@.len() == N,
    ensures
        out@ == v@,
{
    let mut out: [u8; N] = [0u8; N];
    let mut i: usize = 0;
    while i < N
        invariant
            i <= N,
            v@.len() == N,
            forall|j: int| 0 <= j < i ==> out@[j] == v@[j],
        decreases N - i,
    {
        out[i] = v[i];
        i += 1;
    }
    assert(out@ =~= v@);
    out
}

/// Whether two equally long byte strings are equal. Every byte of both is
/// read whatever the outcome, so the running time does not depend on where
/// they differ.
pub fn constant_time_eq(a: &[u8], b: &[u8]) -> (same: bool)
    requires
        a@.len() == b@.len(),
    ensures
        same == (a@ == b@),
{
    let mut diff: u8 = 0;
    let mut i: usize = 0;
    while i < a.len()
        invariant
            i <= a@.len(),
            a@.len() == b@.len(),
            (diff == 0) == (forall|j: int| 0 <= j < i ==> a@[j] == b@[j]),
        decreases a@.len() - i,
    {
        let x: u8 = a[i];
        let y: u8 = b[i];
        let ghost before = diff;
        assert(((before | (x ^ y)) == 0) == (before == 0 && x == y)) by (bit_vector);
        diff = diff | (x ^ y);
        i += 1;
    }
    assert((a@ == b@) == (forall|j: int| 0 <= j < a@.len() ==> a@[j] == b@[j])) by {
        if forall|j: int| 0 <= j < a@.len() ==> a@[j] == b@[j] {
            assert(a@ =~= b@);
        }
    }
    diff == 0
}

} // verus!
