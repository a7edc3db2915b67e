//! Little-endian field codecs shared by the account and instruction layouts.
use vstd::prelude::*;
use vstd::bytes::{spec_u64_from_le_bytes, spec_u64_to_le_bytes, u64_from_le_bytes, u64_to_le_bytes};
use vstd::slice::slice_subrange;

use crate::pubkey::Pubkey;

verus! {

/// Reasons a byte buffer cannot be read as, or written with, one of this
/// program's layouts; each stands for one of the serializer's I/O errors.
#[derive(Clone, Copy, Debug, PartialEq, Eq, Structural)]
pub enum BorshError {
    /// The buffer ended before the value was complete.
    UnexpectedLengthOfInput,
    /// The value was complete before the buffer ended.
    NotAllBytesRead,
    /// An enum tag outside the declared variants.
    UnexpectedVariantIndex(u8),
}

/// The eight little-endian bytes of `v`.
pub open spec fn le_bytes(v: u64) -> Seq<u8> {
    spec_u64_to_le_bytes(v)
}

/// The value of eight little-endian bytes.
pub open spec fn le_value(s: Seq<u8>) -> u64 {
    spec_u64_from_le_bytes(s)
}

/// Encoding and decoding a `u64` undo each other.
pub proof fn lemma_le_roundtrip()
    ensures
        forall|v: u64| #[trigger] le_bytes(v).len() == 8 && le_value(le_bytes(v)) == v,
        forall|s: Seq<u8>| s.len() == 8 ==> #[trigger] le_bytes(le_value(s)) == s,
{
    vstd::bytes::lemma_auto_spec_u64_to_from_le_bytes();
}

/// Reads the `u64` stored little-endian at `pos`.
pub fn read_u64(data: &[u8], pos: usize) -> (v: u64)
    requires
        pos + 8 <= data@.len(),
    ensures
        v == le_value(data@.subrange(pos as int, pos + 8)),
{
    let _len = data.len();
    let s = slice_subrange(data, pos, pos + 8);
    u64_from_le_bytes(s)
}

/// Reads the 32-byte key stored at `pos`.
pub fn read_pubkey(data: &[u8], pos: usize) -> (k: Pubkey)
    requires
        pos + 32 <= data@.len(),
    ensures
        k@ == data@.subrange(pos as int, pos + 32),
{
    let _len = data.len();
    let mut a: [u8; 32] = [0u8; 32];
    let mut i: usize = 0;
    while i < 32
        invariant
            0 <= i <= 32,
            pos + 32 <= data@.len(),
            data@.len() <= usize::MAX,
            forall|j: int| 0 <= j < i ==> a@[j] == data@[pos + j],
        decreases 32 - i,
    {
        a[i] = data[pos + i];
        i = i + 1;
    }
    let k = Pubkey(a);
    assert(k@ =~= data@.subrange(pos as int, pos + 32));
    k
}

/// Appends the little-endian bytes of `v`.
pub fn push_u64(out: &mut Vec<u8>, v: u64)
    ensures
        final(out)@ == old(out)@ + le_bytes(v),
{
    let b = u64_to_le_bytes(v);
    let ghost start = out@;
    let mut i: usize = 0;
    while i < b.len()
        invariant
            0 <= i <= b.len(),
            b@ == le_bytes(v),
            out@ == start + b@.subrange(0, i as int),
        decreases b.len() - i,
    {
        out.push(b[i]);
        i = i + 1;
        assert(b@.subrange(0, i as int) =~= b@.subrange(0, i - 1).push(b@[i - 1]));
    }
    assert(b@.subrange(0, b.len() as int) =~= b@);
}

/// Appends the 32 bytes of `k`.
pub fn push_pubkey(out: &mut Vec<u8>, k: &Pubkey)
    ensures
        final(out)@ == old(out)@ + k@,
{
    let ghost start = out@;
    let mut i: usize = 0;
    while i < 32
        invariant
            0 <= i <= 32,
            out@ == start + k@.subrange(0, i as int),
        decreases 32 - i,
    {
        out.push(k.0[i]);
        i = i + 1;
        assert(k@.subrange(0, i as int) =~= k@.subrange(0, i - 1).push(k@[i - 1]));
    }
    assert(k@.subrange(0, 32) =~= k@);
}

/// A byte vector's deep view is its view.
pub proof fn lemma_bytes_deep_view(v: Vec<u8>)
    ensures
        v.deep_view() == v@,
{
    assert(v.deep_view() =~= v@);
}

/// The buffer that writing `enc` at the start of `data` leaves.
pub open spec fn overwrite_prefix(data: Seq<u8>, enc: Seq<u8>) -> Seq<u8> {
    enc + data.subrange(enc.len() as int, data.len() as int)
}

/// Writes `enc` over the first bytes of `data`, which must be long enough.
pub fn write_prefix(data: &[u8], enc: &Vec<u8>) -> (r: Vec<u8>)
    requires
        enc@.len() <= data@.len(),
    ensures
        r@ == overwrite_prefix(data@, enc@),
{
    let mut r: Vec<u8> = Vec::new();
    let mut i: usize = 0;
    while i < data.len()
        invariant
            0 <= i <= data@.len(),
            enc@.len() <= data@.len(),
            r@.len() == i,
            forall|j: int| 0 <= j < i ==> r@[j] == if j < enc@.len() { enc@[j] } else { data@[j] },
        decreases data.len() - i,
    {
        if i < enc.len() {
            r.push(enc[i]);
        } else {
            r.push(data[i]);
        }
        i = i + 1;
    }
    assert(r@ =~= overwrite_prefix(data@, enc@));
    r
}

} // verus!
