use vstd::prelude::*;

verus! {

/// A 32-byte account address.
#[derive(Clone, Copy, Debug, PartialEq, Eq)]
pub struct Address {
    pub bytes: [u8; 32],
}

impl View for Address {
    type V = Seq<u8>;

    open spec fn view(&self) -> Seq<u8> {
        self.bytes@
    }
}

/// The eight little-endian bytes of `n`.
pub open spec fn le_bytes(n: u64) -> Seq<u8> {
    seq![
        n as u8,
        (n >> 8u64) as u8,
        (n >> 16u64) as u8,
        (n >> 24u64) as u8,
        (n >> 32u64) as u8,
        (n >> 40u64) as u8,
        (n >> 48u64) as u8,
        (n >> 56u64) as u8,
    ]
}

/// The integer whose little-endian bytes are the first eight of `b`.
pub open spec fn u64_from_le(b: Seq<u8>) -> u64
    recommends
        b.len() >= 8,
{
    (b[0] as u64) | ((b[1] as u64) << 8u64) | ((b[2] as u64) << 16u64) | ((b[3] as u64) << 24u64)
        | ((b[4] as u64) << 32u64) | ((b[5] as u64) << 40u64) | ((b[6] as u64) << 48u64)
        | ((b[7] as u64) << 56u64)
}

/// Reading back the little-endian bytes of `n` gives `n`.
pub proof fn lemma_le_round_trip(n: u64)
    ensures
        u64_from_le(le_bytes(n)) == n,
{
    let b = le_bytes(n);
    assert(b[0] == n as u8 && b[1] == (n >> 8u64) as u8 && b[2] == (n >> 16u64) as u8 && b[3] == (
    n >> 24u64) as u8 && b[4] == (n >> 32u64) as u8 && b[5] == (n >> 40u64) as u8 && b[6] == (n
        >> 48u64) as u8 && b[7] == (n >> 56u64) as u8);
    assert(((n as u8) as u64) | ((((n >> 8u64) as u8) as u64) << 8u64) | ((((n >> 16u64) as u8)
        as u64) << 16u64) | ((((n >> 24u64) as u8) as u64) << 24u64) | ((((n >> 32u64) as u8)
        as u64) << 32u64) | ((((n >> 40u64) as u8) as u64) << 40u64) | ((((n >> 48u64) as u8)
        as u64) << 48u64) | ((((n >> 56u64) as u8) as u64) << 56u64) == n) by (bit_vector);
}

/// Reads the little-endian integer at `b[off..off + 8]`.
pub fn read_u64_le(b: &[u8], off: usize) -> (r: u64)
    requires
        off + 8 <= b@.len(),
    ensures
        r == u64_from_le(b@.subrange(off as int, off + 8)),
{
    let s = Ghost(b@.subrange(off as int, off + 8));
    assert(s@[0] == b@[off as int] && s@[1] == b@[off + 1] && s@[2] == b@[off + 2] && s@[3] == b@[
    off + 3] && s@[4] == b@[off + 4] && s@[5] == b@[off + 5] && s@[6] == b@[off + 6] && s@[7]
        == b@[off + 7]);
    (b[off] as u64) | ((b[off + 1] as u64) << 8u64) | ((b[off + 2] as u64) << 16u64) | ((b[off
        + 3] as u64) << 24u64) | ((b[off + 4] as u64) << 32u64) | ((b[off + 5] as u64) << 40u64)
        | ((b[off + 6] as u64) << 48u64) | ((b[off + 7] as u64) << 56u64)
}

/// The little-endian bytes of `n`.
pub fn u64_to_le(n: u64) -> (r: [u8; 8])
    ensures
        r@ == le_bytes(n),
{
    let r: [u8; 8] = [
        n as u8,
        (n >> 8u64) as u8,
        (n >> 16u64) as u8,
        (n >> 24u64) as u8,
        (n >> 32u64) as u8,
        (n >> 40u64) as u8,
        (n >> 48u64) as u8,
        (n >> 56u64) as u8,
    ];
    assert(r@ =~= le_bytes(n));
    r
}

/// Reads the address stored at `b[off..off + 32]`.
pub fn read_address(b: &[u8], off: usize) -> (r: Address)
    requires
        off + 32 <= b@.len(),
    ensures
        r@ == b@.subrange(off as int, off + 32),
{
    let mut bytes = [0u8; 32];
    let n = b.len();
    let mut i: usize = 0;
    while i < 32
        invariant
            n == b@.len(),
            off + 32 <= b@.len(),
            0 <= i <= 32,
            forall|k: int| 0 <= k < i ==> bytes@[k] == b@[off + k],
        decreases 32 - i,
    {
        bytes[i] = b[off + i];
        i = i + 1;
    }
    assert(bytes@ =~= b@.subrange(off as int, off + 32));
    Address { bytes }
}

/// Copies `src` into `dst` at offset `off`, leaving the other bytes of `dst` as they were.
pub fn write_at(dst: &mut [u8], off: usize, src: &[u8])
    requires
        off + src@.len() <= old(dst)@.len(),
    ensures
        final(dst)@.len() == old(dst)@.len(),
        forall|k: int| 0 <= k < src@.len() ==> final(dst)@[off + k] == src@[k],
        forall|k: int|
            0 <= k < old(dst)@.len() && !(off <= k < off + src@.len()) ==> final(dst)@[k] == old(
                dst,
            )@[k],
{
    let n = dst.len();
    let mut i: usize = 0;
    while i < src.len()
        invariant
            n == dst@.len(),
            off + src@.len() <= dst@.len(),
            dst@.len() == old(dst)@.len(),
            0 <= i <= src@.len(),
            forall|k: int| 0 <= k < i ==> dst@[off + k] == src@[k],
            forall|k: int|
                0 <= k < old(dst)@.len() && !(off <= k < off + i) ==> dst@[k] == old(dst)@[k],
        decreases src@.len() - i,
    {
        dst[off + i] = src[i];
        i = i + 1;
    }
}

} // verus!
