use vstd::prelude::*;

verus! {

/// The number that a big-endian pair of bytes stands for.
pub open spec fn be16(hi: u8, lo: u8) -> int {
    hi as int * 256 + lo as int
}

/// The number that a little-endian pair of bytes stands for.
pub open spec fn le16(lo: u8, hi: u8) -> int {
    hi as int * 256 + lo as int
}

/// `s` with the bytes from `pos` on replaced by `b`.
pub open spec fn overwrite(s: Seq<u8>, pos: int, b: Seq<u8>) -> Seq<u8> {
    Seq::new(s.len(), |i: int| if pos <= i < pos + b.len() { b[i - pos] } else { s[i] })
}

/// Whether bit `k` of `b` is set.
pub open spec fn has_bit(b: u8, k: u8) -> bool {
    b & (1u8 << k) != 0
}

/// `b` with bit `k` set or cleared.
pub open spec fn with_bit(b: u8, k: u8, v: bool) -> u8 {
    if v {
        b | (1u8 << k)
    } else {
        b & !(1u8 << k)
    }
}

/// Setting or clearing a bit makes it read back as written and leaves the
/// other bits as they were.
pub proof fn lemma_with_bit(b: u8, k: u8, v: bool, j: u8)
    requires
        k < 8,
        j < 8,
    ensures
        has_bit(with_bit(b, k, v), k) == v,
        j != k ==> has_bit(with_bit(b, k, v), j) == has_bit(b, j),
{
    if v {
        assert((b | (1u8 << k)) & (1u8 << k) != 0) by (bit_vector)
            requires
                k < 8,
        ;
        assert(j != k ==> (((b | (1u8 << k)) & (1u8 << j) != 0) == (b & (1u8 << j) != 0))) by (bit_vector)
            requires
                k < 8,
                j < 8,
        ;
    } else {
        assert((b & !(1u8 << k)) & (1u8 << k) == 0) by (bit_vector)
            requires
                k < 8,
        ;
        assert(j != k ==> (((b & !(1u8 << k)) & (1u8 << j) != 0) == (b & (1u8 << j) != 0))) by (bit_vector)
            requires
                k < 8,
                j < 8,
        ;
    }
}

/// The upper byte of a 16-bit value.
pub open spec fn hi8(v: int) -> u8 {
    (v / 256 % 256) as u8
}

/// The lower byte of a 16-bit value.
pub open spec fn lo8(v: int) -> u8 {
    (v % 256) as u8
}

/// Joins a big-endian pair of bytes.
pub fn u16_from_be(hi: u8, lo: u8) -> (res: u16)
    ensures
        res == be16(hi, lo),
{
    (hi as u16) * 256 + (lo as u16)
}

/// Joins a little-endian pair of bytes.
pub fn u16_from_le(lo: u8, hi: u8) -> (res: u16)
    ensures
        res == le16(lo, hi),
{
    (hi as u16) * 256 + (lo as u16)
}

/// The upper byte of a 16-bit value.
pub fn high_byte(v: u16) -> (res: u8)
    ensures
        res == hi8(v as int),
        res == v / 256,
{
    (v / 256) as u8
}

/// The lower byte of a 16-bit value.
pub fn low_byte(v: u16) -> (res: u8)
    ensures
        res == lo8(v as int),
        res == v % 256,
{
    (v % 256) as u8
}

/// Copies `bytes` into `data` from position `pos` on.
pub fn copy_into(data: &mut [u8], pos: usize, bytes: &[u8])
    requires
        pos + bytes@.len() <= old(data)@.len(),
    ensures
        final(data)@ == overwrite(old(data)@, pos as int, bytes@),
{
    let n = data.len();
    let mut i: usize = 0;
    while i < bytes.len()
        invariant
            n == data@.len(),
            pos + bytes@.len() <= data@.len(),
            data@.len() == old(data)@.len(),
            i <= bytes@.len(),
            forall|j: int|
                0 <= j < data@.len() ==> #[trigger] data@[j] == if pos <= j < pos + i {
                    bytes@[j - pos]
                } else {
                    old(data)@[j]
                },
        decreases bytes@.len() - i,
    {
        data[pos + i] = bytes[i];
        i = i + 1;
    }
    assert(data@ =~= overwrite(old(data)@, pos as int, bytes@));
}

} // verus!
