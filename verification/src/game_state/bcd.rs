use vstd::prelude::*;

verus! {

/// The upper decimal digit held by a packed BCD byte.
pub open spec fn high_digit(b: u8) -> int {
    b as int / 16
}

/// The lower decimal digit held by a packed BCD byte.
pub open spec fn low_digit(b: u8) -> int {
    b as int % 16
}

/// Both nibbles of the byte are decimal digits.
pub open spec fn is_bcd_byte(b: u8) -> bool {
    high_digit(b) <= 9 && low_digit(b) <= 9
}

/// Three bytes that each hold two decimal digits.
pub open spec fn is_bcd(bytes: Seq<u8>) -> bool {
    bytes.len() == 3 && is_bcd_byte(bytes[0]) && is_bcd_byte(bytes[1]) && is_bcd_byte(bytes[2])
}

/// The number that three packed BCD bytes stand for, most significant first.
pub open spec fn bcd_value(bytes: Seq<u8>) -> int {
    high_digit(bytes[0]) * 100000 + low_digit(bytes[0]) * 10000 + high_digit(bytes[1]) * 1000
        + low_digit(bytes[1]) * 100 + high_digit(bytes[2]) * 10 + low_digit(bytes[2])
}

/// The byte that packs the two digits `hi` and `lo`.
pub open spec fn pack_digits(hi: int, lo: int) -> u8 {
    (hi * 16 + lo) as u8
}

/// The three packed BCD bytes of a number below one million.
pub open spec fn bcd_encoding(value: int) -> Seq<u8> {
    seq![
        pack_digits(value / 100000 % 10, value / 10000 % 10),
        pack_digits(value / 1000 % 10, value / 100 % 10),
        pack_digits(value / 10 % 10, value % 10),
    ]
}

proof fn lemma_nibbles(b: u8)
    ensures
        b >> 4u8 == b / 16,
        b & 0x0Fu8 == b % 16,
{
    assert(b >> 4u8 == b / 16) by (bit_vector);
    assert(b & 0x0Fu8 == b % 16) by (bit_vector);
}

proof fn lemma_pack(hi: u8, lo: u8)
    requires
        hi < 10,
        lo < 10,
    ensures
        (hi << 4u8) | lo == hi * 16 + lo,
{
    assert((hi << 4u8) | lo == hi * 16 + lo) by (bit_vector)
        requires
            hi < 10,
            lo < 10,
    ;
}


proof fn lemma_pack_digits(hi: int, lo: int)
    requires
        0 <= hi <= 9,
        0 <= lo <= 9,
    ensures
        high_digit(pack_digits(hi, lo)) == hi,
        low_digit(pack_digits(hi, lo)) == lo,
{
}

/// Packing a number below one million into BCD and reading it back gives the number.
pub proof fn lemma_encode_then_value(value: int)
    requires
        0 <= value <= 999999,
    ensures
        is_bcd(bcd_encoding(value)),
        bcd_value(bcd_encoding(value)) == value,
{
    lemma_pack_digits(value / 100000 % 10, value / 10000 % 10);
    lemma_pack_digits(value / 1000 % 10, value / 100 % 10);
    lemma_pack_digits(value / 10 % 10, value % 10);
    assert(bcd_value(bcd_encoding(value)) == value) by (nonlinear_arith)
        requires
            0 <= value <= 999999,
            high_digit(bcd_encoding(value)[0]) == value / 100000 % 10,
            low_digit(bcd_encoding(value)[0]) == value / 10000 % 10,
            high_digit(bcd_encoding(value)[1]) == value / 1000 % 10,
            low_digit(bcd_encoding(value)[1]) == value / 100 % 10,
            high_digit(bcd_encoding(value)[2]) == value / 10 % 10,
            low_digit(bcd_encoding(value)[2]) == value % 10,
    ;
}

/// Reading valid BCD bytes as a number and packing that number again gives the bytes.
pub proof fn lemma_value_then_encode(bytes: Seq<u8>)
    requires
        is_bcd(bytes),
    ensures
        0 <= bcd_value(bytes) <= 999999,
        bcd_encoding(bcd_value(bytes)) == bytes,
{
    let v = bcd_value(bytes);
    let (a, b, c, d, e, f) = (
        high_digit(bytes[0]),
        low_digit(bytes[0]),
        high_digit(bytes[1]),
        low_digit(bytes[1]),
        high_digit(bytes[2]),
        low_digit(bytes[2]),
    );
    assert(v / 100000 % 10 == a && v / 10000 % 10 == b && v / 1000 % 10 == c && v / 100 % 10 == d
        && v / 10 % 10 == e && v % 10 == f && 0 <= v <= 999999) by (nonlinear_arith)
        requires
            v == a * 100000 + b * 10000 + c * 1000 + d * 100 + e * 10 + f,
            0 <= a <= 9,
            0 <= b <= 9,
            0 <= c <= 9,
            0 <= d <= 9,
            0 <= e <= 9,
            0 <= f <= 9,
    ;
    assert(bcd_encoding(v) =~= bytes);
}

/// Six decimal digits packed in three bytes, most significant first.
pub struct BCD {
    bytes: [u8; 3],
}

impl BCD {
    pub closed spec fn spec_bytes(&self) -> Seq<u8> {
        self.bytes@
    }

    /// Wraps three bytes that are already packed BCD.
    pub fn new(bytes: [u8; 3]) -> (res: Self)
        requires
            is_bcd(bytes@),
        ensures
            res.spec_bytes() == bytes@,
    {
        BCD { bytes }
    }

    /// Packs a number of at most six decimal digits.
    pub fn from_u32(value: u32) -> (res: Self)
        requires
            value <= 999999,
        ensures
            res.spec_bytes() == bcd_encoding(value as int),
            is_bcd(res.spec_bytes()),
    {
        let d5 = (value / 100000 % 10) as u8;
        let d4 = (value / 10000 % 10) as u8;
        let d3 = (value / 1000 % 10) as u8;
        let d2 = (value / 100 % 10) as u8;
        let d1 = (value / 10 % 10) as u8;
        let d0 = (value % 10) as u8;
        proof {
            lemma_pack(d5, d4);
            lemma_pack(d3, d2);
            lemma_pack(d1, d0);
        }
        let bytes = [d5 << 4 | d4, d3 << 4 | d2, d1 << 4 | d0];
        let res = BCD { bytes };
        assert(res.spec_bytes() =~= bcd_encoding(value as int));
        res
    }

    /// The number held, reading each nibble as one decimal digit.
    pub fn to_u32(&self) -> (res: u32)
        ensures
            res == bcd_value(self.spec_bytes()),
    {
        proof {
            lemma_nibbles(self.bytes[0]);
            lemma_nibbles(self.bytes[1]);
            lemma_nibbles(self.bytes[2]);
        }
        ((self.bytes[0] >> 4) as u32) * 100000 + ((self.bytes[0] & 0x0F) as u32) * 10000 + ((
        self.bytes[1] >> 4) as u32) * 1000 + ((self.bytes[1] & 0x0F) as u32) * 100 + ((
        self.bytes[2] >> 4) as u32) * 10 + (self.bytes[2] & 0x0F) as u32
    }

    /// The three packed bytes.
    pub fn bytes(&self) -> (res: [u8; 3])
        ensures
            res@ == self.spec_bytes(),
    {
        self.bytes
    }
}

} // verus!
