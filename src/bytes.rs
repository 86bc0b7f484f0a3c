use vstd::prelude::*;

verus! {

/// The four bytes of `x`, most significant first.
#[verifier::opaque]
pub open spec fn be_bytes(x: u32) -> Seq<u8> {
    seq![
        (x / 0x100_0000) as u8,
        (x / 0x1_0000 % 0x100) as u8,
        (x / 0x100 % 0x100) as u8,
        (x % 0x100) as u8,
    ]
}

/// The big-endian number held by the four bytes of `s` that start at `off`.
#[verifier::opaque]
pub open spec fn be_value(s: Seq<u8>, off: int) -> u32 {
    (s[off] as int * 0x100_0000 + s[off + 1] as int * 0x1_0000 + s[off + 2] as int * 0x100
        + s[off + 3] as int) as u32
}

pub proof fn lemma_be_value_of_bytes(x: u32)
    ensures
        be_bytes(x).len() == 4,
        be_value(be_bytes(x), 0) == x,
{
    reveal(be_bytes);
    reveal(be_value);
    let b = be_bytes(x);
    assert(b[0] as int == x / 0x100_0000);
    assert(b[1] as int == x / 0x1_0000 % 0x100);
    assert(b[2] as int == x / 0x100 % 0x100);
    assert(b[3] as int == x % 0x100);
    assert(x / 0x100_0000 * 0x100_0000 + x / 0x1_0000 % 0x100 * 0x1_0000 + x / 0x100 % 0x100
        * 0x100 + x % 0x100 == x) by (nonlinear_arith);
}

pub proof fn lemma_bytes_of_be_value(s: Seq<u8>, off: int)
    requires
        0 <= off,
        off + 4 <= s.len(),
    ensures
        be_bytes(be_value(s, off)) == s.subrange(off, off + 4),
{
    reveal(be_bytes);
    reveal(be_value);
    let (a, b, c, d) = (s[off] as int, s[off + 1] as int, s[off + 2] as int, s[off + 3] as int);
    let v = a * 0x100_0000 + b * 0x1_0000 + c * 0x100 + d;
    assert(0 <= v < 0x1_0000_0000) by (nonlinear_arith)
        requires
            0 <= a < 0x100 && 0 <= b < 0x100 && 0 <= c < 0x100 && 0 <= d < 0x100,
            v == a * 0x100_0000 + b * 0x1_0000 + c * 0x100 + d,
    ;
    assert(v / 0x100_0000 == a && v / 0x1_0000 % 0x100 == b && v / 0x100 % 0x100 == c && v
        % 0x100 == d) by (nonlinear_arith)
        requires
            0 <= a < 0x100 && 0 <= b < 0x100 && 0 <= c < 0x100 && 0 <= d < 0x100,
            v == a * 0x100_0000 + b * 0x1_0000 + c * 0x100 + d,
    ;
    assert(be_bytes(be_value(s, off)) =~= s.subrange(off, off + 4));
}

/// Reading at `off` reads the four bytes that start there.
pub proof fn lemma_be_value_subrange(s: Seq<u8>, off: int)
    requires
        0 <= off,
        off + 4 <= s.len(),
    ensures
        be_value(s, off) == be_value(s.subrange(off, off + 4), 0),
{
    reveal(be_value);
}

/// Reads the big-endian `u32` stored at `off`.
pub fn read_be_u32(b: &[u8], off: usize) -> (r: u32)
    requires
        off + 4 <= b@.len(),
    ensures
        r == be_value(b@, off as int),
{
    reveal(be_value);
    let (b0, b1, b2, b3) = (b[off] as u32, b[off + 1] as u32, b[off + 2] as u32, b[off + 3] as u32);
    let r: u32 = (b0 << 24u32) | (b1 << 16u32) | (b2 << 8u32) | b3;
    assert(r == b0 * 0x100_0000 + b1 * 0x1_0000 + b2 * 0x100 + b3) by (bit_vector)
        requires
            b0 < 0x100 && b1 < 0x100 && b2 < 0x100 && b3 < 0x100,
            r == (b0 << 24u32) | (b1 << 16u32) | (b2 << 8u32) | b3,
    ;
    r
}

/// The four bytes of `x`, most significant first.
pub fn write_be_u32(x: u32) -> (r: [u8; 4])
    ensures
        r@ == be_bytes(x),
{
    reveal(be_bytes);
    let r: [u8; 4] = [(x >> 24u32) as u8, (x >> 16u32) as u8, (x >> 8u32) as u8, x as u8];
    assert((x >> 24u32) as u8 == (x / 0x100_0000) as u8 && (x >> 16u32) as u8 == (x / 0x1_0000
        % 0x100) as u8 && (x >> 8u32) as u8 == (x / 0x100 % 0x100) as u8 && x as u8 == (x
        % 0x100) as u8) by (bit_vector);
    assert(r@ =~= be_bytes(x));
    r
}

} // verus!
