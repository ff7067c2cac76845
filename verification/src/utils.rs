use vstd::prelude::*;
use vstd::arithmetic::div_mod::{lemma_breakdown, lemma_small_mod};

verus! {

/// The value of four bytes read as a big-endian 32-bit unsigned integer.
pub open spec fn be32_val(b: Seq<u8>) -> int
    recommends
        b.len() == 4,
{
    b[0] * 0x100_0000 + b[1] * 0x1_0000 + b[2] * 0x100 + b[3]
}

/// The four big-endian bytes of `n`; for `n` out of the 32-bit range this
/// describes the bytes of `n`'s low 32 bits.
pub open spec fn be32_bytes(n: int) -> Seq<u8>
    recommends
        0 <= n,
{
    seq![
        (((n / 0x100_0000) % 0x100) as u8),
        (((n / 0x1_0000) % 0x100) as u8),
        (((n / 0x100) % 0x100) as u8),
        ((n % 0x100) as u8),
    ]
}

/// Law: reading back the four big-endian bytes of a 32-bit value yields
/// the value itself.
pub proof fn lemma_be32_roundtrip(n: int)
    requires
        0 <= n < 0x1_0000_0000,
    ensures
        be32_val(be32_bytes(n)) == n,
{
    lemma_small_mod(n as nat, 0x1_0000_0000);
    lemma_breakdown(n, 0x100_0000, 0x100);
    lemma_breakdown(n, 0x1_0000, 0x100);
    lemma_breakdown(n, 0x100, 0x100);
}

/// The four big-endian bytes of the low 32 bits of `x`.
pub fn usize_to_u8_array(x: usize) -> (r: [u8; 4])
    ensures
        r@ == be32_bytes(x as int),
{
    let b1: u8 = ((x / 0x100_0000) % 0x100) as u8;
    let b2: u8 = ((x / 0x1_0000) % 0x100) as u8;
    let b3: u8 = ((x / 0x100) % 0x100) as u8;
    let b4: u8 = (x % 0x100) as u8;

    let r = [b1, b2, b3, b4];
    proof {
        assert(r@ =~= be32_bytes(x as int));
    }
    r
}

/// The big-endian 32-bit value stored at positions `i..i + 4` of `buf`.
pub fn u8_array_to_usize(buf: &[u8], i: usize) -> (r: usize)
    requires
        i + 4 <= buf@.len(),
    ensures
        r == be32_val(buf@.subrange(i as int, i as int + 4)),
        r < 0x1_0000_0000,
{
    let b1: usize = (buf[i] as usize) * 0x100_0000;
    let b2: usize = (buf[i + 1] as usize) * 0x1_0000;
    let b3: usize = (buf[i + 2] as usize) * 0x100;
    let b4: usize = buf[i + 3] as usize;

    let r = b1 + b2 + b3 + b4;
    proof {
        let s = buf@.subrange(i as int, i as int + 4);
        assert(s[0] == buf@[i as int]);
        assert(s[1] == buf@[i as int + 1]);
        assert(s[2] == buf@[i as int + 2]);
        assert(s[3] == buf@[i as int + 3]);
    }
    r
}

} // verus!
