//! Byte-order conversion.

use vstd::prelude::*;

verus! {

/// The four bytes of `num`, most significant first.
pub open spec fn big_endian_bytes(num: u32) -> Seq<u8> {
    seq![
        (num / 0x100_0000) as u8,
        (num / 0x1_0000 % 0x100) as u8,
        (num / 0x100 % 0x100) as u8,
        (num % 0x100) as u8,
    ]
}

/// The number that four bytes stand for when the first is the least
/// significant.
pub open spec fn little_endian_value(bytes: Seq<u8>) -> int
    recommends
        bytes.len() == 4,
{
    bytes[0] + 0x100 * bytes[1] + 0x1_0000 * bytes[2] + 0x100_0000 * bytes[3]
}

/// Returns the bytes in the opposite order.
pub fn to_big_endian(bytes: &[u8]) -> (r: Vec<u8>)
    ensures
        r@ == bytes@.reverse(),
{
    let n: usize = bytes.len();
    let mut out: Vec<u8> = Vec::with_capacity(n);
    let mut i: usize = 0;
    while i < n
        invariant
            n == bytes@.len(),
            i <= n,
            out@.len() == i,
            forall|j: int| 0 <= j < i ==> out@[j] == bytes@[n - 1 - j],
        decreases n - i,
    {
        out.push(bytes[n - 1 - i]);
        i += 1;
    }
    assert(out@ =~= bytes@.reverse());
    out
}

/// Returns the big-endian bytes of `num` in the opposite order, that is with
/// the least significant byte first.
pub fn swap_endian_u32(num: u32) -> (r: [u8; 4])
    ensures
        r@ == big_endian_bytes(num).reverse(),
        little_endian_value(r@) == num,
{
    let r: [u8; 4] = [
        (num % 0x100) as u8,
        (num / 0x100 % 0x100) as u8,
        (num / 0x1_0000 % 0x100) as u8,
        (num / 0x100_0000) as u8,
    ];
    assert(r@ =~= big_endian_bytes(num).reverse());
    r
}

/// Reversing twice gives the bytes back.
pub proof fn lemma_reverse_twice(bytes: Seq<u8>)
    ensures
        bytes.reverse().reverse() == bytes,
{
    assert(bytes.reverse().reverse() =~= bytes);
}

} // verus!
