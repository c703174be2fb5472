//! Numbers as big-endian bytes and as decimal text.

use vstd::prelude::*;

verus! {

/// The number that `bytes` spell, most significant byte first.
pub open spec fn be_value(bytes: Seq<u8>) -> nat
    decreases bytes.len(),
{
    if bytes.len() == 0 {
        0
    } else {
        256 * be_value(bytes.drop_last()) + bytes.last() as nat
    }
}

/// The last `len` base-256 digits of `n`, most significant first.
pub open spec fn be_bytes(n: nat, len: nat) -> Seq<u8>
    decreases len,
{
    if len == 0 {
        Seq::empty()
    } else {
        be_bytes(n / 256, (len - 1) as nat).push((n % 256) as u8)
    }
}

/// Whether `n` has at most `len` base-256 digits.
pub open spec fn fits_in(n: nat, len: nat) -> bool
    decreases len,
{
    if len == 0 {
        n == 0
    } else {
        fits_in(n / 256, (len - 1) as nat)
    }
}

/// The decimal digits of `n`, without leading zeros; `0` for zero.
pub open spec fn decimal_text(n: nat) -> Seq<char>
    decreases n,
{
    if n < 10 {
        seq![(48 + n) as char]
    } else {
        decimal_text(n / 10).push((48 + n % 10) as char)
    }
}

pub proof fn lemma_be_bytes_len(n: nat, len: nat)
    ensures
        be_bytes(n, len).len() == len,
    decreases len,
{
    if len > 0 {
        lemma_be_bytes_len(n / 256, (len - 1) as nat);
    }
}

/// Reading back the digits of a number that fits gives the number.
pub proof fn lemma_be_value_of_be_bytes(n: nat, len: nat)
    requires
        fits_in(n, len),
    ensures
        be_value(be_bytes(n, len)) == n,
    decreases len,
{
    if len > 0 {
        let rest = be_bytes(n / 256, (len - 1) as nat);
        lemma_be_value_of_be_bytes(n / 256, (len - 1) as nat);
        assert(be_bytes(n, len).drop_last() =~= rest);
        assert(be_bytes(n, len).last() == (n % 256) as u8);
    }
}

/// Zero fits in any width.
pub proof fn lemma_zero_fits(len: nat)
    ensures
        fits_in(0, len),
    decreases len,
{
    if len > 0 {
        assert(0nat / 256 == 0);
        lemma_zero_fits((len - 1) as nat);
    }
}

/// Every 128-bit number fits in 32 bytes.
pub proof fn lemma_u128_fits(v: u128)
    ensures
        fits_in(v as nat, 32),
{
    let n0 = v as nat;
    let n4 = n0 / 256 / 256 / 256 / 256;
    let n8 = n4 / 256 / 256 / 256 / 256;
    let n12 = n8 / 256 / 256 / 256 / 256;
    let n16 = n12 / 256 / 256 / 256 / 256;
    assert(n4 == n0 / 0x1_0000_0000);
    assert(n8 == n4 / 0x1_0000_0000);
    assert(n12 == n8 / 0x1_0000_0000);
    assert(n16 == n12 / 0x1_0000_0000);
    assert(n16 == 0);
    lemma_zero_fits(16);
    reveal_with_fuel(fits_in, 17);
}

/// Numbers with the same digits are the same number.
pub proof fn lemma_be_bytes_injective(a: nat, b: nat, len: nat)
    requires
        fits_in(a, len),
        fits_in(b, len),
        be_bytes(a, len) == be_bytes(b, len),
    ensures
        a == b,
{
    lemma_be_value_of_be_bytes(a, len);
    lemma_be_value_of_be_bytes(b, len);
}

} // verus!
