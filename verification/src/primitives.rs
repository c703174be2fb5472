//! The fixed-size values that orders are made of: 20-byte addresses, 32-byte
//! words and 256-bit unsigned integers.

use vstd::prelude::*;
use crate::bytes::{be_bytes, be_value, decimal_text, lemma_be_value_of_be_bytes, lemma_u128_fits};
use crate::hex::{hex_digits, hex_text, to_hex};
use crate::keccak::keccak256;

verus! {

/// A 20-byte account or contract address.
#[derive(Clone, Copy, Debug, PartialEq, Eq)]
pub struct Address {
    pub bytes: [u8; 20],
}

/// An opaque 32-byte value, such as a zone hash or a conduit key.
#[derive(Clone, Copy, Debug, PartialEq, Eq)]
pub struct B256 {
    pub bytes: [u8; 32],
}

/// A 256-bit unsigned integer, held as its 32 big-endian bytes.
#[derive(Clone, Copy, Debug, PartialEq, Eq)]
pub struct U256 {
    pub bytes: [u8; 32],
}

/// The upper-case form of a hex letter; any other character is itself.
pub open spec fn upper_hex(c: char) -> char {
    if 97 <= c as int <= 102 {
        (c as int - 32) as char
    } else {
        c
    }
}

/// The `i`-th half-byte of `bytes`, high halves first.
pub open spec fn nibble_at(bytes: Seq<u8>, i: int) -> int {
    if i % 2 == 0 {
        bytes[i / 2] as int / 16
    } else {
        bytes[i / 2] as int % 16
    }
}

/// The bytes of a text whose characters are all ASCII.
pub open spec fn ascii_bytes(text: Seq<char>) -> Seq<u8> {
    Seq::new(text.len(), |i: int| text[i] as u8)
}

/// The mixed-case checksum form of an address: its lower-case hex digits, the
/// `i`-th one in upper case where the `i`-th half-byte of the Keccak-256 hash
/// of those digits is 8 or more, after `0x`.
pub open spec fn checksum_text(address: Seq<u8>) -> Seq<char> {
    let lower = hex_digits(address);
    let mask = keccak256(ascii_bytes(lower))@;
    seq!['0', 'x'] + Seq::new(
        lower.len(),
        |i: int|
            if nibble_at(mask, i) >= 8 {
                upper_hex(lower[i])
            } else {
                lower[i]
            },
    )
}

/// Calls `alloy_primitives::Address::to_checksum` with no chain id.
///
/// Trusted: the text is `0x` and the 40 hex digits of the address, a letter
/// being in upper case exactly where the matching hex digit of the Keccak-256
/// hash of the 40 lower-case digits is `8` or above.
#[verifier::external_body]
fn address_to_checksum(bytes: &[u8; 20]) -> (text: String)
    ensures
        text@ == checksum_text(bytes@),
{
    alloy_primitives::Address::from(*bytes).to_checksum(None)
}

/// Formats a 256-bit integer with the `Display` of `alloy_primitives::U256`.
///
/// Trusted: the text is the number in decimal, without sign, padding or
/// leading zeros.
#[verifier::external_body]
fn u256_to_decimal(bytes: &[u8; 32]) -> (text: String)
    ensures
        text@ == decimal_text(be_value(bytes@)),
{
    alloy_primitives::U256::from_be_bytes(*bytes).to_string()
}

impl Address {
    /// The address of twenty zero bytes.
    pub fn zero() -> (address: Address)
        ensures
            address.bytes@ == Seq::new(20, |i: int| 0u8),
    {
        let address = Address { bytes: [0u8; 20] };
        assert(address.bytes@ =~= Seq::new(20, |i: int| 0u8));
        address
    }

    /// The address as a 32-byte word: twelve zero bytes, then the address.
    pub open spec fn word(self) -> Seq<u8> {
        Seq::new(12, |i: int| 0u8) + self.bytes@
    }

    /// The checksum text of the address, as it is shown to people.
    pub fn to_checksum(&self) -> (text: String)
        ensures
            text@ == checksum_text(self.bytes@),
    {
        address_to_checksum(&self.bytes)
    }
}

impl B256 {
    /// The value of thirty-two zero bytes.
    pub fn zero() -> (value: B256)
        ensures
            value.bytes@ == Seq::new(32, |i: int| 0u8),
    {
        let value = B256 { bytes: [0u8; 32] };
        assert(value.bytes@ =~= Seq::new(32, |i: int| 0u8));
        value
    }

    /// `0x` and the 64 lower-case hex digits of the value.
    pub fn to_hex(&self) -> (text: String)
        ensures
            text@ == hex_text(self.bytes@),
    {
        to_hex(self.bytes.as_slice())
    }
}

impl U256 {
    /// The number held.
    pub open spec fn value(self) -> nat {
        be_value(self.bytes@)
    }

    /// The integer whose big-endian bytes are `bytes`.
    pub fn from_be_bytes(bytes: [u8; 32]) -> (number: U256)
        ensures
            number.bytes == bytes,
    {
        U256 { bytes }
    }

    /// The integer equal to `v`.
    pub fn from_u128(v: u128) -> (number: U256)
        ensures
            number.bytes@ == be_bytes(v as nat, 32),
            number.value() == v,
    {
        let mut bytes = [0u8; 32];
        let mut rest: u128 = v;
        let mut i: usize = 32;
        while i > 0
            invariant
                i <= 32,
                be_bytes(v as nat, 32) == be_bytes(rest as nat, i as nat) + bytes@.skip(i as int),
            decreases i,
        {
            let ghost before = bytes@;
            i = i - 1;
            bytes[i] = (rest % 256) as u8;
            proof {
                assert(bytes@.skip(i as int) =~= seq![(rest % 256) as u8] + before.skip(i as int + 1));
                assert(be_bytes(rest as nat, (i + 1) as nat) =~= be_bytes(
                    rest as nat / 256,
                    i as nat,
                ).push((rest % 256) as u8));
                assert(be_bytes(v as nat, 32) =~= be_bytes(rest as nat / 256, i as nat)
                    + bytes@.skip(i as int));
            }
            rest = rest / 256;
        }
        proof {
            assert(be_bytes(v as nat, 32) =~= bytes@);
            lemma_u128_fits(v);
            lemma_be_value_of_be_bytes(v as nat, 32);
        }
        U256 { bytes }
    }

    /// The integer equal to `v`.
    pub fn from_u64(v: u64) -> (number: U256)
        ensures
            number.bytes@ == be_bytes(v as nat, 32),
            number.value() == v,
    {
        U256::from_u128(v as u128)
    }

    /// Whether this number is at most `other`.
    pub fn le(&self, other: &U256) -> (at_most: bool)
        ensures
            at_most == (self.value() <= other.value()),
    {
        let mut less = false;
        let mut greater = false;
        let mut i: usize = 0;
        while i < 32
            invariant
                i <= 32,
                less == (be_value(self.bytes@.take(i as int)) < be_value(
                    other.bytes@.take(i as int),
                )),
                greater == (be_value(self.bytes@.take(i as int)) > be_value(
                    other.bytes@.take(i as int),
                )),
            decreases 32 - i,
        {
            proof {
                let mine = self.bytes@.take(i as int + 1);
                let theirs = other.bytes@.take(i as int + 1);
                assert(mine.drop_last() =~= self.bytes@.take(i as int));
                assert(theirs.drop_last() =~= other.bytes@.take(i as int));
                assert(mine.last() == self.bytes@[i as int]);
                assert(theirs.last() == other.bytes@[i as int]);
            }
            if !less && !greater {
                if self.bytes[i] < other.bytes[i] {
                    less = true;
                } else if self.bytes[i] > other.bytes[i] {
                    greater = true;
                }
            }
            i = i + 1;
        }
        proof {
            assert(self.bytes@.take(32) =~= self.bytes@);
            assert(other.bytes@.take(32) =~= other.bytes@);
        }
        !greater
    }

    /// The number in decimal.
    pub fn to_decimal(&self) -> (text: String)
        ensures
            text@ == decimal_text(self.value()),
    {
        u256_to_decimal(&self.bytes)
    }
}

} // verus!
