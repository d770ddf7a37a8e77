//! Universally unique identifier of the chip.
use vstd::prelude::*;

verus! {

/// The little-endian digits of `x` in base 256, `n` of them.
pub open spec fn le_digits(x: nat, n: nat) -> Seq<u8>
    decreases n,
{
    if n == 0 {
        Seq::empty()
    } else {
        seq![(x % 256) as u8] + le_digits(x / 256, (n - 1) as nat)
    }
}

/// The identifier burnt into the chip: four 32-bit words.
pub struct Uuid {
    uuid0: u32,
    uuid1: u32,
    uuid2: u32,
    uuid3: u32,
}

impl Uuid {
    /// The four words, least significant first.
    pub closed spec fn words(self) -> Seq<u32> {
        seq![self.uuid0, self.uuid1, self.uuid2, self.uuid3]
    }

    /// The identifier as one number: word 0 is the least significant.
    pub open spec fn value(self) -> nat {
        (self.words()[0] + self.words()[1] * 0x1_0000_0000 + self.words()[2]
            * 0x1_0000_0000_0000_0000 + self.words()[3] * 0x1_0000_0000_0000_0000_0000_0000) as nat
    }

    /// Builds an identifier from the four words read from the chip, least
    /// significant first.
    pub fn from_words(uuid0: u32, uuid1: u32, uuid2: u32, uuid3: u32) -> (r: Self)
        ensures
            r.words() == seq![uuid0, uuid1, uuid2, uuid3],
    {
        Uuid { uuid0, uuid1, uuid2, uuid3 }
    }

    /// Returns the memory representation of this UUID as a `u128`
    pub fn to_u128(self) -> (r: u128)
        ensures
            r == self.value(),
    {
        let w0: u128 = self.uuid0 as u128;
        let w1: u128 = self.uuid1 as u128;
        let w2: u128 = self.uuid2 as u128;
        let w3: u128 = self.uuid3 as u128;
        assert((w3 << 96 | w2 << 64 | w1 << 32 | w0) == w0 + w1 * 0x1_0000_0000 + w2
            * 0x1_0000_0000_0000_0000 + w3 * 0x1_0000_0000_0000_0000_0000_0000) by (bit_vector)
            requires
                w0 < 0x1_0000_0000,
                w1 < 0x1_0000_0000,
                w2 < 0x1_0000_0000,
                w3 < 0x1_0000_0000,
        ;
        w3 << 96 | w2 << 64 | w1 << 32 | w0
    }

    /// Returns the memory representation of this UUID as native-endian bytes
    pub fn to_ne_bytes(self) -> (r: [u8; 16])
        ensures
            r@ == le_digits(self.value(), 16) || r@ == le_digits(self.value(), 16).reverse(),
    {
        ne_bytes_of(self.to_u128())
    }

    /// Returns the memory representation of this UUID as big-endian bytes
    pub fn to_be_bytes(self) -> (r: [u8; 16])
        ensures
            r@ == le_digits(self.value(), 16).reverse(),
    {
        be_bytes_of(self.to_u128())
    }

    /// Returns the memory representation of this UUID as little-endian bytes
    pub fn to_le_bytes(self) -> (r: [u8; 16])
        ensures
            r@ == le_digits(self.value(), 16),
    {
        le_bytes_of(self.to_u128())
    }
}

/// `u128::to_le_bytes` of the standard library: the sixteen base-256 digits
/// of `x`, least significant first. Not proved here.
#[verifier::external_body]
fn le_bytes_of(x: u128) -> (r: [u8; 16])
    ensures
        r@ == le_digits(x as nat, 16),
{
    x.to_le_bytes()
}

/// `u128::to_be_bytes` of the standard library: the sixteen base-256 digits
/// of `x`, most significant first. Not proved here.
#[verifier::external_body]
fn be_bytes_of(x: u128) -> (r: [u8; 16])
    ensures
        r@ == le_digits(x as nat, 16).reverse(),
{
    x.to_be_bytes()
}

/// `u128::to_ne_bytes` of the standard library: the sixteen base-256 digits
/// of `x` in the byte order of the machine, which is one of the two orders.
/// Not proved here.
#[verifier::external_body]
fn ne_bytes_of(x: u128) -> (r: [u8; 16])
    ensures
        r@ == le_digits(x as nat, 16) || r@ == le_digits(x as nat, 16).reverse(),
{
    x.to_ne_bytes()
}

} // verus!
