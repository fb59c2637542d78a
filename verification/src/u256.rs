//! Unsigned integers of 256 bits: the words of the virtual machine.

use vstd::prelude::*;

verus! {

/// Two to the power of 128.
pub open spec fn limb() -> nat {
    0x1_0000_0000_0000_0000_0000_0000_0000_0000nat
}

/// The number that sixteen bytes of `bytes`, starting at `at`, spell in big
/// endian.
pub open spec fn be128(bytes: Seq<u8>, at: int) -> nat {
    (bytes[at] as nat * 0x1_00_0000_0000_0000_0000_0000_0000_0000 + bytes[at + 1] as nat
        * 0x1_0000_0000_0000_0000_0000_0000_0000 + bytes[at + 2] as nat
        * 0x1_00_0000_0000_0000_0000_0000_0000 + bytes[at + 3] as nat
        * 0x1_0000_0000_0000_0000_0000_0000 + bytes[at + 4] as nat
        * 0x1_00_0000_0000_0000_0000_0000 + bytes[at + 5] as nat * 0x1_0000_0000_0000_0000_0000
        + bytes[at + 6] as nat * 0x1_00_0000_0000_0000_0000 + bytes[at + 7] as nat
        * 0x1_0000_0000_0000_0000 + bytes[at + 8] as nat * 0x1_00_0000_0000_0000 + bytes[at
        + 9] as nat * 0x1_0000_0000_0000 + bytes[at + 10] as nat * 0x1_00_0000_0000 + bytes[at
        + 11] as nat * 0x1_0000_0000 + bytes[at + 12] as nat * 0x1_00_0000 + bytes[at + 13] as nat
        * 0x1_0000 + bytes[at + 14] as nat * 0x1_00 + bytes[at + 15] as nat) as nat
}

/// `bytes` with zeros in front, to a length of thirty-two.
pub open spec fn left_padded(bytes: Seq<u8>) -> Seq<u8>
    recommends
        bytes.len() <= 32,
{
    Seq::new((32 - bytes.len()) as nat, |i: int| 0u8) + bytes
}

/// The number that at most thirty-two bytes spell in big endian.
pub open spec fn be256(bytes: Seq<u8>) -> nat
    recommends
        bytes.len() <= 32,
{
    be128(left_padded(bytes), 0) * limb() + be128(left_padded(bytes), 16)
}

/// An unsigned integer of 256 bits, as its high and its low half.
#[derive(Debug, Clone, Copy, PartialEq, Eq, Hash, Structural)]
pub struct U256 {
    pub hi: u128,
    pub lo: u128,
}

impl View for U256 {
    type V = nat;

    /// The number that the two halves stand for.
    open spec fn view(&self) -> nat {
        self.hi as nat * limb() + self.lo as nat
    }
}

impl U256 {
    /// The word that at most thirty-two bytes spell in big endian.
    pub open spec fn spec_from_big_endian(bytes: Seq<u8>) -> U256
        recommends
            bytes.len() <= 32,
    {
        U256 {
            hi: be128(left_padded(bytes), 0) as u128,
            lo: be128(left_padded(bytes), 16) as u128,
        }
    }
}

fn be_u128(bytes: &[u8; 32], at: usize) -> (half: u128)
    requires
        at == 0 || at == 16,
    ensures
        half == be128(bytes@, at as int),
{
    (bytes[at] as u128) * 0x1_00_0000_0000_0000_0000_0000_0000_0000 + (bytes[at + 1] as u128)
        * 0x1_0000_0000_0000_0000_0000_0000_0000 + (bytes[at + 2] as u128)
        * 0x1_00_0000_0000_0000_0000_0000_0000 + (bytes[at + 3] as u128)
        * 0x1_0000_0000_0000_0000_0000_0000 + (bytes[at + 4] as u128)
        * 0x1_00_0000_0000_0000_0000_0000 + (bytes[at + 5] as u128) * 0x1_0000_0000_0000_0000_0000
        + (bytes[at + 6] as u128) * 0x1_00_0000_0000_0000_0000 + (bytes[at + 7] as u128)
        * 0x1_0000_0000_0000_0000 + (bytes[at + 8] as u128) * 0x1_00_0000_0000_0000 + (bytes[at
        + 9] as u128) * 0x1_0000_0000_0000 + (bytes[at + 10] as u128) * 0x1_00_0000_0000 + (
    bytes[at + 11] as u128) * 0x1_0000_0000 + (bytes[at + 12] as u128) * 0x1_00_0000 + (bytes[at
        + 13] as u128) * 0x1_0000 + (bytes[at + 14] as u128) * 0x1_00 + (bytes[at + 15] as u128)
}

impl U256 {
    pub fn zero() -> (word: U256)
        ensures
            word@ == 0,
            word == (U256 { hi: 0, lo: 0 }),
    {
        U256 { hi: 0, lo: 0 }
    }

    pub fn from_u64(n: u64) -> (word: U256)
        ensures
            word@ == n,
            word == (U256 { hi: 0, lo: n as u128 }),
    {
        U256 { hi: 0, lo: n as u128 }
    }

    pub fn from_usize(n: usize) -> (word: U256)
        ensures
            word@ == n,
            word == (U256 { hi: 0, lo: n as u128 }),
    {
        U256 { hi: 0, lo: n as u128 }
    }

    pub fn is_zero(&self) -> (zero: bool)
        ensures
            zero == (self@ == 0),
    {
        self.hi == 0 && self.lo == 0
    }

    /// Whether `self` is smaller than `other`.
    pub fn lt(&self, other: &U256) -> (smaller: bool)
        ensures
            smaller == (self@ < other@),
    {
        self.hi < other.hi || (self.hi == other.hi && self.lo < other.lo)
    }

    /// `self - other`, or zero where `other` is the greater.
    pub fn saturating_sub(&self, other: &U256) -> (difference: U256)
        ensures
            difference@ == if self@ >= other@ {
                self@ - other@
            } else {
                0
            },
    {
        if self.lt(other) {
            U256::zero()
        } else if self.lo >= other.lo {
            U256 { hi: self.hi - other.hi, lo: self.lo - other.lo }
        } else {
            U256 { hi: self.hi - other.hi - 1, lo: self.lo + (u128::MAX - other.lo) + 1 }
        }
    }

    /// The word as a `u64`, if it is small enough.
    pub fn to_u64(&self) -> (small: Option<u64>)
        ensures
            self@ <= u64::MAX ==> small == Some(self@ as u64),
            self@ > u64::MAX ==> small is None,
    {
        if self.hi == 0 && self.lo <= u64::MAX as u128 {
            Some(self.lo as u64)
        } else {
            None
        }
    }

    /// The word as a `usize`, if it is small enough.
    pub fn to_usize(&self) -> (small: Option<usize>)
        ensures
            self@ <= usize::MAX ==> small == Some(self@ as usize),
            self@ > usize::MAX ==> small is None,
    {
        if self.hi == 0 && self.lo <= usize::MAX as u128 {
            Some(self.lo as usize)
        } else {
            None
        }
    }

    /// The word that thirty-two bytes spell in big endian.
    pub fn from_big_endian(bytes: &[u8; 32]) -> (word: U256)
        ensures
            word == U256::spec_from_big_endian(bytes@),
            word@ == be256(bytes@),
    {
        U256 { hi: be_u128(bytes, 0), lo: be_u128(bytes, 16) }
    }

    /// The word that the twenty bytes of an address spell in big endian.
    pub fn from_address(address: &[u8; 20]) -> (word: U256)
        ensures
            word == U256::spec_from_big_endian(address@),
            word@ == be256(address@),
    {
        let mut bytes: [u8; 32] = [0u8;32];
        let mut i: usize = 0;
        while i < 20
            invariant
                i <= 20,
                forall|j: int| 0 <= j < 12 ==> bytes@[j] == 0,
                forall|j: int| 0 <= j < i ==> bytes@[12 + j] == address@[j],
            decreases 20 - i,
        {
            bytes[12 + i] = address[i];
            i = i + 1;
        }
        U256 { hi: be_u128(&bytes, 0), lo: be_u128(&bytes, 16) }
    }
}

} // verus!
