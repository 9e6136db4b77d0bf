//! Fixed-width values: addresses, hashes and 256-bit unsigned integers.
use vstd::prelude::*;

verus! {

/// The hash of a transaction of the native chain.
pub type NativeTxHash = [u8; 32];

/// A 20-byte account address.
#[derive(Clone, Copy, Debug, PartialEq, Eq)]
pub struct H160(pub [u8; 20]);

/// A 32-byte hash.
#[derive(Clone, Copy, Debug, PartialEq, Eq)]
pub struct H256(pub [u8; 32]);

/// An 8-byte hash.
#[derive(Clone, Copy, Debug, PartialEq, Eq)]
pub struct H64(pub [u8; 8]);

/// A 256-bit unsigned integer, as four 64-bit limbs with the lowest first.
#[derive(Clone, Copy, Debug, PartialEq, Eq)]
pub struct U256(pub [u64; 4]);

/// The gas that the transactions of one block may use together.
pub const MAX_GAS_PER_BLOCK: u64 = 30_000_000;

/// The gas that every transaction uses at least.
pub const MIN_GAS_PER_TX: u64 = 21_000;

/// The number that four limbs stand for, the lowest limb first.
pub open spec fn limbs_value(limbs: Seq<u64>) -> nat {
    (limbs[0] + limbs[1] * 0x1_0000_0000_0000_0000 + limbs[2]
        * 0x1_0000_0000_0000_0000_0000_0000_0000_0000 + limbs[3]
        * 0x1_0000_0000_0000_0000_0000_0000_0000_0000_0000_0000_0000_0000) as nat
}

/// The number that a string of bytes stands for, the highest byte first.
pub open spec fn big_endian_value(bytes: Seq<u8>) -> nat
    decreases bytes.len(),
{
    if bytes.len() == 0 {
        0
    } else {
        256 * big_endian_value(bytes.drop_last()) + bytes.last() as nat
    }
}

impl H160 {
    /// The address whose bytes are all zero.
    pub open spec fn zeros() -> Self {
        H160(vstd::array::spec_array_fill_for_copy_type(0))
    }
}

impl Default for H160 {
    fn default() -> (r: Self)
        ensures
            r == H160::zeros(),
    {
        H160([0u8; 20])
    }
}

impl H256 {
    /// The hash whose bytes are all zero.
    pub open spec fn zeros() -> Self {
        H256(vstd::array::spec_array_fill_for_copy_type(0))
    }
}

impl Default for H256 {
    fn default() -> (r: Self)
        ensures
            r == H256::zeros(),
    {
        H256([0u8; 32])
    }
}

impl H64 {
    /// The short hash whose bytes are all zero.
    pub open spec fn zeros() -> Self {
        H64(vstd::array::spec_array_fill_for_copy_type(0))
    }
}

impl Default for H64 {
    fn default() -> (r: Self)
        ensures
            r == H64::zeros(),
    {
        H64([0u8; 8])
    }
}

impl U256 {
    /// The number that this value stands for.
    pub open spec fn value(self) -> nat {
        limbs_value(self.0@)
    }

    /// The value whose limbs are all zero.
    pub open spec fn zeros() -> Self {
        U256(vstd::array::spec_array_fill_for_copy_type(0))
    }

    /// The value that stands for a number below the 256th power of two.
    pub open spec fn of(number: nat) -> Self {
        U256(
            [
                (number % 0x1_0000_0000_0000_0000) as u64,
                (number / 0x1_0000_0000_0000_0000 % 0x1_0000_0000_0000_0000) as u64,
                (number / 0x1_0000_0000_0000_0000 / 0x1_0000_0000_0000_0000
                    % 0x1_0000_0000_0000_0000) as u64,
                (number / 0x1_0000_0000_0000_0000 / 0x1_0000_0000_0000_0000
                    / 0x1_0000_0000_0000_0000 % 0x1_0000_0000_0000_0000) as u64,
            ],
        )
    }

    /// Zero.
    pub fn zero() -> (r: Self)
        ensures
            r == U256::zeros(),
            r.value() == 0,
    {
        U256([0u64; 4])
    }

    /// The 256-bit value of a 64-bit number.
    pub fn from_u64(number: u64) -> (r: Self)
        ensures
            r.value() == number,
            r == U256::of(number as nat),
    {
        let r = U256([number, 0, 0, 0]);
        assert(r.0 =~= U256::of(number as nat).0);
        r
    }

    /// The number as 64 bits, where it fits.
    pub fn as_u64(&self) -> (r: u64)
        requires
            self.value() <= u64::MAX,
        ensures
            r == self.value(),
    {
        self.0[0]
    }

    /// Whether `self` is the smaller number.
    pub fn lt(&self, other: &Self) -> (r: bool)
        ensures
            r == (self.value() < other.value()),
    {
        if self.0[3] != other.0[3] {
            self.0[3] < other.0[3]
        } else if self.0[2] != other.0[2] {
            self.0[2] < other.0[2]
        } else if self.0[1] != other.0[1] {
            self.0[1] < other.0[1]
        } else {
            self.0[0] < other.0[0]
        }
    }
}

impl Default for U256 {
    fn default() -> (r: Self)
        ensures
            r == U256::zeros(),
    {
        U256::zero()
    }
}

/// Two values that stand for one number are the same value.
pub proof fn law_value_determines_limbs(a: U256, b: U256)
    requires
        a.value() == b.value(),
    ensures
        a == b,
{
    assert(a.0[3] == b.0[3]) by {
        lemma_high_limb_decides(a, b);
        lemma_high_limb_decides(b, a);
    }
    assert(a.0[2] == b.0[2]);
    assert(a.0[1] == b.0[1]);
    assert(a.0[0] == b.0[0]);
    assert(a.0 =~= b.0);
}

/// The value with the smaller highest limb is the smaller number.
proof fn lemma_high_limb_decides(a: U256, b: U256)
    ensures
        a.0[3] < b.0[3] ==> a.value() < b.value(),
{
}

/// The byte of a number that counts the powers of 256 with exponent `place`.
pub open spec fn byte_at(number: nat, place: nat) -> u8
    decreases place,
{
    if place == 0 {
        (number % 256) as u8
    } else {
        byte_at(number / 256, (place - 1) as nat)
    }
}

/// The lowest `len` bytes of a number, the highest of them first.
pub open spec fn big_endian_bytes(number: nat, len: nat) -> Seq<u8> {
    Seq::new(len, |i: int| byte_at(number, (len - 1 - i) as nat))
}

/// The bytes of a number that has no more of them stand for the number.
pub proof fn law_big_endian_bytes_value(number: nat, len: nat)
    requires
        number < vstd::arithmetic::power::pow(256, len),
    ensures
        big_endian_value(big_endian_bytes(number, len)) == number,
    decreases len,
{
    let bytes = big_endian_bytes(number, len);
    if len == 0 {
        vstd::arithmetic::power::lemma_pow0(256);
    } else {
        vstd::arithmetic::power::lemma_pow1(256);
        assert(vstd::arithmetic::power::pow(256, len) == 256 * vstd::arithmetic::power::pow(
            256,
            (len - 1) as nat,
        )) by {
            reveal(vstd::arithmetic::power::pow);
        }
        let front = big_endian_bytes(number / 256, (len - 1) as nat);
        assert(bytes.drop_last() =~= front) by {
            assert forall|i: int| 0 <= i < front.len() implies bytes.drop_last()[i] == front[i] by {
                assert(byte_at(number, (len - 1 - i) as nat) == byte_at(
                    number / 256,
                    (len - 2 - i) as nat,
                ));
            }
        }
        law_big_endian_bytes_value(number / 256, (len - 1) as nat);
        assert(bytes.last() == (number % 256) as u8);
    }
}

/// Every 256-bit value has no more than 32 bytes.
pub proof fn law_value_fits_32_bytes(number: U256)
    ensures
        number.value() < vstd::arithmetic::power::pow(256, 32),
{
    reveal_with_fuel(vstd::arithmetic::power::pow, 33);
}

} // verus!
