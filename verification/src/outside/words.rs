//! Fixed-width values, as the crate `ethereum_types` reads and writes them.
use vstd::prelude::*;

verus! {

/// The decimal digits of a number, without leading zeros.
pub open spec fn decimal(number: nat) -> Seq<char>
    decreases number,
{
    let last = (48 + number % 10) as char;
    if number < 10 {
        seq![last]
    } else {
        decimal(number / 10).push(last)
    }
}

/// The lower-case hexadecimal digit of a number below sixteen.
pub open spec fn hex_digit(number: int) -> char {
    if number < 10 {
        (48 + number) as char
    } else {
        (87 + number) as char
    }
}

/// Two lower-case hexadecimal digits for each byte, behind `0x`.
pub open spec fn prefixed_hex(bytes: Seq<u8>) -> Seq<char> {
    "0x"@ + Seq::new(
        2 * bytes.len(),
        |i: int|
            if i % 2 == 0 {
                hex_digit(bytes[i / 2] as int / 16)
            } else {
                hex_digit(bytes[i / 2] as int % 16)
            },
    )
}

/// The bits that an input sets in a bloom filter, as the filter's bytes.
pub uninterp spec fn bloom_bits(input: Seq<u8>) -> Seq<u8>;

/// A filter with the bits of `bits` set besides its own.
pub open spec fn with_bits(filter: Seq<u8>, bits: Seq<u8>) -> Seq<u8> {
    Seq::new(filter.len(), |i: int| filter[i] | bits[i])
}

/// Calls `ethereum_types::U256::to_big_endian`: the 32 bytes of the number that the
/// limbs stand for, the highest byte first.
#[verifier::external_body]
pub(crate) fn to_big_endian(limbs: [u64; 4]) -> (r: [u8; 32])
    ensures
        r@ == crate::primitives::big_endian_bytes(crate::primitives::limbs_value(limbs@), 32),
{
    let mut bytes = [0u8; 32];
    ethereum_types::U256(limbs).to_big_endian(&mut bytes);
    bytes
}

/// Formats with the `Display` of `ethereum_types::U256`: the number in decimal.
#[verifier::external_body]
pub(crate) fn decimal_text(limbs: [u64; 4]) -> (r: String)
    ensures
        r@ == decimal(crate::primitives::limbs_value(limbs@)),
{
    format!("{}", ethereum_types::U256(limbs))
}

/// Formats with the alternate `LowerHex` of `ethereum_types::H160`: every byte in
/// two lower-case digits, behind `0x`.
#[verifier::external_body]
pub(crate) fn address_text(address: [u8; 20]) -> (r: String)
    ensures
        r@ == prefixed_hex(address@),
{
    format!("{:#x}", ethereum_types::H160(address))
}

/// Calls `ethereum_types::Bloom::accrue` on the raw input: the filter keeps its
/// bits and gains those of [`bloom_bits`], which depend on the input alone.
#[verifier::external_body]
pub(crate) fn accrue(filter: &mut [u8; 256], input: &[u8])
    ensures
        final(filter)@ == with_bits(old(filter)@, bloom_bits(input@)),
{
    let mut bloom = ethereum_types::Bloom(*filter);
    bloom.accrue(ethereum_types::BloomInput::Raw(input));
    *filter = bloom.0;
}

} // verus!
