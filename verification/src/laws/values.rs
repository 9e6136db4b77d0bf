//! What the words, keys and lists of the core stand for.
use crate::chain::Vicinity;
use crate::outside::envelope::Envelope;
use crate::primitives::{H160, H256, H64, U256};
use crate::transaction::{AccessListItem, Transaction};
use vstd::prelude::*;

verus! {

/// Whether every byte is zero.
pub open spec fn all_zero(bytes: Seq<u8>) -> bool {
    forall|i: int| 0 <= i < bytes.len() ==> #[trigger] bytes[i] == 0
}

/// Whether nothing is set in the surroundings of a state.
pub open spec fn nothing_set(vicinity: Vicinity) -> bool {
    &&& vicinity.block_number.value() == 0
    &&& vicinity.gas_limit.value() == 0
    &&& all_zero(vicinity.origin.0@)
}

/// The values that stand for nothing have no byte and no limb but zeros.
pub proof fn law_zeros()
    ensures
        all_zero(H160::zeros().0@),
        all_zero(H256::zeros().0@),
        all_zero(H64::zeros().0@),
        all_zero(crate::bloom::Bloom::zeros().0@),
        U256::zeros().value() == 0,
        nothing_set(Vicinity::unset()),
{
}

/// A limb counts 64 bits more than the one before it.
pub proof fn law_limbs(number: U256)
    ensures
        number.value() == number.0@[0] * vstd::arithmetic::power2::pow2(0) + number.0@[1] * vstd::arithmetic::power2::pow2(64) + number.0@[2] * vstd::arithmetic::power2::pow2(
            128,
        ) + number.0@[3] * vstd::arithmetic::power2::pow2(192),
{
    vstd::arithmetic::power2::lemma2_to64();
    assert(vstd::arithmetic::power2::pow2(64) == 0x1_0000_0000_0000_0000);
    vstd::arithmetic::power2::lemma_pow2_adds(64, 64);
    vstd::arithmetic::power2::lemma_pow2_adds(64, 128);
    assert(vstd::arithmetic::power2::pow2(128) == 0x1_0000_0000_0000_0000_0000_0000_0000_0000);
    assert(vstd::arithmetic::power2::pow2(192) == 0x1_0000_0000_0000_0000_0000_0000_0000_0000_0000_0000_0000_0000);
}

/// The value of a number below the 256th power of two stands for that number.
pub proof fn law_value_of(number: nat)
    requires
        number < vstd::arithmetic::power2::pow2(256),
    ensures
        U256::of(number).value() == number,
{
    vstd::arithmetic::power2::lemma2_to64();
    vstd::arithmetic::power2::lemma_pow2_adds(64, 64);
    vstd::arithmetic::power2::lemma_pow2_adds(128, 128);
    let b: nat = 0x1_0000_0000_0000_0000;
    assert(vstd::arithmetic::power2::pow2(128) == 0x1_0000_0000_0000_0000_0000_0000_0000_0000);
    assert(vstd::arithmetic::power2::pow2(256) == 0x1_0000_0000_0000_0000_0000_0000_0000_0000
        * 0x1_0000_0000_0000_0000_0000_0000_0000_0000);
    let q1 = number / b;
    let q2 = q1 / b;
    let q3 = q2 / b;
    assert(number == q1 * b + number % b);
    assert(q1 == q2 * b + q1 % b);
    assert(q2 == q3 * b + q2 % b);
    assert(q3 < b);
}

/// A byte of a number, written with the highest byte first, is what is left of the
/// number above the bytes behind it.
pub proof fn law_byte_places(number: nat, len: nat, i: int)
    requires
        0 <= i < len,
    ensures
        crate::primitives::big_endian_bytes(number, len).len() == len,
        crate::primitives::big_endian_bytes(number, len)[i] as nat == number
            / vstd::arithmetic::power::pow(256, (len - 1 - i) as nat) as nat % 256,
{
    lemma_byte_at(number, (len - 1 - i) as nat);
}

proof fn lemma_byte_at(number: nat, place: nat)
    ensures
        vstd::arithmetic::power::pow(256, place) > 0,
        crate::primitives::byte_at(number, place) as nat == number / vstd::arithmetic::power::pow(
            256,
            place,
        ) as nat % 256,
    decreases place,
{
    vstd::arithmetic::power::lemma_pow_positive(256, place);
    if place == 0 {
        vstd::arithmetic::power::lemma_pow0(256);
        assert(number / 1 == number);
    } else {
        let below = (place - 1) as nat;
        lemma_byte_at(number / 256, below);
        assert(vstd::arithmetic::power::pow(256, place) == 256 * vstd::arithmetic::power::pow(
            256,
            below,
        )) by {
            reveal(vstd::arithmetic::power::pow);
        }
        vstd::arithmetic::div_mod::lemma_div_denominator(
            number as int,
            256,
            vstd::arithmetic::power::pow(256, below),
        );
    }
}

/// The key of a storage slot has the bytes of the position, the highest first.
pub proof fn law_slot_key_bytes(position: U256, i: int)
    requires
        0 <= i < 32,
    ensures
        crate::state::slot_key(position)@[i] as nat == position.value()
            / vstd::arithmetic::power::pow(256, (31 - i) as nat) as nat % 256,
{
    lemma_byte_at(position.value(), (31 - i) as nat);
}

/// The entries of an access list are its items: each with its address and with all of
/// its storage keys, in their order.
pub proof fn law_access_entries(items: Seq<AccessListItem>)
    ensures
        crate::transaction::access_entries(items).len() == items.len(),
        forall|i: int|
            #![trigger items[i]]
            0 <= i < items.len() ==> crate::transaction::access_entries(items)[i].address
                == items[i].address && crate::transaction::access_entries(items)[i].storage_keys
                == items[i].storage_keys@,
{
}

/// A transaction has what its encoding holds: nonce, gas limit, called account, value,
/// data and the items of the access list. One whose encoding has no access list has no
/// items, and one whose encoding calls no account calls none.
pub proof fn law_decoded_transaction(transaction: Transaction, envelope: Envelope)
    requires
        transaction@ == envelope.fields(),
    ensures
        transaction.nonce == envelope.nonce,
        transaction.gas_limit == envelope.gas_limit,
        transaction.to == envelope.to,
        transaction.value == envelope.value,
        transaction.data@ == envelope.data,
        envelope.access_list is None ==> transaction.access_list@.len() == 0,
        envelope.access_list matches Some(entries) ==> {
            &&& transaction.access_list@.len() == entries.len()
            &&& forall|i: int|
                #![trigger entries[i]]
                0 <= i < entries.len() ==> transaction.access_list@[i].address == entries[i].address
                    && transaction.access_list@[i].storage_keys@ == entries[i].storage_keys
        },
{
    let held = transaction@.access_list;
    assert(held.len() == transaction.access_list@.len());
    assert forall|i: int| 0 <= i < held.len() implies #[trigger] held[i]
        == transaction.access_list@[i]@ by {}
}

} // verus!
