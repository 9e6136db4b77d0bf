//! The bloom filter over the logs of a block.
use crate::outside::words::accrue;
use crate::primitives::{H160, H256};
use crate::service::EVMCoreService;
use vstd::prelude::*;

verus! {

/// An entry that a contract wrote to the log.
#[derive(Debug, PartialEq, Eq)]
pub struct Log {
    pub address: H160,
    pub topics: Vec<H256>,
    pub data: Vec<u8>,
}

/// A bloom filter of 2048 bits.
#[derive(Clone, Copy, Debug, PartialEq, Eq)]
pub struct Bloom(pub [u8; 256]);

impl Bloom {
    /// The filter without a bit.
    pub open spec fn zeros() -> Self {
        Bloom(vstd::array::spec_array_fill_for_copy_type(0))
    }
}

impl Default for Bloom {
    fn default() -> (r: Self)
        ensures
            r == Bloom::zeros(),
    {
        Bloom([0u8; 256])
    }
}

/// What a log puts into the filter: the address and each topic.
pub open spec fn log_inputs(log: Log) -> Seq<Seq<u8>> {
    seq![log.address.0@] + log.topics@.map_values(|topic: H256| topic.0@)
}

/// What the logs put into the filter, one log after the other.
pub open spec fn inputs_of(logs: Seq<Log>) -> Seq<Seq<u8>>
    decreases logs.len(),
{
    if logs.len() == 0 {
        Seq::empty()
    } else {
        inputs_of(logs.drop_last()) + log_inputs(logs.last())
    }
}

/// The filter after the inputs were put into it.
pub open spec fn accrued(filter: Seq<u8>, inputs: Seq<Seq<u8>>) -> Seq<u8>
    decreases inputs.len(),
{
    if inputs.len() == 0 {
        filter
    } else {
        crate::outside::words::with_bits(
            accrued(filter, inputs.drop_last()),
            crate::outside::words::bloom_bits(inputs.last()),
        )
    }
}

impl<Q, T, S> EVMCoreService<Q, T, S> {
    /// Puts the addresses and the topics of all logs into the filter.
    pub fn logs_bloom(logs: Vec<Log>, bloom: &mut Bloom)
        ensures
            final(bloom).0@ == accrued(old(bloom).0@, inputs_of(logs@)),
    {
        let mut i: usize = 0;
        assert(inputs_of(logs@.take(0)) =~= Seq::<Seq<u8>>::empty());
        while i < logs.len()
            invariant
                i <= logs.len(),
                bloom.0@ == accrued(old(bloom).0@, inputs_of(logs@.take(i as int))),
            decreases logs.len() - i,
        {
            let log = &logs[i];
            let ghost before = inputs_of(logs@.take(i as int));
            let ghost inputs = before + log_inputs(*log);
            proof {
                assert(logs@.take(i + 1).drop_last() =~= logs@.take(i as int));
                assert(inputs.take(before.len() as int) =~= before);
                assert(inputs.take((before.len() + 1) as int).drop_last() =~= before);
            }
            accrue(&mut bloom.0, log.address.0.as_slice());
            let mut j: usize = 0;
            while j < log.topics.len()
                invariant
                    j <= log.topics.len(),
                    inputs == before + log_inputs(*log),
                    bloom.0@ == accrued(old(bloom).0@, inputs.take((before.len() + 1 + j) as int)),
                decreases log.topics.len() - j,
            {
                accrue(&mut bloom.0, log.topics[j].0.as_slice());
                proof {
                    assert(inputs.take((before.len() + 1 + j + 1) as int).drop_last() =~= inputs.take(
                        (before.len() + 1 + j) as int,
                    ));
                }
                j += 1;
            }
            proof {
                assert(inputs.take((before.len() + 1 + j) as int) =~= inputs);
            }
            i += 1;
        }
        proof {
            assert(logs@.take(i as int) =~= logs@);
        }
    }
}

/// Whether bit `k` of byte `i` of a filter is set.
pub open spec fn bit_set(filter: Seq<u8>, i: int, k: u8) -> bool {
    (filter[i] >> k) & 1 == 1
}

/// Whether some input sets bit `k` of byte `i`.
pub open spec fn some_input_sets(inputs: Seq<Seq<u8>>, i: int, k: u8) -> bool {
    exists|n: int|
        0 <= n < inputs.len() && bit_set(
            crate::outside::words::bloom_bits(#[trigger] inputs[n]),
            i,
            k,
        )
}

/// Whether a filter has every bit of an input, so that the input may be in it.
pub open spec fn may_hold(filter: Seq<u8>, input: Seq<u8>) -> bool {
    forall|i: int, k: u8|
        0 <= i < filter.len() && k < 8 && bit_set(crate::outside::words::bloom_bits(input), i, k)
            ==> #[trigger] bit_set(filter, i, k)
}

proof fn lemma_accrued_len(filter: Seq<u8>, inputs: Seq<Seq<u8>>)
    ensures
        accrued(filter, inputs).len() == filter.len(),
    decreases inputs.len(),
{
    if inputs.len() > 0 {
        lemma_accrued_len(filter, inputs.drop_last());
    }
}

/// A bit of the filter is set after inputs were put into it if and only if it
/// was set before or one of the inputs sets it.
pub proof fn law_accrued_bits(filter: Seq<u8>, inputs: Seq<Seq<u8>>, i: int, k: u8)
    requires
        0 <= i < filter.len(),
        k < 8,
    ensures
        bit_set(accrued(filter, inputs), i, k) <==> bit_set(filter, i, k) || some_input_sets(
            inputs,
            i,
            k,
        ),
    decreases inputs.len(),
{
    if inputs.len() > 0 {
        let front = inputs.drop_last();
        law_accrued_bits(filter, front, i, k);
        lemma_accrued_len(filter, front);
        let a = accrued(filter, front)[i];
        let b = crate::outside::words::bloom_bits(inputs.last())[i];
        assert(((a | b) >> k) & 1 == 1 <==> (a >> k) & 1 == 1 || (b >> k) & 1 == 1) by (bit_vector)
            requires
                k < 8,
        ;
        if some_input_sets(inputs, i, k) {
            let n = choose|n: int|
                0 <= n < inputs.len() && bit_set(
                    crate::outside::words::bloom_bits(#[trigger] inputs[n]),
                    i,
                    k,
                );
            if n < front.len() {
                assert(front[n] == inputs[n]);
            }
        }
        if some_input_sets(front, i, k) {
            let n = choose|n: int|
                0 <= n < front.len() && bit_set(
                    crate::outside::words::bloom_bits(#[trigger] front[n]),
                    i,
                    k,
                );
            assert(inputs[n] == front[n]);
        }
        if bit_set(crate::outside::words::bloom_bits(inputs.last()), i, k) {
            assert(inputs[inputs.len() - 1] == inputs.last());
        }
    }
}

/// Two filters with the same bits are the same.
proof fn lemma_same_bits(a: Seq<u8>, b: Seq<u8>)
    requires
        a.len() == b.len(),
        forall|i: int, k: u8|
            0 <= i < a.len() && k < 8 ==> (#[trigger] bit_set(a, i, k) <==> bit_set(b, i, k)),
    ensures
        a == b,
{
    assert forall|i: int| 0 <= i < a.len() implies a[i] == b[i] by {
        let x = a[i];
        let y = b[i];
        assert(bit_set(a, i, 0) == bit_set(b, i, 0));
        assert(bit_set(a, i, 1) == bit_set(b, i, 1));
        assert(bit_set(a, i, 2) == bit_set(b, i, 2));
        assert(bit_set(a, i, 3) == bit_set(b, i, 3));
        assert(bit_set(a, i, 4) == bit_set(b, i, 4));
        assert(bit_set(a, i, 5) == bit_set(b, i, 5));
        assert(bit_set(a, i, 6) == bit_set(b, i, 6));
        assert(bit_set(a, i, 7) == bit_set(b, i, 7));
        assert(x == y) by (bit_vector)
            requires
                ((x >> 0u8) & 1 == 1) == ((y >> 0u8) & 1 == 1),
                ((x >> 1u8) & 1 == 1) == ((y >> 1u8) & 1 == 1),
                ((x >> 2u8) & 1 == 1) == ((y >> 2u8) & 1 == 1),
                ((x >> 3u8) & 1 == 1) == ((y >> 3u8) & 1 == 1),
                ((x >> 4u8) & 1 == 1) == ((y >> 4u8) & 1 == 1),
                ((x >> 5u8) & 1 == 1) == ((y >> 5u8) & 1 == 1),
                ((x >> 6u8) & 1 == 1) == ((y >> 6u8) & 1 == 1),
                ((x >> 7u8) & 1 == 1) == ((y >> 7u8) & 1 == 1),
        ;
    }
    assert(a =~= b);
}

/// What a log puts into the filter is among what the logs put into it.
proof fn lemma_log_among_inputs(logs: Seq<Log>, n: int, m: int)
    requires
        0 <= n < logs.len(),
        0 <= m < log_inputs(logs[n]).len(),
    ensures
        inputs_of(logs).contains(log_inputs(logs[n])[m]),
    decreases logs.len(),
{
    let front = inputs_of(logs.drop_last());
    let back = log_inputs(logs.last());
    let input = log_inputs(logs[n])[m];
    if n == logs.len() - 1 {
        assert((front + back)[front.len() + m] == input);
    } else {
        lemma_log_among_inputs(logs.drop_last(), n, m);
        let p = choose|p: int| 0 <= p < front.len() && front[p] == input;
        assert((front + back)[p] == input);
    }
}

/// The filter never loses a bit to logs that are put into it.
pub proof fn law_filter_only_grows(filter: Seq<u8>, logs: Seq<Log>, i: int, k: u8)
    requires
        0 <= i < filter.len(),
        k < 8,
        bit_set(filter, i, k),
    ensures
        bit_set(accrued(filter, inputs_of(logs)), i, k),
{
    law_accrued_bits(filter, inputs_of(logs), i, k);
}

/// After logs were put into the filter it may hold the address and every topic
/// of each of them: a search by the filter never misses a log.
pub proof fn law_filter_misses_no_log(filter: Seq<u8>, logs: Seq<Log>, n: int)
    requires
        0 <= n < logs.len(),
    ensures
        may_hold(accrued(filter, inputs_of(logs)), logs[n].address.0@),
        forall|m: int|
            0 <= m < logs[n].topics.len() ==> may_hold(
                accrued(filter, inputs_of(logs)),
                (#[trigger] logs[n].topics@[m]).0@,
            ),
{
    let inputs = inputs_of(logs);
    let own = log_inputs(logs[n]);
    lemma_accrued_len(filter, inputs);
    assert forall|m: int| 0 <= m < own.len() implies may_hold(
        accrued(filter, inputs),
        #[trigger] own[m],
    ) by {
        lemma_log_among_inputs(logs, n, m);
        let p = choose|p: int| 0 <= p < inputs.len() && inputs[p] == own[m];
        assert forall|i: int, k: u8|
            0 <= i < accrued(filter, inputs).len() && k < 8 && bit_set(
                crate::outside::words::bloom_bits(own[m]),
                i,
                k,
            ) implies #[trigger] bit_set(accrued(filter, inputs), i, k) by {
            law_accrued_bits(filter, inputs, i, k);
            assert(inputs[p] == own[m]);
        }
    }
    assert(own[0] == logs[n].address.0@);
    assert forall|m: int| 0 <= m < logs[n].topics.len() implies may_hold(
        accrued(filter, inputs),
        (#[trigger] logs[n].topics@[m]).0@,
    ) by {
        assert(own[m + 1] == logs[n].topics@[m].0@);
    }
}

/// The filter depends only on what is put into it, not on the order or on how
/// often.
pub proof fn law_filter_ignores_order(filter: Seq<u8>, a: Seq<Log>, b: Seq<Log>)
    requires
        inputs_of(a).to_set() == inputs_of(b).to_set(),
    ensures
        accrued(filter, inputs_of(a)) == accrued(filter, inputs_of(b)),
{
    lemma_accrued_len(filter, inputs_of(a));
    lemma_accrued_len(filter, inputs_of(b));
    assert forall|i: int, k: u8| 0 <= i < filter.len() && k < 8 implies (#[trigger] bit_set(
        accrued(filter, inputs_of(a)),
        i,
        k,
    ) <==> bit_set(accrued(filter, inputs_of(b)), i, k)) by {
        law_accrued_bits(filter, inputs_of(a), i, k);
        law_accrued_bits(filter, inputs_of(b), i, k);
        if some_input_sets(inputs_of(a), i, k) {
            lemma_set_decides(inputs_of(a), inputs_of(b), i, k);
        }
        if some_input_sets(inputs_of(b), i, k) {
            lemma_set_decides(inputs_of(b), inputs_of(a), i, k);
        }
    }
    lemma_same_bits(accrued(filter, inputs_of(a)), accrued(filter, inputs_of(b)));
}

proof fn lemma_set_decides(a: Seq<Seq<u8>>, b: Seq<Seq<u8>>, i: int, k: u8)
    requires
        a.to_set() == b.to_set(),
        some_input_sets(a, i, k),
    ensures
        some_input_sets(b, i, k),
{
    let n = choose|n: int|
        0 <= n < a.len() && bit_set(crate::outside::words::bloom_bits(#[trigger] a[n]), i, k);
    assert(a.to_set().contains(a[n]));
    assert(b.to_set().contains(a[n]));
    let m = choose|m: int| 0 <= m < b.len() && b[m] == a[n];
    assert(b[m] == a[n]);
}

/// Putting logs into the filter in two parts is the same as putting all of them
/// in at once.
pub proof fn law_filter_in_parts(filter: Seq<u8>, a: Seq<Log>, b: Seq<Log>)
    ensures
        accrued(filter, inputs_of(a + b)) == accrued(accrued(filter, inputs_of(a)), inputs_of(b)),
{
    lemma_inputs_of_parts(a, b);
    lemma_accrued_in_parts(filter, inputs_of(a), inputs_of(b));
}

proof fn lemma_inputs_of_parts(a: Seq<Log>, b: Seq<Log>)
    ensures
        inputs_of(a + b) == inputs_of(a) + inputs_of(b),
    decreases b.len(),
{
    if b.len() == 0 {
        assert(a + b =~= a);
        assert(inputs_of(a) + inputs_of(b) =~= inputs_of(a));
    } else {
        assert((a + b).drop_last() =~= a + b.drop_last());
        lemma_inputs_of_parts(a, b.drop_last());
        assert(inputs_of(a + b) =~= inputs_of(a) + inputs_of(b));
    }
}

proof fn lemma_accrued_in_parts(filter: Seq<u8>, a: Seq<Seq<u8>>, b: Seq<Seq<u8>>)
    ensures
        accrued(filter, a + b) == accrued(accrued(filter, a), b),
    decreases b.len(),
{
    if b.len() == 0 {
        assert(a + b =~= a);
    } else {
        assert((a + b).drop_last() =~= a + b.drop_last());
        lemma_accrued_in_parts(filter, a, b.drop_last());
    }
}

} // verus!
