//! What logs leave in a bloom filter, bit by bit.
use crate::bloom::Log;
use vstd::prelude::*;

verus! {

/// Whether the address or a topic of a log sets bit `k` of byte `i`.
pub open spec fn log_sets(log: Log, i: int, k: u8) -> bool {
    ||| crate::bloom::bit_set(crate::outside::words::bloom_bits(log.address.0@), i, k)
    ||| exists|m: int|
        0 <= m < log.topics@.len() && crate::bloom::bit_set(
            crate::outside::words::bloom_bits((#[trigger] log.topics@[m]).0@),
            i,
            k,
        )
}

/// Whether the address or a topic of one of the logs sets bit `k` of byte `i`.
pub open spec fn some_log_sets(logs: Seq<Log>, i: int, k: u8) -> bool {
    exists|n: int| 0 <= n < logs.len() && log_sets(#[trigger] logs[n], i, k)
}

/// A bit is set after logs were put into the filter if and only if it was set before or
/// the address or a topic of one of the logs sets it. The filter keeps its length, and
/// nothing else that a log holds leaves a trace in it.
pub proof fn law_filter_holds_addresses_and_topics_alone(
    filter: Seq<u8>,
    logs: Seq<Log>,
    i: int,
    k: u8,
)
    requires
        0 <= i < filter.len(),
        k < 8,
    ensures
        crate::bloom::accrued(filter, crate::bloom::inputs_of(logs)).len() == filter.len(),
        crate::bloom::bit_set(crate::bloom::accrued(filter, crate::bloom::inputs_of(logs)), i, k)
            <==> crate::bloom::bit_set(filter, i, k) || some_log_sets(logs, i, k),
{
    let inputs = crate::bloom::inputs_of(logs);
    lemma_len(filter, inputs);
    crate::bloom::law_accrued_bits(filter, inputs, i, k);
    lemma_inputs_and_logs(logs, i, k);
}

proof fn lemma_len(filter: Seq<u8>, inputs: Seq<Seq<u8>>)
    ensures
        crate::bloom::accrued(filter, inputs).len() == filter.len(),
    decreases inputs.len(),
{
    if inputs.len() > 0 {
        lemma_len(filter, inputs.drop_last());
    }
}

/// An input of the logs sets a bit if and only if an address or a topic does.
proof fn lemma_inputs_and_logs(logs: Seq<Log>, i: int, k: u8)
    ensures
        crate::bloom::some_input_sets(crate::bloom::inputs_of(logs), i, k) <==> some_log_sets(
            logs,
            i,
            k,
        ),
    decreases logs.len(),
{
    if logs.len() > 0 {
        let front = logs.drop_last();
        let a = crate::bloom::inputs_of(front);
        let b = crate::bloom::log_inputs(logs.last());
        let inputs = a + b;
        lemma_inputs_and_logs(front, i, k);
        lemma_inputs_and_log(logs.last(), i, k);
        if crate::bloom::some_input_sets(inputs, i, k) {
            let n = choose|n: int|
                0 <= n < inputs.len() && crate::bloom::bit_set(
                    crate::outside::words::bloom_bits(#[trigger] inputs[n]),
                    i,
                    k,
                );
            if n < a.len() {
                assert(a[n] == inputs[n]);
            } else {
                assert(b[n - a.len()] == inputs[n]);
            }
        }
        if crate::bloom::some_input_sets(a, i, k) {
            let n = choose|n: int|
                0 <= n < a.len() && crate::bloom::bit_set(
                    crate::outside::words::bloom_bits(#[trigger] a[n]),
                    i,
                    k,
                );
            assert(inputs[n] == a[n]);
        }
        if crate::bloom::some_input_sets(b, i, k) {
            let n = choose|n: int|
                0 <= n < b.len() && crate::bloom::bit_set(
                    crate::outside::words::bloom_bits(#[trigger] b[n]),
                    i,
                    k,
                );
            assert(inputs[a.len() + n] == b[n]);
        }
        if some_log_sets(front, i, k) {
            let n = choose|n: int| 0 <= n < front.len() && log_sets(#[trigger] front[n], i, k);
            assert(logs[n] == front[n]);
        }
        if log_sets(logs.last(), i, k) {
            assert(logs[logs.len() - 1] == logs.last());
        }
        if some_log_sets(logs, i, k) {
            let n = choose|n: int| 0 <= n < logs.len() && log_sets(#[trigger] logs[n], i, k);
            if n < front.len() {
                assert(front[n] == logs[n]);
            }
        }
    }
}

proof fn lemma_inputs_and_log(log: Log, i: int, k: u8)
    ensures
        crate::bloom::some_input_sets(crate::bloom::log_inputs(log), i, k) <==> log_sets(log, i, k),
{
    let inputs = crate::bloom::log_inputs(log);
    assert(inputs[0] == log.address.0@);
    if crate::bloom::some_input_sets(inputs, i, k) {
        let n = choose|n: int|
            0 <= n < inputs.len() && crate::bloom::bit_set(
                crate::outside::words::bloom_bits(#[trigger] inputs[n]),
                i,
                k,
            );
        if n > 0 {
            assert(inputs[n] == log.topics@[n - 1].0@);
        }
    }
    if exists|m: int|
        0 <= m < log.topics@.len() && crate::bloom::bit_set(
            crate::outside::words::bloom_bits((#[trigger] log.topics@[m]).0@),
            i,
            k,
        ) {
        let m = choose|m: int|
            0 <= m < log.topics@.len() && crate::bloom::bit_set(
                crate::outside::words::bloom_bits((#[trigger] log.topics@[m]).0@),
                i,
                k,
            );
        assert(inputs[m + 1] == log.topics@[m].0@);
    }
}

/// Logs with the same addresses and topics leave the same bits, whatever their data.
pub proof fn law_filter_ignores_data(
    filter: Seq<u8>,
    a: Seq<Log>,
    b: Seq<Log>,
    i: int,
    k: u8,
)
    requires
        0 <= i < filter.len(),
        k < 8,
        a.len() == b.len(),
        forall|n: int|
            #![trigger a[n]]
            #![trigger b[n]]
            0 <= n < a.len() ==> a[n].address == b[n].address && a[n].topics@ == b[n].topics@,
    ensures
        crate::bloom::bit_set(crate::bloom::accrued(filter, crate::bloom::inputs_of(a)), i, k)
            == crate::bloom::bit_set(
            crate::bloom::accrued(filter, crate::bloom::inputs_of(b)),
            i,
            k,
        ),
{
    law_filter_holds_addresses_and_topics_alone(filter, a, i, k);
    law_filter_holds_addresses_and_topics_alone(filter, b, i, k);
    if some_log_sets(a, i, k) {
        let n = choose|n: int| 0 <= n < a.len() && log_sets(#[trigger] a[n], i, k);
        assert(log_sets(b[n], i, k));
    }
    if some_log_sets(b, i, k) {
        let n = choose|n: int| 0 <= n < b.len() && log_sets(#[trigger] b[n], i, k);
        assert(log_sets(a[n], i, k));
    }
}

} // verus!
