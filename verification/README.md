# ain-evm

The core service of an EVM node that lives beside a native chain, written in Rust and
verified with Verus.

The core answers questions on accounts, makes calls without putting them into a block,
checks raw transactions, fills the transaction queues with transfers from and to the
native chain, computes the bloom filter over logs, and starts a chain from a genesis
description or from a saved state.

## How it works

The library in `src/` performs no input or output. An operation that needs the node's
block storage, state trie, executor or queues is an enum: each variant says what the
operation waits for, and `step` takes the answer and gives the next variant, until the
operation is `Done`. An answer that an operation does not wait for changes nothing. Only
`remove` is a bare order to the queues, since it has no answer.

Each `step` has an exact contract. `src/host.rs` states, without any steps, what account
questions, calls, checks and transfers come to against a host that answers every question
in one way, and `src/laws.rs` proves that they end there, in a fixed number of answers.
Other laws hold whatever the answers are: a withdrawal never orders anything but itself, and a
transaction is never executed with a gas limit that does not fit into a block.

| Module | Contents |
| --- | --- |
| `service` | `EVMCoreService`, whose methods start the operations |
| `state` | accounts, balances, nonces, code, stored words, the latest state |
| `call` | calls at a block |
| `validation` | the check of raw transactions |
| `queue` | deposits, withdrawals, orders to the queues, the next valid nonce |
| `bloom` | the filter over logs, with its laws |
| `startup`, `genesis` | restoration, and the first block of a chain |
| `error` | errors and their texts |
| `primitives`, `chain`, `transaction` | the data |
| `host`, `laws` | what the operations come to |
| `outside` | the calls into `hex`, `ethereum` and `ethereum_types`, with what is relied on |

`app/` runs the operations with the parts of a node. `tests/` drives them on given values.
