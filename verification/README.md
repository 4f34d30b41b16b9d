# sdkwork_id_core

ID generation with proofs: Snowflake IDs (ordered, one `i64` each) and UUIDs (random, or
determined by a namespace and a name). Written in Verus.

| module | what it holds |
| --- | --- |
| `layout` | the bits of a Snowflake ID, its profile, validation of ID text |
| `state` | what a request does to a generator's state, on plain values |
| `shared` | the state that a generator and its clones share, behind a verified lock |
| `snowflake` | the generator |
| `snowflake_error`, `error` | the errors and their text |
| `lease` | the terms of a node lease, and what events make of them |
| `shared_terms` | the terms that the holders of a guard share, behind a verified lock |
| `guard` | the lease guard that generators look at |
| `clock` | the wall clock and the monotonic clock |
| `generator` | the `IdGenerator` trait and batches |
| `uuid_gen` | UUID generators, on top of the `uuid` crate |
| `decimal` | decimal text of integers |
| `laws` | what follows: IDs increase, nodes never collide, fencing is permanent, and more |

`app/` holds what is left for ordinary Rust: floating point and the formatting traits.

A contract speaks of plain values. Where generators share a state or a guard, the contract of a
call says what it makes of the state that it finds; the laws say what follows for whole histories
of calls.
