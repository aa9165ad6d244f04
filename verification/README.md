# kv

A key-value store whose pairs live in named tables, and the service that
answers `HGET`, `HSET`, `HEXIST`, `HGETALL` and `HDEL` requests against it.
The library is written in Verus: every function carries a contract, and the
verifier proves each one but a single trusted wrapper, `status_code` in
`src/pb/mod.rs`, whose contract (the numbers of four `hyper::StatusCode`
constants) is taken on trust.

## Layout

- `src/pb/abi.rs`, `src/pb/abi/*.rs`: the request and response messages and
  their mathematical models (`ValueData`, `PairData`, `ReplyData`).
- `src/pb/mod.rs`: request constructors, value and response conversions, and
  the replies a command can give (`value_reply`, `pairs_reply`,
  `error_reply`). Status numbers come from `hyper::StatusCode`.
- `src/error.rs`: `KvError`, its model and its message text.
- `src/storage/mod.rs`: the `Storage` trait, whose contract is stated over a
  map from `(table, key)` to value, and the laws of that map.
- `src/storage/memory.rs`: `MemTable`, an in-memory `Storage`; a type
  invariant keeps its slots distinct.
- `src/service/`: `CommandService` (what each command yields),
  `dispatch`, `Service`, and the laws that relate commands.
- `app/lib.rs`: `SharedService`, a cloneable, lock-protected handle that
  lets many connections share one service, with request logging;
  `app/wire.rs`: protobuf copies of the messages and conversions both ways.

## Design notes

A store is changed through `&mut self`, so that the contracts can say how
each write changes it; sharing one store between connections is the job of
`app/`. A store may report errors: its `*_failure` spec functions name the
error each operation reports (never, for `MemTable`), an operation that
fails changes nothing, and every command's reply is stated exactly, store
errors included (`StoreState`, `CommandService::yields`).

`MemTable` keeps its pairs in a vector of `(table, key, value)` slots that
it searches in turn. vstd's specified string-keyed map (`StringHashMap`)
offers neither iteration, which `get_all` needs, nor the removed value,
which `del` returns, and a map keyed by a pair of strings has no key model
in vstd; the vector lets every operation be proved against the same map
model.

`HDEL` removes every key it lists, in order, and answers for the first one.
When the store reports an error for a later key, the removals stop there
and the reply is an error; which error is not named, since it comes from
the store as it stands after the earlier removals.
