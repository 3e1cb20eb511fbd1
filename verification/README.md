# looping

The position ledger of the Quantara looping contract, verified with Verus.

- `src/error.rs`: the contract's defined errors and their stable codes.
- `src/position.rs`: addresses (by strkey), position status and the position record.
- `src/rules.rs`: the decisions each entry point takes: the checks on an open
  request, the next position id from the stored counter, and the answer to a
  close request given the stored record.
- `src/ledger.rs`: `LoopingContract`, the contract's storage as a sequence of
  positions in id order, with `open_position`, `close_position` and
  `get_position` specified exactly.
- `src/laws.rs`: laws relating the operations (ids are consecutive, a read
  gives back what an open wrote, refusals change nothing, a record only ever
  moves from `Open` to `Closed`).
- `app/lib.rs`: the Soroban entry points. They authenticate the caller, read
  and write contract storage, and take every decision through `rules`.
