# cordelia

Verified logic of a strata-based multi-signature wallet for Solana. The owners
of a wallet are grouped into strata; each stratum has its own approval
threshold, and a transaction can run only once every active stratum has
reached its threshold.

- `src/` is the library, verified with Verus:
  - `key.rs`: 32-byte addresses, their byte-wise order, sorted owner lists
    (sorting, sorted insertion, binary search).
  - `state/`: the accounts (multi-sig, transaction, instruction data, vote
    record), their sizes, and the changes to a multi-sig, each with the
    invariant `MultiSigView::wf` that it keeps.
  - `program.rs`: the program's address and the lookup of a multi-sig's
    authority address through the Solana runtime library.
  - `instructions/`: each instruction as a function from the accounts it reads
    and its arguments to what it writes, or the error that refuses it.
  - `laws.rs`: properties across instructions.
- `app/` is the on-chain program around the library: account loading and
  storing, serialization, and the cross-program calls of an executed
  transaction.
- `tests/` runs the library on concrete values.
