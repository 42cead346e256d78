# Kora invoice NFTs

A Soroban contract that mints invoice NFTs and moves them through their life cycle
(`Created` -> `Listed` -> `Funded` -> `Repaid` | `Defaulted`), with a reentrancy lock for contracts
that need one. The logic is written in Verus and proved against its contracts.

- `src/` is the verified library. It works on `Env`, the storage of one contract instance together
  with the time of the ledger, the authorizations of the call, and logs of the writes and events.
  - `invoice_nft` is the contract, `reentrancy` the lock.
  - `history` models sequences of calls; `laws` proves what holds of all of them.
  - `types`, `errors`, `validation` and `env` hold what those share.
- `app/` is the contract on the ledger: it fills an `Env` from the host, calls the library, and
  carries out what the library logged.
- `tests/` runs the library.
