# staking_contract

A stake-backed catalog on NEAR staking pools, as a verified library: users lock NEAR on an
allowlisted validator pool to buy catalog prices (one-off locks, monthly subscriptions, farms)
or pay for one-off prices directly; locked NEAR is represented by pool shares, settled against
the pool once per epoch.

Layout:

- `src/` — the library, verified with Verus. Every public function carries a contract; the
  public proof functions (`lemma_*`) state properties of the library as a whole.
  - `u256`, `pricing` — 256-bit intermediate arithmetic, share minting and redemption, lock
    weight of a price, withdraw credit.
  - `types`, `versions`, `errors` — records, the versioned configuration, refusals.
  - `validators`, `epoch`, `withdraw` — pool share accounting, the per-epoch settlement
    pipeline and its callbacks, claims of unstaked NEAR.
  - `catalog`, `payments`, `lock`, `subscriptions`, `farm`, `rewards` — the catalog, direct
    payments, locks, subscriptions and plan changes, farming, lock rewards.
  - `storage`, `governance`, `ids`, `paging`, `strvec` — prepaid storage, ownership and pause,
    id generation, paginated listings, string lists.
  - `oracle` — checks of oracle-priced lock calls.
  - `cli`, `bootstrap`, `bootstrap_config` — the decisions of the bootstrap command line:
    deploy mode, mainnet guard, quoting, view errors, price metadata in canonical form, and the
    comparison of viewed records with the configuration.
- `tests/` — tests on concrete values.
- `app/` — the bootstrap command line: argument parsing, configuration files, `near` CLI calls
  and JSON conversion around the library's decisions.
