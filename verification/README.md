# trustless_work

Verified decision logic of the Trustless Work escrow contracts for Soroban.

- `src/` is the library, verified with Verus. It holds the escrow's data
  (escrows, milestones, roles, flags), the fee arithmetic, the validators, the
  managers that decide each operation (creation, funding, release, milestone
  updates, disputes and their resolution, withdrawals, the price recorded at
  release, and the engagement's release decided by its oracle) and a model of each
  contract's state whose methods take the ledger's answers (token balances,
  oracle replies) as arguments and return the token payouts to make.
  `src/escrow/laws.rs` and `src/engagement/laws.rs` state and prove the
  properties that hold across operations: fee splits add up, a release pays
  the escrow amount and happens once, disputes are opened once, resolutions
  and withdrawals pay out what is distributed (up to rounding), and disputes
  block funding and release; an oracle release waits for the escrow's own
  oracle and pays the first party on `true`, the second on `false`.
  Dispute shares are kept in the ledger's key order of their addresses.
- `app/` holds the Soroban contracts: they read and write the ledger (storage,
  authorization, token transfers, events, calls to other contracts), hand the
  replies to the library and carry out what it returns.
- `tests/` runs the library on concrete scenarios.
