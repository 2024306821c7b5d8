# damm_v2_fee_distributor

Fee distribution for an honorary, quote-only LP position: a policy
(investor share, daily cap, minimum payout), a progress record, and a
daily crank that pays investors pro rata to their still-locked amounts and
gives the creator the remainder.

- `src/` is the verified library (Verus): the formulas (`math`), sums over
  a page of investors and their bounds (`sums`), the crank (`crank`), the
  set-up instructions (`instructions`), account addresses (`pda`), account
  and event types (`state`, `key`), and properties of the whole (`laws`).
- `app/` is the on-chain program around it: account validation, the clock,
  events and logs.
- `tests/` exercises the library on concrete values.
