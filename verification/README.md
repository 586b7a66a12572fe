# quicklendx_contracts protocol limits

Verified protocol limits for the QuickLendX contracts:

- `src/rate_limiter.rs`: a fixed-window rate limiter over ledger sequence
  numbers, used both for per-address mutations and per-participant KYC
  submissions, with its laws (budget per window, reset after expiry, refusals
  leave no trace, count stays within budget, and at most `max_per_window`
  operations admitted in a window whatever the sequences of the attempts).
- `src/input_bounds.rs`: size bounds on `soroban_sdk::Bytes` inputs.
- `src/limits.rs`: the protocol's limit constants.
- `src/errors.rs`: the error type.
