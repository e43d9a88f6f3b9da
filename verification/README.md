# marketplace_core

The business rules of a wholesale-market ordering platform (markets, their
providers and their customers), written in Verus and proved against their
contracts.

- `src/` is the verified library: order pricing and settlement on exact
  decimals, inspection outcomes, the decisions of the order flow, access
  checks, month bounds for statements and dashboards, login and password
  changes, business codes and tenant hashes, menu trees, paging windows and
  the builder of a tenant-with-administrator request, the system log entry,
  and the step functions of the preparation and ordering flows. Calls into
  `chrono`, `rust_decimal`, `bcrypt`, `rand`, `uuid` and `serde_json` go
  through small trusted wrappers whose contracts are documented where they
  stand.
- Amounts are exact decimals. The arithmetic on them asks for operands whose
  result needs no rounding (a mantissa within 96 bits, at most 28 decimal
  places); `rust_decimal` would round beyond that, and such inputs are left
  out by the contracts rather than described.
- `tests/` runs the library on concrete values.
- `app/` holds what is computed in floating point (the customer dashboard
  percentages and the reconciliation totals) and the loops that drive the
  preparation and ordering step functions against the store.
