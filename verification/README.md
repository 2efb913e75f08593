# alpaca_options

Decision logic of an options trading runtime on the Alpaca broker, verified with Verus: candidate
ranking, entry admission, order planning, the management of open entries, reconciliation with the
broker, lifecycle risk, operator reports and the evidence that all of these leave.

- `src/` is the verified library. It takes plain values and gives plain values: the clock, the broker's
  answers, files and environment variables are arguments. Prices are carried as `Amount`, the bits of a
  floating-point number; they are compared and ordered here, and computed with outside.
- `app/` is the ordinary Rust around it: clock, files, Nautilus orders and cache, serialization and the
  arithmetic on prices.
- `tests/` runs the library on concrete values.

A few calls into outside crates stand in `src/` behind functions whose contracts are stated and not
proved: dates, instants and time zones (`calendar.rs`, `operator.rs`), instrument identifiers
(`symbol.rs`), and the compact form of JSON text (`evidence.rs`). Each names the call that it makes.
