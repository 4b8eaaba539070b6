# clk

A verified model of the kernel's clock abstractions.

- `src/hertz.rs`: the `Hertz` frequency type and its unit conversions, with
  round-trip, nesting and monotonicity laws.
- `src/error.rs`: kernel error codes (negated errno values), `to_result` for C
  status codes and `from_err_ptr` for pointers that may encode an error.
- `src/state.rs`, `src/sealed.rs`: the sealed `ClkState` trait and the
  `Unprepared`, `Prepared` and `Enabled` states, with the counts of
  `clk_get()`, `clk_prepare()` and `clk_enable()` each state holds.
- `src/clock.rs`: `Clk<T>`, a clock in a state. Each state change takes the
  status that the C call returned and yields the next state or the error with
  the unchanged clock; the changes that give a count back, and `release`, name
  the C calls to perform. Lemmas show that the counts follow the calls along any
  path of state changes and that a clock's whole life leaves no count behind.
- `app/lib.rs`: the C side. It declares the C clock functions, performs the
  calls the library names, and releases clocks on `Drop`.
