# use_control

Composable control-system primitives (feedback loops, PID controllers,
setpoints, control errors, control signals, first-order system responses and
stability helpers) with contracts proved by Verus.

## Layout

- `src/` — the verified library. `scalar.rs` models binary64 numbers by their
  encodings: finiteness, NaN, absolute value, negation and the IEEE comparisons
  are proved against the exact value each encoding stands for. The other
  modules state and prove every rule of the control primitives over that
  model: validation order and errors, clamping and saturation, deadbands,
  gain classification, boundedness, the settling index, PID state transitions
  and response sampling. Rounding arithmetic enters these functions as
  arguments computed by the caller.
- `app/` — the `f64` interface: it performs the binary64 arithmetic
  (differences, products, quotients, `exp`) and calls the verified library for
  everything else.
- `tests/` — tests of the library, including checks that the encoding model
  agrees with hardware comparisons.
