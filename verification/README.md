# Blimp on-board software

The flight controller of a blimp with four motors, each on an up-down and a
sideways servo, verified with Verus.

- `src/pid.rs`: the regulator.
- `src/obsw_algo.rs`: the controller: what it knows, how events change that, and
  what it does in a control step. `src/manual.rs` is manual flight,
  `src/attitude.rs` and `src/thrust.rs` are the stabilised modes, and
  `src/sensors.rs` draws conclusions from measurements.
- `src/messages.rs`, `src/obsw_interface.rs`: what goes in and out.
- `src/number.rs`, `src/vector.rs`, `src/elementary.rs`, `src/layout.rs`: the
  arithmetic, and where the motors are.
- `src/laws/`: what holds beyond a single call.
- `app/`: the controller as an asynchronous service in single and double
  precision, with messages that can be encoded.

The library is generic in its number types. Contracts state every formula over
the operators of the type, and say when it can be computed; a caller with machine
integers has to show that nothing overflows. Most functions ask that the operators
be functions of their operands (`lawful`). For machine integers that can be proved;
for single and double precision it is taken on trust, from the IEEE standard and
but for the bits of a NaN. The elementary functions are supplied by the caller, and
contracts relate results to what they return. The laws on signs and sums, and those
on the direction of a correction, are stated for all number types that can be read
as integers; that machine integers can is proved in `src/laws/integers.rs`. A
regulator takes unsigned numbers too.

The control step gives the actions to perform as a list; the caller performs
them, and passes the time since the last step.
