# statime-embassy-net

PTP ordinary-clock service for `statime` on timestamp-capable `embassy-net`
Ethernet drivers, verified with Verus.

The service is a single-port UDP/IPv4 ordinary clock using E2E delay
measurement. It is slave-only by default.

- `src/` is the verified library. `runner` holds the decisions of the service as
  a function from what happened to what is to be done next; `timers`, `pending`,
  `packet`, `log`, `clock`, `endpoint`, `config` and `ticks` hold its parts;
  `laws` states what holds over a few steps, and `histories` what holds over any
  number of them. What is taken from other crates without proof stands in
  `statime_types` (`statime`, `rand_xorshift`) and in `ticks` (`embassy-time`,
  and the standard library's `Duration`).
- `app/` connects the library to the network stack, to the protocol engine and
  to the Ethernet hardware.
- `tests/` runs the library on concrete values.

Instants are counted in microseconds: the library relies on the
`tick-hz-1_000_000` rate of `embassy-time`.
