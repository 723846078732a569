# sink

A sink is a thing that can be sent values and answers each one at once with a
result. This crate holds the sink traits, sinks built from closures, combinators
that wrap a target sink (mapping inputs, mapping results, skipping absent
values, echoing, reflecting, routing between two sinks), stateful and
accumulating sinks, and the small actors, aggregates and models built on them.

Layout:

- `src/` — the library, verified with Verus. Each trait states which values a
  sink accepts and which results it may answer with; each combinator states its
  relation in terms of its target's.
- `tests/` — tests of the library, run against the compiled crate.
- `app/` — the console and server programs: environment set-up, logging
  back-ends, the TCP listener and HTTP server, and console reading. They call
  the library for every decision and do the I/O themselves.
