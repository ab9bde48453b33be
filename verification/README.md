# pdos

The decision-making core of the PDOS command-line runtime, verified with
Verus, and a thin `dos` binary around it.

`src/` is the library, checked by Verus. Its public functions state what
they return or change in `ensures` clauses over mathematical models, and
the laws that span several functions are public proof functions. Calls into
outside crates (`rand`, `uuid`, `sha2`, `flate2`, `num_cpus`) and a few std
functions go through small trusted wrappers whose contracts are believed,
not proved; each one's doc comment says what it claims.

- `bottleneck`, `config`, `decision`, `tuner`, `feedback`, `mode` — the
  adaptive transfer engine: bottleneck labels, the rule-based action planner,
  the hill-climbing auto-tuner, the feedback loop's revert/commit decisions
  and the zero-copy mode switcher. Throughputs are kept in kbps and
  confidences in thousandths, so every rule is integer arithmetic.
- `profiler` — per-syscall counters and the time-sorted report.
- `pairing` — PIN pairing and the trusted-peer table.
- `transfer`, `p2p`, `telemetry`, `active` — compression choice, SHA-256 and
  gzip (through `sha2` and `flate2`), bounded histories, discovered nodes.
- `procfs` — parsers for `/proc` files, `ss` output and `adb devices`.
- `http`, `dashboard`, `cli` — request heads, routing, URL and query
  handling (percent-encoding and decoding), the names received files are
  stored under, the Control Hub page, response texts and the argument rules
  of the `dos` command.
- `text` — the string and number reading the parsers share.

`app/` holds what a verifier cannot take: sockets, files, threads, the
floating-point bottleneck classifier and the JSON glue.
