# mcp_process_guard

A bounded lifecycle check for one MCP stdio server: launch one command in a
process group it owns, optionally perform the `initialize` exchange, close its
input, wait a bounded grace period, and clean up only that group.

The decisions are a verified Verus library under `src/`:

- `options` — the option set and its bounds (every wait positive and bounded,
  a bounded handshake frame size).
- `lifecycle` — `run`, the state machine of one run: from the options and what
  was observed so far it names the next piece of work or the end of the run;
  `GuardState::record` adds an observation.
- `handshake` — judging the `initialize` response frame (parsed by `serde_json`).
- `signals` — reading the operating system's replies to group signals.
- `polling` — the bounded polling waits for the child to exit and for the
  owned group to be gone: when to ask again, sleep, or stop.
- `report` — outcome, handshake and cleanup status, exit statuses and the
  one-line human and failure reports.
- `cli` — reading bounded numbers from the command line, and the proof that a
  decimal numeral reads back as its number.
- `text` — decimal numerals.
- `guarantees` — proofs of what every run keeps: bounded waits and frames,
  cleanup status matching the outcome, a clean exit only with an empty group,
  a failed handshake skipping the grace period, progress at every step, and
  decisions that never depend on the launched command.

Cleanup is reported as `succeeded` only when the owned group is gone within
the cleanup deadline. A group still observable at that deadline (on Unix, for
example, a killed descendant not yet reaped by its new parent) is reported as
`cleanup: unverified`, with outcome `CleanupFailed` and exit status 7, on every
platform.

`app/` is the program: command-line parsing with `clap`, launching the child
with `std::process`, the owned group through `libc` (Unix) or a Job Object
through `windows-sys` (Windows), pipes, clocks and output.
