# provenance

A local-first execution recorder: it runs a command, records what a capture source
observes about it as an ordered event stream per session, keeps gaps in what was observed
explicit, and derives timelines, projections and validation reports from the stream.

The library under `src/` is verified with Verus. Its contracts state what each function
returns; among the properties proved are:

- a session's stream is numbered 0, 1, 2, ... and runs from `SessionStarted` to
  `SessionEnded`; a store accepts an append only where it continues the stream;
- an observation encoded as a record, or an event written as a table row, reads back
  unchanged;
- a failed capture is recorded as a gap and ends its session as `CaptureFailed`;
- validation evidence is current, stale or indeterminate exactly by the workspace state it
  checked and the gaps observed;
- a projection holds only events of its kind, in timeline order, and projecting it again
  changes nothing.

Layout:

- `src/identity.rs`, `time.rs`, `native.rs`, `state.rs`, `event.rs`: the domain values;
- `src/store.rs`, `memory.rs`, `recorder.rs`, `capture.rs`, `clock.rs`: the recording
  workflow and its seams;
- `src/validation.rs`, `report.rs`: validation evidence;
- `src/codec.rs`, `rows.rs`: the lossless record encoding and the event table's rows;
- `src/timeline.rs`, `projections.rs`, `cli.rs`: what the command line shows and decides;
- `src/linux_capture.rs`, `process_tree.rs`, `file_changes.rs`, `scope.rs`, `system.rs`:
  the Linux capture adapter's steps, following the command's descendant processes through
  looks at the process table, the file changes in its workspace, the workspace scope, and
  the machine's clock and random source;
- `app/`: the `provenance` binary: argument reading, the SQLite store, running the child
  process, reading `/proc` and the workspace's files, JSON text;
- `tests/`: tests of the library's public functions.
