# chipmunk

Computer-aided manufacturing for people who own a machine: drill and quill
operations at points or on circular patterns become a machine-independent
NC program, which a post-processor (a Lua script) turns into code for a
controller.

## Layout

- `src/` — the verified library (Verus).
  - `domain/` — units and fixed-point numbers, tools, tool paths and
    circular patterns, post-processor capabilities, drilling operations.
  - `operations/` — quill and drill operations: tool path generation and
    compilation into NC blocks.
  - `nc/` — NC blocks and the machine state they run in, the programs of
    manual drilling, what a post-processor hands back, where
    post-processors are found.
  - `io/` — job and operation configurations, compiling a job's operations.
  - `laws.rs` — properties that span several functions.
- `tests/` — tests of the library.
- `app/` — the `chipmunk` command: YAML reading, floating-point conversion
  and trigonometry, running Lua post-processors, file and console output.

All lengths, feeds, speeds and angles in the library are `i64` counting
billionths of their unit; the command converts from and to floating point.
