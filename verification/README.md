# command_executor

Executes a target program as a child process, once per input.

* `src/` decides: it assembles the command line, says where an input goes and
  which outputs are captured, and drives a run from its first action to its
  result. It is verified with Verus, but for two functions that are taken on
  trust: `libafl_bolts::fs::get_unique_std_input_file`, behind
  `unique_std_input_file` in `src/input.rs`, and
  `core::time::Duration::from_secs`, specified in `src/builder.rs`.
  `src/laws.rs` states what holds of the library as a whole.
* `app/` acts: it opens files, starts processes, waits for them and reads their
  output, on Unix.
* `tests/` runs the library.
