# rs_shield

The decision logic of RS Shield, a backup tool with a command line (`rsb`)
and a desktop front end, as a library verified with Verus.

- `src/` is the library. Every function in it has a contract that Verus
  proves: command-line options and messages, retention policies, profile and
  snapshot listings, snapshot diffs, the device-flow login of the
  authentication server and its answers, the forms and outcome reports of the
  desktop screens, byte sizes and durations as text, and the rest. Calls into
  other crates (`serde_json`, `toml`, `regex`, `uuid`, `axum`'s status codes)
  and a few `std` functions stand behind small trusted wrappers whose
  contracts are stated in their doc comments. Public proof functions named
  `law_*` state properties that relate several operations.
- `tests/` runs the library on concrete values.
- `app/` is the `rsb` program: argument parsing, files, terminal, network, the
  authentication server's routes, and the calls into the backup engine
  (`rsb_sdk`), which is not part of this repository.
