# jjs

The verified core of the JJS judging system, written in Verus.

- `src/` is the library. `memory` holds the in-memory repository of runs,
  invocations and users, with its mathematical model (`RepoState`) and the
  invariant that every record carries the id of its position; `repo_laws`
  states what the operations promise together (a stored run loads back, a
  deleted id is never reused, the first user of a name is the one found, ...).
  `command` builds command lines and renders them; `build_ctx` and
  `devtool_build` decide the cargo and configure command lines of a build;
  `contest`, `engine`, `frontend` and `root_auth` hold the decisions of the
  API servers; `submission` and `invoke_status` the message types.
- `app/` is the plain Rust around it: the shared (locked) repository handle,
  JSON conversions, running commands, the unix-socket root login service and
  the serde forms of the message types.
- `tests/` runs the library on concrete values.
