# agentbox

Planning and bookkeeping for agentbox, which runs an agent runtime (OpenCode or Codex)
in a container next to a Git workspace. The library in `src/` is written in Verus: each
function states what it returns in `requires`/`ensures` over mathematical models
(`Seq`, `Map`, views), and Verus proves the code against those contracts.

- `src/` holds the logic: workspace identities and container names, runtime profiles and
  container specifications, session labels, discovery, status and target selection, the
  HTTP health reader, SSH signing and known_hosts passthrough, and the configuration
  loader. Steps that alternate with host I/O are state machines: a function from the
  current state and the host's answer to the next state and the next question.
- `app/` is ordinary Rust around the library: it asks the host (files, sockets, `git`,
  `ssh`, `podman`) and feeds the answers to the state machines.
- `tests/` runs the library on concrete values.

Git roots are compared as paths, component by component (`src/path_order.rs`), the way
`Utf8Path` compares them.
