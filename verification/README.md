# boite_core

The core of Boite, a workspace where coding agents run in terminals and chat
threads: the command bus every front door speaks, the git surface behind it,
the file editor and explorer, and the decisions of the door agents use to
reach their own workspace. The functions under `src/` are verified with Verus
against contracts stated over sequences, maps and the library's own spec
functions, except seven small wrappers around the standard library and the
base64 and dirs crates (marked `#[verifier::external_body]`), whose contracts
are trusted: the clock, the home folder, UTF-8 decoding (exact and lossy),
lower-casing, base64 encoding, and building a `String` from characters.

Layout:

- `src/command/` — the command bus: the method table and what each method
  needs (`table.rs`, `mod.rs`), the parameters as a JSON value (`params.rs`),
  and one module per domain (`git`, `sessions`, `records`, `conduct`, `logs`,
  `pilot`), each decoding a call, naming it back, and declaring its wire
  envelope and capability.
- `src/git/` — reading and changing a repository: porcelain status, log, branch
  menu, the branch switch as a state machine, operations, and the shared build
  artifacts policy.
- `src/editor.rs`, `src/explorer.rs` — what a text file may be opened as, and the
  directory listing and search walk.
- `src/agent.rs` — the agent endpoint's decisions: actors, panes, projects,
  runtimes, spawns, closes and waits.
- `src/fastpick.rs`, `src/fast_mcp_ssh.rs` — reading the answers of two helper
  tools.
- `app/` — the process side: running git and the helper tools, the file system,
  and the JSON conversion at the edge.
- `tests/` — the library's tests.
