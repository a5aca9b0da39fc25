# ghostgit

The verified core of a small desktop Git client (a Tauri front end over
libgit2). The library decides; the caller acts.

- `src/` — the library, verified with Verus. Each Git operation that
  touches a repository, a file or the network is a small state machine
  (`commit`, `pull`, `sync`, `workdir`, `history`): `start` gives the first
  action, the caller performs it with git2 and reports back with `step`,
  until the action is `Finish`. The contracts state each transition over
  mathematical views, and proof functions named `law_*` state what holds
  across steps (a blank token or message is refused before anything is
  opened, an ignored path never reaches a commit, a pull only
  fast-forwards to the fetched commit, a commit is made by the given
  author on top of HEAD's commit, a history never exceeds fifty entries, a
  retry loop tries at most five times and returns its last try's result,
  a saved session reads back as saved).
  Pure computations that git2 offers (status flags, merge analysis flags,
  commit id text) are called through small trusted wrappers in `git.rs`.
- `tests/` — tests of the library. They drive the flows with replies
  built by hand; where a value comes from git2 (status and merge flags,
  commit id text, error texts, an untracked file's diff) the tests take it
  from the real git2.
- `app/` — the command layer: repository, file and network work with
  git2, std and reqwest, the retry waits, and the serde records sent to
  the front end.
