# herdr-prevtab

A plugin for Herdr that jumps back to the tab or workspace that was focused before.

- `src/` is the library, verified with Verus. It holds the decisions of the plugin: what is
  remembered and when, what is sent to Herdr and how its answers are read, when the subscriber
  connects again, how its daemon comes up and is replaced, and what is reported of a failure on
  Herdr's side. What a function does is stated in its contract. Properties that span functions are
  the public proof functions named `law_*`.
- `tests/` runs the library, with `serde_json` and `seahash` as they are.
- `app/` is the program around it: sockets, files, processes, logging and the command line.
- `extras/with_commit.sh` runs a build command with the current commit in the environment, from
  where it gets into the version of the program: a daemon from another commit is then replaced.

The library does no input or output itself. Where a decision depends on it, a function takes an
event and gives an action: the program carries the action out and comes back with the event that
tells how it went.

What is trusted are the contracts of the calls into `serde_json` (in `json.rs`), of
`seahash::hash` (in `session.rs`), and of three functions of the standard library (in `text.rs`).
