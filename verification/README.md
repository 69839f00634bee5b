# stackymcstackface

A small helper for stacked pull requests on GitHub, driven by `git` and the
official `gh` CLI. `push` pushes the current branch to the merge-target remote
and opens its PR on the right base: the closest ancestor branch with an open PR,
or the default branch. `doctor` checks, without changing anything, whether `push`
would go ahead.

Both commands are state machines. The library says which action is pending (run
a command, look for files, decode JSON, ask the user); the program performs it
and hands back the event that answers it. All decisions, wording and parsing are
in the library and verified with Verus.

## Layout

| path | what it holds |
| --- | --- |
| `src/text.rs` | trimming, lines, words, numbers, string order |
| `src/command.rs`, `src/step.rs` | commands and replies, actions and events |
| `src/git.rs`, `src/gh.rs` | what is asked of `git` and `gh`, and what they answer |
| `src/target.rs` | the merge target and the remote that points at it |
| `src/parent.rs` | the search for the parent of a stacked PR |
| `src/plan.rs` | the wording of plans, warnings and footers |
| `src/stack.rs` | the `push` command |
| `src/report.rs`, `src/doctor.rs` | the `doctor` command |
| `src/ui.rs` | colours, status lines, spinner frames |
| `src/laws.rs`, `src/readiness.rs` | what holds of every run of `push` and `doctor` |
| `app/` | the program: CLI, processes, JSON, prompts, the terminal |

## What is taken on trust

The escape codes that `anstyle` renders, the lossy decoding of bytes by
`String::from_utf8_lossy`, and the quoting of a string by `{:?}`. Each stands
behind one wrapper whose comment says what is claimed of it.

## What is proved of whole runs

- `push` changes something only to carry out a plan, pushes only to the
  merge-target remote, pushes and creates at most once, never opens a second PR
  for a branch, and ends.
- The parent of a new PR is the closest open PR whose head is a proper ancestor
  of `HEAD`.
- With `--yes` no question is asked; a declined rescue ends the run.
- `doctor` only reads, fails if and only if a check failed, and ends. Where it
  has nothing to object to, `push` gets to its fetch without a question.
