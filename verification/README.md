# git_status

The Git status of workspaces: the branch a directory is on, the repository it belongs to and
the number of changes in it, kept up to date with as little work as possible.

- `src/` is the library. It decides everything and reads nothing: each operation is given the
  answers so far and either asks the next question or is done. It is verified with Verus.
  - `status` refreshes the status and finds the cache keys; `fingerprint`, `context` and `head`
    are the steps on the way; `reads` holds questions and answers.
  - `types`, `path`, `text` and `bytes` are the values and the text these work on. A path comes
    taken apart into components, so nothing depends on how a system spells its paths.
  - `laws` and `driving` state what holds of every refresh.
- `app/` asks the questions of real files, programs and clocks. Finding repositories and reading
  their configuration is left to the program around it, through the trait `Host`.
- `tests/` runs the library against a small made-up world.
