# better-review

A terminal interface for reviewing GitHub pull requests hunk by hunk while a
local reviewed state is kept for each file. Accepting a hunk applies it to the
reviewed state; a file whose reviewed state equals the pull request's latest
content is marked viewed on GitHub.

- `src/` is the verified library: text helpers (`text`), diff hunks and their
  application (`diff_model`), the `gh` invocations and content hashes
  (`github`), the bounded log (`log_buffer`), display preferences (`prefs`),
  reviewed-state bookkeeping (`state`), worker messages (`jobs`) and the
  decisions of the interface (`tui`).
- `app/` is the program around it: argument handling, running `gh`, files on
  disk, the worker threads and the terminal.
- `tests/` exercises the library.
