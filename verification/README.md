# psect

A search for the commit that made a flaky test flakier: instead of
bisecting on single pass/fail results, it keeps a probability for every
candidate commit and tests where the expected information gain is highest.

Layout:

- `src/` is the verified library: the session state and the rules
  by which it changes (marking the old and new bounds, default pass rates,
  recording outcomes, the prompts, reports and refusals, and the steps of a
  mark command up to git's ancestry answer), reading the clock without
  panicking, locating recorded samples
  among the candidate commits, and which pass rate a sample follows for a
  given regression point. `session.rs` also states the laws these rules keep.
- `app/` is the `git-psect` command: git access, the session file, the
  command line, and the floating-point posterior and entropy computations.
- `tests/` exercises the library on concrete sessions.
