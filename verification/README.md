# browser-test

The decision logic of an async browser-test runner, written in Verus and verified.

- `src/` is the verified library. It resolves configuration (environment flags, driver-output
  capture, the manual pause, Chrome visibility, per-test timeout and wait overrides), schedules
  test executions sequentially or with bounded parallelism under a fail-fast or run-all policy,
  drives the pause dialogue and the life cycle of a run (pause, driver start, tests, driver
  termination) as state machines, keeps the bounded tail of browser-driver output, and renders
  the texts of errors and of captured output. The laws of the library are public proof functions
  next to the code they speak of.
- `app/` is the asynchronous runner around it: it reads the environment, talks to the terminal,
  starts chromedriver through `chrome-for-testing-manager`, runs `thirtyfour` sessions and test
  futures, and builds `rootcause` reports, doing at each step what the library decided.
- `tests/` exercises the library on concrete values.
