# Nimbus

Connection management and diagnostics for EC2 instances reached through SSM
Session Manager. The rules of the tool live in a library whose functions carry
contracts proved with Verus; a small command-line program sits on top of it.

## Layout

- `src/` — the verified library:
  - `config.rs`, `env_overrides.rs`: settings, their validation, the
    reconnection delay, and the `NIMBUS_*` environment overrides.
  - `error.rs`, `error_recovery.rs`: the error type, its texts and
    classification, recovery strategies and the state machines that run them,
    error context.
  - `diagnostic.rs`, `diagnostic_run.rs`, `report.rs`: diagnostic results, the
    order in which checks run and in which a parallel run's results are
    returned, how groups of findings are summarised, and the
    reports and verdicts of a run.
  - `auto_fix.rs`, `fix_run.rs`: which fixes the findings call for, in which
    order and under which mode they run, and the state machine that starts an
    instance and waits for it.
  - `iam.rs`: IAM policy analysis and the results of the IAM checks.
  - `validation.rs`, `validator.rs`: the AWS configuration validation — exact
    scores, check results, improvement suggestions, the adjustments between
    dependent checks and the cache of results.
  - `health.rs`, `aws.rs`, `connect.rs`, `commands.rs`, `feedback.rs`: health
    verdicts, session states, the pre-connection gate, the decisions of the
    subcommands and the state of the interactive feedback view.
  - `text.rs`, `time.rs`, `json.rs`: strings, durations and JSON values as the
    contracts see them.
- `tests/` — tests run against the compiled library.
- `app/` — the `nimbus` command: argument parsing, the configuration file and
  the environment, and what is computed in floating point.
