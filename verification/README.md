# agentcontract

Behavioural contracts for AI agents: a contract declares typed assertions
(regular-expression patterns, latency and cost bounds) and quantitative
limits; the runner evaluates one agent run against it in the order limits →
assert → must → must_not → ensures, records every violation with the action the
contract prescribes, and fails the run when a violation is handled by
`block`, `rollback` or `halt_and_alert`. Runs can be written to an
append-only JSON Lines audit trail whose entries carry a SHA-256 of their
own content.

Layout:

- `src/` — the library, verified with Verus: the contract model
  (`models`), the run's measured quantities (`measure`), the validators
  (`validators`), the runner (`runner`), the audit entry format (`audit`),
  errors (`errors`), text helpers (`text`) and the library's laws (`laws`).
- `app/` — the command-line tool (`check`, `info`, `validate`): reading
  contract files (YAML or JSON) and runs (JSON Lines), and appending audit
  lines to their file.
- `tests/` — tests of the library on concrete values.

Durations and costs are floating point numbers where they are measured and
configured; the library holds each as an integer by which it is ordered
plus its rendering at the precision it is printed with (see `measure`).
