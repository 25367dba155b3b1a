# vsn

The decision logic of a local development server, verified with Verus:
configuration rules, the signed audit chain, authentication policy, the
control-store records and their SQL parameters, container and cloud command
plans, database clients and native drivers (read-only checks, SQL text of
structured mutations, transaction and job registries), data-model analysis,
and the AI plan and telemetry checks.

- `src/` — the library. Its functions state their behaviour in
  `requires`/`ensures`; where a result comes from an outside crate, the
  clock or a random source, the contract states what holds of every such
  result, and a function taking that result as an argument states the rest.
  The `lemma_*` proof functions state the properties that span several calls
  (round trips, idempotence, what a registry gives back after a start or a
  close).
- `app/` — the I/O around it: files, subprocesses, PostgreSQL and SQLite
  connections, the JSON forms of the library's types.
- `tests/` — executable tests of the library.
