# cutie

The request rules and decisions behind the HTTP endpoints of Cutie, a personal task
manager built around staging, scheduled days, time blocks, recurrences, templates and a
shutdown ritual. Every function in `src/` is verified with Verus against its contract,
except twelve small trusted wrappers (marked `#[verifier::external_body]`) that call
`chrono`, `rrule`, `regex` and `uuid`: their contracts are believed, not proved, and each
one's doc comment says what it claims of the outside function.

## Layout

- `src/errors.rs`, `src/validation.rs`: the error values the endpoints answer with, and
  the helpers that build single and accumulated validation failures.
- `src/text.rs`, `src/dates.rs`, `src/ids.rs`: trimming, splitting and comparing text;
  calendar dates, times and instants (read and written through `chrono`); UUID text
  (through `uuid`).
- `src/sql.rs`: the SET clauses and bound values of partial UPDATE statements.
- `src/area`, `src/projects`, `src/recurrences`, `src/shutdown_ritual`, `src/tasks`,
  `src/templates`, `src/time_block_recurrences`: one file per endpoint, holding its
  request and response types and the checks and plans it makes.
- `src/time_blocks.rs`, `src/ranks.rs`: what happens to time blocks left without tasks,
  and the chaining of sort ranks for a list of items.
- `tests/`: tests of the library on concrete values.
- `app/`: serde forms of the request types, the JSON of subtask lists and the text each
  update value is bound as.

The outside crates: `chrono` (dates, times, the local time zone), `rrule` (occurrences
of a recurrence rule), `regex` (the color in a model's reply) and `uuid` are called from
`src/` through small trusted wrappers whose contracts are stated next to them; `serde`
and `serde_json` are used in `app/`.
