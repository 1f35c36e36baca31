# sink_schema

A Verus library with two parts of a streaming database.

**Sink auto schema change.** When columns are added to a table, the plans of the sinks that read it
are rewritten: every operator but the batch plans outputs the added columns, sinks number them, and
stream scans read them from the upstream. `PlanRewriter::sink_schema` is the rewriter;
`validate_root` says whether a plan is supported and `rewrite_root` applies a change.

**`map_agg`.** An aggregate that collects `(key, value)` rows into a map and rejects NULL and
repeated keys row by row.

| module | content |
| --- | --- |
| `catalog` | columns, fields, tables, sinks |
| `plan` | operators and their payloads |
| `change` | schema changes, their context, and the `OperatorRule` trait |
| `columns` | extending schemas and column lists |
| `rules` | one rule for each kind of operator |
| `rewriter` | the walk over a plan |
| `checks` | telling whether a plan can be validated or rewritten |
| `laws` | what holds of all plans and changes |
| `map_value`, `map_agg` | maps and the aggregate, with its laws |
| `error`, `text` | errors and text building |

`app/` holds the shared rewriter and the calls that test what the library requires, with errors as
`anyhow` messages.
