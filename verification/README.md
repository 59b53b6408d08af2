# spark_connect

A Spark Connect client model written in Verus. It builds the expressions,
columns and logical plans of the Spark Connect protocol and the messages sent
for them, and every public function states in its contract what it builds.

## Layout

- `src/` — the verified library.
  - `expression`, `column`, `functions`, `window`: expressions, their text
    form and their protocol messages; the SQL function builders.
  - `plan`, `relation`, `plan_ids`, `dataframe`, `group`: logical plans, the
    relation messages they become, and the numbering of plan nodes.
  - `readwriter`, `merge`, `catalog`, `pipelines`, `datasource`, `request`:
    readers, writers, catalog requests and the request envelopes.
  - `arrow_rows`: query results in the Arrow IPC stream format: arrow reads
    the stream and answers what each array holds; the library walks the
    arrays into cells and the cells into rows.
  - `debug_text`, `plan_debug`: the debug text of expressions, values and
    plans.
  - `ml`, `resource`, `observation`, `profiler`, `options`, `row`, `types`,
    `text`, `proto`: the remaining models and helpers.
- `tests/` — tests run against the compiled library.
- `app/` — the parts that need file I/O, floating point or std's hasher.

Verification: `verus` on `src/lib.rs`; the proof functions named `law_*`
state the properties that hold across calls.
