# auto_table

Keeps Rust structs and SQLite tables in step.

- `src/` — the verified library (Verus):
  - `sql_helpers`: column definitions and the SQL text for `CREATE TABLE`,
    `SELECT`, `ORDER BY`, `INSERT OR REPLACE`, table-name checks.
  - `queries`: the `AutoTable` and `AtSqlCodec` traits, the query texts of
    the lookup, range, page and custom queries, pagination, row decoding.
  - `value`: stored values (`AtValue`), the conversion of Rust values and
    parameter lists, and `RealBits`, the float-free carrier of a real.
  - `codec`: how `None`, `bool` and failed conversions are written, and how
    a field is read back from its stored value (built-in or `AtSqlCodec`).
  - `naming`, `type_model`, `attrs`, `table_plan`: what the `AutoTable`
    derive decides — table names, SQL types of Rust types, attribute
    settings, and the per-field write and read plans.
  - `laws`: properties that span several functions (round trips, agreement
    of the derive's plans, placeholders, ordering, pagination).
- `app/` — plain Rust around it: the async connection layer and its `turso`
  implementation, the async query functions, the derive's token generation
  with `syn`/`quote`, and a serde copy of `Paginated`.
- `tests/` — tests of the library on concrete values.
