# sql_builder

A type-safe SQL query builder whose schema (tables, columns, primary and
foreign keys, nullability) lives in the type system, written in Verus. Each
builder call states in its contract how it changes the query, and the text of
every statement is specified by a spec function, so that what `build()` and the
runners produce is proved, not only tested.

## Layout

- `src/lib.rs`: builder phases, subqueries, the table and column traits.
- `src/query.rs`: `QueryBuilder` and the data a SELECT is rendered from.
- `src/condition.rs`: values, condition atoms and `WhereClause`.
- `src/select.rs`, `src/join.rs`: select lists, aggregates, keys and joins.
- `src/insert.rs`, `src/update.rs`, `src/delete.rs`: the other statements.
- `src/render.rs`: `select_sql`, `insert_sql`, `update_sql`, `delete_sql` and
  the code that builds the same text.
- `src/text.rs`: joining, decimal numbers and quoted text literals, with the
  lemmas that a literal reads back as its text.
- `src/execute.rs`, `src/string_runner.rs`: the `Runner` trait and a runner
  that keeps the text of the last statement it was handed.
- `src/init.rs`: column metadata and `CREATE TABLE`.
- `src/derive.rs`: what `#[derive(Table)]` decides about a struct: syn reads
  its source text into a plain description, from which the table is decided.
- `src/laws.rs`: properties that span several calls.
- `tests/`: the scenarios, with hand-written schemas in place of the derive.
- `app/main.rs`: a demo program, the asynchronous runner trait and
  floating-point values, which the verified library leaves out.

## Trusted

Three functions of std are called behind contracts that Verus takes on trust:
`String::push`, `str::to_lowercase` and `char::to_uppercase`. Their contracts
state the ASCII part of the case mappings and name the rest. syn's
`parse_str::<DeriveInput>` reads a struct's text; its converted result is
named (`syn_item`), and nothing more of syn's grammar is stated.
