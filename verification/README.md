# ahecha_macro

The logic behind the ahecha view-model framework's macros, written in Verus
and verified: the functions of `src/` carry contracts that state what they
return, and the laws of the library are stated and proved as proof
functions beside the code they are about. The traits meant for users to
implement (`ToSql`, `ToArray`, `DataTypeEnum`, `Migration`) declare their
methods without contracts, since what those return is up to each
implementation; `ToSqlMigration`'s default methods state that they give no
SQL. Where a result comes from `syn` or another outside crate and can differ
between runs (inside and outside a macro expansion), the verified functions
take that result as an argument and say exactly what they do with it.

- `src/` — the verified library: the `html!` template parser and the
  decisions its expansion makes, the SQL text, bound values and function
  names of the record derive, the records configuration, the page, route and
  component naming rules, the `query!` and prepared-statement readers, the
  validator attributes, the migration column builder and the record/table
  metadata check.
- `tests/` — tests on concrete values of each part.
- `app/` — the compiler-facing side: reading macro input with `syn`,
  reading `records.json`, the serde forms of the migration types, and
  emitting code with `quote`.
