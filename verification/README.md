# wsbx

Typed building blocks for Windows Sandbox and its `wsb` CLI, verified with Verus.

- `src/` is the verified library: the configuration model and its XML
  (`config`, `xml`), the `wsb` command lines and the reading of how a `wsb`
  process ended (`cli`), sandbox IDs (`types`), environment handles and
  results (`environment`), errors (`error`), and UTF-16 helpers (`wide`).
  Text that Windows passes as `OsString` is held as UTF-16 code units.
- `app/` runs the `wsb` process, decodes its JSON answers with serde, converts
  between `OsString` and UTF-16, and gives the error type its
  `std::error::Error` implementation.
- `tests/` exercises the library on concrete values.
