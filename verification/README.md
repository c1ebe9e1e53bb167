# ts_validator

Validates TOML documents against schema files (TOSD): a schema is a TOML table
with a `[toml-schema]` header holding a SemVer `version`; a document names its
schema with `[toml-schema].location`, or the schema is given on the command line.

- `src/` is the verified library (Verus):
  - `document.rs`: TOML tables as the library reads them (`TomlNode`), and the
    lookups of the `toml` crate;
  - `version.rs`: schema versions, read with `semver`;
  - `engine.rs`: the `toml_schema` engine that compiles schemas and checks documents;
  - `schema.rs`: making schemas and validating documents;
  - `report.rs`: the text of validation reports;
  - `cli.rs`: the decisions of the command-line validator;
  - `completions.rs`: where the shell completion files are found;
  - `error.rs`, `util.rs`: errors and small helpers.
- `app/` is the command-line program around it: argument parsing, files and
  standard input, shell completions.
- `tests/` runs the library on concrete documents.

## The schema engine

Schemas are compiled and documents checked by `toml_schema` 0.2.1. Its
schema language is its own: a table is a schema of entries and `type` picks
the kind of schema; it does not read the TOSD language (`[types]`,
`[elements]`, `typeof`, `oneOf`). The `[toml-schema]` header of a schema file
is compiled like any other entry, so it must say `type = "anything"`:

```toml
[toml-schema]
type = "anything"
version = "1.0.0"

[name]
type = "string"
regex = "^[a-z]+$"
```

A check reports at most one error, the engine's own text, at the document's
root, so a failed validation prints a single line `[]: <message>`.
