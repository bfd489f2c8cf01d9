# slowhand

The verified library of the slowhand content server, written in Verus.

- `src/schema.rs`: object types, fields and previews; the schema that keeps
  objects by name and lists them by kind.
- `src/kdl_doc.rs`, `src/schema_kdl.rs`: KDL documents as plain values (parsed
  by the `kdl` crate) and the reading of a schema from them.
- `src/schema_gql.rs`: the GraphQL schema a content schema publishes, as a plan
  of types and fields.
- `src/store.rs`: document identifiers, migrations, write decisions.
- `src/assets.rs`: image upload records (kind, dimensions, SHA-1 hash).
- `src/config.rs`: the data directories and dataset paths.
- `src/text.rs`: string helpers (trim, split, decimal and hex rendering).
- `app/`: the HTTP server (axum, turso, async-graphql) around the library.
