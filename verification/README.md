# crudcrate_derive

Relation-field detection and model-field planning for SeaORM 2.0 entities,
verified with Verus.

- `src/model.rs`: plain descriptions of an entity struct's fields, their
  types and attributes, and the crate settings reported for each field.
- `src/text.rs`: string handling stated over `Seq<char>`: substring search,
  `name = "value"` attribute values, snake_case to PascalCase, trimming.
- `src/relations.rs`: detection of `HasOne<E>` / `HasMany<E>` fields and of
  `#[sea_orm(has_one | has_many | belongs_to | self_ref ...)]` attributes, and
  the Create/Update types of relation fields.
- `src/codegen.rs`, `src/codegen/`: which fields the Create, Update and
  Response models hold and how each is typed, converted and merged, as plans.
- `src/laws.rs`: properties across functions.
- `app/`: reads `syn` fields into the library's descriptions and renders
  plans as token streams with `quote`.
