//! The schema engine: the `toml_schema` crate, which compiles a schema from a
//! TOML table and checks documents against it.
//!
//! The engine at hand is `toml_schema` 0.2.1, whose schema language is its
//! own: a table is a schema of entries and `type` picks the kind of schema.
//! It does not read the TOSD language (`[types]`, `[elements]`, `typeof`,
//! `oneOf`). A schema file's `[toml-schema]` header is compiled as an entry
//! like any other, so the header must say `type = "anything"` or the engine
//! refuses the file. A check reports at most one error, the `Debug` text of
//! the engine's error, at the document's root.

use vstd::prelude::*;
use crate::document::{table_view, TomlNode};

verus! {

#[verifier::external_type_specification]
#[verifier::external_body]
pub struct ExTomlSchema(toml_schema::TomlSchema);

/// What `toml_schema::TomlSchema::try_from` reports on a table: `None` where
/// the table compiles to a schema, else its error message.
pub uninterp spec fn schema_compile_error(src: Map<Seq<char>, TomlNode>) -> Option<Seq<char>>;

/// What `TomlSchema::check` reports on a document table, for the schema that
/// `TomlSchema::try_from` compiles from the table `src`: `None` where the
/// document matches, else the `Debug` text of the engine's error.
pub uninterp spec fn schema_check(src: Map<Seq<char>, TomlNode>, doc: Map<Seq<char>, TomlNode>) -> Option<Seq<char>>;

/// A schema compiled by the engine, with the table that it was compiled from.
/// Its fields are private to this module, and only [`compile_schema`] makes
/// one, building both fields in one step, so the engine's schema is always the
/// one compiled from that table.
pub struct CompiledSchema {
    inner: toml_schema::TomlSchema,
    source: toml::Table,
}

impl View for CompiledSchema {
    type V = Map<Seq<char>, TomlNode>;

    /// The contents of the table that the schema was compiled from.
    closed spec fn view(&self) -> Map<Seq<char>, TomlNode> {
        table_view(self.source)
    }
}

/// `TomlSchema::try_from(toml::Table)`: compiles a table into a schema, kept
/// together with the table it was compiled from.
/// Claimed: it fails exactly where `schema_compile_error` names a message, and
/// with that message; where it succeeds, the schema holds the engine's
/// compilation of `src` and a copy of `src` as its source.
#[verifier::external_body]
pub(crate) fn compile_schema(src: toml::Table) -> (r: Result<CompiledSchema, String>)
    ensures
        r is Ok <==> schema_compile_error(table_view(src)) is None,
        r matches Err(m) ==> schema_compile_error(table_view(src)) == Some(m@),
        r matches Ok(c) ==> c@ == table_view(src),
{
    match toml_schema::TomlSchema::try_from(src.clone()) {
        Ok(inner) => Ok(CompiledSchema { inner, source: src }),
        Err(e) => Err(e),
    }
}

/// `TomlSchema::check` on a document table, its error shown with `Debug`.
/// Claimed: it reports what `schema_check` names for the table that the
/// schema was compiled from and the document; the engine's schema is the one
/// compiled from `schema@` because only [`compile_schema`] makes a
/// `CompiledSchema`.
#[verifier::external_body]
pub(crate) fn check_document(schema: &CompiledSchema, doc: &toml::Table) -> (r: Option<String>)
    ensures
        r is None <==> schema_check(schema@, table_view(*doc)) is None,
        r matches Some(m) ==> schema_check(schema@, table_view(*doc)) == Some(m@),
{
    match schema.inner.check(&toml::Value::Table(doc.clone())) {
        Ok(()) => None,
        Err(e) => Some(format!("{:?}", e)),
    }
}

} // verus!
