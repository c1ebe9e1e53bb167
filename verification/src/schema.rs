//! Schemas: TOML tables with a `[toml-schema]` header, compiled by the schema
//! engine, and the validation of documents against them.

use vstd::prelude::*;
use crate::document::{
    get_string, get_table, parse_document, section, string_entry, table_clone, table_view,
    toml_document, toml_error_text, TomlNode,
};
use crate::engine::{check_document, compile_schema, schema_check, schema_compile_error, CompiledSchema};
use crate::error::TsError;
use crate::report::{errors_view, format_report_lines, lemma_report_of_one_error, report_lines, ValidationError};
use crate::version::{parse_version, semver_error_text, semver_parts, SchemaVersion};

verus! {

/// The `[toml-schema]` table of a document, if it has one.
pub open spec fn schema_header(doc: Map<Seq<char>, TomlNode>) -> Option<Map<Seq<char>, TomlNode>> {
    section(doc, "toml-schema"@)
}

/// The string stored under `key` in the `[toml-schema]` table of a document.
pub open spec fn header_string(doc: Map<Seq<char>, TomlNode>, key: Seq<char>) -> Option<Seq<char>> {
    match schema_header(doc) {
        Some(h) => string_entry(h, key),
        None => None,
    }
}

/// The `[toml-schema].version` string of a document.
pub open spec fn header_version(doc: Map<Seq<char>, TomlNode>) -> Option<Seq<char>> {
    header_string(doc, "version"@)
}

/// The `[toml-schema].location` string of a document: where its schema is.
pub open spec fn header_location(doc: Map<Seq<char>, TomlNode>) -> Option<Seq<char>> {
    header_string(doc, "location"@)
}

/// The `[toml-schema].meta` table of a document.
pub open spec fn header_meta(doc: Map<Seq<char>, TomlNode>) -> Option<Map<Seq<char>, TomlNode>> {
    match schema_header(doc) {
        Some(h) => section(h, "meta"@),
        None => None,
    }
}

/// The contents of an optional table.
pub open spec fn optional_table_view(t: Option<toml::Table>) -> Option<Map<Seq<char>, TomlNode>> {
    match t {
        Some(t) => Some(table_view(t)),
        None => None,
    }
}

/// What a schema's header says of it.
pub struct SchemaMeta {
    /// `[toml-schema].version`.
    pub version: SchemaVersion,
    /// `[toml-schema].meta`, where it is a table.
    pub meta: Option<toml::Table>,
}

/// A schema, compiled by the engine from a TOML table.
pub struct Schema {
    /// Where the schema was read from, where that is known.
    pub origin: Option<String>,
    /// What the schema's header says.
    pub meta: SchemaMeta,
    /// The schema as the engine compiled it.
    pub engine: CompiledSchema,
}

/// What a document says of the schema that it uses.
pub struct SchemaUsageMeta {
    /// `[toml-schema].location`: where the schema is.
    pub location: String,
}

/// A document, with what it says of its schema.
pub struct ValidatedTable {
    /// The document's `[toml-schema]` usage, where it names a location.
    pub toml_schema: Option<SchemaUsageMeta>,
    /// The document.
    pub table: toml::Table,
}

/// The next step of validating a document.
pub enum ValidationStep {
    /// Validation is over, with this result.
    Done(Result<(), TsError>),
    /// No schema was given: load the schema at this location, then validate
    /// the document again with it.
    LoadSchema(String),
}

/// The result that a report of errors gives: success where there is no error,
/// else `Invalid` with the report, one line per error.
pub open spec fn is_verdict(res: Result<(), TsError>, errs: Seq<(Seq<char>, Seq<char>)>) -> bool {
    match res {
        Ok(()) => errs.len() == 0,
        Err(TsError::Invalid(m)) => errs.len() > 0 && m@ == report_lines(errs),
        Err(_) => false,
    }
}

/// The report of an engine outcome: no error, or the engine's message at the
/// document's root, whose path is empty.
pub open spec fn outcome_errors(outcome: Option<Seq<char>>) -> Seq<(Seq<char>, Seq<char>)> {
    match outcome {
        None => Seq::empty(),
        Some(m) => seq![(Seq::<char>::empty(), m)],
    }
}

/// The errors that the engine finds in a document, for a schema compiled
/// from the table `src`.
pub open spec fn engine_errors(src: Map<Seq<char>, TomlNode>, doc: Map<Seq<char>, TomlNode>) -> Seq<(Seq<char>, Seq<char>)> {
    outcome_errors(schema_check(src, doc))
}

/// The report of an engine outcome: no error, or the engine's message at the
/// document's root.
pub fn report_of_outcome(outcome: Option<String>) -> (r: Vec<ValidationError>)
    ensures
        errors_view(r@) == outcome_errors(match outcome { Some(m) => Some(m@), None => None }),
{
    match outcome {
        None => Vec::new(),
        Some(m) => {
            let mut v = Vec::new();
            v.push(ValidationError { path: String::new(), message: m });
            assert(errors_view(v@) =~= seq![(Seq::<char>::empty(), v@[0].message@)]);
            v
        },
    }
}

/// The result of validation that a report gives.
pub fn verdict(errors: &Vec<ValidationError>) -> (r: Result<(), TsError>)
    ensures
        is_verdict(r, errors_view(errors@)),
{
    if errors.len() == 0 {
        Ok(())
    } else {
        Err(TsError::Invalid(format_report_lines(errors)))
    }
}

/// The `[toml-schema].location` of a document.
pub fn schema_location(table: &toml::Table) -> (r: Option<String>)
    ensures
        r is Some <==> header_location(table_view(*table)) is Some,
        r matches Some(l) ==> header_location(table_view(*table)) == Some(l@),
{
    match get_table(table, "toml-schema") {
        Some(h) => get_string(h, "location"),
        None => None,
    }
}

/// What making a schema of a document gives: `MissingHeader` where the
/// document has no `[toml-schema].version` string, `BadVersion` with the
/// parser's message where that is no SemVer version, `BadSchema` with the engine's message where the engine
/// refuses the document, and else a schema with the given origin, the parsed
/// version and the header's `meta` table.
pub open spec fn schema_made(r: Result<Schema, TsError>, origin: Option<String>, doc: Map<Seq<char>, TomlNode>) -> bool {
    match header_version(doc) {
        None => r matches Err(TsError::MissingHeader),
        Some(v) => match semver_parts(v) {
            None => match r {
                Err(TsError::BadVersion(e)) => e@ == semver_error_text(v),
                _ => false,
            },
            Some(parts) => match schema_compile_error(doc) {
                Some(m) => match r {
                    Err(TsError::BadSchema(e)) => e@ == m,
                    _ => false,
                },
                None => match r {
                    Ok(s) => s.origin == origin && s.meta.version.parts() == parts
                        && optional_table_view(s.meta.meta) == header_meta(doc)
                        && s.engine@ == doc,
                    _ => false,
                },
            },
        },
    }
}

/// What a step of validating a document gives: with a schema, the verdict of
/// the engine's report; without one, the step of loading the schema at the
/// document's location, or `MissingLocation` where it names none.
pub open spec fn validation_step(r: ValidationStep, schema: Option<Schema>, doc: Map<Seq<char>, TomlNode>) -> bool {
    match schema {
        Some(s) => match r {
            ValidationStep::Done(res) => is_verdict(res, engine_errors(s.engine@, doc)),
            ValidationStep::LoadSchema(_) => false,
        },
        None => match header_location(doc) {
            Some(l) => match r {
                ValidationStep::LoadSchema(x) => x@ == l,
                ValidationStep::Done(_) => false,
            },
            None => r matches ValidationStep::Done(Err(TsError::MissingLocation)),
        },
    }
}

impl ValidatedTable {
    /// A document, with the schema location that it names.
    pub fn new(table: toml::Table) -> (r: ValidatedTable)
        ensures
            table_view(r.table) == table_view(table),
            r.toml_schema is Some <==> header_location(table_view(table)) is Some,
            r.toml_schema matches Some(u) ==> header_location(table_view(table)) == Some(u.location@),
    {
        let loc = schema_location(&table);
        let usage = match loc {
            Some(location) => Some(SchemaUsageMeta { location }),
            None => None,
        };
        ValidatedTable { toml_schema: usage, table }
    }
}

impl Schema {
    /// Makes a schema of a table, which must have a `[toml-schema]` table with
    /// a SemVer `version` string, and be a schema that the engine compiles.
    /// The schema's origin is `origin`.
    pub fn from_table_at(origin: Option<String>, table: toml::Table) -> (r: Result<Schema, TsError>)
        ensures
            schema_made(r, origin, table_view(table)),
    {
        let (version_text, meta) = match get_table(&table, "toml-schema") {
            Some(h) => match get_string(h, "version") {
                Some(v) => {
                    let meta = match get_table(h, "meta") {
                        Some(m) => Some(table_clone(m)),
                        None => None,
                    };
                    (v, meta)
                },
                None => return Err(TsError::MissingHeader),
            },
            None => return Err(TsError::MissingHeader),
        };
        let version = match parse_version(version_text.as_str()) {
            Ok(v) => v,
            Err(e) => return Err(TsError::BadVersion(e)),
        };
        match compile_schema(table) {
            Ok(engine) => Ok(Schema { origin, meta: SchemaMeta { version, meta }, engine }),
            Err(m) => Err(TsError::BadSchema(m)),
        }
    }

    /// Makes a schema of a table, with no origin; see [`Schema::from_table_at`].
    pub fn from_table(table: toml::Table) -> (r: Result<Schema, TsError>)
        ensures
            schema_made(r, None, table_view(table)),
    {
        Schema::from_table_at(None, table)
    }

    /// Reads a schema from the text of a TOML document; see [`Schema::from_table`].
    pub fn from_toml_str(text: &str) -> (r: Result<Schema, TsError>)
        ensures
            match toml_document(text@) {
                None => match r {
                    Err(TsError::BadToml(e)) => e@ == toml_error_text(text@),
                    _ => false,
                },
                Some(doc) => schema_made(r, None, doc),
            },
    {
        match parse_document(text) {
            Ok(table) => Schema::from_table(table),
            Err(m) => Err(TsError::BadToml(m)),
        }
    }

    /// The errors that the engine finds in a document: at most one, at the
    /// document's root.
    pub fn check(&self, table: &toml::Table) -> (r: Vec<ValidationError>)
        ensures
            errors_view(r@) == engine_errors(self.engine@, table_view(*table)),
    {
        report_of_outcome(check_document(&self.engine, table))
    }

    /// Validates a document: against `schema` where one is given; else the
    /// step is to load the schema at the document's `[toml-schema].location`,
    /// and it fails where the document names none.
    pub fn validate_table(table: &toml::Table, schema: Option<Schema>) -> (r: ValidationStep)
        ensures
            validation_step(r, schema, table_view(*table)),
    {
        match schema {
            None => match schema_location(table) {
                Some(l) => ValidationStep::LoadSchema(l),
                None => ValidationStep::Done(Err(TsError::MissingLocation)),
            },
            Some(s) => {
                let errors = s.check(table);
                ValidationStep::Done(verdict(&errors))
            },
        }
    }

    /// Validates the text of a TOML document; see [`Schema::validate_table`].
    pub fn validate_toml_str(text: &str, schema: Option<Schema>) -> (r: ValidationStep)
        ensures
            match toml_document(text@) {
                None => match r {
                    ValidationStep::Done(Err(TsError::BadToml(e))) => e@ == toml_error_text(text@),
                    _ => false,
                },
                Some(doc) => validation_step(r, schema, doc),
            },
    {
        match parse_document(text) {
            Ok(table) => Schema::validate_table(&table, schema),
            Err(m) => ValidationStep::Done(Err(TsError::BadToml(m))),
        }
    }
}

/// What checking a document against a schema finds is what the engine's
/// check of the schema's source table against the whole document reports,
/// whatever the document holds (its `[toml-schema]` table too): no error
/// exactly when the engine reports none, else that one report at the
/// document's root.
pub proof fn lemma_check_is_engine_check(
    src: Map<Seq<char>, TomlNode>,
    doc: Map<Seq<char>, TomlNode>,
    found: Seq<(Seq<char>, Seq<char>)>,
)
    requires
        found == engine_errors(src, doc),
    ensures
        (found.len() == 0) <==> (schema_check(src, doc) is None),
        schema_check(src, doc) matches Some(m) ==> found == seq![(Seq::<char>::empty(), m)],
{
}

/// Validating a document with a given schema answers `Ok` exactly when the
/// engine's check of the schema's source table against the whole document
/// reports nothing, and else `Invalid` with the single line `[]: message` of
/// the engine's message; a document that names a location is checked all the
/// same.
pub proof fn lemma_validation_with_schema(r: ValidationStep, s: Schema, doc: Map<Seq<char>, TomlNode>)
    requires
        validation_step(r, Some(s), doc),
    ensures
        r matches ValidationStep::Done(res) && (res is Ok <==> schema_check(s.engine@, doc) is None),
        schema_check(s.engine@, doc) matches Some(m) ==>
            r matches ValidationStep::Done(Err(TsError::Invalid(t))) && t@ == "[]: "@ + m + "\n"@,
{
    reveal_strlit("[");
    reveal_strlit("]: ");
    reveal_strlit("[]: ");
    if let Some(m) = schema_check(s.engine@, doc) {
        lemma_report_of_one_error((Seq::<char>::empty(), m));
        assert(engine_errors(s.engine@, doc) == seq![(Seq::<char>::empty(), m)]);
        assert("["@ + Seq::<char>::empty() + "]: "@ + m + "\n"@ =~= "[]: "@ + m + "\n"@);
    }
}

/// A schema made of a document keeps the version that SemVer reads from its
/// `[toml-schema].version`, all five parts of it, the given origin, the
/// header's `meta` table, and the document as the engine's source; and a
/// schema is made only of a document with a SemVer version that the engine
/// compiles.
pub proof fn lemma_made_schema_keeps_header(r: Result<Schema, TsError>, origin: Option<String>, doc: Map<Seq<char>, TomlNode>)
    requires
        schema_made(r, origin, doc),
    ensures
        r is Ok ==> header_version(doc) is Some && semver_parts(header_version(doc).unwrap()) is Some
            && schema_compile_error(doc) is None,
        r matches Ok(s) ==> {
            &&& s.meta.version.major == semver_parts(header_version(doc).unwrap()).unwrap().0
            &&& s.meta.version.minor == semver_parts(header_version(doc).unwrap()).unwrap().1
            &&& s.meta.version.patch == semver_parts(header_version(doc).unwrap()).unwrap().2
            &&& s.meta.version.pre@ == semver_parts(header_version(doc).unwrap()).unwrap().3
            &&& s.meta.version.build@ == semver_parts(header_version(doc).unwrap()).unwrap().4
            &&& s.origin == origin
            &&& optional_table_view(s.meta.meta) == header_meta(doc)
            &&& s.engine@ == doc
        },
        header_version(doc) is None ==> r matches Err(TsError::MissingHeader),
        header_version(doc) matches Some(v) && semver_parts(v) is None ==> r matches Err(TsError::BadVersion(_)),
{
}

} // verus!
