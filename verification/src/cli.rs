//! The decisions of the command-line validator: where a document's schema
//! comes from, and what validating a document or a schema file answers.

use vstd::prelude::*;
use crate::document::{parse_document, table_view, toml_document, toml_error_text, TomlNode};
use crate::engine::{schema_check, schema_compile_error};
use crate::error::TsError;
use crate::report::{join_report_lines, lemma_lines_are_joined_plus_break, lemma_report_of_one_error, report_joined};
use crate::schema::{engine_errors, header_location, header_version, is_verdict, schema_location, schema_made, Schema};
use crate::util::{stdin_name, OrStdin};
use crate::version::{semver_error_text, semver_parts};

verus! {

/// An input named on the command line: standard input, or a file.
pub enum InputPath {
    Stdin,
    File(String),
}

impl InputPath {
    /// The file's path, where the input is a file.
    pub fn path_ref(&self) -> (r: Option<&String>)
        ensures
            match self {
                InputPath::Stdin => r is None,
                InputPath::File(p) => r == Some(p),
            },
    {
        match self {
            InputPath::Stdin => None,
            InputPath::File(p) => Some(p),
        }
    }
}

/// Where the schema for a document is to be read from.
pub enum SchemaSource {
    /// The input given with `--schema`; `origin` names it (`<stdin>` for
    /// standard input).
    Given { origin: String },
    /// The file that the document's `[toml-schema].location` names.
    Located { location: String },
}

/// Where the schema for a document comes from: the `--schema` input where one
/// is given, else the document's `[toml-schema].location`; where neither is
/// there, `NoSchemaArgument`.
pub open spec fn schema_chosen(r: Result<SchemaSource, TsError>, schema_arg: Option<InputPath>, doc: Map<Seq<char>, TomlNode>) -> bool {
    match schema_arg {
        Some(InputPath::Stdin) => r matches Ok(SchemaSource::Given { origin }) && origin@ == stdin_name(),
        Some(InputPath::File(p)) => r matches Ok(SchemaSource::Given { origin }) && origin@ == p@,
        None => match header_location(doc) {
            Some(l) => r matches Ok(SchemaSource::Located { location }) && location@ == l,
            None => r matches Err(TsError::NoSchemaArgument),
        },
    }
}

/// Where the schema for a document comes from; see [`schema_chosen`].
pub fn locate_schema(schema_arg: &Option<InputPath>, doc: &toml::Table) -> (r: Result<SchemaSource, TsError>)
    ensures
        schema_chosen(r, *schema_arg, table_view(*doc)),
{
    match schema_arg {
        Some(arg) => {
            let origin = arg.path_ref().or_stdin();
            Ok(SchemaSource::Given { origin })
        },
        None => match schema_location(doc) {
            Some(location) => Ok(SchemaSource::Located { location }),
            None => Err(TsError::NoSchemaArgument),
        },
    }
}

/// The text of the schema that schema files themselves must match: a
/// `[toml-schema]` header, custom `[types]` and the `[elements]` that
/// documents may hold.
pub open spec fn canonical_schema_text() -> Seq<char> {
    "[toml-schema]\ntype = \"anything\"\nversion = \"1.0.0\"\n\n[types]\ntype = \"anything\"\ndefault = {}\n\n[elements]\ntype = \"anything\"\ndefault = {}\n"@
}

/// The schema that schema files themselves must match, made from
/// [`canonical_schema_text`].
pub fn canon_schema() -> (r: Result<Schema, TsError>)
    ensures
        match toml_document(canonical_schema_text()) {
            None => match r {
                Err(TsError::BadToml(e)) => e@ == toml_error_text(canonical_schema_text()),
                _ => false,
            },
            Some(doc) => schema_made(r, None, doc),
        },
{
    Schema::from_toml_str(
        "[toml-schema]\ntype = \"anything\"\nversion = \"1.0.0\"\n\n[types]\ntype = \"anything\"\ndefault = {}\n\n[elements]\ntype = \"anything\"\ndefault = {}\n",
    )
}

/// The result that a report of errors gives on the command line: success
/// where there is no error, else `Invalid` with the errors' lines joined by
/// line breaks.
pub open spec fn is_joined_verdict(res: Result<(), TsError>, errs: Seq<(Seq<char>, Seq<char>)>) -> bool {
    match res {
        Ok(()) => errs.len() == 0,
        Err(TsError::Invalid(m)) => errs.len() > 0 && m@ == report_joined(errs),
        Err(_) => false,
    }
}

/// Validates a document against a schema, reporting the errors joined by
/// line breaks.
pub fn validate_toml_table(doc: &toml::Table, schema: &Schema) -> (r: Result<(), TsError>)
    ensures
        is_joined_verdict(r, engine_errors(schema.engine@, table_view(*doc))),
{
    let errors = schema.check(doc);
    if errors.len() == 0 {
        Ok(())
    } else {
        Err(TsError::Invalid(join_report_lines(&errors)))
    }
}

/// What checking that a table is a schema answers, once it matched the
/// canonical schema: as making a schema of it, without the schema.
pub open spec fn schema_accepted(r: Result<(), TsError>, doc: Map<Seq<char>, TomlNode>) -> bool {
    match header_version(doc) {
        None => r matches Err(TsError::MissingHeader),
        Some(v) => match semver_parts(v) {
            None => match r {
                Err(TsError::BadVersion(e)) => e@ == semver_error_text(v),
                _ => false,
            },
            Some(_) => match schema_compile_error(doc) {
                Some(m) => match r {
                    Err(TsError::BadSchema(e)) => e@ == m,
                    _ => false,
                },
                None => r is Ok,
            },
        },
    }
}

/// What checking a schema file answers: where the canonical schema (compiled
/// from `canonical`) finds errors, their report joined by line breaks; else as
/// making a schema of the file.
pub open spec fn tosd_checked(r: Result<(), TsError>, canonical: Map<Seq<char>, TomlNode>, doc: Map<Seq<char>, TomlNode>) -> bool {
    if engine_errors(canonical, doc).len() > 0 {
        is_joined_verdict(r, engine_errors(canonical, doc))
    } else {
        schema_accepted(r, doc)
    }
}

/// Checks that a table is a valid schema file: it must match the canonical
/// schema, whose errors are reported joined by line breaks, and then make a
/// schema.
pub fn validate_tosd_table(tosd: toml::Table, canonical: &Schema) -> (r: Result<(), TsError>)
    ensures
        tosd_checked(r, canonical.engine@, table_view(tosd)),
{
    let errors = canonical.check(&tosd);
    if errors.len() > 0 {
        return Err(TsError::Invalid(join_report_lines(&errors)));
    }
    match Schema::from_table(tosd) {
        Ok(_) => Ok(()),
        Err(e) => Err(e),
    }
}

/// Parses the text of a TOML document.
pub fn parse_toml_text(text: &str) -> (r: Result<toml::Table, TsError>)
    ensures
        match toml_document(text@) {
            None => match r {
                Err(TsError::BadToml(e)) => e@ == toml_error_text(text@),
                _ => false,
            },
            Some(doc) => r matches Ok(t) && table_view(t) == doc,
        },
{
    match parse_document(text) {
        Ok(table) => Ok(table),
        Err(m) => Err(TsError::BadToml(m)),
    }
}

/// Parses a document's text and finds where its schema comes from; see
/// [`schema_chosen`]. The parsed document is returned with the source.
pub fn locate_schema_in_text(doc_text: &str, schema_arg: &Option<InputPath>) -> (r: Result<(toml::Table, SchemaSource), TsError>)
    ensures
        match toml_document(doc_text@) {
            None => match r {
                Err(TsError::BadToml(e)) => e@ == toml_error_text(doc_text@),
                _ => false,
            },
            Some(doc) => match r {
                Ok((t, source)) => table_view(t) == doc && schema_chosen(Ok(source), *schema_arg, doc),
                Err(e) => schema_chosen(Err(e), *schema_arg, doc),
            },
        },
{
    match parse_document(doc_text) {
        Ok(table) => match locate_schema(schema_arg, &table) {
            Ok(source) => Ok((table, source)),
            Err(e) => Err(e),
        },
        Err(m) => Err(TsError::BadToml(m)),
    }
}

/// Reads a schema from the text of a TOML document, with the given origin;
/// see [`Schema::from_table_at`].
pub fn schema_from_text_at(origin: String, text: &str) -> (r: Result<Schema, TsError>)
    ensures
        match toml_document(text@) {
            None => match r {
                Err(TsError::BadToml(e)) => e@ == toml_error_text(text@),
                _ => false,
            },
            Some(doc) => schema_made(r, Some(origin), doc),
        },
{
    match parse_document(text) {
        Ok(table) => Schema::from_table_at(Some(origin), table),
        Err(m) => Err(TsError::BadToml(m)),
    }
}

/// Checks that the text of a TOML document is a valid schema file; see
/// [`validate_tosd_table`].
pub fn validate_tosd_text(text: &str, canonical: &Schema) -> (r: Result<(), TsError>)
    ensures
        match toml_document(text@) {
            None => match r {
                Err(TsError::BadToml(e)) => e@ == toml_error_text(text@),
                _ => false,
            },
            Some(doc) => tosd_checked(r, canonical.engine@, doc),
        },
{
    match parse_document(text) {
        Ok(table) => validate_tosd_table(table, canonical),
        Err(m) => Err(TsError::BadToml(m)),
    }
}

/// The library and the command line give the same verdict on the same
/// errors: both succeed exactly when there is no error, and the library's
/// report is the command line's report followed by a line break.
pub proof fn lemma_verdicts_agree(lib: Result<(), TsError>, cli: Result<(), TsError>, errs: Seq<(Seq<char>, Seq<char>)>)
    requires
        is_verdict(lib, errs),
        is_joined_verdict(cli, errs),
    ensures
        lib is Ok <==> cli is Ok,
        lib matches Err(TsError::Invalid(a)) ==> cli matches Err(TsError::Invalid(b)) && a@ == b@ + "\n"@,
{
    lemma_lines_are_joined_plus_break(errs);
}

/// Checking a schema file, once the canonical schema accepts it, refuses
/// exactly what making a schema of it refuses, and with the same error.
pub proof fn lemma_tosd_check_agrees_with_schema(
    made: Result<Schema, TsError>,
    origin: Option<String>,
    checked: Result<(), TsError>,
    doc: Map<Seq<char>, TomlNode>,
)
    requires
        schema_made(made, origin, doc),
        schema_accepted(checked, doc),
    ensures
        made is Ok <==> checked is Ok,
        made matches Err(TsError::MissingHeader) <==> checked matches Err(TsError::MissingHeader),
        made matches Err(TsError::BadVersion(_)) <==> checked matches Err(TsError::BadVersion(_)),
        made matches Err(TsError::BadVersion(a)) ==> checked matches Err(TsError::BadVersion(b)) && a@ == b@,
        made matches Err(TsError::BadSchema(a)) ==> checked matches Err(TsError::BadSchema(b)) && a@ == b@,
{
}

/// A `--schema` input always decides where the schema comes from: the source
/// is that input, named by its path or `<stdin>`, whatever the document holds,
/// whether it names a `[toml-schema].location` or not.
pub proof fn lemma_schema_argument_wins(r: Result<SchemaSource, TsError>, arg: InputPath, doc: Map<Seq<char>, TomlNode>)
    requires
        schema_chosen(r, Some(arg), doc),
    ensures
        r matches Ok(SchemaSource::Given { origin }) && origin@ == match arg {
            InputPath::Stdin => "<stdin>"@,
            InputPath::File(p) => p@,
        },
{
}

/// Without a `--schema` input, the schema is the one the document's
/// `[toml-schema].location` names, and there is none to use where the
/// document names no location.
pub proof fn lemma_location_without_argument(r: Result<SchemaSource, TsError>, doc: Map<Seq<char>, TomlNode>)
    requires
        schema_chosen(r, None, doc),
    ensures
        header_location(doc) matches Some(l) ==> r matches Ok(SchemaSource::Located { location }) && location@ == l,
        header_location(doc) is None ==> r matches Err(TsError::NoSchemaArgument),
{
}

/// On the command line, validating a document with a schema answers `Ok`
/// exactly when the engine's check of the schema's source table against the
/// whole document reports nothing, and else `Invalid` with the line
/// `[]: message` of the engine's message, with no line break after it.
pub proof fn lemma_command_line_validation(
    r: Result<(), TsError>,
    src: Map<Seq<char>, TomlNode>,
    doc: Map<Seq<char>, TomlNode>,
)
    requires
        is_joined_verdict(r, engine_errors(src, doc)),
    ensures
        r is Ok <==> schema_check(src, doc) is None,
        schema_check(src, doc) matches Some(m) ==> r matches Err(TsError::Invalid(t)) && t@ == "[]: "@ + m,
{
    reveal_strlit("[");
    reveal_strlit("]: ");
    reveal_strlit("[]: ");
    if let Some(m) = schema_check(src, doc) {
        lemma_report_of_one_error((Seq::<char>::empty(), m));
        assert(engine_errors(src, doc) == seq![(Seq::<char>::empty(), m)]);
        assert("["@ + Seq::<char>::empty() + "]: "@ + m =~= "[]: "@ + m);
    }
}

} // verus!
