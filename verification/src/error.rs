//! The errors of the library.

use vstd::prelude::*;

verus! {

/// Why a schema could not be made, or a document could not be validated.
#[derive(Debug)]
pub enum TsError {
    /// The text is not a TOML document; the parser's message.
    BadToml(String),
    /// The table has no `[toml-schema]` table with a string `version`.
    MissingHeader,
    /// `[toml-schema].version` is not a SemVer version; the parser's message.
    BadVersion(String),
    /// The schema engine refused the table; its message.
    BadSchema(String),
    /// No schema was given, and the document has no string `[toml-schema].location`.
    MissingLocation,
    /// No `--schema` argument was given, and the document names no schema location.
    NoSchemaArgument,
    /// The document does not match the schema; the report of what is wrong.
    Invalid(String),
}

impl TsError {
    /// The message that reports this error.
    pub fn message(&self) -> (r: String)
        ensures
            self is MissingHeader ==> r@ == "from_table(): No `[toml-schema]` table was found in the toml"@,
            self is MissingLocation ==> r@ == "validate_table(): No schema was provided, and no `[toml-schema].location` value was found in the table"@,
            self is NoSchemaArgument ==> r@ == "No `--schema` value provided and toml doesn't have a `toml-schema.location` value"@,
            self matches TsError::BadToml(m) ==> r@ == m@,
            self matches TsError::BadVersion(m) ==> r@ == m@,
            self matches TsError::BadSchema(m) ==> r@ == m@,
            self matches TsError::Invalid(m) ==> r@ == m@,
    {
        match self {
            TsError::BadToml(m) => m.clone(),
            TsError::MissingHeader => String::from_str("from_table(): No `[toml-schema]` table was found in the toml"),
            TsError::BadVersion(m) => m.clone(),
            TsError::BadSchema(m) => m.clone(),
            TsError::MissingLocation => String::from_str(
                "validate_table(): No schema was provided, and no `[toml-schema].location` value was found in the table",
            ),
            TsError::NoSchemaArgument => String::from_str(
                "No `--schema` value provided and toml doesn't have a `toml-schema.location` value",
            ),
            TsError::Invalid(m) => m.clone(),
        }
    }
}

} // verus!
