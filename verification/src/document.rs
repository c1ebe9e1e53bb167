//! TOML documents as this library reads them.
//!
//! A document is a `toml::Table`, held as it is so that it can be handed to the
//! schema engine unchanged. What the library reads of it is stated over
//! [`TomlNode`], a mathematical picture of TOML data.

use vstd::prelude::*;

verus! {

/// A TOML value as a mathematical object.
///
/// Floats are pictured by their IEEE-754 bit pattern and datetimes by the
/// text that `toml` prints for them, so two values with the same picture are
/// the same TOML value.
pub enum TomlNode {
    Str(Seq<char>),
    Int(i64),
    FloatBits(u64),
    Bool(bool),
    Datetime(Seq<char>),
    Array(Seq<TomlNode>),
    Table(Map<Seq<char>, TomlNode>),
}

#[verifier::external_type_specification]
#[verifier::external_body]
#[verifier::reject_recursive_types(K)]
#[verifier::reject_recursive_types(V)]
pub struct ExTomlMap<K, V>(toml::map::Map<K, V>);

#[verifier::external_type_specification]
#[verifier::external_body]
pub struct ExTomlValue(toml::Value);

/// What a `toml::Table` holds: each key mapped to the picture of its value.
pub uninterp spec fn table_view(t: toml::Table) -> Map<Seq<char>, TomlNode>;

/// The picture of a `toml::Value`: `String`, `Integer`, `Float`, `Boolean`,
/// `Datetime`, `Array` and `Table` become the variant of [`TomlNode`] of the
/// same rank, holding the string, the integer, the float's bits, the boolean,
/// the datetime's text, the pictures of the elements, and the table's view.
pub uninterp spec fn value_view(v: toml::Value) -> TomlNode;

/// The table that `toml::from_str` reads from a text, or `None` where the
/// text is not a TOML document.
pub uninterp spec fn toml_document(text: Seq<char>) -> Option<Map<Seq<char>, TomlNode>>;

/// The message (`toml::de::Error`'s `Display`) that `toml::from_str` gives
/// where a text is not a TOML document.
pub uninterp spec fn toml_error_text(text: Seq<char>) -> Seq<char>;

/// `toml::from_str::<toml::Table>`: parses a TOML document, its error turned
/// into the error's `Display` text.
/// Claimed: it succeeds exactly on the texts that `toml_document` maps to a
/// table, the table it returns holds that picture, and its error message is
/// the one that `toml_error_text` names.
#[verifier::external_body]
pub(crate) fn parse_document(text: &str) -> (r: Result<toml::Table, String>)
    ensures
        r is Ok <==> toml_document(text@) is Some,
        r matches Ok(t) ==> toml_document(text@) == Some(table_view(t)),
        r matches Err(m) ==> m@ == toml_error_text(text@),
{
    match toml::from_str::<toml::Table>(text) {
        Ok(t) => Ok(t),
        Err(e) => Err(e.to_string()),
    }
}

/// `toml::Table::get`: the value stored under a key.
/// Claimed: it is there exactly when the key is, and it is that key's value.
#[verifier::external_body]
pub(crate) fn table_get<'a>(t: &'a toml::Table, key: &str) -> (r: Option<&'a toml::Value>)
    ensures
        r is Some <==> table_view(*t).contains_key(key@),
        r matches Some(v) ==> value_view(*v) == table_view(*t)[key@],
{
    t.get(key)
}

/// `toml::Value::as_table`: the table that a value is, if it is one.
#[verifier::external_body]
pub(crate) fn value_as_table(v: &toml::Value) -> (r: Option<&toml::Table>)
    ensures
        r is Some <==> value_view(*v) is Table,
        r matches Some(t) ==> value_view(*v) == TomlNode::Table(table_view(*t)),
{
    v.as_table()
}

/// `toml::Value::as_str`: the string that a value is, if it is one.
#[verifier::external_body]
pub(crate) fn value_as_str(v: &toml::Value) -> (r: Option<&str>)
    ensures
        r is Some <==> value_view(*v) is Str,
        r matches Some(s) ==> value_view(*v) == TomlNode::Str(s@),
{
    v.as_str()
}

/// `Clone` of `toml::Table`: a table with the same contents.
#[verifier::external_body]
pub(crate) fn table_clone(t: &toml::Table) -> (r: toml::Table)
    ensures
        table_view(r) == table_view(*t),
{
    t.clone()
}

/// The table stored under `key` in a document picture, if that entry is a table.
pub open spec fn section(doc: Map<Seq<char>, TomlNode>, key: Seq<char>) -> Option<Map<Seq<char>, TomlNode>> {
    if doc.contains_key(key) {
        match doc[key] {
            TomlNode::Table(m) => Some(m),
            _ => None,
        }
    } else {
        None
    }
}

/// The string stored under `key` in a table picture, if that entry is a string.
pub open spec fn string_entry(doc: Map<Seq<char>, TomlNode>, key: Seq<char>) -> Option<Seq<char>> {
    if doc.contains_key(key) {
        match doc[key] {
            TomlNode::Str(s) => Some(s),
            _ => None,
        }
    } else {
        None
    }
}

/// The sub-table of `t` stored under `key`.
pub fn get_table<'a>(t: &'a toml::Table, key: &str) -> (r: Option<&'a toml::Table>)
    ensures
        r is Some <==> section(table_view(*t), key@) is Some,
        r matches Some(s) ==> section(table_view(*t), key@) == Some(table_view(*s)),
{
    match table_get(t, key) {
        Some(v) => value_as_table(v),
        None => None,
    }
}

/// The string of `t` stored under `key`.
pub fn get_string(t: &toml::Table, key: &str) -> (r: Option<String>)
    ensures
        r is Some <==> string_entry(table_view(*t), key@) is Some,
        r matches Some(s) ==> string_entry(table_view(*t), key@) == Some(s@),
{
    match table_get(t, key) {
        Some(v) => match value_as_str(v) {
            Some(s) => Some(String::from_str(s)),
            None => None,
        },
        None => None,
    }
}

} // verus!
