//! The boundary to the document parser: manifest text goes in, the field
//! names of one section come out as plain values.

use vstd::prelude::*;
use crate::names_of;

verus! {

/// The outcome of parsing manifest text and reading one section of it:
/// `Err(message)` when the text is not well-formed document syntax,
/// `Ok(None)` when the text parses but holds no table under the section
/// name, and `Ok(Some(fields))` with the section table's field names
/// otherwise. The outcome is a function of the text and the section name
/// alone; stating which texts parse to what would amount to writing the
/// document grammar out, so the outcome is only named.
pub uninterp spec fn section_fields_of(manifest: Seq<char>, section: Seq<char>) -> Result<
    Option<Seq<Seq<char>>>,
    Seq<char>,
>;

/// The view of a parse outcome, in the shape that [`section_fields_of`]
/// yields.
pub open spec fn outcome_view(outcome: Result<Option<Vec<String>>, String>) -> Result<
    Option<Seq<Seq<char>>>,
    Seq<char>,
> {
    match outcome {
        Ok(Some(fields)) => Ok(Some(names_of(fields@))),
        Ok(None) => Ok(None),
        Err(message) => Err(message@),
    }
}

/// Relies on toml: `str::parse::<toml::Table>` turns given text into a fixed
/// document or a fixed error; `toml::map::Map::get` and
/// `toml::Value::as_table` look the named sub-table up in it;
/// `toml::map::Map::keys` hands that table's keys out; and
/// `toml::de::Error::message` describes the error. None of them reads
/// anything but its arguments, so the whole outcome is a function of
/// `manifest` and `section` alone, and none of them panics.
#[verifier::external_body]
pub(crate) fn parse_section_fields(manifest: &str, section: &str) -> (outcome: Result<
    Option<Vec<String>>,
    String,
>)
    ensures
        outcome_view(outcome) == section_fields_of(manifest@, section@),
{
    let document = match manifest.parse::<toml::Table>() {
        Ok(document) => document,
        Err(error) => return Err(error.message().to_owned()),
    };
    let table = match document.get(section) {
        Some(value) => match value.as_table() {
            Some(table) => table,
            None => return Ok(None),
        },
        None => return Ok(None),
    };
    Ok(Some(table.keys().cloned().collect()))
}

} // verus!
