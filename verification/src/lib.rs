//! Validation of package manifests: checks that the `[package]` section of a
//! manifest document carries the metadata fields required before publishing,
//! and reports one fixed message for each rule that is not met.

use vstd::prelude::*;

pub mod checks;
pub mod laws;
pub mod parse;

pub use checks::check_fields;

verus! {

/// The views of a sequence of field names, one `Seq<char>` per name.
pub open spec fn names_of(names: Seq<String>) -> Seq<Seq<char>> {
    names.map_values(|n: String| n@)
}

/// The message reported when the document parses but holds no `[package]`
/// table.
pub open spec fn missing_section_message() -> Seq<char> {
    "package section is missing"@
}

/// What validating manifest text yields: the parser's message alone when the
/// text is malformed, a message of its own when the text holds no
/// `[package]` table, and otherwise the outcome of checking the fixed rules
/// against that table's field names.
pub open spec fn spec_validate(manifest: Seq<char>) -> Result<(), Seq<Seq<char>>> {
    match parse::section_fields_of(manifest, "package"@) {
        Err(message) => Err(seq![message]),
        Ok(None) => Err(seq![missing_section_message()]),
        Ok(Some(fields)) => checks::spec_check(fields),
    }
}

/// Validates manifest text: parses it and checks that the `[package]`
/// section carries every required field or field group.
///
/// The result is pinned to `spec_validate` of the text alone, so two calls
/// on the same text yield the same result. An error list is never empty.
pub fn validate(cargo_toml: &str) -> (result: Result<(), Vec<String>>)
    ensures
        checks::validation_view(result) == spec_validate(cargo_toml@),
        result matches Err(errors) ==> errors@.len() > 0,
{
    match parse::parse_section_fields(cargo_toml, "package") {
        Err(message) => {
            let ghost m = message@;
            let mut errors: Vec<String> = Vec::new();
            errors.push(message);
            proof {
                assert(names_of(errors@) =~= seq![m]);
            }
            Err(errors)
        },
        Ok(None) => {
            let mut errors: Vec<String> = Vec::new();
            errors.push("package section is missing".to_owned());
            proof {
                assert(names_of(errors@) =~= seq![missing_section_message()]);
            }
            Err(errors)
        },
        Ok(Some(fields)) => checks::check_fields(&fields),
    }
}

} // verus!
