use cargo_toml_validate::validate;

fn invalid_cargo_toml() -> String {
    "
[package]
name = \"cargo_toml_validate\"
version = \"0.1.0\"
authors = [\"Jan Schulte <hello@unexpected-co.de>\"]

[dependencies]
"
    .into()
}

fn malformed_cargo_toml() -> String {
    "
[package]
name = \"cargo_toml_validate\"
version = \"0.1.0\"
autho hulte <hello@unexpected-co.de>\"]

[dependencies]
"
    .into()
}

fn description_is_missing() -> String {
    "
[package]
name = \"cargo_toml_validate\"
version = \"2.0.0\"
authors = [\"Jan Schulte <hello@unexpected-co.de>\"]
license = \"MIT\"
repository = \"https://github.com/schultyy/cargo_toml_validate\"
"
    .into()
}

fn repository_is_missing() -> String {
    "
[package]
name = \"cargo_toml_validate\"
version = \"2.0.0\"
authors = [\"Jan Schulte <hello@unexpected-co.de>\"]
license = \"MIT\"
description = \"This and that\"
"
    .into()
}

fn license_is_missing() -> String {
    "
[package]
name = \"cargo_toml_validate\"
version = \"2.0.0\"
authors = [\"Jan Schulte <hello@unexpected-co.de>\"]
repository = \"https://github.com/schultyy/cargo_toml_validate\"
description = \"This and that\"
"
    .into()
}

fn valid_cargo_toml() -> String {
    "
[package]
name = \"cargo_toml_validate\"
version = \"2.0.0\"
authors = [\"Jan Schulte <hello@unexpected-co.de>\"]
license = \"MIT\"
description = \"This and that\"
repository = \"https://github.com/schultyy/cargo_toml_validate\"
"
    .into()
}

fn with_license_file() -> String {
    "
[package]
name = \"cargo_toml_validate\"
version = \"2.0.0\"
authors = [\"Jan Schulte <hello@unexpected-co.de>\"]
license-file = \"license.md\"
description = \"This and that\"
repository = \"https://github.com/schultyy/cargo_toml_validate\"
"
    .into()
}

#[test]
fn it_should_fail_with_errors() {
    let results = validate(&invalid_cargo_toml());
    assert!(results.is_err());
    assert_eq!(3, results.unwrap_err().len());
}

#[test]
fn it_should_fail_when_cargo_toml_is_malformed() {
    let results = validate(&malformed_cargo_toml());
    assert!(results.is_err());
    assert_eq!(1, results.unwrap_err().len());
}

#[test]
fn it_should_fail_when_description_is_missing() {
    let results = validate(&description_is_missing());
    assert!(results.is_err());
    assert_eq!(1, results.unwrap_err().len());
}

#[test]
fn it_should_fail_when_license_is_missing() {
    let results = validate(&license_is_missing());
    assert!(results.is_err());
    assert_eq!(1, results.unwrap_err().len());
}

#[test]
fn it_should_fail_when_repository_is_missing() {
    let results = validate(&repository_is_missing());
    assert!(results.is_err());
    assert_eq!(1, results.unwrap_err().len());
}

#[test]
fn it_passes_with_valid_cargo_toml() {
    let results = validate(&valid_cargo_toml());
    assert!(results.is_ok());
}

#[test]
fn it_passes_with_license_file_instead_of_license() {
    let results = validate(&with_license_file());
    assert!(results.is_ok());
}

#[test]
fn all_three_messages_come_in_rule_order() {
    let errors = validate(&invalid_cargo_toml()).unwrap_err();
    assert_eq!(
        errors,
        vec![
            "Description is missing".to_string(),
            "license or license-file is missing".to_string(),
            "homepage or repository are missing".to_string(),
        ]
    );
}

#[test]
fn missing_description_gives_its_exact_message() {
    let errors = validate(&description_is_missing()).unwrap_err();
    assert_eq!(errors, vec!["Description is missing".to_string()]);
}

#[test]
fn missing_license_pair_gives_its_exact_message() {
    let errors = validate(&license_is_missing()).unwrap_err();
    assert_eq!(errors, vec!["license or license-file is missing".to_string()]);
}

#[test]
fn missing_homepage_pair_gives_its_exact_message() {
    let errors = validate(&repository_is_missing()).unwrap_err();
    assert_eq!(errors, vec!["homepage or repository are missing".to_string()]);
}

#[test]
fn unterminated_string_gives_one_error_despite_fields() {
    let manifest = "
[package]
description = \"This and that\"
license = \"MIT\"
homepage = \"https://example.invalid\"
version = \"1.0.0
";
    let errors = validate(manifest).unwrap_err();
    assert_eq!(1, errors.len());
}

#[test]
fn empty_input_reports_missing_package_section() {
    let errors = validate("").unwrap_err();
    assert_eq!(errors, vec!["package section is missing".to_string()]);
}

#[test]
fn non_table_package_entry_reports_missing_package_section() {
    let errors = validate("package = 3").unwrap_err();
    assert_eq!(errors, vec!["package section is missing".to_string()]);
}

#[test]
fn validating_twice_gives_identical_results() {
    assert_eq!(validate(&invalid_cargo_toml()), validate(&invalid_cargo_toml()));
    assert_eq!(validate(&malformed_cargo_toml()), validate(&malformed_cargo_toml()));
    assert_eq!(validate(&valid_cargo_toml()), validate(&valid_cargo_toml()));
}

#[test]
fn homepage_alone_satisfies_the_homepage_rule() {
    let manifest = "
[package]
description = \"This and that\"
license = \"MIT\"
homepage = \"https://example.invalid\"
";
    assert!(validate(manifest).is_ok());
}
