//! The rule set and its evaluation over the field names of a manifest's
//! `[package]` section.
//!
//! A rule demands that one field be present, or that at least one of two
//! fields be present; every failed rule contributes its fixed message, in
//! rule-declaration order.

use vstd::prelude::*;
use crate::names_of;

verus! {

/// One presence requirement on the `[package]` section.
pub enum Rule {
    /// The field `key` must be present.
    Required { key: String, message: String },
    /// At least one of `key` and `alt` must be present.
    Either { key: String, alt: String, message: String },
}

/// The mathematical model of a [`Rule`]: the same shape over `Seq<char>`.
pub enum RuleModel {
    Required { key: Seq<char>, message: Seq<char> },
    Either { key: Seq<char>, alt: Seq<char>, message: Seq<char> },
}

impl View for Rule {
    type V = RuleModel;

    open spec fn view(&self) -> RuleModel {
        match self {
            Rule::Required { key, message } => RuleModel::Required {
                key: key@,
                message: message@,
            },
            Rule::Either { key, alt, message } => RuleModel::Either {
                key: key@,
                alt: alt@,
                message: message@,
            },
        }
    }
}

/// The views of a sequence of rules.
pub open spec fn rules_view(rules: Seq<Rule>) -> Seq<RuleModel> {
    rules.map_values(|r: Rule| r@)
}

/// The message a rule reports when it fails.
pub open spec fn rule_message(rule: RuleModel) -> Seq<char> {
    match rule {
        RuleModel::Required { message, .. } => message,
        RuleModel::Either { message, .. } => message,
    }
}

/// Whether a rule fails against the given field names: a required field is
/// absent, or both fields of an either/or pair are absent.
pub open spec fn rule_fails(rule: RuleModel, fields: Seq<Seq<char>>) -> bool {
    match rule {
        RuleModel::Required { key, .. } => !fields.contains(key),
        RuleModel::Either { key, alt, .. } => !fields.contains(key) && !fields.contains(alt),
    }
}

/// The messages of the rules that fail against `fields`, in rule order.
pub open spec fn failures_of(rules: Seq<RuleModel>, fields: Seq<Seq<char>>) -> Seq<Seq<char>>
    decreases rules.len(),
{
    if rules.len() == 0 {
        Seq::empty()
    } else {
        failures_of(rules.drop_last(), fields) + if rule_fails(rules.last(), fields) {
            seq![rule_message(rules.last())]
        } else {
            Seq::empty()
        }
    }
}

/// The fixed rule set: `description` must be present; `license` or
/// `license-file` must be present; `homepage` or `repository` must be
/// present. These three rules are the whole set, by choice: no
/// `documentation`-presence rule is part of it.
pub open spec fn the_rules() -> Seq<RuleModel> {
    seq![
        RuleModel::Required { key: "description"@, message: "Description is missing"@ },
        RuleModel::Either {
            key: "license"@,
            alt: "license-file"@,
            message: "license or license-file is missing"@,
        },
        RuleModel::Either {
            key: "homepage"@,
            alt: "repository"@,
            message: "homepage or repository are missing"@,
        },
    ]
}

/// The messages of the fixed rules that fail against `fields`.
pub open spec fn spec_errors(fields: Seq<Seq<char>>) -> Seq<Seq<char>> {
    failures_of(the_rules(), fields)
}

/// What checking the fixed rules against `fields` yields: success when every
/// rule holds, otherwise the failed rules' messages in rule order.
pub open spec fn spec_check(fields: Seq<Seq<char>>) -> Result<(), Seq<Seq<char>>> {
    if spec_errors(fields).len() == 0 {
        Ok(())
    } else {
        Err(spec_errors(fields))
    }
}

/// Builds the fixed rule set as a value.
pub fn rule_set() -> (rules: Vec<Rule>)
    ensures
        rules_view(rules@) == the_rules(),
{
    let mut rules: Vec<Rule> = Vec::new();
    rules.push(
        Rule::Required {
            key: "description".to_owned(),
            message: "Description is missing".to_owned(),
        },
    );
    rules.push(
        Rule::Either {
            key: "license".to_owned(),
            alt: "license-file".to_owned(),
            message: "license or license-file is missing".to_owned(),
        },
    );
    rules.push(
        Rule::Either {
            key: "homepage".to_owned(),
            alt: "repository".to_owned(),
            message: "homepage or repository are missing".to_owned(),
        },
    );
    proof {
        assert(rules_view(rules@) =~= the_rules());
    }
    rules
}

/// Whether `fields` holds a name whose view is `name@`.
fn contains_key(fields: &Vec<String>, name: &String) -> (present: bool)
    ensures
        present == names_of(fields@).contains(name@),
{
    let mut i: usize = 0;
    while i < fields.len()
        invariant
            i <= fields.len(),
            forall|j: int| 0 <= j < i ==> names_of(fields@)[j] != name@,
        decreases fields.len() - i,
    {
        if fields[i] == *name {
            assert(names_of(fields@)[i as int] == name@);
            return true;
        }
        i += 1;
    }
    false
}

/// Whether one rule fails against the given field names.
pub fn rule_failed(rule: &Rule, fields: &Vec<String>) -> (failed: bool)
    ensures
        failed == rule_fails(rule@, names_of(fields@)),
{
    match rule {
        Rule::Required { key, .. } => !contains_key(fields, key),
        Rule::Either { key, alt, .. } => !contains_key(fields, key) && !contains_key(
            fields,
            alt,
        ),
    }
}

/// A clone of the message a rule reports.
fn message_of(rule: &Rule) -> (message: String)
    ensures
        message@ == rule_message(rule@),
{
    match rule {
        Rule::Required { message, .. } => message.clone(),
        Rule::Either { message, .. } => message.clone(),
    }
}

/// The messages of the rules that fail against `fields`, in rule order.
pub fn failed_rules(rules: &Vec<Rule>, fields: &Vec<String>) -> (errors: Vec<String>)
    ensures
        names_of(errors@) == failures_of(rules_view(rules@), names_of(fields@)),
{
    let ghost all = rules_view(rules@);
    let mut errors: Vec<String> = Vec::new();
    let mut i: usize = 0;
    proof {
        assert(names_of(errors@) =~= failures_of(all.take(0), names_of(fields@)));
    }
    while i < rules.len()
        invariant
            i <= rules.len(),
            all == rules_view(rules@),
            names_of(errors@) == failures_of(all.take(i as int), names_of(fields@)),
        decreases rules.len() - i,
    {
        let ghost before = names_of(errors@);
        if rule_failed(&rules[i], fields) {
            errors.push(message_of(&rules[i]));
            proof {
                assert(names_of(errors@) =~= before.push(rule_message(all[i as int])));
            }
        }
        proof {
            let taken = all.take(i + 1 as int);
            assert(taken.drop_last() =~= all.take(i as int));
            assert(taken.last() == all[i as int]);
            assert(names_of(errors@) =~= failures_of(taken, names_of(fields@)));
        }
        i += 1;
    }
    proof {
        assert(all.take(rules@.len() as int) =~= all);
    }
    errors
}

/// Checks the fixed rule set against the field names of a `[package]`
/// section: success when every rule holds, otherwise the failed rules'
/// messages in rule order, never an empty list.
pub fn check_fields(fields: &Vec<String>) -> (result: Result<(), Vec<String>>)
    ensures
        validation_view(result) == spec_check(names_of(fields@)),
        result matches Err(errors) ==> errors@.len() > 0,
{
    let rules = rule_set();
    let errors = failed_rules(&rules, fields);
    if errors.len() == 0 {
        proof {
            assert(names_of(errors@).len() == 0);
        }
        Ok(())
    } else {
        Err(errors)
    }
}

/// The view of a validation result: the same outcome over `Seq<char>`.
pub open spec fn validation_view(result: Result<(), Vec<String>>) -> Result<(), Seq<Seq<char>>> {
    match result {
        Ok(()) => Ok(()),
        Err(errors) => Err(names_of(errors@)),
    }
}

} // verus!
