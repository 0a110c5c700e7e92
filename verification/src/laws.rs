//! Properties of the rule evaluation that hold for every manifest, stated
//! and proved once over the specification-level model.

use vstd::prelude::*;
use crate::checks::{
    RuleModel, failures_of, rule_fails, rule_message, spec_check, spec_errors, the_rules,
};
use crate::parse::section_fields_of;
use crate::spec_validate;

verus! {

/// When every rule fails, the failure list carries every rule's message, in
/// rule order.
proof fn lemma_failures_when_all_fail(rules: Seq<RuleModel>, fields: Seq<Seq<char>>)
    requires
        forall|i: int| 0 <= i < rules.len() ==> rule_fails(#[trigger] rules[i], fields),
    ensures
        failures_of(rules, fields) == rules.map_values(|r: RuleModel| rule_message(r)),
    decreases rules.len(),
{
    let messages = rules.map_values(|r: RuleModel| rule_message(r));
    if rules.len() == 0 {
        assert(failures_of(rules, fields) =~= messages);
    } else {
        let sub = rules.drop_last();
        assert forall|i: int| 0 <= i < sub.len() implies rule_fails(#[trigger] sub[i], fields) by {
            assert(sub[i] == rules[i]);
        }
        lemma_failures_when_all_fail(sub, fields);
        assert(rules[rules.len() - 1] == rules.last());
        assert(failures_of(rules, fields) =~= messages);
    }
}

/// When no rule fails, the failure list is empty.
proof fn lemma_failures_when_none_fail(rules: Seq<RuleModel>, fields: Seq<Seq<char>>)
    requires
        forall|i: int| 0 <= i < rules.len() ==> !rule_fails(#[trigger] rules[i], fields),
    ensures
        failures_of(rules, fields) == Seq::<Seq<char>>::empty(),
    decreases rules.len(),
{
    if rules.len() > 0 {
        let sub = rules.drop_last();
        assert forall|i: int| 0 <= i < sub.len() implies !rule_fails(#[trigger] sub[i], fields) by {
            assert(sub[i] == rules[i]);
        }
        lemma_failures_when_none_fail(sub, fields);
        assert(rules[rules.len() - 1] == rules.last());
        assert(failures_of(rules, fields) =~= Seq::<Seq<char>>::empty());
    }
}

/// A message belonging only to rules that hold never appears in the failure
/// list.
proof fn lemma_passed_message_absent(rules: Seq<RuleModel>, fields: Seq<Seq<char>>, message: Seq<char>)
    requires
        forall|i: int|
            0 <= i < rules.len() && rule_message(#[trigger] rules[i]) == message ==> !rule_fails(
                rules[i],
                fields,
            ),
    ensures
        !failures_of(rules, fields).contains(message),
    decreases rules.len(),
{
    if rules.len() > 0 {
        let sub = rules.drop_last();
        assert forall|i: int|
            0 <= i < sub.len() && rule_message(#[trigger] sub[i]) == message implies !rule_fails(
            sub[i],
            fields,
        ) by {
            assert(sub[i] == rules[i]);
        }
        lemma_passed_message_absent(sub, fields, message);
        let failures = failures_of(rules, fields);
        let sub_failures = failures_of(sub, fields);
        assert(rules[rules.len() - 1] == rules.last());
        assert forall|k: int| 0 <= k < failures.len() implies failures[k] != message by {
            if k < sub_failures.len() {
                assert(failures[k] == sub_failures[k]);
            } else {
                assert(rule_fails(rules.last(), fields));
                assert(failures[k] == rule_message(rules.last()));
            }
        }
    }
}

/// A manifest section that lacks `description`, lacks both `license` and
/// `license-file`, and lacks both `homepage` and `repository` fails the
/// check with exactly the three rule messages, in rule order.
pub proof fn lemma_all_rules_fail(fields: Seq<Seq<char>>)
    requires
        !fields.contains("description"@),
        !fields.contains("license"@),
        !fields.contains("license-file"@),
        !fields.contains("homepage"@),
        !fields.contains("repository"@),
    ensures
        spec_check(fields) == Err::<(), Seq<Seq<char>>>(
            seq![
                "Description is missing"@,
                "license or license-file is missing"@,
                "homepage or repository are missing"@,
            ],
        ),
        spec_errors(fields).len() == 3,
{
    assert forall|i: int| 0 <= i < the_rules().len() implies rule_fails(
        #[trigger] the_rules()[i],
        fields,
    ) by {
        if i == 0 {
            assert(the_rules()[0] == RuleModel::Required {
                key: "description"@,
                message: "Description is missing"@,
            });
        } else if i == 1 {
            assert(the_rules()[1] == RuleModel::Either {
                key: "license"@,
                alt: "license-file"@,
                message: "license or license-file is missing"@,
            });
        } else {
            assert(the_rules()[2] == RuleModel::Either {
                key: "homepage"@,
                alt: "repository"@,
                message: "homepage or repository are missing"@,
            });
        }
    }
    lemma_failures_when_all_fail(the_rules(), fields);
    assert(spec_errors(fields) =~= seq![
        "Description is missing"@,
        "license or license-file is missing"@,
        "homepage or repository are missing"@,
    ]);
}

/// A manifest section with `description`, with `license` or `license-file`,
/// and with `homepage` or `repository` passes the check with no errors.
pub proof fn lemma_complete_manifest_passes(fields: Seq<Seq<char>>)
    requires
        fields.contains("description"@),
        fields.contains("license"@) || fields.contains("license-file"@),
        fields.contains("homepage"@) || fields.contains("repository"@),
    ensures
        spec_check(fields) == Ok::<(), Seq<Seq<char>>>(()),
{
    assert forall|i: int| 0 <= i < the_rules().len() implies !rule_fails(
        #[trigger] the_rules()[i],
        fields,
    ) by {
        if i == 0 {
            assert(the_rules()[0] == RuleModel::Required {
                key: "description"@,
                message: "Description is missing"@,
            });
        } else if i == 1 {
            assert(the_rules()[1] == RuleModel::Either {
                key: "license"@,
                alt: "license-file"@,
                message: "license or license-file is missing"@,
            });
        } else {
            assert(the_rules()[2] == RuleModel::Either {
                key: "homepage"@,
                alt: "repository"@,
                message: "homepage or repository are missing"@,
            });
        }
    }
    lemma_failures_when_none_fail(the_rules(), fields);
}

/// Either/or semantics of the license rule: a section holding `license`, or
/// holding `license-file`, never draws the license message.
pub proof fn lemma_license_either_or(fields: Seq<Seq<char>>)
    requires
        fields.contains("license"@) || fields.contains("license-file"@),
    ensures
        !spec_errors(fields).contains("license or license-file is missing"@),
{
    reveal_strlit("Description is missing");
    reveal_strlit("license or license-file is missing");
    reveal_strlit("homepage or repository are missing");
    let message = "license or license-file is missing"@;
    assert forall|i: int|
        0 <= i < the_rules().len() && rule_message(#[trigger] the_rules()[i])
            == message implies !rule_fails(the_rules()[i], fields) by {
        assert("Description is missing"@.len() != message.len());
        assert("homepage or repository are missing"@[0] != message[0]);
        assert(the_rules()[1] == RuleModel::Either {
            key: "license"@,
            alt: "license-file"@,
            message: "license or license-file is missing"@,
        });
    }
    lemma_passed_message_absent(the_rules(), fields, message);
}

/// Either/or semantics of the homepage rule: a section holding `homepage`,
/// or holding `repository`, never draws the homepage message.
pub proof fn lemma_homepage_either_or(fields: Seq<Seq<char>>)
    requires
        fields.contains("homepage"@) || fields.contains("repository"@),
    ensures
        !spec_errors(fields).contains("homepage or repository are missing"@),
{
    reveal_strlit("Description is missing");
    reveal_strlit("license or license-file is missing");
    reveal_strlit("homepage or repository are missing");
    let message = "homepage or repository are missing"@;
    assert forall|i: int|
        0 <= i < the_rules().len() && rule_message(#[trigger] the_rules()[i])
            == message implies !rule_fails(the_rules()[i], fields) by {
        assert("Description is missing"@.len() != message.len());
        assert("license or license-file is missing"@[0] != message[0]);
        assert(the_rules()[2] == RuleModel::Either {
            key: "homepage"@,
            alt: "repository"@,
            message: "homepage or repository are missing"@,
        });
    }
    lemma_passed_message_absent(the_rules(), fields, message);
}

/// Malformed input draws exactly one error, the parser's message, whatever
/// fields the text would otherwise have held.
pub proof fn lemma_syntax_error_single_message(manifest: Seq<char>)
    requires
        section_fields_of(manifest, "package"@) is Err,
    ensures
        spec_validate(manifest) == Err::<(), Seq<Seq<char>>>(
            seq![section_fields_of(manifest, "package"@)->Err_0],
        ),
        spec_validate(manifest)->Err_0.len() == 1,
{
}

} // verus!
