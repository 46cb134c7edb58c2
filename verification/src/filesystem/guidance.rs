//! What is told of the rules that have no pattern.

use vstd::prelude::*;
use crate::filesystem::advice;
use crate::filesystem::rules;
use crate::pack::PatternSuggestion;
use crate::text::{chars_of, is_str};

verus! {

/// What is told of a rule that only the arguments of a command can meet: what to
/// know of it, and safer commands.
pub open spec fn classifier_guidance(name: Seq<char>) -> Option<
    (&'static str, Seq<PatternSuggestion>),
> {
    if name == rules::RM_RECURSIVE_GENERAL_NAME@ {
        Some((rules::RM_RECURSIVE_GENERAL_EXPLANATION, advice::rm_recursive_advice()))
    } else if name == rules::RM_RECURSIVE_ROOT_HOME_NAME@ {
        Some((rules::RM_RECURSIVE_ROOT_HOME_EXPLANATION, advice::rm_rf_root_home_advice()))
    } else if name == rules::RM_RECURSIVE_UNVERIFIED_NAME@ {
        Some(
            (
                rules::RM_RECURSIVE_UNVERIFIED_EXPLANATION,
                advice::rm_recursive_unverified_advice(),
            ),
        )
    } else if name == rules::POWERSHELL_REMOVE_ITEM_RECURSIVE_NAME@ {
        Some(
            (
                rules::POWERSHELL_REMOVE_ITEM_RECURSIVE_EXPLANATION,
                advice::powershell_remove_item_recursive_advice(),
            ),
        )
    } else if name == rules::RM_BARE_GLOB_NAME@ {
        Some((rules::RM_BARE_GLOB_EXPLANATION, advice::rm_bare_glob_advice()))
    } else if name == rules::RM_BARE_GLOB_ROOT_NAME@ {
        Some((rules::RM_BARE_GLOB_ROOT_EXPLANATION, advice::rm_bare_glob_advice()))
    } else {
        None
    }
}

/// What is told of a rule that only the arguments of a command can meet. A rule
/// with a pattern has its text there.
pub fn classifier_rule_guidance(name: &str) -> (r: Option<(&'static str, Vec<PatternSuggestion>)>)
    ensures
        match r {
            Some((explanation, suggestions)) => classifier_guidance(name@) == Some(
                (explanation, suggestions@),
            ),
            None => classifier_guidance(name@) is None,
        },
{
    let chars = chars_of(name);
    let s = chars.as_slice();
    if is_str(s, rules::RM_RECURSIVE_GENERAL_NAME) {
        Some((rules::RM_RECURSIVE_GENERAL_EXPLANATION, advice::make_rm_recursive_advice()))
    } else if is_str(s, rules::RM_RECURSIVE_ROOT_HOME_NAME) {
        Some((rules::RM_RECURSIVE_ROOT_HOME_EXPLANATION, advice::make_rm_rf_root_home_advice()))
    } else if is_str(s, rules::RM_RECURSIVE_UNVERIFIED_NAME) {
        Some(
            (
                rules::RM_RECURSIVE_UNVERIFIED_EXPLANATION,
                advice::make_rm_recursive_unverified_advice(),
            ),
        )
    } else if is_str(s, rules::POWERSHELL_REMOVE_ITEM_RECURSIVE_NAME) {
        Some(
            (
                rules::POWERSHELL_REMOVE_ITEM_RECURSIVE_EXPLANATION,
                advice::make_powershell_remove_item_recursive_advice(),
            ),
        )
    } else if is_str(s, rules::RM_BARE_GLOB_NAME) {
        Some((rules::RM_BARE_GLOB_EXPLANATION, advice::make_rm_bare_glob_advice()))
    } else if is_str(s, rules::RM_BARE_GLOB_ROOT_NAME) {
        Some((rules::RM_BARE_GLOB_ROOT_EXPLANATION, advice::make_rm_bare_glob_advice()))
    } else {
        None
    }
}

/// The names of the rules that the arguments of a removal can meet.
pub open spec fn classifier_names() -> Seq<&'static str> {
    seq![
        rules::RM_RF_ROOT_HOME_NAME,
        rules::RM_R_F_SEPARATE_ROOT_HOME_NAME,
        rules::RM_RECURSIVE_FORCE_ROOT_HOME_NAME,
        rules::RM_RF_GENERAL_NAME,
        rules::RM_R_F_SEPARATE_NAME,
        rules::RM_RECURSIVE_FORCE_NAME,
        rules::RM_RECURSIVE_ROOT_HOME_NAME,
        rules::RM_RECURSIVE_GENERAL_NAME,
        rules::RM_RECURSIVE_UNVERIFIED_NAME,
        rules::POWERSHELL_REMOVE_ITEM_RECURSIVE_NAME,
        rules::RM_BARE_GLOB_NAME,
        rules::RM_BARE_GLOB_ROOT_NAME,
    ]
}

/// The names of the rules that the arguments of a removal can meet.
pub fn classifier_rule_names() -> (r: Vec<&'static str>)
    ensures
        r@ == classifier_names(),
{
    let mut v: Vec<&'static str> = Vec::new();
    v.push(rules::RM_RF_ROOT_HOME_NAME);
    v.push(rules::RM_R_F_SEPARATE_ROOT_HOME_NAME);
    v.push(rules::RM_RECURSIVE_FORCE_ROOT_HOME_NAME);
    v.push(rules::RM_RF_GENERAL_NAME);
    v.push(rules::RM_R_F_SEPARATE_NAME);
    v.push(rules::RM_RECURSIVE_FORCE_NAME);
    v.push(rules::RM_RECURSIVE_ROOT_HOME_NAME);
    v.push(rules::RM_RECURSIVE_GENERAL_NAME);
    v.push(rules::RM_RECURSIVE_UNVERIFIED_NAME);
    v.push(rules::POWERSHELL_REMOVE_ITEM_RECURSIVE_NAME);
    v.push(rules::RM_BARE_GLOB_NAME);
    v.push(rules::RM_BARE_GLOB_ROOT_NAME);
    assert(v@ =~= classifier_names());
    v
}

} // verus!
