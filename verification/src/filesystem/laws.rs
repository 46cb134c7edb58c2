//! What holds of every decision on removals.

use vstd::prelude::*;
use crate::filesystem::command::{
    cmd_verdict, dialect_verdict, rm_command_verdict, segment_verdict, segments_verdict,
};
use crate::filesystem::frontends::{
    bare_command, behind_prefixes, exec_end_from, exec_verdict, find_actions_from, nested_verdict,
    unverified_verdict, xargs_command_from, MAX_RM_EXECUTION_FRONTENDS,
};
use crate::filesystem::guidance::{classifier_guidance, classifier_names};
use crate::filesystem::patterns::{
    deletion_rules, filesystem_rules, overwrite_rules, propagation_rules, relocation_rules,
    removal_rules,
};
use crate::filesystem::powershell::remove_item_verdict;
use crate::filesystem::rules;
use crate::filesystem::rules::POWERSHELL_REMOVE_ITEM_RECURSIVE_NAME;
use crate::filesystem::segment::{
    by_known_rule, only_allows, plain_denials_are_by_known_rules, plain_exemptions_only_allow,
    plain_verdict, ExemptionView, RmParseDecision,
};
use crate::filesystem::stdin::{automated_stdin, openers_end};
use crate::filesystem::texts;
use crate::pack::{guidance, named_from, named_rule_is_found, RuleView};
use crate::shell::segments::{segments, Segment};
use crate::shell::token::{tokens, NormalizeToken, ShellDialect};
use crate::text::rest;

verus! {

/// A command whose program is computed is not denied for an exemption.
proof fn unverified_exemptions_only_allow(
    s: Seq<char>,
    automated: bool,
    dialect: ShellDialect,
    ex: Seq<ExemptionView>,
)
    ensures
        only_allows(
            unverified_verdict(s, automated, dialect, ex),
            unverified_verdict(s, automated, dialect, Seq::empty()),
        ),
{
    assert forall|c: Seq<char>, a: bool| #[trigger]
        plain_verdict(c, a, ex) is Deny implies plain_verdict(c, a, Seq::empty()) is Deny by {
        plain_exemptions_only_allow(c, a, ex);
    }
}

/// A command that another program runs is not denied for an exemption.
proof fn nested_exemptions_only_allow(s: Seq<char>, suffix: Seq<char>, ex: Seq<ExemptionView>)
    ensures
        only_allows(nested_verdict(s, suffix, ex), nested_verdict(s, suffix, Seq::empty())),
{
    let (from, stdin) = behind_prefixes(s);
    let candidate = bare_command(rest(s, from), MAX_RM_EXECUTION_FRONTENDS as nat).0 + suffix;
    plain_exemptions_only_allow(candidate, stdin, ex);
    unverified_exemptions_only_allow(candidate, stdin, ShellDialect::Posix, ex);
}

/// The actions of `find` are not denied for an exemption.
proof fn find_exemptions_only_allow(
    s: Seq<char>,
    toks: Seq<NormalizeToken>,
    i: int,
    ex: Seq<ExemptionView>,
)
    ensures
        only_allows(
            find_actions_from(s, toks, i, ex),
            find_actions_from(s, toks, i, Seq::empty()),
        ),
    decreases toks.len() - i,
{
    reveal(exec_verdict);
    if 0 <= i < toks.len() {
        let end = exec_end_from(s, toks, i + 1);
        let stop = toks[end - 1].end as int;
        nested_exemptions_only_allow(
            s.subrange(toks[i + 1].start as int, stop),
            ""@,
            ex,
        );
        plain_exemptions_only_allow(
            "rm"@ + s.subrange(toks[i + 1].end as int, stop),
            false,
            ex,
        );
        find_exemptions_only_allow(s, toks, i + 1, ex);
        if i + 1 < end < toks.len() {
            find_exemptions_only_allow(s, toks, end + 1, ex);
        }
    }
}

/// A simple command is not denied for an exemption.
proof fn segment_exemptions_only_allow(s: Seq<char>, automated: bool, ex: Seq<ExemptionView>)
    ensures
        only_allows(segment_verdict(s, automated, ex), segment_verdict(s, automated, Seq::empty())),
{
    let opened = openers_end(s, 0);
    let (prefixed, stdin) = behind_prefixes(rest(s, opened));
    let bare = bare_command(
        rest(rest(s, opened), prefixed),
        MAX_RM_EXECUTION_FRONTENDS as nat,
    ).0;
    plain_exemptions_only_allow(bare, automated || stdin, ex);
    let toks = tokens(bare, ShellDialect::Unknown);
    find_exemptions_only_allow(bare, toks, 1, ex);
    if let Some(i) = xargs_command_from(bare, toks, 1) {
        nested_exemptions_only_allow(
            rest(bare, toks[i].start as int),
            " -r ./__dcg_xargs_input__"@,
            ex,
        );
    }
}

/// The segments of a command are not denied for an exemption.
proof fn segments_exemptions_only_allow(
    s: Seq<char>,
    segs: Seq<Segment>,
    i: int,
    allowed: bool,
    ex: Seq<ExemptionView>,
)
    ensures
        only_allows(
            segments_verdict(s, segs, i, allowed, ex),
            segments_verdict(s, segs, i, allowed, Seq::empty()),
        ),
    decreases segs.len() - i,
{
    if 0 <= i < segs.len() {
        let text = segs[i].of(s);
        let automated = automated_stdin(s, segs[i].start as int, ShellDialect::Posix);
        segment_exemptions_only_allow(text, automated, ex);
        let d = segment_verdict(text, automated, ex);
        if !(d is Deny) {
            segments_exemptions_only_allow(s, segs, i + 1, allowed || d is Allow, ex);
            if segment_verdict(text, automated, Seq::empty()) is Deny {
            } else {
                assert(segment_verdict(text, automated, Seq::empty()) == d);
            }
        }
    }
}

/// Exemptions never deny: a command that is denied with them is denied without
/// them, and one that is not denied without them is decided the same.
pub proof fn exemptions_only_allow(s: Seq<char>, ex: Seq<ExemptionView>)
    ensures
        only_allows(rm_command_verdict(s, ex), rm_command_verdict(s, Seq::empty())),
{
    let segs = segments(s, ShellDialect::Unknown);
    segments_exemptions_only_allow(s, segs, 0, false, ex);
    segment_exemptions_only_allow(s, false, ex);
}

/// Nor do they deny a simple command of any dialect.
pub proof fn exemptions_only_allow_in_dialect(
    s: Seq<char>,
    automated: bool,
    dialect: ShellDialect,
    ex: Seq<ExemptionView>,
)
    ensures
        only_allows(
            dialect_verdict(s, automated, dialect, ex),
            dialect_verdict(s, automated, dialect, Seq::empty()),
        ),
{
    segment_exemptions_only_allow(s, automated, ex);
    unverified_exemptions_only_allow(s, automated, dialect, ex);
    assert forall|c: Seq<char>, a: bool|
        #![trigger plain_verdict(c, a, ex)]
        only_allows(plain_verdict(c, a, ex), plain_verdict(c, a, Seq::empty())) by {
        plain_exemptions_only_allow(c, a, ex);
    }
    assert(only_allows(cmd_verdict(s, automated, ex), cmd_verdict(s, automated, Seq::empty())));
}

/// A `Remove-Item` command is denied by a known rule only.
proof fn remove_item_denials_are_by_known_rules(s: Seq<char>, automated: bool)
    ensures
        by_known_rule(remove_item_verdict(s, automated)),
{
    plain_denials_are_by_known_rules(s, automated, Seq::empty());
    assert(classifier_names()[9] == POWERSHELL_REMOVE_ITEM_RECURSIVE_NAME);
}

/// A command that another program runs is denied by a known rule only.
proof fn nested_denials_are_by_known_rules(s: Seq<char>, suffix: Seq<char>, ex: Seq<ExemptionView>)
    ensures
        by_known_rule(nested_verdict(s, suffix, ex)),
{
    let (from, stdin) = behind_prefixes(s);
    let candidate = bare_command(rest(s, from), MAX_RM_EXECUTION_FRONTENDS as nat).0 + suffix;
    plain_denials_are_by_known_rules(candidate, stdin, ex);
}

/// The actions of `find` are denied by a known rule only.
proof fn find_denials_are_by_known_rules(
    s: Seq<char>,
    toks: Seq<NormalizeToken>,
    i: int,
    ex: Seq<ExemptionView>,
)
    ensures
        by_known_rule(find_actions_from(s, toks, i, ex)),
    decreases toks.len() - i,
{
    reveal(exec_verdict);
    if 0 <= i < toks.len() {
        let end = exec_end_from(s, toks, i + 1);
        let stop = toks[end - 1].end as int;
        plain_denials_are_by_known_rules(s, false, ex);
        nested_denials_are_by_known_rules(s.subrange(toks[i + 1].start as int, stop), ""@, ex);
        find_denials_are_by_known_rules(s, toks, i + 1, ex);
        if i + 1 < end < toks.len() {
            find_denials_are_by_known_rules(s, toks, end + 1, ex);
        }
    }
}

/// A simple command is denied by a known rule only.
proof fn segment_denials_are_by_known_rules(s: Seq<char>, automated: bool, ex: Seq<ExemptionView>)
    ensures
        by_known_rule(segment_verdict(s, automated, ex)),
{
    let opened = openers_end(s, 0);
    let (prefixed, stdin) = behind_prefixes(rest(s, opened));
    let bare = bare_command(
        rest(rest(s, opened), prefixed),
        MAX_RM_EXECUTION_FRONTENDS as nat,
    ).0;
    plain_denials_are_by_known_rules(bare, automated || stdin, ex);
    let toks = tokens(bare, ShellDialect::Unknown);
    find_denials_are_by_known_rules(bare, toks, 1, ex);
    if let Some(i) = xargs_command_from(bare, toks, 1) {
        nested_denials_are_by_known_rules(
            rest(bare, toks[i].start as int),
            " -r ./__dcg_xargs_input__"@,
            ex,
        );
    }
}

/// The segments of a command are denied by a known rule only.
proof fn segments_denials_are_by_known_rules(
    s: Seq<char>,
    segs: Seq<Segment>,
    i: int,
    allowed: bool,
    ex: Seq<ExemptionView>,
)
    ensures
        by_known_rule(segments_verdict(s, segs, i, allowed, ex)),
    decreases segs.len() - i,
{
    if 0 <= i < segs.len() {
        let text = segs[i].of(s);
        let automated = automated_stdin(s, segs[i].start as int, ShellDialect::Posix);
        segment_denials_are_by_known_rules(text, automated, ex);
        let d = segment_verdict(text, automated, ex);
        segments_denials_are_by_known_rules(s, segs, i + 1, allowed || d is Allow, ex);
    }
}

/// Every denial of a removal, in a command line or in a simple command of any
/// dialect, is by one of the rules that the arguments of a removal can meet.
pub proof fn denials_are_by_known_rules(
    s: Seq<char>,
    automated: bool,
    dialect: ShellDialect,
    ex: Seq<ExemptionView>,
)
    ensures
        by_known_rule(rm_command_verdict(s, ex)),
        by_known_rule(dialect_verdict(s, automated, dialect, ex)),
{
    let segs = segments(s, ShellDialect::Unknown);
    segments_denials_are_by_known_rules(s, segs, 0, false, ex);
    segment_denials_are_by_known_rules(s, false, ex);
    segment_denials_are_by_known_rules(s, automated, ex);
    plain_denials_are_by_known_rules(s, automated, ex);
    remove_item_denials_are_by_known_rules(s, automated);
    assert forall|c: Seq<char>, a: bool| by_known_rule(#[trigger] plain_verdict(c, a, ex)) by {
        plain_denials_are_by_known_rules(c, a, ex);
    }
}

/// A denied segment, from the `i`th on, denies the command.
proof fn denied_segment_is_found(
    s: Seq<char>,
    segs: Seq<Segment>,
    i: int,
    k: int,
    allowed: bool,
    ex: Seq<ExemptionView>,
)
    requires
        0 <= i <= k < segs.len(),
        segment_verdict(
            segs[k].of(s),
            automated_stdin(s, segs[k].start as int, ShellDialect::Posix),
            ex,
        ) is Deny,
    ensures
        segments_verdict(s, segs, i, allowed, ex) is Deny,
    decreases k - i,
{
    if i < k {
        let d = segment_verdict(
            segs[i].of(s),
            automated_stdin(s, segs[i].start as int, ShellDialect::Posix),
            ex,
        );
        denied_segment_is_found(s, segs, i + 1, k, allowed || d is Allow, ex);
    }
}

/// A compound command is denied where one of its simple commands is, wherever it
/// stands and whatever the others are.
pub proof fn denied_segment_denies_command(s: Seq<char>, k: int, ex: Seq<ExemptionView>)
    requires
        segments(s, ShellDialect::Unknown).len() > 1,
        0 <= k < segments(s, ShellDialect::Unknown).len(),
        segment_verdict(
            segments(s, ShellDialect::Unknown)[k].of(s),
            automated_stdin(
                s,
                segments(s, ShellDialect::Unknown)[k].start as int,
                ShellDialect::Posix,
            ),
            ex,
        ) is Deny,
    ensures
        rm_command_verdict(s, ex) is Deny,
{
    denied_segment_is_found(s, segments(s, ShellDialect::Unknown), 0, k, false, ex);
}

/// Where no rule has a name, none is found.
proof fn unnamed_rule_is_not_found(rules: Seq<RuleView>, i: int, name: Seq<char>)
    requires
        0 <= i <= rules.len(),
        forall|k: int|
            i <= k < rules.len() ==> (#[trigger] rules[k]).name is Some && (rules[k].name->0)@
                != name,
    ensures
        named_from(rules, i, name) == rules.len(),
    decreases rules.len() - i,
{
    if i < rules.len() {
        unnamed_rule_is_not_found(rules, i + 1, name);
    }
}

/// No rule in [`propagation_rules`] has a name that stands in the table of texts.
proof fn propagation_rules_are_not_in_table(k: int)
    requires
        0 <= k < propagation_rules().len(),
    ensures
        propagation_rules()[k].name is Some,
        propagation_rules()[k].explanation is Some,
        classifier_guidance((propagation_rules()[k].name->0)@) is None,
{
    reveal_strlit("cp-sensitive-then-delete");
    reveal_strlit("ln-symlink-sensitive-then-delete");
    reveal_strlit("powershell-remove-item-recursive");
    reveal_strlit("rm-bare-glob");
    reveal_strlit("rm-bare-glob-root");
    reveal_strlit("rm-recursive-general");
    reveal_strlit("rm-recursive-root-home");
    reveal_strlit("rm-recursive-unverified");
    reveal_strlit("rsync-sensitive-then-delete");
    reveal_strlit("sed-exec-unverified");
    assert(texts::LN_SYMLINK_SENSITIVE_THEN_DELETE_NAME@[0] != rules::POWERSHELL_REMOVE_ITEM_RECURSIVE_NAME@[0]);
    assert(rules::RM_RECURSIVE_GENERAL_NAME@.len() == 20);
    assert(rules::RM_RECURSIVE_ROOT_HOME_NAME@.len() == 22);
    assert(rules::RM_RECURSIVE_UNVERIFIED_NAME@.len() == 23);
    assert(rules::POWERSHELL_REMOVE_ITEM_RECURSIVE_NAME@.len() == 32);
    assert(rules::RM_BARE_GLOB_NAME@.len() == 12);
    assert(rules::RM_BARE_GLOB_ROOT_NAME@.len() == 17);
    assert(texts::SED_EXEC_UNVERIFIED_NAME@.len() == 19);
    assert(texts::CP_SENSITIVE_THEN_DELETE_NAME@.len() == 24);
    assert(texts::LN_SYMLINK_SENSITIVE_THEN_DELETE_NAME@.len() == 32);
    assert(texts::RSYNC_SENSITIVE_THEN_DELETE_NAME@.len() == 27);
    assert(propagation_rules()[0].name == Some(texts::SED_EXEC_UNVERIFIED_NAME));
    assert(propagation_rules()[1].name == Some(texts::CP_SENSITIVE_THEN_DELETE_NAME));
    assert(propagation_rules()[2].name == Some(texts::LN_SYMLINK_SENSITIVE_THEN_DELETE_NAME));
    assert(propagation_rules()[3].name == Some(texts::RSYNC_SENSITIVE_THEN_DELETE_NAME));
}

/// No rule in [`removal_rules`] has a name that stands in the table of texts.
proof fn removal_rules_are_not_in_table(k: int)
    requires
        0 <= k < removal_rules().len(),
    ensures
        removal_rules()[k].name is Some,
        removal_rules()[k].explanation is Some,
        classifier_guidance((removal_rules()[k].name->0)@) is None,
{
    reveal_strlit("powershell-remove-item-recursive");
    reveal_strlit("rm-bare-glob");
    reveal_strlit("rm-bare-glob-root");
    reveal_strlit("rm-glob-home");
    reveal_strlit("rm-r-f-separate");
    reveal_strlit("rm-r-f-separate-root-home");
    reveal_strlit("rm-recursive-force-long");
    reveal_strlit("rm-recursive-force-root-home");
    reveal_strlit("rm-recursive-general");
    reveal_strlit("rm-recursive-root-home");
    reveal_strlit("rm-recursive-unverified");
    reveal_strlit("rm-rf-general");
    reveal_strlit("rm-rf-root-home");
    assert(texts::RM_GLOB_HOME_NAME@[3] != rules::RM_BARE_GLOB_NAME@[3]);
    assert(rules::RM_RECURSIVE_FORCE_NAME@[13] != rules::RM_RECURSIVE_UNVERIFIED_NAME@[13]);
    assert(rules::RM_RECURSIVE_GENERAL_NAME@.len() == 20);
    assert(rules::RM_RECURSIVE_ROOT_HOME_NAME@.len() == 22);
    assert(rules::RM_RECURSIVE_UNVERIFIED_NAME@.len() == 23);
    assert(rules::POWERSHELL_REMOVE_ITEM_RECURSIVE_NAME@.len() == 32);
    assert(rules::RM_BARE_GLOB_NAME@.len() == 12);
    assert(rules::RM_BARE_GLOB_ROOT_NAME@.len() == 17);
    assert(rules::RM_RF_ROOT_HOME_NAME@.len() == 15);
    assert(rules::RM_R_F_SEPARATE_ROOT_HOME_NAME@.len() == 25);
    assert(rules::RM_RECURSIVE_FORCE_ROOT_HOME_NAME@.len() == 28);
    assert(rules::RM_RF_GENERAL_NAME@.len() == 13);
    assert(texts::RM_GLOB_HOME_NAME@.len() == 12);
    assert(rules::RM_R_F_SEPARATE_NAME@.len() == 15);
    assert(rules::RM_RECURSIVE_FORCE_NAME@.len() == 23);
    assert(removal_rules()[0].name == Some(rules::RM_RF_ROOT_HOME_NAME));
    assert(removal_rules()[1].name == Some(rules::RM_R_F_SEPARATE_ROOT_HOME_NAME));
    assert(removal_rules()[2].name == Some(rules::RM_RECURSIVE_FORCE_ROOT_HOME_NAME));
    assert(removal_rules()[3].name == Some(rules::RM_RF_GENERAL_NAME));
    assert(removal_rules()[4].name == Some(texts::RM_GLOB_HOME_NAME));
    assert(removal_rules()[5].name == Some(rules::RM_R_F_SEPARATE_NAME));
    assert(removal_rules()[6].name == Some(rules::RM_RECURSIVE_FORCE_NAME));
}

/// No rule in [`deletion_rules`] has a name that stands in the table of texts.
proof fn deletion_rules_are_not_in_table(k: int)
    requires
        0 <= k < deletion_rules().len(),
    ensures
        deletion_rules()[k].name is Some,
        deletion_rules()[k].explanation is Some,
        classifier_guidance((deletion_rules()[k].name->0)@) is None,
{
    reveal_strlit("find-delete-general");
    reveal_strlit("find-delete-root-home");
    reveal_strlit("powershell-remove-item-recursive");
    reveal_strlit("rm-bare-glob");
    reveal_strlit("rm-bare-glob-root");
    reveal_strlit("rm-recursive-general");
    reveal_strlit("rm-recursive-root-home");
    reveal_strlit("rm-recursive-unverified");
    reveal_strlit("truncate-zero-general");
    reveal_strlit("truncate-zero-root-home");
    reveal_strlit("unlink-general");
    reveal_strlit("unlink-root-home");
    assert(texts::TRUNCATE_ZERO_ROOT_HOME_NAME@[0] != rules::RM_RECURSIVE_UNVERIFIED_NAME@[0]);
    assert(rules::RM_RECURSIVE_GENERAL_NAME@.len() == 20);
    assert(rules::RM_RECURSIVE_ROOT_HOME_NAME@.len() == 22);
    assert(rules::RM_RECURSIVE_UNVERIFIED_NAME@.len() == 23);
    assert(rules::POWERSHELL_REMOVE_ITEM_RECURSIVE_NAME@.len() == 32);
    assert(rules::RM_BARE_GLOB_NAME@.len() == 12);
    assert(rules::RM_BARE_GLOB_ROOT_NAME@.len() == 17);
    assert(texts::FIND_DELETE_ROOT_HOME_NAME@.len() == 21);
    assert(texts::FIND_DELETE_GENERAL_NAME@.len() == 19);
    assert(texts::UNLINK_ROOT_HOME_NAME@.len() == 16);
    assert(texts::UNLINK_GENERAL_NAME@.len() == 14);
    assert(texts::TRUNCATE_ZERO_ROOT_HOME_NAME@.len() == 23);
    assert(texts::TRUNCATE_ZERO_GENERAL_NAME@.len() == 21);
    assert(deletion_rules()[0].name == Some(texts::FIND_DELETE_ROOT_HOME_NAME));
    assert(deletion_rules()[1].name == Some(texts::FIND_DELETE_GENERAL_NAME));
    assert(deletion_rules()[2].name == Some(texts::UNLINK_ROOT_HOME_NAME));
    assert(deletion_rules()[3].name == Some(texts::UNLINK_GENERAL_NAME));
    assert(deletion_rules()[4].name == Some(texts::TRUNCATE_ZERO_ROOT_HOME_NAME));
    assert(deletion_rules()[5].name == Some(texts::TRUNCATE_ZERO_GENERAL_NAME));
}

/// No rule in [`overwrite_rules`] has a name that stands in the table of texts.
proof fn overwrite_rules_are_not_in_table(k: int)
    requires
        0 <= k < overwrite_rules().len(),
    ensures
        overwrite_rules()[k].name is Some,
        overwrite_rules()[k].explanation is Some,
        classifier_guidance((overwrite_rules()[k].name->0)@) is None,
{
    reveal_strlit("dd-overwrite-general");
    reveal_strlit("dd-overwrite-root-home");
    reveal_strlit("powershell-remove-item-recursive");
    reveal_strlit("rm-bare-glob");
    reveal_strlit("rm-bare-glob-root");
    reveal_strlit("rm-recursive-general");
    reveal_strlit("rm-recursive-root-home");
    reveal_strlit("rm-recursive-unverified");
    reveal_strlit("shred-general");
    reveal_strlit("shred-root-home");
    reveal_strlit("tar-remove-files-general");
    reveal_strlit("tar-remove-files-root-home");
    assert(texts::DD_OVERWRITE_ROOT_HOME_NAME@[0] != rules::RM_RECURSIVE_ROOT_HOME_NAME@[0]);
    assert(texts::DD_OVERWRITE_GENERAL_NAME@[0] != rules::RM_RECURSIVE_GENERAL_NAME@[0]);
    assert(rules::RM_RECURSIVE_GENERAL_NAME@.len() == 20);
    assert(rules::RM_RECURSIVE_ROOT_HOME_NAME@.len() == 22);
    assert(rules::RM_RECURSIVE_UNVERIFIED_NAME@.len() == 23);
    assert(rules::POWERSHELL_REMOVE_ITEM_RECURSIVE_NAME@.len() == 32);
    assert(rules::RM_BARE_GLOB_NAME@.len() == 12);
    assert(rules::RM_BARE_GLOB_ROOT_NAME@.len() == 17);
    assert(texts::SHRED_ROOT_HOME_NAME@.len() == 15);
    assert(texts::SHRED_GENERAL_NAME@.len() == 13);
    assert(texts::TAR_REMOVE_FILES_ROOT_HOME_NAME@.len() == 26);
    assert(texts::TAR_REMOVE_FILES_GENERAL_NAME@.len() == 24);
    assert(texts::DD_OVERWRITE_ROOT_HOME_NAME@.len() == 22);
    assert(texts::DD_OVERWRITE_GENERAL_NAME@.len() == 20);
    assert(overwrite_rules()[0].name == Some(texts::SHRED_ROOT_HOME_NAME));
    assert(overwrite_rules()[1].name == Some(texts::SHRED_GENERAL_NAME));
    assert(overwrite_rules()[2].name == Some(texts::TAR_REMOVE_FILES_ROOT_HOME_NAME));
    assert(overwrite_rules()[3].name == Some(texts::TAR_REMOVE_FILES_GENERAL_NAME));
    assert(overwrite_rules()[4].name == Some(texts::DD_OVERWRITE_ROOT_HOME_NAME));
    assert(overwrite_rules()[5].name == Some(texts::DD_OVERWRITE_GENERAL_NAME));
}

/// No rule in [`relocation_rules`] has a name that stands in the table of texts.
proof fn relocation_rules_are_not_in_table(k: int)
    requires
        0 <= k < relocation_rules().len(),
    ensures
        relocation_rules()[k].name is Some,
        relocation_rules()[k].explanation is Some,
        classifier_guidance((relocation_rules()[k].name->0)@) is None,
{
    reveal_strlit("fork-bomb");
    reveal_strlit("mv-dynamic-path");
    reveal_strlit("mv-sensitive-source-root-home");
    reveal_strlit("powershell-remove-item-recursive");
    reveal_strlit("redirect-truncate-dynamic-path");
    reveal_strlit("redirect-truncate-root-home");
    reveal_strlit("rm-bare-glob");
    reveal_strlit("rm-bare-glob-root");
    reveal_strlit("rm-recursive-general");
    reveal_strlit("rm-recursive-root-home");
    reveal_strlit("rm-recursive-unverified");
    assert(rules::RM_RECURSIVE_GENERAL_NAME@.len() == 20);
    assert(rules::RM_RECURSIVE_ROOT_HOME_NAME@.len() == 22);
    assert(rules::RM_RECURSIVE_UNVERIFIED_NAME@.len() == 23);
    assert(rules::POWERSHELL_REMOVE_ITEM_RECURSIVE_NAME@.len() == 32);
    assert(rules::RM_BARE_GLOB_NAME@.len() == 12);
    assert(rules::RM_BARE_GLOB_ROOT_NAME@.len() == 17);
    assert(texts::MV_SENSITIVE_SOURCE_ROOT_HOME_NAME@.len() == 29);
    assert(texts::MV_DYNAMIC_PATH_NAME@.len() == 15);
    assert(texts::REDIRECT_TRUNCATE_ROOT_HOME_NAME@.len() == 27);
    assert(texts::REDIRECT_TRUNCATE_DYNAMIC_PATH_NAME@.len() == 30);
    assert(texts::FORK_BOMB_NAME@.len() == 9);
    assert(relocation_rules()[0].name == Some(texts::MV_SENSITIVE_SOURCE_ROOT_HOME_NAME));
    assert(relocation_rules()[1].name == Some(texts::MV_DYNAMIC_PATH_NAME));
    assert(relocation_rules()[2].name == Some(texts::REDIRECT_TRUNCATE_ROOT_HOME_NAME));
    assert(relocation_rules()[3].name == Some(texts::REDIRECT_TRUNCATE_DYNAMIC_PATH_NAME));
    assert(relocation_rules()[4].name == Some(texts::FORK_BOMB_NAME));
}

/// No rule of the pack has a name that stands in the table of texts, and each has
/// its own text.
proof fn rules_are_not_in_table(k: int)
    requires
        0 <= k < filesystem_rules().len(),
    ensures
        filesystem_rules()[k].name is Some,
        filesystem_rules()[k].explanation is Some,
        classifier_guidance((filesystem_rules()[k].name->0)@) is None,
{
    let a = propagation_rules().len() as int;
    let b = a + removal_rules().len();
    let c = b + deletion_rules().len();
    let d = c + overwrite_rules().len();
    if k < a {
        propagation_rules_are_not_in_table(k);
    } else if k < b {
        removal_rules_are_not_in_table(k - a);
    } else if k < c {
        deletion_rules_are_not_in_table(k - b);
    } else if k < d {
        overwrite_rules_are_not_in_table(k - c);
    } else {
        relocation_rules_are_not_in_table(k - d);
    }
}

/// Every rule that the arguments of a removal can meet is explained, by its
/// pattern or in the table of texts, and by one of them only.
pub proof fn removal_rules_are_explained(name: &'static str)
    requires
        classifier_names().contains(name),
    ensures
        guidance("core.filesystem"@, filesystem_rules(), name@).0 is Some,
        (named_from(filesystem_rules(), 0, name@) < filesystem_rules().len())
            != (classifier_guidance(name@) is Some),
{
    let all = filesystem_rules();
    assert forall|k: int| 0 <= k < all.len() implies (#[trigger] all[k]).name is Some
        && all[k].explanation is Some && classifier_guidance((all[k].name->0)@) is None by {
        rules_are_not_in_table(k);
    }
    if classifier_guidance(name@) is Some {
        unnamed_rule_is_not_found(all, 0, name@);
    } else {
        let i = choose|i: int| 0 <= i < classifier_names().len() && classifier_names()[i] == name;
        let a = propagation_rules().len() as int;
        let own = removal_rules();
        let k = if i == 0 {
            0int
        } else if i == 1 {
            1
        } else if i == 2 {
            2
        } else if i == 3 {
            3
        } else if i == 4 {
            5
        } else {
            6
        };
        assert(i <= 5);
        assert(own[k].name == Some(name));
        assert(all[a + k] == own[k]);
        named_rule_is_found(all, 0, a + k, name@);
    }
}

/// Every denial of a removal is explained to its author by the pack.
pub proof fn denied_removals_are_explained(s: Seq<char>, ex: Seq<ExemptionView>)
    ensures
        match rm_command_verdict(s, ex) {
            RmParseDecision::Deny(hit) => guidance(
                "core.filesystem"@,
                filesystem_rules(),
                hit.pattern_name@,
            ).0 is Some,
            _ => true,
        },
{
    denials_are_by_known_rules(s, false, ShellDialect::Posix, ex);
    if let RmParseDecision::Deny(hit) = rm_command_verdict(s, ex) {
        removal_rules_are_explained(hit.pattern_name);
    }
}

} // verus!
