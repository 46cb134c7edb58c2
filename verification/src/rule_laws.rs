//! The rules of both packs: their names, their order and how grave they are.

use vstd::prelude::*;
use crate::filesystem::patterns::{
    deletion_rules, filesystem_rules, overwrite_rules, propagation_rules, relocation_rules,
    removal_rules,
};
use crate::git::rules::{git_rules, history_rules, reference_rules, semantic_rules, work_rules};
use crate::pack::{RuleView, Severity};

verus! {

/// A rule of the given name that is as grave as told.
pub open spec fn is_rule(rule: RuleView, name: Seq<char>, severity: Severity) -> bool {
    rule.name matches Some(n) && n@ == name && rule.severity == severity
}

/// The rules on commands of Git, in the order in which they are asked.
pub proof fn rules_on_git()
    ensures
        git_rules().len() == 15,
        is_rule(git_rules()[0], "git-alias-semantic-unverified"@, Severity::High),
        is_rule(git_rules()[1], "branch-dynamic-token"@, Severity::High),
        is_rule(git_rules()[2], "checkout-discard"@, Severity::High),
        is_rule(git_rules()[3], "checkout-ref-discard"@, Severity::High),
        is_rule(git_rules()[4], "show-redirect-overwrite-source"@, Severity::High),
        is_rule(git_rules()[5], "restore-worktree"@, Severity::High),
        is_rule(git_rules()[6], "restore-worktree-explicit"@, Severity::High),
        is_rule(git_rules()[7], "reset-hard"@, Severity::Critical),
        is_rule(git_rules()[8], "reset-merge"@, Severity::High),
        is_rule(git_rules()[9], "clean-force"@, Severity::Critical),
        is_rule(git_rules()[10], "push-force-long"@, Severity::Critical),
        is_rule(git_rules()[11], "push-force-short"@, Severity::Critical),
        is_rule(git_rules()[12], "branch-force-delete"@, Severity::High),
        is_rule(git_rules()[13], "stash-drop"@, Severity::Medium),
        is_rule(git_rules()[14], "stash-clear"@, Severity::Critical),
{
    assert(semantic_rules().len() == 2);
    assert(work_rules().len() == 5);
    assert(history_rules().len() == 5);
    assert(reference_rules().len() == 3);
}

/// The rules on commands on files, in the order in which they are asked.
pub proof fn rules_on_files()
    ensures
        filesystem_rules().len() == 28,
        is_rule(filesystem_rules()[0], "sed-exec-unverified"@, Severity::High),
        is_rule(filesystem_rules()[1], "cp-sensitive-then-delete"@, Severity::Critical),
        is_rule(filesystem_rules()[2], "ln-symlink-sensitive-then-delete"@, Severity::Critical),
        is_rule(filesystem_rules()[3], "rsync-sensitive-then-delete"@, Severity::Critical),
        is_rule(filesystem_rules()[4], "rm-rf-root-home"@, Severity::Critical),
        is_rule(filesystem_rules()[5], "rm-r-f-separate-root-home"@, Severity::Critical),
        is_rule(filesystem_rules()[6], "rm-recursive-force-root-home"@, Severity::Critical),
        is_rule(filesystem_rules()[7], "rm-rf-general"@, Severity::High),
        is_rule(filesystem_rules()[8], "rm-glob-home"@, Severity::High),
        is_rule(filesystem_rules()[9], "rm-r-f-separate"@, Severity::High),
        is_rule(filesystem_rules()[10], "rm-recursive-force-long"@, Severity::High),
        is_rule(filesystem_rules()[11], "find-delete-root-home"@, Severity::Critical),
        is_rule(filesystem_rules()[12], "find-delete-general"@, Severity::High),
        is_rule(filesystem_rules()[13], "unlink-root-home"@, Severity::Critical),
        is_rule(filesystem_rules()[14], "unlink-general"@, Severity::High),
        is_rule(filesystem_rules()[15], "truncate-zero-root-home"@, Severity::Critical),
        is_rule(filesystem_rules()[16], "truncate-zero-general"@, Severity::High),
        is_rule(filesystem_rules()[17], "shred-root-home"@, Severity::Critical),
        is_rule(filesystem_rules()[18], "shred-general"@, Severity::High),
        is_rule(filesystem_rules()[19], "tar-remove-files-root-home"@, Severity::Critical),
        is_rule(filesystem_rules()[20], "tar-remove-files-general"@, Severity::High),
        is_rule(filesystem_rules()[21], "dd-overwrite-root-home"@, Severity::Critical),
        is_rule(filesystem_rules()[22], "dd-overwrite-general"@, Severity::High),
        is_rule(filesystem_rules()[23], "mv-sensitive-source-root-home"@, Severity::Critical),
        is_rule(filesystem_rules()[24], "mv-dynamic-path"@, Severity::High),
        is_rule(filesystem_rules()[25], "redirect-truncate-root-home"@, Severity::Critical),
        is_rule(filesystem_rules()[26], "redirect-truncate-dynamic-path"@, Severity::High),
        is_rule(filesystem_rules()[27], "fork-bomb"@, Severity::Critical),
{
    assert(propagation_rules().len() == 4);
    assert(removal_rules().len() == 7);
    assert(deletion_rules().len() == 6);
    assert(overwrite_rules().len() == 6);
    assert(relocation_rules().len() == 5);
}

} // verus!
