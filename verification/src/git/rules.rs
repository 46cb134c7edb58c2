//! The rules on Git.

use vstd::prelude::*;
use crate::git::{advice, texts};
use crate::pack::{
    rule, rule_views, safe_views, DestructivePattern, Pack, RuleView, SafePattern, SafeView,
    Severity,
};
use crate::text::{chars_of, text_of};

verus! {

/// What the pack is for.
pub const GIT_PACK_DESCRIPTION: &'static str = "Protects against destructive git commands that can lose uncommitted work, \
     rewrite history, or destroy stashes";

/// The patterns of commands of Git that need no look.
pub open spec fn git_safe_patterns() -> Seq<SafeView> {
    seq![
        SafeView { name: texts::CHECKOUT_NEW_BRANCH_NAME, pattern: texts::CHECKOUT_NEW_BRANCH_PATTERN@ },
        SafeView { name: texts::CHECKOUT_ORPHAN_NAME, pattern: texts::CHECKOUT_ORPHAN_PATTERN@ },
        SafeView { name: texts::RESTORE_STAGED_LONG_NAME, pattern: texts::RESTORE_STAGED_LONG_PATTERN@ },
        SafeView { name: texts::RESTORE_STAGED_SHORT_NAME, pattern: texts::RESTORE_STAGED_SHORT_PATTERN@ },
        SafeView { name: texts::CLEAN_DRY_RUN_SHORT_NAME, pattern: texts::CLEAN_DRY_RUN_SHORT_PATTERN@ },
        SafeView { name: texts::CLEAN_DRY_RUN_LONG_NAME, pattern: texts::CLEAN_DRY_RUN_LONG_PATTERN@ },
    ]
}

/// The rules on what the arguments of a command decide.
pub open spec fn semantic_rules() -> Seq<RuleView> {
    seq![
        rule(
            texts::GIT_ALIAS_UNVERIFIED_RULE,
            texts::GIT_ALIAS_UNVERIFIED_PATTERN,
            texts::GIT_ALIAS_UNVERIFIED_REASON,
            Severity::High,
            texts::GIT_ALIAS_UNVERIFIED_EXPLANATION,
            Seq::empty(),
        ),
        rule(
            texts::BRANCH_DYNAMIC_RULE,
            texts::BRANCH_DYNAMIC_PATTERN,
            texts::BRANCH_DYNAMIC_REASON,
            Severity::High,
            texts::BRANCH_DYNAMIC_EXPLANATION,
            advice::branch_dynamic_advice(),
        ),
    ]
}

/// The rules on uncommitted work.
pub open spec fn work_rules() -> Seq<RuleView> {
    seq![
        rule(
            texts::CHECKOUT_DISCARD_NAME,
            texts::CHECKOUT_DISCARD_PATTERN,
            texts::CHECKOUT_DISCARD_REASON,
            Severity::High,
            texts::CHECKOUT_DISCARD_EXPLANATION,
            advice::checkout_discard_advice(),
        ),
        rule(
            texts::CHECKOUT_REF_DISCARD_NAME,
            texts::CHECKOUT_REF_DISCARD_PATTERN,
            texts::CHECKOUT_REF_DISCARD_REASON,
            Severity::High,
            texts::CHECKOUT_REF_DISCARD_EXPLANATION,
            advice::checkout_ref_discard_advice(),
        ),
        rule(
            texts::SHOW_REDIRECT_OVERWRITE_SOURCE_NAME,
            texts::SHOW_REDIRECT_OVERWRITE_SOURCE_PATTERN,
            texts::SHOW_REDIRECT_OVERWRITE_SOURCE_REASON,
            Severity::High,
            texts::SHOW_REDIRECT_OVERWRITE_SOURCE_EXPLANATION,
            advice::show_redirect_overwrite_source_advice(),
        ),
        rule(
            texts::RESTORE_WORKTREE_NAME,
            texts::RESTORE_WORKTREE_PATTERN,
            texts::RESTORE_WORKTREE_REASON,
            Severity::High,
            texts::RESTORE_WORKTREE_EXPLANATION,
            advice::restore_worktree_advice(),
        ),
        rule(
            texts::RESTORE_WORKTREE_EXPLICIT_NAME,
            texts::RESTORE_WORKTREE_EXPLICIT_PATTERN,
            texts::RESTORE_WORKTREE_EXPLICIT_REASON,
            Severity::High,
            texts::RESTORE_WORKTREE_EXPLICIT_EXPLANATION,
            advice::restore_worktree_explicit_advice(),
        ),
    ]
}

/// The rules on history and untracked files.
pub open spec fn history_rules() -> Seq<RuleView> {
    seq![
        rule(
            texts::RESET_HARD_NAME,
            texts::RESET_HARD_PATTERN,
            texts::RESET_HARD_REASON,
            Severity::Critical,
            texts::RESET_HARD_EXPLANATION,
            advice::reset_hard_advice(),
        ),
        rule(
            texts::RESET_MERGE_NAME,
            texts::RESET_MERGE_PATTERN,
            texts::RESET_MERGE_REASON,
            Severity::High,
            texts::RESET_MERGE_EXPLANATION,
            advice::reset_merge_advice(),
        ),
        rule(
            texts::CLEAN_FORCE_NAME,
            texts::CLEAN_FORCE_PATTERN,
            texts::CLEAN_FORCE_REASON,
            Severity::Critical,
            texts::CLEAN_FORCE_EXPLANATION,
            advice::clean_force_advice(),
        ),
        rule(
            texts::PUSH_FORCE_LONG_NAME,
            texts::PUSH_FORCE_LONG_PATTERN,
            texts::PUSH_FORCE_LONG_REASON,
            Severity::Critical,
            texts::PUSH_FORCE_LONG_EXPLANATION,
            advice::push_force_long_advice(),
        ),
        rule(
            texts::PUSH_FORCE_SHORT_NAME,
            texts::PUSH_FORCE_SHORT_PATTERN,
            texts::PUSH_FORCE_SHORT_REASON,
            Severity::Critical,
            texts::PUSH_FORCE_SHORT_EXPLANATION,
            advice::push_force_short_advice(),
        ),
    ]
}

/// The rules on branches and stashes.
pub open spec fn reference_rules() -> Seq<RuleView> {
    seq![
        rule(
            texts::BRANCH_FORCE_DELETE_NAME,
            texts::BRANCH_FORCE_DELETE_PATTERN,
            texts::BRANCH_FORCE_DELETE_REASON,
            Severity::High,
            texts::BRANCH_FORCE_DELETE_EXPLANATION,
            advice::branch_force_delete_advice(),
        ),
        rule(
            texts::STASH_DROP_NAME,
            texts::STASH_DROP_PATTERN,
            texts::STASH_DROP_REASON,
            Severity::Medium,
            texts::STASH_DROP_EXPLANATION,
            advice::stash_drop_advice(),
        ),
        rule(
            texts::STASH_CLEAR_NAME,
            texts::STASH_CLEAR_PATTERN,
            texts::STASH_CLEAR_REASON,
            Severity::Critical,
            texts::STASH_CLEAR_EXPLANATION,
            advice::stash_clear_advice(),
        ),
    ]
}

/// The rules on commands of Git, the first that matches decides.
pub open spec fn git_rules() -> Seq<RuleView> {
    semantic_rules() + work_rules() + history_rules() + reference_rules()
}

/// The patterns of commands of Git that need no look.
pub fn create_safe_patterns() -> (r: Vec<SafePattern>)
    ensures
        safe_views(r@) == git_safe_patterns(),
{
    let mut v: Vec<SafePattern> = Vec::new();
    v.push(
        SafePattern::new(texts::CHECKOUT_NEW_BRANCH_NAME, texts::CHECKOUT_NEW_BRANCH_PATTERN),
    );
    v.push(SafePattern::new(texts::CHECKOUT_ORPHAN_NAME, texts::CHECKOUT_ORPHAN_PATTERN));
    v.push(
        SafePattern::new(texts::RESTORE_STAGED_LONG_NAME, texts::RESTORE_STAGED_LONG_PATTERN),
    );
    v.push(
        SafePattern::new(texts::RESTORE_STAGED_SHORT_NAME, texts::RESTORE_STAGED_SHORT_PATTERN),
    );
    v.push(
        SafePattern::new(texts::CLEAN_DRY_RUN_SHORT_NAME, texts::CLEAN_DRY_RUN_SHORT_PATTERN),
    );
    v.push(
        SafePattern::new(texts::CLEAN_DRY_RUN_LONG_NAME, texts::CLEAN_DRY_RUN_LONG_PATTERN),
    );
    assert(safe_views(v@) =~= git_safe_patterns());
    v
}

/// Adds the rules on what the arguments of a command decide.
fn add_semantic_rules(v: &mut Vec<DestructivePattern>)
    ensures
        rule_views(final(v)@) == rule_views(old(v)@) + semantic_rules(),
{
    let ghost before = rule_views(v@);
    v.push(
        DestructivePattern::new(
            texts::GIT_ALIAS_UNVERIFIED_RULE,
            texts::GIT_ALIAS_UNVERIFIED_PATTERN,
            texts::GIT_ALIAS_UNVERIFIED_REASON,
            Severity::High,
            texts::GIT_ALIAS_UNVERIFIED_EXPLANATION,
            Vec::new(),
        ),
    );
    v.push(
        DestructivePattern::new(
            texts::BRANCH_DYNAMIC_RULE,
            texts::BRANCH_DYNAMIC_PATTERN,
            texts::BRANCH_DYNAMIC_REASON,
            Severity::High,
            texts::BRANCH_DYNAMIC_EXPLANATION,
            advice::make_branch_dynamic_advice(),
        ),
    );
    assert(rule_views(v@) =~= before + semantic_rules());
}

/// Adds the rules on uncommitted work.
fn add_work_rules(v: &mut Vec<DestructivePattern>)
    ensures
        rule_views(final(v)@) == rule_views(old(v)@) + work_rules(),
{
    let ghost before = rule_views(v@);
    v.push(
        DestructivePattern::new(
            texts::CHECKOUT_DISCARD_NAME,
            texts::CHECKOUT_DISCARD_PATTERN,
            texts::CHECKOUT_DISCARD_REASON,
            Severity::High,
            texts::CHECKOUT_DISCARD_EXPLANATION,
            advice::make_checkout_discard_advice(),
        ),
    );
    v.push(
        DestructivePattern::new(
            texts::CHECKOUT_REF_DISCARD_NAME,
            texts::CHECKOUT_REF_DISCARD_PATTERN,
            texts::CHECKOUT_REF_DISCARD_REASON,
            Severity::High,
            texts::CHECKOUT_REF_DISCARD_EXPLANATION,
            advice::make_checkout_ref_discard_advice(),
        ),
    );
    v.push(
        DestructivePattern::new(
            texts::SHOW_REDIRECT_OVERWRITE_SOURCE_NAME,
            texts::SHOW_REDIRECT_OVERWRITE_SOURCE_PATTERN,
            texts::SHOW_REDIRECT_OVERWRITE_SOURCE_REASON,
            Severity::High,
            texts::SHOW_REDIRECT_OVERWRITE_SOURCE_EXPLANATION,
            advice::make_show_redirect_overwrite_source_advice(),
        ),
    );
    v.push(
        DestructivePattern::new(
            texts::RESTORE_WORKTREE_NAME,
            texts::RESTORE_WORKTREE_PATTERN,
            texts::RESTORE_WORKTREE_REASON,
            Severity::High,
            texts::RESTORE_WORKTREE_EXPLANATION,
            advice::make_restore_worktree_advice(),
        ),
    );
    v.push(
        DestructivePattern::new(
            texts::RESTORE_WORKTREE_EXPLICIT_NAME,
            texts::RESTORE_WORKTREE_EXPLICIT_PATTERN,
            texts::RESTORE_WORKTREE_EXPLICIT_REASON,
            Severity::High,
            texts::RESTORE_WORKTREE_EXPLICIT_EXPLANATION,
            advice::make_restore_worktree_explicit_advice(),
        ),
    );
    assert(rule_views(v@) =~= before + work_rules());
}

/// Adds the rules on history and untracked files.
fn add_history_rules(v: &mut Vec<DestructivePattern>)
    ensures
        rule_views(final(v)@) == rule_views(old(v)@) + history_rules(),
{
    let ghost before = rule_views(v@);
    v.push(
        DestructivePattern::new(
            texts::RESET_HARD_NAME,
            texts::RESET_HARD_PATTERN,
            texts::RESET_HARD_REASON,
            Severity::Critical,
            texts::RESET_HARD_EXPLANATION,
            advice::make_reset_hard_advice(),
        ),
    );
    v.push(
        DestructivePattern::new(
            texts::RESET_MERGE_NAME,
            texts::RESET_MERGE_PATTERN,
            texts::RESET_MERGE_REASON,
            Severity::High,
            texts::RESET_MERGE_EXPLANATION,
            advice::make_reset_merge_advice(),
        ),
    );
    v.push(
        DestructivePattern::new(
            texts::CLEAN_FORCE_NAME,
            texts::CLEAN_FORCE_PATTERN,
            texts::CLEAN_FORCE_REASON,
            Severity::Critical,
            texts::CLEAN_FORCE_EXPLANATION,
            advice::make_clean_force_advice(),
        ),
    );
    v.push(
        DestructivePattern::new(
            texts::PUSH_FORCE_LONG_NAME,
            texts::PUSH_FORCE_LONG_PATTERN,
            texts::PUSH_FORCE_LONG_REASON,
            Severity::Critical,
            texts::PUSH_FORCE_LONG_EXPLANATION,
            advice::make_push_force_long_advice(),
        ),
    );
    v.push(
        DestructivePattern::new(
            texts::PUSH_FORCE_SHORT_NAME,
            texts::PUSH_FORCE_SHORT_PATTERN,
            texts::PUSH_FORCE_SHORT_REASON,
            Severity::Critical,
            texts::PUSH_FORCE_SHORT_EXPLANATION,
            advice::make_push_force_short_advice(),
        ),
    );
    assert(rule_views(v@) =~= before + history_rules());
}

/// Adds the rules on branches and stashes.
fn add_reference_rules(v: &mut Vec<DestructivePattern>)
    ensures
        rule_views(final(v)@) == rule_views(old(v)@) + reference_rules(),
{
    let ghost before = rule_views(v@);
    v.push(
        DestructivePattern::new(
            texts::BRANCH_FORCE_DELETE_NAME,
            texts::BRANCH_FORCE_DELETE_PATTERN,
            texts::BRANCH_FORCE_DELETE_REASON,
            Severity::High,
            texts::BRANCH_FORCE_DELETE_EXPLANATION,
            advice::make_branch_force_delete_advice(),
        ),
    );
    v.push(
        DestructivePattern::new(
            texts::STASH_DROP_NAME,
            texts::STASH_DROP_PATTERN,
            texts::STASH_DROP_REASON,
            Severity::Medium,
            texts::STASH_DROP_EXPLANATION,
            advice::make_stash_drop_advice(),
        ),
    );
    v.push(
        DestructivePattern::new(
            texts::STASH_CLEAR_NAME,
            texts::STASH_CLEAR_PATTERN,
            texts::STASH_CLEAR_REASON,
            Severity::Critical,
            texts::STASH_CLEAR_EXPLANATION,
            advice::make_stash_clear_advice(),
        ),
    );
    assert(rule_views(v@) =~= before + reference_rules());
}

/// The rules on commands of Git.
pub fn create_destructive_patterns() -> (r: Vec<DestructivePattern>)
    ensures
        rule_views(r@) == git_rules(),
{
    let mut v: Vec<DestructivePattern> = Vec::new();
    assert(rule_views(v@) =~= Seq::<RuleView>::empty());
    add_semantic_rules(&mut v);
    add_work_rules(&mut v);
    add_history_rules(&mut v);
    add_reference_rules(&mut v);
    assert(rule_views(v@) =~= git_rules());
    v
}

/// The rules on Git: uncommitted work, history, branches and stashes.
#[must_use]
pub fn create_pack() -> (r: Pack)
    ensures
        r.id@ == "core.git"@,
        r.name@ == "Core Git"@,
        r.description@ == GIT_PACK_DESCRIPTION@,
        r.keywords@ == seq!["git"],
        r.safe() == git_safe_patterns(),
        r.rules() == git_rules(),
{
    let mut keywords: Vec<&'static str> = Vec::new();
    keywords.push("git");
    assert(keywords@ =~= seq!["git"]);
    let id = chars_of("core.git");
    Pack {
        id: text_of(id.as_slice()),
        name: "Core Git",
        description: GIT_PACK_DESCRIPTION,
        keywords,
        safe_patterns: create_safe_patterns(),
        destructive_patterns: create_destructive_patterns(),
    }
}

} // verus!
