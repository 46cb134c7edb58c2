//! Safer commands for what the rules on Git deny.

use vstd::prelude::*;
use crate::pack::{gated_suggestion, suggestion, PatternSuggestion};

verus! {

/// A safer command for what `branch-dynamic-token` denies.
pub const BRANCH_DYNAMIC_COMMAND_A: &'static str = "Resolve the dynamic value first, then rerun with the literal branch name";

/// What it is good for.
pub const BRANCH_DYNAMIC_ADVICE_A: &'static str = "The expansion is the problem; a literal name is evaluated on its own merits";

/// A safer command for what `branch-dynamic-token` denies.
pub const BRANCH_DYNAMIC_COMMAND_B: &'static str = "git branch \"{name}\"";

/// What it is good for.
pub const BRANCH_DYNAMIC_ADVICE_B: &'static str = "For a creation: quote the branch name so the expansion stays a single non-flag word";

/// A safer command for what `branch-dynamic-token` denies.
pub const BRANCH_DYNAMIC_COMMAND_C: &'static str = "git branch -- {name}";

/// What it is good for.
pub const BRANCH_DYNAMIC_ADVICE_C: &'static str = "For a creation: `--` ends option parsing, so expanded output cannot become a flag";

/// A safer command for what `checkout-discard` denies.
pub const CHECKOUT_DISCARD_COMMAND_A: &'static str = "git stash";

/// What it is good for.
pub const CHECKOUT_DISCARD_ADVICE_A: &'static str = "Save changes temporarily, restore later with 'git stash pop'";

/// A safer command for what `checkout-discard` denies.
pub const CHECKOUT_DISCARD_COMMAND_B: &'static str = "git diff -- {path}";

/// What it is good for.
pub const CHECKOUT_DISCARD_ADVICE_B: &'static str = "Review what would be lost before discarding";

/// A safer command for what `checkout-ref-discard` denies.
pub const CHECKOUT_REF_DISCARD_COMMAND_A: &'static str = "git stash";

/// What it is good for.
pub const CHECKOUT_REF_DISCARD_ADVICE_A: &'static str = "Save changes first, then checkout, then restore with 'git stash pop'";

/// A safer command for what `checkout-ref-discard` denies.
pub const CHECKOUT_REF_DISCARD_COMMAND_B: &'static str = "git show {ref}:{path}";

/// What it is good for.
pub const CHECKOUT_REF_DISCARD_ADVICE_B: &'static str = "View the file content without overwriting (view only — do not redirect back onto the same path)";

/// A safer command for what `checkout-ref-discard` denies.
pub const CHECKOUT_REF_DISCARD_COMMAND_C: &'static str = "git diff HEAD {ref} -- {path}";

/// What it is good for.
pub const CHECKOUT_REF_DISCARD_ADVICE_C: &'static str = "Preview what would change before overwriting";

/// A safer command for what `show-redirect-overwrite-source` denies.
pub const SHOW_REDIRECT_OVERWRITE_SOURCE_COMMAND_A: &'static str = "git show {ref}:{path} > {path}.from-ref";

/// What it is good for.
pub const SHOW_REDIRECT_OVERWRITE_SOURCE_ADVICE_A: &'static str = "Capture the other version into a NEW file instead of overwriting the working copy";

/// A safer command for what `show-redirect-overwrite-source` denies.
pub const SHOW_REDIRECT_OVERWRITE_SOURCE_COMMAND_B: &'static str = "git stash";

/// What it is good for.
pub const SHOW_REDIRECT_OVERWRITE_SOURCE_ADVICE_B: &'static str = "Save changes first, then take the other version, then 'git stash pop'";

/// A safer command for what `show-redirect-overwrite-source` denies.
pub const SHOW_REDIRECT_OVERWRITE_SOURCE_COMMAND_C: &'static str = "git diff HEAD {ref} -- {path}";

/// What it is good for.
pub const SHOW_REDIRECT_OVERWRITE_SOURCE_ADVICE_C: &'static str = "Preview what would change before overwriting";

/// A safer command for what `restore-worktree` denies.
pub const RESTORE_WORKTREE_COMMAND_A: &'static str = "git restore --staged {path}";

/// What it is good for.
pub const RESTORE_WORKTREE_ADVICE_A: &'static str = "Only unstage, keeps working directory changes intact";

/// A safer command for what `restore-worktree` denies.
pub const RESTORE_WORKTREE_COMMAND_B: &'static str = "git stash";

/// What it is good for.
pub const RESTORE_WORKTREE_ADVICE_B: &'static str = "Save all changes temporarily, restore later with 'git stash pop'";

/// A safer command for what `restore-worktree` denies.
pub const RESTORE_WORKTREE_COMMAND_C: &'static str = "git diff {path}";

/// What it is good for.
pub const RESTORE_WORKTREE_ADVICE_C: &'static str = "Review what would be lost before discarding";

/// A safer command for what `restore-worktree-explicit` denies.
pub const RESTORE_WORKTREE_EXPLICIT_COMMAND_A: &'static str = "git restore --staged {path}";

/// What it is good for.
pub const RESTORE_WORKTREE_EXPLICIT_ADVICE_A: &'static str = "Only unstage, keeps working directory changes intact";

/// A safer command for what `restore-worktree-explicit` denies.
pub const RESTORE_WORKTREE_EXPLICIT_COMMAND_B: &'static str = "git stash";

/// What it is good for.
pub const RESTORE_WORKTREE_EXPLICIT_ADVICE_B: &'static str = "Save all changes temporarily before discarding";

/// A safer command for what `restore-worktree-explicit` denies.
pub const RESTORE_WORKTREE_EXPLICIT_COMMAND_C: &'static str = "git diff {path}";

/// What it is good for.
pub const RESTORE_WORKTREE_EXPLICIT_ADVICE_C: &'static str = "Review what would be lost before discarding";

/// A safer command for what `reset-hard` denies.
pub const RESET_HARD_COMMAND_A: &'static str = "git stash";

/// What it is good for.
pub const RESET_HARD_ADVICE_A: &'static str = "Save all uncommitted changes before reset";

/// A safer command for what `reset-hard` denies.
pub const RESET_HARD_COMMAND_B: &'static str = "git reset --soft HEAD~1";

/// What it is good for.
pub const RESET_HARD_ADVICE_B: &'static str = "Undo commit but keep all changes staged";

/// A safer command for what `reset-hard` denies.
pub const RESET_HARD_COMMAND_C: &'static str = "git reset --mixed HEAD~1";

/// What it is good for.
pub const RESET_HARD_ADVICE_C: &'static str = "Undo commit, unstage changes, but keep working directory";

/// A safer command for what `reset-hard` denies.
pub const RESET_HARD_COMMAND_D: &'static str = "git checkout -- {file}";

/// What it is good for.
pub const RESET_HARD_ADVICE_D: &'static str = "Discards changes in one file only — still destructive, so dcg gates it too";

/// A safer command for what `reset-merge` denies.
pub const RESET_MERGE_COMMAND_A: &'static str = "git stash";

/// What it is good for.
pub const RESET_MERGE_ADVICE_A: &'static str = "Save uncommitted changes before reset";

/// A safer command for what `reset-merge` denies.
pub const RESET_MERGE_COMMAND_B: &'static str = "git merge --abort";

/// What it is good for.
pub const RESET_MERGE_ADVICE_B: &'static str = "Abort the current merge safely without losing changes";

/// A safer command for what `reset-merge` denies.
pub const RESET_MERGE_COMMAND_C: &'static str = "git status && git diff";

/// What it is good for.
pub const RESET_MERGE_ADVICE_C: &'static str = "Preview what would change before resetting";

/// A safer command for what `clean-force` denies.
pub const CLEAN_FORCE_COMMAND_A: &'static str = "git clean -n";

/// What it is good for.
pub const CLEAN_FORCE_ADVICE_A: &'static str = "Dry run first (shows what would be deleted)";

/// A safer command for what `clean-force` denies.
pub const CLEAN_FORCE_COMMAND_B: &'static str = "git clean -nd";

/// What it is good for.
pub const CLEAN_FORCE_ADVICE_B: &'static str = "Dry run including directories";

/// A safer command for what `clean-force` denies.
pub const CLEAN_FORCE_COMMAND_C: &'static str = "git clean -i";

/// What it is good for.
pub const CLEAN_FORCE_ADVICE_C: &'static str = "Interactive mode, choose what to delete";

/// A safer command for what `clean-force` denies.
pub const CLEAN_FORCE_COMMAND_D: &'static str = "git stash --include-untracked";

/// What it is good for.
pub const CLEAN_FORCE_ADVICE_D: &'static str = "Stash instead of delete (recoverable)";

/// A safer command for what `push-force-long` denies.
pub const PUSH_FORCE_LONG_COMMAND_A: &'static str = "git push --force-with-lease";

/// What it is good for.
pub const PUSH_FORCE_LONG_ADVICE_A: &'static str = "Fails if remote has new commits you haven't fetched";

/// A safer command for what `push-force-long` denies.
pub const PUSH_FORCE_LONG_COMMAND_B: &'static str = "git push --force-with-lease --force-if-includes";

/// What it is good for.
pub const PUSH_FORCE_LONG_ADVICE_B: &'static str = "Even safer: also checks that your local ref includes the remote ref";

/// A safer command for what `push-force-long` denies.
pub const PUSH_FORCE_LONG_COMMAND_C: &'static str = "git fetch && git log origin/{branch}..HEAD";

/// What it is good for.
pub const PUSH_FORCE_LONG_ADVICE_C: &'static str = "Preview what you're about to overwrite on the remote";

/// A safer command for what `push-force-short` denies.
pub const PUSH_FORCE_SHORT_COMMAND_A: &'static str = "git push --force-with-lease";

/// What it is good for.
pub const PUSH_FORCE_SHORT_ADVICE_A: &'static str = "Fails if remote has new commits you haven't fetched";

/// A safer command for what `push-force-short` denies.
pub const PUSH_FORCE_SHORT_COMMAND_B: &'static str = "git push --force-with-lease --force-if-includes";

/// What it is good for.
pub const PUSH_FORCE_SHORT_ADVICE_B: &'static str = "Even safer: also checks that your local ref includes the remote ref";

/// A safer command for what `push-force-short` denies.
pub const PUSH_FORCE_SHORT_COMMAND_C: &'static str = "git fetch && git log origin/{branch}..HEAD";

/// What it is good for.
pub const PUSH_FORCE_SHORT_ADVICE_C: &'static str = "Preview what you're about to overwrite on the remote";

/// A safer command for what `branch-force-delete` denies.
pub const BRANCH_FORCE_DELETE_COMMAND_A: &'static str = "git branch -vv";

/// What it is good for.
pub const BRANCH_FORCE_DELETE_ADVICE_A: &'static str = "Review branch tips and upstream tracking state without changing refs";

/// A safer command for what `branch-force-delete` denies.
pub const BRANCH_FORCE_DELETE_COMMAND_B: &'static str = "git branch --merged && git branch --no-merged";

/// What it is good for.
pub const BRANCH_FORCE_DELETE_ADVICE_B: &'static str = "Review Git's merged and unmerged classifications before asking approval";

/// A safer command for what `branch-force-delete` denies.
pub const BRANCH_FORCE_DELETE_COMMAND_C: &'static str = "git log {branch} --oneline -10";

/// What it is good for.
pub const BRANCH_FORCE_DELETE_ADVICE_C: &'static str = "Review branch commits without deleting or moving the ref";

/// A safer command for what `stash-drop` denies.
pub const STASH_DROP_COMMAND_A: &'static str = "git stash pop";

/// What it is good for.
pub const STASH_DROP_ADVICE_A: &'static str = "Apply and drop atomically (only drops if apply succeeds)";

/// A safer command for what `stash-drop` denies.
pub const STASH_DROP_COMMAND_B: &'static str = "git stash apply";

/// What it is good for.
pub const STASH_DROP_ADVICE_B: &'static str = "Apply without dropping, verify changes first";

/// A safer command for what `stash-drop` denies.
pub const STASH_DROP_COMMAND_C: &'static str = "git stash show stash@{0}";

/// What it is good for.
pub const STASH_DROP_ADVICE_C: &'static str = "Preview stash contents before dropping";

/// A safer command for what `stash-drop` denies.
pub const STASH_DROP_COMMAND_D: &'static str = "git stash list";

/// What it is good for.
pub const STASH_DROP_ADVICE_D: &'static str = "Review all stashes before dropping any";

/// A safer command for what `stash-clear` denies.
pub const STASH_CLEAR_COMMAND_A: &'static str = "git stash drop stash@{n}";

/// What it is good for.
pub const STASH_CLEAR_ADVICE_A: &'static str = "Drops one stash at a time instead of all — still deletes stashed work, so dcg gates it too";

/// A safer command for what `stash-clear` denies.
pub const STASH_CLEAR_COMMAND_B: &'static str = "git stash list";

/// What it is good for.
pub const STASH_CLEAR_ADVICE_B: &'static str = "Review all stashes before clearing";

/// A safer command for what `stash-clear` denies.
pub const STASH_CLEAR_COMMAND_C: &'static str = "git stash show stash@{n}";

/// What it is good for.
pub const STASH_CLEAR_ADVICE_C: &'static str = "Inspect each stash before deciding to delete";

/// Safer commands for what `branch-dynamic-token` denies.
pub open spec fn branch_dynamic_advice() -> Seq<PatternSuggestion> {
    seq![
        suggestion(BRANCH_DYNAMIC_COMMAND_A, BRANCH_DYNAMIC_ADVICE_A),
        suggestion(BRANCH_DYNAMIC_COMMAND_B, BRANCH_DYNAMIC_ADVICE_B),
        suggestion(BRANCH_DYNAMIC_COMMAND_C, BRANCH_DYNAMIC_ADVICE_C),
    ]
}

/// Safer commands for what `branch-dynamic-token` denies.
pub fn make_branch_dynamic_advice() -> (r: Vec<PatternSuggestion>)
    ensures
        r@ == branch_dynamic_advice(),
{
    let mut v: Vec<PatternSuggestion> = Vec::new();
    v.push(PatternSuggestion::new(BRANCH_DYNAMIC_COMMAND_A, BRANCH_DYNAMIC_ADVICE_A));
    v.push(PatternSuggestion::new(BRANCH_DYNAMIC_COMMAND_B, BRANCH_DYNAMIC_ADVICE_B));
    v.push(PatternSuggestion::new(BRANCH_DYNAMIC_COMMAND_C, BRANCH_DYNAMIC_ADVICE_C));
    assert(v@ =~= branch_dynamic_advice());
    v
}

/// Safer commands for what `checkout-discard` denies.
pub open spec fn checkout_discard_advice() -> Seq<PatternSuggestion> {
    seq![
        suggestion(CHECKOUT_DISCARD_COMMAND_A, CHECKOUT_DISCARD_ADVICE_A),
        suggestion(CHECKOUT_DISCARD_COMMAND_B, CHECKOUT_DISCARD_ADVICE_B),
    ]
}

/// Safer commands for what `checkout-discard` denies.
pub fn make_checkout_discard_advice() -> (r: Vec<PatternSuggestion>)
    ensures
        r@ == checkout_discard_advice(),
{
    let mut v: Vec<PatternSuggestion> = Vec::new();
    v.push(PatternSuggestion::new(CHECKOUT_DISCARD_COMMAND_A, CHECKOUT_DISCARD_ADVICE_A));
    v.push(PatternSuggestion::new(CHECKOUT_DISCARD_COMMAND_B, CHECKOUT_DISCARD_ADVICE_B));
    assert(v@ =~= checkout_discard_advice());
    v
}

/// Safer commands for what `checkout-ref-discard` denies.
pub open spec fn checkout_ref_discard_advice() -> Seq<PatternSuggestion> {
    seq![
        suggestion(CHECKOUT_REF_DISCARD_COMMAND_A, CHECKOUT_REF_DISCARD_ADVICE_A),
        suggestion(CHECKOUT_REF_DISCARD_COMMAND_B, CHECKOUT_REF_DISCARD_ADVICE_B),
        suggestion(CHECKOUT_REF_DISCARD_COMMAND_C, CHECKOUT_REF_DISCARD_ADVICE_C),
    ]
}

/// Safer commands for what `checkout-ref-discard` denies.
pub fn make_checkout_ref_discard_advice() -> (r: Vec<PatternSuggestion>)
    ensures
        r@ == checkout_ref_discard_advice(),
{
    let mut v: Vec<PatternSuggestion> = Vec::new();
    v.push(
        PatternSuggestion::new(
            CHECKOUT_REF_DISCARD_COMMAND_A,
            CHECKOUT_REF_DISCARD_ADVICE_A,
        ),
    );
    v.push(
        PatternSuggestion::new(
            CHECKOUT_REF_DISCARD_COMMAND_B,
            CHECKOUT_REF_DISCARD_ADVICE_B,
        ),
    );
    v.push(
        PatternSuggestion::new(
            CHECKOUT_REF_DISCARD_COMMAND_C,
            CHECKOUT_REF_DISCARD_ADVICE_C,
        ),
    );
    assert(v@ =~= checkout_ref_discard_advice());
    v
}

/// Safer commands for what `show-redirect-overwrite-source` denies.
pub open spec fn show_redirect_overwrite_source_advice() -> Seq<PatternSuggestion> {
    seq![
        suggestion(
            SHOW_REDIRECT_OVERWRITE_SOURCE_COMMAND_A,
            SHOW_REDIRECT_OVERWRITE_SOURCE_ADVICE_A,
        ),
        suggestion(
            SHOW_REDIRECT_OVERWRITE_SOURCE_COMMAND_B,
            SHOW_REDIRECT_OVERWRITE_SOURCE_ADVICE_B,
        ),
        suggestion(
            SHOW_REDIRECT_OVERWRITE_SOURCE_COMMAND_C,
            SHOW_REDIRECT_OVERWRITE_SOURCE_ADVICE_C,
        ),
    ]
}

/// Safer commands for what `show-redirect-overwrite-source` denies.
pub fn make_show_redirect_overwrite_source_advice() -> (r: Vec<PatternSuggestion>)
    ensures
        r@ == show_redirect_overwrite_source_advice(),
{
    let mut v: Vec<PatternSuggestion> = Vec::new();
    v.push(
        PatternSuggestion::new(
            SHOW_REDIRECT_OVERWRITE_SOURCE_COMMAND_A,
            SHOW_REDIRECT_OVERWRITE_SOURCE_ADVICE_A,
        ),
    );
    v.push(
        PatternSuggestion::new(
            SHOW_REDIRECT_OVERWRITE_SOURCE_COMMAND_B,
            SHOW_REDIRECT_OVERWRITE_SOURCE_ADVICE_B,
        ),
    );
    v.push(
        PatternSuggestion::new(
            SHOW_REDIRECT_OVERWRITE_SOURCE_COMMAND_C,
            SHOW_REDIRECT_OVERWRITE_SOURCE_ADVICE_C,
        ),
    );
    assert(v@ =~= show_redirect_overwrite_source_advice());
    v
}

/// Safer commands for what `restore-worktree` denies.
pub open spec fn restore_worktree_advice() -> Seq<PatternSuggestion> {
    seq![
        suggestion(RESTORE_WORKTREE_COMMAND_A, RESTORE_WORKTREE_ADVICE_A),
        suggestion(RESTORE_WORKTREE_COMMAND_B, RESTORE_WORKTREE_ADVICE_B),
        suggestion(RESTORE_WORKTREE_COMMAND_C, RESTORE_WORKTREE_ADVICE_C),
    ]
}

/// Safer commands for what `restore-worktree` denies.
pub fn make_restore_worktree_advice() -> (r: Vec<PatternSuggestion>)
    ensures
        r@ == restore_worktree_advice(),
{
    let mut v: Vec<PatternSuggestion> = Vec::new();
    v.push(PatternSuggestion::new(RESTORE_WORKTREE_COMMAND_A, RESTORE_WORKTREE_ADVICE_A));
    v.push(PatternSuggestion::new(RESTORE_WORKTREE_COMMAND_B, RESTORE_WORKTREE_ADVICE_B));
    v.push(PatternSuggestion::new(RESTORE_WORKTREE_COMMAND_C, RESTORE_WORKTREE_ADVICE_C));
    assert(v@ =~= restore_worktree_advice());
    v
}

/// Safer commands for what `restore-worktree-explicit` denies.
pub open spec fn restore_worktree_explicit_advice() -> Seq<PatternSuggestion> {
    seq![
        suggestion(RESTORE_WORKTREE_EXPLICIT_COMMAND_A, RESTORE_WORKTREE_EXPLICIT_ADVICE_A),
        suggestion(RESTORE_WORKTREE_EXPLICIT_COMMAND_B, RESTORE_WORKTREE_EXPLICIT_ADVICE_B),
        suggestion(RESTORE_WORKTREE_EXPLICIT_COMMAND_C, RESTORE_WORKTREE_EXPLICIT_ADVICE_C),
    ]
}

/// Safer commands for what `restore-worktree-explicit` denies.
pub fn make_restore_worktree_explicit_advice() -> (r: Vec<PatternSuggestion>)
    ensures
        r@ == restore_worktree_explicit_advice(),
{
    let mut v: Vec<PatternSuggestion> = Vec::new();
    v.push(
        PatternSuggestion::new(
            RESTORE_WORKTREE_EXPLICIT_COMMAND_A,
            RESTORE_WORKTREE_EXPLICIT_ADVICE_A,
        ),
    );
    v.push(
        PatternSuggestion::new(
            RESTORE_WORKTREE_EXPLICIT_COMMAND_B,
            RESTORE_WORKTREE_EXPLICIT_ADVICE_B,
        ),
    );
    v.push(
        PatternSuggestion::new(
            RESTORE_WORKTREE_EXPLICIT_COMMAND_C,
            RESTORE_WORKTREE_EXPLICIT_ADVICE_C,
        ),
    );
    assert(v@ =~= restore_worktree_explicit_advice());
    v
}

/// Safer commands for what `reset-hard` denies.
pub open spec fn reset_hard_advice() -> Seq<PatternSuggestion> {
    seq![
        suggestion(RESET_HARD_COMMAND_A, RESET_HARD_ADVICE_A),
        suggestion(RESET_HARD_COMMAND_B, RESET_HARD_ADVICE_B),
        suggestion(RESET_HARD_COMMAND_C, RESET_HARD_ADVICE_C),
        gated_suggestion(RESET_HARD_COMMAND_D, RESET_HARD_ADVICE_D),
    ]
}

/// Safer commands for what `reset-hard` denies.
pub fn make_reset_hard_advice() -> (r: Vec<PatternSuggestion>)
    ensures
        r@ == reset_hard_advice(),
{
    let mut v: Vec<PatternSuggestion> = Vec::new();
    v.push(PatternSuggestion::new(RESET_HARD_COMMAND_A, RESET_HARD_ADVICE_A));
    v.push(PatternSuggestion::new(RESET_HARD_COMMAND_B, RESET_HARD_ADVICE_B));
    v.push(PatternSuggestion::new(RESET_HARD_COMMAND_C, RESET_HARD_ADVICE_C));
    v.push(PatternSuggestion::gated(RESET_HARD_COMMAND_D, RESET_HARD_ADVICE_D));
    assert(v@ =~= reset_hard_advice());
    v
}

/// Safer commands for what `reset-merge` denies.
pub open spec fn reset_merge_advice() -> Seq<PatternSuggestion> {
    seq![
        suggestion(RESET_MERGE_COMMAND_A, RESET_MERGE_ADVICE_A),
        suggestion(RESET_MERGE_COMMAND_B, RESET_MERGE_ADVICE_B),
        suggestion(RESET_MERGE_COMMAND_C, RESET_MERGE_ADVICE_C),
    ]
}

/// Safer commands for what `reset-merge` denies.
pub fn make_reset_merge_advice() -> (r: Vec<PatternSuggestion>)
    ensures
        r@ == reset_merge_advice(),
{
    let mut v: Vec<PatternSuggestion> = Vec::new();
    v.push(PatternSuggestion::new(RESET_MERGE_COMMAND_A, RESET_MERGE_ADVICE_A));
    v.push(PatternSuggestion::new(RESET_MERGE_COMMAND_B, RESET_MERGE_ADVICE_B));
    v.push(PatternSuggestion::new(RESET_MERGE_COMMAND_C, RESET_MERGE_ADVICE_C));
    assert(v@ =~= reset_merge_advice());
    v
}

/// Safer commands for what `clean-force` denies.
pub open spec fn clean_force_advice() -> Seq<PatternSuggestion> {
    seq![
        suggestion(CLEAN_FORCE_COMMAND_A, CLEAN_FORCE_ADVICE_A),
        suggestion(CLEAN_FORCE_COMMAND_B, CLEAN_FORCE_ADVICE_B),
        suggestion(CLEAN_FORCE_COMMAND_C, CLEAN_FORCE_ADVICE_C),
        suggestion(CLEAN_FORCE_COMMAND_D, CLEAN_FORCE_ADVICE_D),
    ]
}

/// Safer commands for what `clean-force` denies.
pub fn make_clean_force_advice() -> (r: Vec<PatternSuggestion>)
    ensures
        r@ == clean_force_advice(),
{
    let mut v: Vec<PatternSuggestion> = Vec::new();
    v.push(PatternSuggestion::new(CLEAN_FORCE_COMMAND_A, CLEAN_FORCE_ADVICE_A));
    v.push(PatternSuggestion::new(CLEAN_FORCE_COMMAND_B, CLEAN_FORCE_ADVICE_B));
    v.push(PatternSuggestion::new(CLEAN_FORCE_COMMAND_C, CLEAN_FORCE_ADVICE_C));
    v.push(PatternSuggestion::new(CLEAN_FORCE_COMMAND_D, CLEAN_FORCE_ADVICE_D));
    assert(v@ =~= clean_force_advice());
    v
}

/// Safer commands for what `push-force-long` denies.
pub open spec fn push_force_long_advice() -> Seq<PatternSuggestion> {
    seq![
        suggestion(PUSH_FORCE_LONG_COMMAND_A, PUSH_FORCE_LONG_ADVICE_A),
        suggestion(PUSH_FORCE_LONG_COMMAND_B, PUSH_FORCE_LONG_ADVICE_B),
        suggestion(PUSH_FORCE_LONG_COMMAND_C, PUSH_FORCE_LONG_ADVICE_C),
    ]
}

/// Safer commands for what `push-force-long` denies.
pub fn make_push_force_long_advice() -> (r: Vec<PatternSuggestion>)
    ensures
        r@ == push_force_long_advice(),
{
    let mut v: Vec<PatternSuggestion> = Vec::new();
    v.push(PatternSuggestion::new(PUSH_FORCE_LONG_COMMAND_A, PUSH_FORCE_LONG_ADVICE_A));
    v.push(PatternSuggestion::new(PUSH_FORCE_LONG_COMMAND_B, PUSH_FORCE_LONG_ADVICE_B));
    v.push(PatternSuggestion::new(PUSH_FORCE_LONG_COMMAND_C, PUSH_FORCE_LONG_ADVICE_C));
    assert(v@ =~= push_force_long_advice());
    v
}

/// Safer commands for what `push-force-short` denies.
pub open spec fn push_force_short_advice() -> Seq<PatternSuggestion> {
    seq![
        suggestion(PUSH_FORCE_SHORT_COMMAND_A, PUSH_FORCE_SHORT_ADVICE_A),
        suggestion(PUSH_FORCE_SHORT_COMMAND_B, PUSH_FORCE_SHORT_ADVICE_B),
        suggestion(PUSH_FORCE_SHORT_COMMAND_C, PUSH_FORCE_SHORT_ADVICE_C),
    ]
}

/// Safer commands for what `push-force-short` denies.
pub fn make_push_force_short_advice() -> (r: Vec<PatternSuggestion>)
    ensures
        r@ == push_force_short_advice(),
{
    let mut v: Vec<PatternSuggestion> = Vec::new();
    v.push(PatternSuggestion::new(PUSH_FORCE_SHORT_COMMAND_A, PUSH_FORCE_SHORT_ADVICE_A));
    v.push(PatternSuggestion::new(PUSH_FORCE_SHORT_COMMAND_B, PUSH_FORCE_SHORT_ADVICE_B));
    v.push(PatternSuggestion::new(PUSH_FORCE_SHORT_COMMAND_C, PUSH_FORCE_SHORT_ADVICE_C));
    assert(v@ =~= push_force_short_advice());
    v
}

/// Safer commands for what `branch-force-delete` denies.
pub open spec fn branch_force_delete_advice() -> Seq<PatternSuggestion> {
    seq![
        suggestion(BRANCH_FORCE_DELETE_COMMAND_A, BRANCH_FORCE_DELETE_ADVICE_A),
        suggestion(BRANCH_FORCE_DELETE_COMMAND_B, BRANCH_FORCE_DELETE_ADVICE_B),
        suggestion(BRANCH_FORCE_DELETE_COMMAND_C, BRANCH_FORCE_DELETE_ADVICE_C),
    ]
}

/// Safer commands for what `branch-force-delete` denies.
pub fn make_branch_force_delete_advice() -> (r: Vec<PatternSuggestion>)
    ensures
        r@ == branch_force_delete_advice(),
{
    let mut v: Vec<PatternSuggestion> = Vec::new();
    v.push(PatternSuggestion::new(BRANCH_FORCE_DELETE_COMMAND_A, BRANCH_FORCE_DELETE_ADVICE_A));
    v.push(PatternSuggestion::new(BRANCH_FORCE_DELETE_COMMAND_B, BRANCH_FORCE_DELETE_ADVICE_B));
    v.push(PatternSuggestion::new(BRANCH_FORCE_DELETE_COMMAND_C, BRANCH_FORCE_DELETE_ADVICE_C));
    assert(v@ =~= branch_force_delete_advice());
    v
}

/// Safer commands for what `stash-drop` denies.
pub open spec fn stash_drop_advice() -> Seq<PatternSuggestion> {
    seq![
        suggestion(STASH_DROP_COMMAND_A, STASH_DROP_ADVICE_A),
        suggestion(STASH_DROP_COMMAND_B, STASH_DROP_ADVICE_B),
        suggestion(STASH_DROP_COMMAND_C, STASH_DROP_ADVICE_C),
        suggestion(STASH_DROP_COMMAND_D, STASH_DROP_ADVICE_D),
    ]
}

/// Safer commands for what `stash-drop` denies.
pub fn make_stash_drop_advice() -> (r: Vec<PatternSuggestion>)
    ensures
        r@ == stash_drop_advice(),
{
    let mut v: Vec<PatternSuggestion> = Vec::new();
    v.push(PatternSuggestion::new(STASH_DROP_COMMAND_A, STASH_DROP_ADVICE_A));
    v.push(PatternSuggestion::new(STASH_DROP_COMMAND_B, STASH_DROP_ADVICE_B));
    v.push(PatternSuggestion::new(STASH_DROP_COMMAND_C, STASH_DROP_ADVICE_C));
    v.push(PatternSuggestion::new(STASH_DROP_COMMAND_D, STASH_DROP_ADVICE_D));
    assert(v@ =~= stash_drop_advice());
    v
}

/// Safer commands for what `stash-clear` denies.
pub open spec fn stash_clear_advice() -> Seq<PatternSuggestion> {
    seq![
        gated_suggestion(STASH_CLEAR_COMMAND_A, STASH_CLEAR_ADVICE_A),
        suggestion(STASH_CLEAR_COMMAND_B, STASH_CLEAR_ADVICE_B),
        suggestion(STASH_CLEAR_COMMAND_C, STASH_CLEAR_ADVICE_C),
    ]
}

/// Safer commands for what `stash-clear` denies.
pub fn make_stash_clear_advice() -> (r: Vec<PatternSuggestion>)
    ensures
        r@ == stash_clear_advice(),
{
    let mut v: Vec<PatternSuggestion> = Vec::new();
    v.push(PatternSuggestion::gated(STASH_CLEAR_COMMAND_A, STASH_CLEAR_ADVICE_A));
    v.push(PatternSuggestion::new(STASH_CLEAR_COMMAND_B, STASH_CLEAR_ADVICE_B));
    v.push(PatternSuggestion::new(STASH_CLEAR_COMMAND_C, STASH_CLEAR_ADVICE_C));
    assert(v@ =~= stash_clear_advice());
    v
}

} // verus!
