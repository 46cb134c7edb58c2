//! The names and texts of the rules on Git.

use vstd::prelude::*;

verus! {

/// The name of a safe pattern.
pub const CHECKOUT_NEW_BRANCH_NAME: &'static str = "checkout-new-branch";

/// The safe pattern `checkout-new-branch`.
pub const CHECKOUT_NEW_BRANCH_PATTERN: &'static str = r"(?:^|[^[:alnum:]_-])git\s+(?:\S+\s+)*checkout\s+-b\s+";

/// The name of a safe pattern.
pub const CHECKOUT_ORPHAN_NAME: &'static str = "checkout-orphan";

/// The safe pattern `checkout-orphan`.
pub const CHECKOUT_ORPHAN_PATTERN: &'static str = r"(?:^|[^[:alnum:]_-])git\s+(?:\S+\s+)*checkout\s+--orphan\s+";

/// The name of a safe pattern.
pub const RESTORE_STAGED_LONG_NAME: &'static str = "restore-staged-long";

/// The safe pattern `restore-staged-long`.
pub const RESTORE_STAGED_LONG_PATTERN: &'static str = r"(?:^|[^[:alnum:]_-])git\s+(?:\S+\s+)*restore\b(?=\s)(?=.*\s--staged\b)(?!.*\s(?:--worktree|-W)\b)";

/// The name of a safe pattern.
pub const RESTORE_STAGED_SHORT_NAME: &'static str = "restore-staged-short";

/// The safe pattern `restore-staged-short`.
pub const RESTORE_STAGED_SHORT_PATTERN: &'static str = r"(?:^|[^[:alnum:]_-])git\s+(?:\S+\s+)*restore\b(?=\s)(?=.*\s-S\b)(?!.*\s(?:--worktree|-W)\b)";

/// The name of a safe pattern.
pub const CLEAN_DRY_RUN_SHORT_NAME: &'static str = "clean-dry-run-short";

/// The safe pattern `clean-dry-run-short`.
pub const CLEAN_DRY_RUN_SHORT_PATTERN: &'static str = r"(?:^|[^[:alnum:]_-])git\s+(?:\S+\s+)*clean\s+-[a-z]*n[a-z]*";

/// The name of a safe pattern.
pub const CLEAN_DRY_RUN_LONG_NAME: &'static str = "clean-dry-run-long";

/// The safe pattern `clean-dry-run-long`.
pub const CLEAN_DRY_RUN_LONG_PATTERN: &'static str = r"(?:^|[^[:alnum:]_-])git\s+(?:\S+\s+)*clean\s+--dry-run";

/// The name of a rule.
pub const GIT_ALIAS_UNVERIFIED_RULE: &'static str = "git-alias-semantic-unverified";

/// Why `git-alias-semantic-unverified` denies.
pub const GIT_ALIAS_UNVERIFIED_REASON: &'static str = "The invoked Git alias depends on shell expansion, contains a cycle, or exceeds dcg's bounded semantic analysis.";

/// The pattern of `git-alias-semantic-unverified`, which matches nothing: the arguments of a command decide.
pub const GIT_ALIAS_UNVERIFIED_PATTERN: &'static str = r"(?!)";

/// What to know of `git-alias-semantic-unverified`.
pub const GIT_ALIAS_UNVERIFIED_EXPLANATION: &'static str = "Review the fully expanded Git executable, alias chain, shell-alias body, and appended arguments before allowing execution. Dynamic shell values, cycles, and commands beyond the semantic parser's bounds can hide destructive operations.";

/// The name of a rule.
pub const BRANCH_DYNAMIC_RULE: &'static str = "branch-dynamic-token";

/// Why `branch-dynamic-token` denies.
pub const BRANCH_DYNAMIC_REASON: &'static str = "A dynamic shell expansion in this git branch command can expand into a deletion or forced ref update. Quote the branch name or add `--` to make it a literal creation.";

/// The pattern of `branch-dynamic-token`, which matches nothing: the arguments of a command decide.
pub const BRANCH_DYNAMIC_PATTERN: &'static str = r"(?!)";

/// What to know of `branch-dynamic-token`.
pub const BRANCH_DYNAMIC_EXPLANATION: &'static str = "An unquoted command substitution or variable in a git branch invocation is \
     expanded and field-split by the shell before git parses it, so its output can \
     inject `-D`, `-f`, `-M`, or `-C` and turn a branch creation into a deletion or \
     forced ref update. dcg cannot statically bound the expansion's output.\n\n\
     The reliable fix is to resolve the dynamic value first and rerun the command \
     with the literal branch name.\n\n\
     For a branch *creation*, these spellings are safe without any exception:\n\
     - Quote the name so it stays one word: git branch \"backup-$(date +%s)\"\n\
     - End option parsing first: git branch -- backup-$(date +%s)\n\n\
     Both guarantee the expansion cannot become a flag. They do not unlock a command \
     that already carries a literal deletion/force flag (`-D`, `-d`, `-f`, `-M`, \
     `-C`) — branch deletion stays gated on its own merits.";

/// The name of a rule.
pub const CHECKOUT_DISCARD_NAME: &'static str = "checkout-discard";

/// Why `checkout-discard` denies.
pub const CHECKOUT_DISCARD_REASON: &'static str = "git checkout -- discards uncommitted changes permanently. Use 'git stash' first.";

/// The pattern of `checkout-discard`.
pub const CHECKOUT_DISCARD_PATTERN: &'static str = r"(?:^|[^[:alnum:]_-])git\s+(?:\S+\s+)*checkout\s+--\s+";

/// What to know of `checkout-discard`.
pub const CHECKOUT_DISCARD_EXPLANATION: &'static str = "git checkout -- <path> discards all uncommitted changes to the specified files \
     in your working directory. These changes are permanently lost - they cannot be \
     recovered because they were never committed.\n\n\
     Safer alternatives:\n\
     - git stash: Save changes temporarily, restore later with 'git stash pop'\n\
     - git diff <path>: Review what would be lost before discarding\n\n\
     Preview changes first:\n  git diff -- <path>\n\n\
     Recovering from a failed `git pull --rebase`?\n\
     Run `dcg rebase-recover` in this repo, then retry the command on its own line \
     (a leading `cd <repo> &&` is fine; nothing else may share the line). This \
     issues a short-lived, single-shot permit that unblocks this rule only. A rebase already \
     in progress (`.git/rebase-merge/` or `.git/rebase-apply/` present) auto-allows \
     the same rule without a permit.";

/// The name of a rule.
pub const CHECKOUT_REF_DISCARD_NAME: &'static str = "checkout-ref-discard";

/// Why `checkout-ref-discard` denies.
pub const CHECKOUT_REF_DISCARD_REASON: &'static str = "git checkout <ref> -- <path> overwrites working tree. Use 'git stash' first.";

/// The pattern of `checkout-ref-discard`.
pub const CHECKOUT_REF_DISCARD_PATTERN: &'static str = r"(?:^|[^[:alnum:]_-])git\s+(?:\S+\s+)*checkout\s+(?!-b\b)(?!--orphan\b)[^\s]+\s+--\s+";

/// What to know of `checkout-ref-discard`.
pub const CHECKOUT_REF_DISCARD_EXPLANATION: &'static str = "git checkout <ref> -- <path> replaces your working tree files with versions from \
     another commit or branch. Any uncommitted changes to those files are permanently \
     lost - they cannot be recovered.\n\n\
     Safer alternatives:\n\
     - git stash: Save changes first, then checkout, then restore with 'git stash pop'\n\
     - git show <ref>:<path>: View the file content without overwriting. View only — \
     redirecting the output back onto <path> (`git show <ref>:<path> > <path>`) reaches \
     the exact overwrite this rule denies. To capture the content, redirect to a NEW \
     file: `git show <ref>:<path> > <path>.from-ref`\n\n\
     Preview what would change:\n  git diff HEAD <ref> -- <path>";

/// The name of a rule.
pub const SHOW_REDIRECT_OVERWRITE_SOURCE_NAME: &'static str = "show-redirect-overwrite-source";

/// Why `show-redirect-overwrite-source` denies.
pub const SHOW_REDIRECT_OVERWRITE_SOURCE_REASON: &'static str = "git show <ref>:<path> redirected onto the same <path> overwrites the working tree file, exactly like the denied 'git checkout <ref> -- <path>'.";

/// The pattern of `show-redirect-overwrite-source`.
pub const SHOW_REDIRECT_OVERWRITE_SOURCE_PATTERN: &'static str = r"(?:^|[^[:alnum:]_-])git\s+(?:\S+\s+)*show\s+[^\s:]+:(\S+)\s*(?:>>|>\|?)\s*(?:\./)?\1(?:[\s;&|)]|$)";

/// What to know of `show-redirect-overwrite-source`.
pub const SHOW_REDIRECT_OVERWRITE_SOURCE_EXPLANATION: &'static str = "Redirecting `git show <ref>:<path>` back onto `<path>` replaces the working-tree \
     file with the version from another commit or branch. Any uncommitted changes to \
     that file are permanently lost — the same hazard `checkout-ref-discard` exists to \
     prevent, reached through a redirect instead of a checkout.\n\n\
     The piped spelling `git show <ref>:<path> | tee <path>` reaches the same \
     overwrite and is just as unsafe.\n\n\
     Safer alternatives:\n\
     - Redirect to a NEW file, then inspect: `git show <ref>:<path> > <path>.from-ref`\n\
     - git stash: Save changes first, then take the other version, then \
     'git stash pop'\n\
     - Bare `git show <ref>:<path>` (no redirect) only prints and is always allowed.\n\n\
     Preview what would change:\n  git diff HEAD <ref> -- <path>";

/// The name of a rule.
pub const RESTORE_WORKTREE_NAME: &'static str = "restore-worktree";

/// Why `restore-worktree` denies.
pub const RESTORE_WORKTREE_REASON: &'static str = "git restore discards uncommitted changes. Use 'git stash' or 'git diff' first.";

/// The pattern of `restore-worktree`.
pub const RESTORE_WORKTREE_PATTERN: &'static str = r"(?:^|[^[:alnum:]_-])git\s+(?:\S+\s+)*restore\b(?=\s)(?!.*\s(?:--staged|-S)\b)";

/// What to know of `restore-worktree`.
pub const RESTORE_WORKTREE_EXPLANATION: &'static str = "git restore <path> discards uncommitted changes in your working directory, \
     reverting files to their last committed state. Changes that were never \
     committed are permanently lost.\n\n\
     Safer alternatives:\n\
     - git restore --staged <path>: Only unstage, keeps working directory changes\n\
     - git stash: Save all changes temporarily\n\
     - git diff <path>: Review what would be lost\n\n\
     Preview changes first:\n  git diff <path>\n\n\
     Recovering from a failed `git pull --rebase`?\n\
     Run `dcg rebase-recover` in this repo, then retry the command on its own line \
     (a leading `cd <repo> &&` is fine; nothing else may share the line). This \
     issues a short-lived, single-shot permit that unblocks this rule only. A rebase already \
     in progress (`.git/rebase-merge/` or `.git/rebase-apply/` present) auto-allows \
     the same rule without a permit.";

/// The name of a rule.
pub const RESTORE_WORKTREE_EXPLICIT_NAME: &'static str = "restore-worktree-explicit";

/// Why `restore-worktree-explicit` denies.
pub const RESTORE_WORKTREE_EXPLICIT_REASON: &'static str = "git restore --worktree/-W discards uncommitted changes permanently.";

/// The pattern of `restore-worktree-explicit`.
pub const RESTORE_WORKTREE_EXPLICIT_PATTERN: &'static str = r"(?:^|[^[:alnum:]_-])git\s+(?:\S+\s+)*restore\s+.*(?:--worktree|-W\b)";

/// What to know of `restore-worktree-explicit`.
pub const RESTORE_WORKTREE_EXPLICIT_EXPLANATION: &'static str = "git restore --worktree (or -W) explicitly targets your working directory, \
     discarding uncommitted changes. Even when combined with --staged, the worktree \
     changes are permanently lost.\n\n\
     Safer alternatives:\n\
     - git restore --staged <path>: Only unstage, keeps working directory\n\
     - git stash: Save changes first\n\n\
     Preview changes first:\n  git diff <path>";

/// The name of a rule.
pub const RESET_HARD_NAME: &'static str = "reset-hard";

/// Why `reset-hard` denies.
pub const RESET_HARD_REASON: &'static str = "git reset --hard destroys uncommitted changes. Use 'git stash' first.";

/// The pattern of `reset-hard`.
pub const RESET_HARD_PATTERN: &'static str = r"(?:^|[^[:alnum:]_-])git\s+(?:\S+\s+)*reset\s+--hard";

/// What to know of `reset-hard`.
pub const RESET_HARD_EXPLANATION: &'static str = "git reset --hard discards ALL uncommitted changes in your working directory \
     AND staging area. This is one of the most dangerous git commands because \
     changes that were never committed cannot be recovered by any means.\n\n\
     What gets destroyed:\n\
     - All modified files revert to the target commit\n\
     - All staged changes are lost\n\
     - Untracked files remain (use git clean to remove those)\n\n\
     Safer alternatives:\n\
     - git reset --soft <ref>: Move HEAD but keep all changes staged\n\
     - git reset --mixed <ref>: Move HEAD, unstage changes, keep working dir (default)\n\
     - git stash: Save changes before resetting\n\n\
     Preview what would be lost:\n  git status && git diff";

/// The name of a rule.
pub const RESET_MERGE_NAME: &'static str = "reset-merge";

/// Why `reset-merge` denies.
pub const RESET_MERGE_REASON: &'static str = "git reset --merge can lose uncommitted changes.";

/// The pattern of `reset-merge`.
pub const RESET_MERGE_PATTERN: &'static str = r"(?:^|[^[:alnum:]_-])git\s+(?:\S+\s+)*reset\s+--merge";

/// What to know of `reset-merge`.
pub const RESET_MERGE_EXPLANATION: &'static str = "git reset --merge resets the index and updates files in the working tree that \
     differ between the target commit and HEAD, but keeps changes that are not staged. \
     However, if there are uncommitted changes in files that need to be updated, \
     those changes will be lost.\n\n\
     Safer alternatives:\n\
     - git stash: Save uncommitted changes before reset\n\
     - git merge --abort: If in the middle of a merge, abort safely\n\n\
     Preview what would change:\n  git status && git diff";

/// The name of a rule.
pub const CLEAN_FORCE_NAME: &'static str = "clean-force";

/// Why `clean-force` denies.
pub const CLEAN_FORCE_REASON: &'static str = "git clean -f/--force removes untracked files permanently. Review with 'git clean -n' first.";

/// The pattern of `clean-force`.
pub const CLEAN_FORCE_PATTERN: &'static str = r"(?:^|[^[:alnum:]_-])git\s+(?:\S+\s+)*clean\s+(?:-[a-z]*f|--force\b)";

/// What to know of `clean-force`.
pub const CLEAN_FORCE_EXPLANATION: &'static str = "git clean -f permanently deletes untracked files from your working directory. \
     These are files that have never been committed to git, so they cannot be \
     recovered from git history. If you haven't backed them up elsewhere, they \
     are gone forever.\n\n\
     Common dangerous combinations:\n\
     - git clean -fd: Also removes untracked directories\n\
     - git clean -xf: Also removes ignored files (build artifacts, .env, etc.)\n\n\
     Safer alternatives:\n\
     - git clean -n: Dry-run, shows what would be deleted\n\
     - git clean -i: Interactive mode, choose what to delete\n\n\
     ALWAYS preview first:\n  git clean -n -d";

/// The name of a rule.
pub const PUSH_FORCE_LONG_NAME: &'static str = "push-force-long";

/// Why `push-force-long` denies.
pub const PUSH_FORCE_LONG_REASON: &'static str = "Force push can destroy remote history. Use --force-with-lease if necessary.";

/// The pattern of `push-force-long`.
pub const PUSH_FORCE_LONG_PATTERN: &'static str = r"(?:^|[^[:alnum:]_-])git\s+(?:[^\s&;|`()<>]+\s+)*push\s+(?:[^\s&;|`()<>]+\s+)*--force(?![-a-z])";

/// What to know of `push-force-long`.
pub const PUSH_FORCE_LONG_EXPLANATION: &'static str = "git push --force overwrites remote history with your local history. This can \
     permanently destroy commits that others have already pulled, causing data loss \
     for your entire team. Collaborators may lose work, and recovering requires \
     manual intervention from everyone affected.\n\n\
     What can go wrong:\n\
     - Commits others pushed are deleted from remote\n\
     - Team members get diverged histories\n\
     - CI/CD pipelines may reference deleted commits\n\n\
     Safer alternative:\n\
     - git push --force-with-lease: Only forces if remote matches your last fetch\n\n\
     Check remote state first:\n  git fetch && git log origin/<branch>..HEAD";

/// The name of a rule.
pub const PUSH_FORCE_SHORT_NAME: &'static str = "push-force-short";

/// Why `push-force-short` denies.
pub const PUSH_FORCE_SHORT_REASON: &'static str = "Force push (-f) can destroy remote history. Use --force-with-lease if necessary.";

/// The pattern of `push-force-short`.
pub const PUSH_FORCE_SHORT_PATTERN: &'static str = r"(?:^|[^[:alnum:]_-])git\s+(?:[^\s&;|`()<>]+\s+)*push\s+(?:[^\s&;|`()<>]+\s+)*-[a-zA-Z]*f[a-zA-Z]*\b";

/// What to know of `push-force-short`.
pub const PUSH_FORCE_SHORT_EXPLANATION: &'static str = "git push -f (short for --force) overwrites remote history with your local history. \
     This can permanently destroy commits that others have already pulled, causing data \
     loss for your entire team.\n\n\
     What can go wrong:\n\
     - Commits others pushed are deleted from remote\n\
     - Team members get diverged histories\n\
     - CI/CD pipelines may reference deleted commits\n\n\
     Safer alternative:\n\
     - git push --force-with-lease: Only forces if remote matches your last fetch\n\n\
     Check remote state first:\n  git fetch && git log origin/<branch>..HEAD";

/// The name of a rule.
pub const BRANCH_FORCE_DELETE_NAME: &'static str = "branch-force-delete";

/// Why `branch-force-delete` denies.
pub const BRANCH_FORCE_DELETE_REASON: &'static str = "git branch deletion or forced ref updates require explicit user approval.";

/// The pattern of `branch-force-delete`.
pub const BRANCH_FORCE_DELETE_PATTERN: &'static str = r"(?:^|[^[:alnum:]_-])(?i:(?:git(?:\.exe)?[ \t]+(?:[^\s&;|`()<>]+[ \t]+)*branch|git-branch(?:\.exe)?))[ \t]+(?:[^\s&;|`()<>]+[ \t]+)*(?:-[a-zA-Z]*[dDfMC][a-zA-Z]*(?:\s|$)|--(?:d(?:e(?:l(?:e(?:t(?:e)?)?)?)?)?|forc(?:e)?)(?:\s|$))";

/// What to know of `branch-force-delete`.
pub const BRANCH_FORCE_DELETE_EXPLANATION: &'static str = "git branch -d, -D, or --delete removes a branch reference. Lowercase -d \
     checks that Git considers the branch merged, but it still discards the branch \
     name, tracking configuration, and convenient reflog reference. The user may \
     intentionally need any of those. The -f/--force forms can also move an existing \
     branch reference away from commits. Agents must not cross either user-intent \
     boundary without explicit approval. The -M and -C shorthands force-overwrite an \
     existing rename/copy target and require the same approval.\n\n\
     Review without changing refs:\n\
     - git branch -vv: Show branch tips and upstream tracking state\n\
     - git branch --merged / --no-merged: Review Git's merge classification\n\
     - git log --oneline --decorate <branch>: Inspect the branch history\n\n\
     Recovery if deletion already happened:\n\
     git reflog  # Find the commit hash while it is still retained\n\
     git branch <branch> <commit-hash>";

/// The name of a rule.
pub const STASH_DROP_NAME: &'static str = "stash-drop";

/// Why `stash-drop` denies.
pub const STASH_DROP_REASON: &'static str = "git stash drop deletes a single stash. Recoverable via `git fsck` (unreachable objects).";

/// The pattern of `stash-drop`.
pub const STASH_DROP_PATTERN: &'static str = r"(?:^|[^[:alnum:]_-])git\s+(?:\S+\s+)*stash\s+drop";

/// What to know of `stash-drop`.
pub const STASH_DROP_EXPLANATION: &'static str = "git stash drop removes a specific stash entry from your stash list. The stashed \
     changes become unreferenced but remain in git's object database temporarily. \
     They can often be recovered using git fsck, but this is not guaranteed and \
     becomes harder over time as git garbage collects.\n\n\
     Safer alternatives:\n\
     - git stash pop: Apply and drop in one step (only drops if apply succeeds)\n\
     - git stash apply: Apply without dropping, verify first\n\n\
     Recovery if needed:\n\
     git fsck --unreachable | grep commit\n\
     git show <commit-hash>  # Inspect each to find your stash";

/// The name of a rule.
pub const STASH_CLEAR_NAME: &'static str = "stash-clear";

/// Why `stash-clear` denies.
pub const STASH_CLEAR_REASON: &'static str = "git stash clear permanently deletes ALL stashed changes.";

/// The pattern of `stash-clear`.
pub const STASH_CLEAR_PATTERN: &'static str = r"(?:^|[^[:alnum:]_-])git\s+(?:\S+\s+)*stash\s+clear";

/// What to know of `stash-clear`.
pub const STASH_CLEAR_EXPLANATION: &'static str = "git stash clear removes ALL stash entries at once. Unlike git stash drop, \
     which removes one at a time, this command wipes your entire stash list. \
     All stashed changes become unreferenced and are very difficult to recover.\n\n\
     What gets destroyed:\n\
     - All entries in 'git stash list' are removed\n\
     - Multiple sets of saved work-in-progress may be lost\n\n\
     Safer alternatives:\n\
     - git stash drop stash@{n}: Remove one specific stash at a time\n\
     - git stash list: Review what would be lost first\n\
     - git stash show stash@{n}: Inspect each stash before deciding\n\n\
     Recovery (difficult, not guaranteed):\n\
     git fsck --unreachable | grep commit";

} // verus!
