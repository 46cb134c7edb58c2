//! Safer commands for what the rules on files deny.

use vstd::prelude::*;
use crate::pack::{gated_suggestion, suggestion, suggestion_on, PatternSuggestion, Platform};

verus! {

/// A safer command for a recursive removal of an absolute or home path.
pub const RM_RF_ROOT_HOME_COMMAND_A: &'static str = "find {path} -type f | head -20";

/// What it is good for.
pub const RM_RF_ROOT_HOME_ADVICE_A: &'static str = "Preview what files would be deleted before running";

/// A safer command for a recursive removal of an absolute or home path.
pub const RM_RF_ROOT_HOME_COMMAND_B: &'static str = "ls -la {path}";

/// What it is good for.
pub const RM_RF_ROOT_HOME_ADVICE_B: &'static str = "List directory contents to verify the path";

/// A safer command for a recursive removal of an absolute or home path.
pub const RM_RF_ROOT_HOME_COMMAND_C: &'static str = "rm -rf /tmp/<subdir>";

/// What it is good for.
pub const RM_RF_ROOT_HOME_ADVICE_C: &'static str = "Scope deletion to a disposable temp path — dcg allows literal /tmp targets without confirmation";

/// A safer command for a recursive removal of an absolute or home path.
pub const RM_RF_ROOT_HOME_COMMAND_D: &'static str = "rm -rf <specific-subdirectory>";

/// What it is good for.
pub const RM_RF_ROOT_HOME_ADVICE_D: &'static str = "A specific non-temp path is safer than root/home but still a recursive delete, so it needs approval";

/// A safer command for a forced recursive removal with its flags in one cluster.
pub const RM_RF_GENERAL_COMMAND_A: &'static str = "rm -ri {path}";

/// What it is good for.
pub const RM_RF_GENERAL_ADVICE_A: &'static str = "Interactive mode: confirms each file before deletion (needs a terminal: with stdin closed, as under an agent hook, it deletes nothing and exits 0)";

/// A safer command for a forced recursive removal with its flags in one cluster.
pub const RM_RF_GENERAL_COMMAND_B: &'static str = "trash-put {path}";

/// What it is good for.
pub const RM_RF_GENERAL_ADVICE_B: &'static str = "Move to trash instead of permanent deletion (requires trash-cli)";

/// A safer command for a forced recursive removal with its flags in one cluster.
pub const RM_RF_GENERAL_COMMAND_C: &'static str = "gio trash {path}";

/// What it is good for.
pub const RM_RF_GENERAL_ADVICE_C: &'static str = "Move to trash via GNOME (requires gio)";

/// A safer command for a forced recursive removal with its flags in one cluster.
pub const RM_RF_GENERAL_COMMAND_D: &'static str = "mv {path} ~/.Trash/";

/// What it is good for.
pub const RM_RF_GENERAL_ADVICE_D: &'static str = "Move to the Finder trash instead of deleting (macOS has no ~/.local/share/Trash)";

/// A safer command for a forced recursive removal with its flags in one cluster.
pub const RM_RF_GENERAL_COMMAND_E: &'static str = "mv {path} /tmp/delete-me-{timestamp}";

/// What it is good for.
pub const RM_RF_GENERAL_ADVICE_E: &'static str = "Move to a temp holding area instead of deleting immediately";

/// A safer command for a forced recursive removal with its flags in one cluster.
pub const RM_RF_GENERAL_COMMAND_F: &'static str = "rm -rf /tmp/{subdir}";

/// What it is good for.
pub const RM_RF_GENERAL_ADVICE_F: &'static str = "Safe temp directory deletion (allowed without confirmation)";

/// A safer command for a forced recursive removal with its flags in one cluster.
pub const RM_RF_GENERAL_COMMAND_G: &'static str = "find {path} -type f | wc -l";

/// What it is good for.
pub const RM_RF_GENERAL_ADVICE_G: &'static str = "Count files that would be deleted before proceeding";

/// A safer command for a forced recursive removal with its flags in one cluster.
pub const RM_RF_GENERAL_COMMAND_H: &'static str = "ls -la {path}";

/// What it is good for.
pub const RM_RF_GENERAL_ADVICE_H: &'static str = "List directory contents to verify the path";

/// A safer command for a forced recursive removal with its flags apart.
pub const RM_R_F_SEPARATE_COMMAND_A: &'static str = "rm -ri {path}";

/// What it is good for.
pub const RM_R_F_SEPARATE_ADVICE_A: &'static str = "Interactive mode: confirms each file before deletion (needs a terminal: with stdin closed, as under an agent hook, it deletes nothing and exits 0)";

/// A safer command for a forced recursive removal with its flags apart.
pub const RM_R_F_SEPARATE_COMMAND_B: &'static str = "rm -r -f /tmp/{subdir}";

/// What it is good for.
pub const RM_R_F_SEPARATE_ADVICE_B: &'static str = "Safe temp directory deletion (allowed without confirmation)";

/// A safer command for a forced recursive removal with its flags apart.
pub const RM_R_F_SEPARATE_COMMAND_C: &'static str = "find {path} -type f | head -20";

/// What it is good for.
pub const RM_R_F_SEPARATE_ADVICE_C: &'static str = "Preview files before deletion";

/// A safer command for a forced recursive removal with long flags.
pub const RM_RECURSIVE_FORCE_COMMAND_A: &'static str = "rm --interactive --recursive {path}";

/// What it is good for.
pub const RM_RECURSIVE_FORCE_ADVICE_A: &'static str = "Interactive mode: confirms each file before deletion (needs a terminal: with stdin closed, as under an agent hook, it deletes nothing and exits 0)";

/// A safer command for a forced recursive removal with long flags.
pub const RM_RECURSIVE_FORCE_COMMAND_B: &'static str = "find {path} -maxdepth 2 -ls | head -30";

/// What it is good for.
pub const RM_RECURSIVE_FORCE_ADVICE_B: &'static str = "Preview directory structure before deletion";

/// A safer command for a forced recursive removal with long flags.
pub const RM_RECURSIVE_FORCE_COMMAND_C: &'static str = "rm --recursive --force /tmp/{subdir}";

/// What it is good for.
pub const RM_RECURSIVE_FORCE_ADVICE_C: &'static str = "Safe temp directory deletion (allowed without confirmation)";

/// A safer command for `find -delete`.
pub const FIND_DELETE_COMMAND_A: &'static str = "find {path} -type f | head -20";

/// What it is good for.
pub const FIND_DELETE_ADVICE_A: &'static str = "Preview which files `-delete` would remove (drop the -delete flag)";

/// A safer command for `find -delete`.
pub const FIND_DELETE_COMMAND_B: &'static str = "find {path} -type f | wc -l";

/// What it is good for.
pub const FIND_DELETE_ADVICE_B: &'static str = "Count files that would be deleted before proceeding";

/// A safer command for `find -delete`.
pub const FIND_DELETE_COMMAND_C: &'static str = "find /tmp/{subdir} -delete";

/// What it is good for.
pub const FIND_DELETE_ADVICE_C: &'static str = "Safe temp directory deletion (allowed without confirmation)";

/// A safer command for `find -delete`.
pub const FIND_DELETE_COMMAND_D: &'static str = "find {path} -print -delete";

/// What it is good for.
pub const FIND_DELETE_ADVICE_D: &'static str = "If you must proceed: use -print to log every deletion";

/// A safer command for `unlink`.
pub const UNLINK_COMMAND_A: &'static str = "ls -la {path}";

/// What it is good for.
pub const UNLINK_ADVICE_A: &'static str = "Verify the path before unlinking";

/// A safer command for `unlink`.
pub const UNLINK_COMMAND_B: &'static str = "cp {path} {path}.bak && unlink {path}";

/// What it is good for.
pub const UNLINK_ADVICE_B: &'static str = "Make a backup first if you really must remove the original";

/// A safer command for `unlink`.
pub const UNLINK_COMMAND_C: &'static str = "unlink /tmp/{subdir}/scratch";

/// What it is good for.
pub const UNLINK_ADVICE_C: &'static str = "Safe temp-directory unlink (allowed without confirmation)";

/// A safer command for `unlink`.
pub const UNLINK_COMMAND_D: &'static str = "trash-put {path}";

/// What it is good for.
pub const UNLINK_ADVICE_D: &'static str = "Move to trash instead of permanent unlink (requires trash-cli)";

/// A safer command for `truncate`.
pub const TRUNCATE_COMMAND_A: &'static str = "cp {path} {path}.bak && truncate -s 0 {path}";

/// What it is good for.
pub const TRUNCATE_ADVICE_A: &'static str = "Make a backup before zeroing the file";

/// A safer command for `truncate`.
pub const TRUNCATE_COMMAND_B: &'static str = "wc -c {path}";

/// What it is good for.
pub const TRUNCATE_ADVICE_B: &'static str = "Check current size before shrinking";

/// A safer command for `truncate`.
pub const TRUNCATE_COMMAND_C: &'static str = "truncate -s 0 /tmp/{subdir}/scratch";

/// What it is good for.
pub const TRUNCATE_ADVICE_C: &'static str = "Safe temp-directory truncate (allowed without confirmation)";

/// A safer command for `truncate`.
pub const TRUNCATE_COMMAND_D: &'static str = "head -c <N> {path} > /tmp/{subdir}/head && cp -f /tmp/{subdir}/head {path}";

/// What it is good for.
pub const TRUNCATE_ADVICE_D: &'static str = "Keep the first N bytes instead of dropping data blindly (write via a temp file)";

/// A safer command for `shred`.
pub const SHRED_COMMAND_A: &'static str = "ls -la {path}";

/// What it is good for.
pub const SHRED_ADVICE_A: &'static str = "Verify the path before shredding (no recovery)";

/// A safer command for `shred`.
pub const SHRED_COMMAND_B: &'static str = "cp {path} {path}.bak && shred -u {path}";

/// What it is good for.
pub const SHRED_ADVICE_B: &'static str = "Make a backup first if you might need the data";

/// A safer command for `shred`.
pub const SHRED_COMMAND_C: &'static str = "shred -u /tmp/{subdir}/scratch";

/// What it is good for.
pub const SHRED_ADVICE_C: &'static str = "Safe temp-directory shred (allowed without confirmation)";

/// A safer command for `shred`.
pub const SHRED_COMMAND_D: &'static str = "shred -n 1 -u {path}";

/// What it is good for.
pub const SHRED_ADVICE_D: &'static str = "Single-pass shred is faster (and on SSDs, multi-pass adds little)";

/// A safer command for `tar --remove-files`.
pub const TAR_REMOVE_FILES_COMMAND_A: &'static str = "tar -cf {path}.tar {path}";

/// What it is good for.
pub const TAR_REMOVE_FILES_ADVICE_A: &'static str = "Archive without --remove-files (sources are preserved)";

/// A safer command for `tar --remove-files`.
pub const TAR_REMOVE_FILES_COMMAND_B: &'static str = "tar -cf {path}.tar {path} && rm -ri {path}";

/// What it is good for.
pub const TAR_REMOVE_FILES_ADVICE_B: &'static str = "Archive first, then remove with confirmation prompts";

/// A safer command for `tar --remove-files`.
pub const TAR_REMOVE_FILES_COMMAND_C: &'static str = "tar --remove-files -cf out.tar /tmp/{subdir}";

/// What it is good for.
pub const TAR_REMOVE_FILES_ADVICE_C: &'static str = "Safe temp-directory archive + remove (allowed without confirmation)";

/// A safer command for `tar --remove-files`.
pub const TAR_REMOVE_FILES_COMMAND_D: &'static str = "ls -la {path}";

/// What it is good for.
pub const TAR_REMOVE_FILES_ADVICE_D: &'static str = "Verify the source path before archive+delete";

/// A safer command for `dd` onto a file.
pub const DD_OVERWRITE_COMMAND_A: &'static str = "ls -la {path}";

/// What it is good for.
pub const DD_OVERWRITE_ADVICE_A: &'static str = "Verify the path before overwriting (no recovery)";

/// A safer command for `dd` onto a file.
pub const DD_OVERWRITE_COMMAND_B: &'static str = "cp {path} {path}.bak && dd if=/dev/zero of={path} bs=1M count=10";

/// What it is good for.
pub const DD_OVERWRITE_ADVICE_B: &'static str = "Make a backup first if you might need the data";

/// A safer command for `dd` onto a file.
pub const DD_OVERWRITE_COMMAND_C: &'static str = "dd if=/dev/zero of=/tmp/{subdir}/scratch bs=1M count=10";

/// What it is good for.
pub const DD_OVERWRITE_ADVICE_C: &'static str = "Safe temp-directory dd (allowed without confirmation)";

/// A safer command for `dd` onto a file.
pub const DD_OVERWRITE_COMMAND_D: &'static str = "dd if={path} of=/dev/null";

/// What it is good for.
pub const DD_OVERWRITE_ADVICE_D: &'static str = "Read-only dd: output discarded (useful for testing read speed)";

/// A safer command for `mv` of a system or home path.
pub const MV_SENSITIVE_COMMAND_A: &'static str = "ls -la {path}";

/// What it is good for.
pub const MV_SENSITIVE_ADVICE_A: &'static str = "Verify the source path before any move";

/// A safer command for `mv` of a system or home path.
pub const MV_SENSITIVE_COMMAND_B: &'static str = "cp -a {path} {path}.bak";

/// What it is good for.
pub const MV_SENSITIVE_ADVICE_B: &'static str = "Copy first (preserves the original) — verify the copy, then remove only after confirmation";

/// A safer command for `mv` of a system or home path.
pub const MV_SENSITIVE_COMMAND_C: &'static str = "mv {path} {path}.deleted-YYYYMMDD";

/// What it is good for.
pub const MV_SENSITIVE_ADVICE_C: &'static str = "In-place rename for soft-delete (no cross-segment hop, easy to undo) — allowed inside a home subtree; a home root, a top-level home directory, a dotfile tree, or a system path is still gated";

/// A safer command for `mv` of a system or home path.
pub const MV_SENSITIVE_COMMAND_D: &'static str = "mv /tmp/{subdir}/foo /tmp/{subdir}/bar";

/// What it is good for.
pub const MV_SENSITIVE_ADVICE_D: &'static str = "Safe temp-directory rename (allowed without confirmation)";

/// A safer command for `mv` with a computed path.
pub const MV_DYNAMIC_COMMAND_A: &'static str = "ls -la {path}";

/// What it is good for.
pub const MV_DYNAMIC_ADVICE_A: &'static str = "Resolve and verify the expanded path before any move";

/// A safer command for `mv` with a computed path.
pub const MV_DYNAMIC_COMMAND_B: &'static str = "cp -a {path} {path}.bak";

/// What it is good for.
pub const MV_DYNAMIC_ADVICE_B: &'static str = "Copy first (preserves the original) — verify the copy, then remove only after confirmation";

/// A safer command for `mv` with a computed path.
pub const MV_DYNAMIC_COMMAND_C: &'static str = "mv {path} {path}.deleted-YYYYMMDD";

/// What it is good for.
pub const MV_DYNAMIC_ADVICE_C: &'static str = "Use resolved literal paths for an in-place soft-delete rename";

/// A safer command for `mv` with a computed path.
pub const MV_DYNAMIC_COMMAND_D: &'static str = "mv /tmp/{subdir}/foo /tmp/{subdir}/bar";

/// What it is good for.
pub const MV_DYNAMIC_ADVICE_D: &'static str = "Safe temp-directory rename (allowed without confirmation)";

/// A safer command for a copy of a system or home path that is removed again.
pub const SENSITIVE_PROPAGATION_DELETE_COMMAND_A: &'static str = "ls -la {path}";

/// What it is good for.
pub const SENSITIVE_PROPAGATION_DELETE_ADVICE_A: &'static str = "Verify the sensitive source path before propagating it";

/// A safer command for a copy of a system or home path that is removed again.
pub const SENSITIVE_PROPAGATION_DELETE_COMMAND_B: &'static str = "cp -a {path} {path}.bak";

/// What it is good for.
pub const SENSITIVE_PROPAGATION_DELETE_ADVICE_B: &'static str = "Keep the backup beside the original and verify it before any later deletion";

/// A safer command for a copy of a system or home path that is removed again.
pub const SENSITIVE_PROPAGATION_DELETE_COMMAND_C: &'static str = "diff -r {path} {path}.bak";

/// What it is good for.
pub const SENSITIVE_PROPAGATION_DELETE_ADVICE_C: &'static str = "Compare the source and copy before considering removal";

/// A safer command for a copy of a system or home path that is removed again.
pub const SENSITIVE_PROPAGATION_DELETE_COMMAND_D: &'static str = "rm -ri /tmp/{subdir}";

/// What it is good for.
pub const SENSITIVE_PROPAGATION_DELETE_ADVICE_D: &'static str = "Use interactive removal for temp trees derived from sensitive sources";

/// A safer command for a redirection that truncates.
pub const REDIRECT_TRUNCATE_COMMAND_A: &'static str = "ls -la {path}";

/// What it is good for.
pub const REDIRECT_TRUNCATE_ADVICE_A: &'static str = "Verify the path before any redirect";

/// A safer command for a redirection that truncates.
pub const REDIRECT_TRUNCATE_COMMAND_B: &'static str = "producer | dcg create-new {path}";

/// What it is good for.
pub const REDIRECT_TRUNCATE_ADVICE_B: &'static str = "After resolving a literal destination, create it only if no file, directory, or symlink already exists";

/// A safer command for a redirection that truncates.
pub const REDIRECT_TRUNCATE_COMMAND_C: &'static str = "cp {path} {path}.bak && echo data > /tmp/{subdir}/out && cp -f /tmp/{subdir}/out {path}";

/// What it is good for.
pub const REDIRECT_TRUNCATE_ADVICE_C: &'static str = "Back up the target, write the new content to a temp file, then copy it into place";

/// A safer command for a redirection that truncates.
pub const REDIRECT_TRUNCATE_COMMAND_D: &'static str = "echo data >> {path}";

/// What it is good for.
pub const REDIRECT_TRUNCATE_ADVICE_D: &'static str = "Use append (>>) instead of truncate (>) to preserve existing content";

/// A safer command for a redirection that truncates.
pub const REDIRECT_TRUNCATE_COMMAND_E: &'static str = "echo data > /tmp/{subdir}/scratch";

/// What it is good for.
pub const REDIRECT_TRUNCATE_ADVICE_E: &'static str = "Safe temp-directory redirect (allowed without confirmation)";

/// A safer command for a recursive removal without force.
pub const RM_RECURSIVE_COMMAND_A: &'static str = "rm -ri {path}";

/// What it is good for.
pub const RM_RECURSIVE_ADVICE_A: &'static str = "Interactive mode: confirms each file before deletion (needs a terminal: with stdin closed, as under an agent hook, it deletes nothing and exits 0)";

/// A safer command for a recursive removal without force.
pub const RM_RECURSIVE_COMMAND_B: &'static str = "trash-put {path}";

/// What it is good for.
pub const RM_RECURSIVE_ADVICE_B: &'static str = "Move to trash instead of permanent deletion (requires trash-cli)";

/// A safer command for a recursive removal without force.
pub const RM_RECURSIVE_COMMAND_C: &'static str = "mv {path} ~/.Trash/";

/// What it is good for.
pub const RM_RECURSIVE_ADVICE_C: &'static str = "Move to the Finder trash instead of deleting (macOS has no ~/.local/share/Trash)";

/// A safer command for a recursive removal without force.
pub const RM_RECURSIVE_COMMAND_D: &'static str = "mv {path} /tmp/delete-me-{timestamp}";

/// What it is good for.
pub const RM_RECURSIVE_ADVICE_D: &'static str = "Move the tree aside instead of deleting it; remove the holding copy after review";

/// A safer command for a recursive removal without force.
pub const RM_RECURSIVE_COMMAND_E: &'static str = "rm -r /tmp/{subdir}";

/// What it is good for.
pub const RM_RECURSIVE_ADVICE_E: &'static str = "Safe temp directory deletion (allowed without confirmation)";

/// A safer command for a recursive removal without force.
pub const RM_RECURSIVE_COMMAND_F: &'static str = "ls -la {path}";

/// What it is good for.
pub const RM_RECURSIVE_ADVICE_F: &'static str = "List directory contents to verify the path";

/// A safer command for a recursive removal by a program that is computed.
pub const RM_RECURSIVE_UNVERIFIED_COMMAND_A: &'static str = "rm -r {path}";

/// What it is good for.
pub const RM_RECURSIVE_UNVERIFIED_ADVICE_A: &'static str = "Name the executable literally so the recursive delete gets the ordinary rm decision";

/// A safer command for a recursive removal by a program that is computed.
pub const RM_RECURSIVE_UNVERIFIED_COMMAND_B: &'static str = "echo {command}";

/// What it is good for.
pub const RM_RECURSIVE_UNVERIFIED_ADVICE_B: &'static str = "Print the assembled command first, then run the literal text it produced";

/// A safer command for a recursive removal by a program that is computed.
pub const RM_RECURSIVE_UNVERIFIED_COMMAND_C: &'static str = "ls -la {path}";

/// What it is good for.
pub const RM_RECURSIVE_UNVERIFIED_ADVICE_C: &'static str = "List directory contents to verify the path";

/// A safer command for a recursive `Remove-Item`.
pub const POWERSHELL_REMOVE_ITEM_RECURSIVE_COMMAND_A: &'static str = "Get-ChildItem -Recurse {path}";

/// What it is good for.
pub const POWERSHELL_REMOVE_ITEM_RECURSIVE_ADVICE_A: &'static str = "List the item tree before removing it";

/// A safer command for a recursive `Remove-Item`.
pub const POWERSHELL_REMOVE_ITEM_RECURSIVE_COMMAND_B: &'static str = "Remove-Item -Recurse -WhatIf {path}";

/// What it is good for.
pub const POWERSHELL_REMOVE_ITEM_RECURSIVE_ADVICE_B: &'static str = "Report what the removal would do without removing anything";

/// A safer command for a recursive `Remove-Item`.
pub const POWERSHELL_REMOVE_ITEM_RECURSIVE_COMMAND_C: &'static str = "Move-Item {path} (Join-Path ([IO.Path]::GetTempPath()) delete-me-{timestamp})";

/// What it is good for.
pub const POWERSHELL_REMOVE_ITEM_RECURSIVE_ADVICE_C: &'static str = "Move the tree aside instead of deleting it; the temp path resolves on Windows and POSIX pwsh alike";

/// A safer command for a removal of everything in a directory.
pub const RM_BARE_GLOB_COMMAND_A: &'static str = "ls -la";

/// What it is good for.
pub const RM_BARE_GLOB_ADVICE_A: &'static str = "List what the glob would expand to before deleting anything";

/// A safer command for a removal of everything in a directory.
pub const RM_BARE_GLOB_COMMAND_B: &'static str = "rm ./file-one ./file-two";

/// What it is good for.
pub const RM_BARE_GLOB_ADVICE_B: &'static str = "Delete explicitly named files so the removal set is reviewable";

/// A safer command for a removal of everything in a directory.
pub const RM_BARE_GLOB_COMMAND_C: &'static str = "rm *.log";

/// What it is good for.
pub const RM_BARE_GLOB_ADVICE_C: &'static str = "Constrain the glob to a reviewable shape instead of everything";

/// A safer command for a removal of everything in a directory.
pub const RM_BARE_GLOB_COMMAND_D: &'static str = "rm -i *";

/// What it is good for.
pub const RM_BARE_GLOB_ADVICE_D: &'static str = "Interactive glob delete: confirms each file (needs a terminal: with stdin closed, as under an agent hook, it deletes nothing and exits 0)";

/// A safer command for a removal of everything in a directory.
pub const RM_BARE_GLOB_COMMAND_E: &'static str = "mv ./file /tmp/delete-me-{timestamp}";

/// What it is good for.
pub const RM_BARE_GLOB_ADVICE_E: &'static str = "Move files aside instead of deleting them; remove the holding copy after review";

/// Safer commands for a recursive removal of an absolute or home path.
pub open spec fn rm_rf_root_home_advice() -> Seq<PatternSuggestion> {
    seq![
        suggestion(RM_RF_ROOT_HOME_COMMAND_A, RM_RF_ROOT_HOME_ADVICE_A),
        suggestion(RM_RF_ROOT_HOME_COMMAND_B, RM_RF_ROOT_HOME_ADVICE_B),
        suggestion(RM_RF_ROOT_HOME_COMMAND_C, RM_RF_ROOT_HOME_ADVICE_C),
        gated_suggestion(RM_RF_ROOT_HOME_COMMAND_D, RM_RF_ROOT_HOME_ADVICE_D),
    ]
}

/// Safer commands for a recursive removal of an absolute or home path.
pub fn make_rm_rf_root_home_advice() -> (r: Vec<PatternSuggestion>)
    ensures
        r@ == rm_rf_root_home_advice(),
{
    let mut v: Vec<PatternSuggestion> = Vec::new();
    v.push(PatternSuggestion::new(RM_RF_ROOT_HOME_COMMAND_A, RM_RF_ROOT_HOME_ADVICE_A));
    v.push(PatternSuggestion::new(RM_RF_ROOT_HOME_COMMAND_B, RM_RF_ROOT_HOME_ADVICE_B));
    v.push(PatternSuggestion::new(RM_RF_ROOT_HOME_COMMAND_C, RM_RF_ROOT_HOME_ADVICE_C));
    v.push(PatternSuggestion::gated(RM_RF_ROOT_HOME_COMMAND_D, RM_RF_ROOT_HOME_ADVICE_D));
    assert(v@ =~= rm_rf_root_home_advice());
    v
}

/// Safer commands for a forced recursive removal with its flags in one cluster.
pub open spec fn rm_rf_general_advice() -> Seq<PatternSuggestion> {
    seq![
        suggestion(RM_RF_GENERAL_COMMAND_A, RM_RF_GENERAL_ADVICE_A),
        suggestion_on(RM_RF_GENERAL_COMMAND_B, RM_RF_GENERAL_ADVICE_B, Platform::Linux),
        suggestion_on(RM_RF_GENERAL_COMMAND_C, RM_RF_GENERAL_ADVICE_C, Platform::Linux),
        suggestion_on(RM_RF_GENERAL_COMMAND_D, RM_RF_GENERAL_ADVICE_D, Platform::MacOS),
        suggestion(RM_RF_GENERAL_COMMAND_E, RM_RF_GENERAL_ADVICE_E),
        suggestion(RM_RF_GENERAL_COMMAND_F, RM_RF_GENERAL_ADVICE_F),
        suggestion(RM_RF_GENERAL_COMMAND_G, RM_RF_GENERAL_ADVICE_G),
        suggestion(RM_RF_GENERAL_COMMAND_H, RM_RF_GENERAL_ADVICE_H),
    ]
}

/// Safer commands for a forced recursive removal with its flags in one cluster.
pub fn make_rm_rf_general_advice() -> (r: Vec<PatternSuggestion>)
    ensures
        r@ == rm_rf_general_advice(),
{
    let mut v: Vec<PatternSuggestion> = Vec::new();
    v.push(PatternSuggestion::new(RM_RF_GENERAL_COMMAND_A, RM_RF_GENERAL_ADVICE_A));
    v.push(
        PatternSuggestion::with_platform(
            RM_RF_GENERAL_COMMAND_B,
            RM_RF_GENERAL_ADVICE_B,
            Platform::Linux,
        ),
    );
    v.push(
        PatternSuggestion::with_platform(
            RM_RF_GENERAL_COMMAND_C,
            RM_RF_GENERAL_ADVICE_C,
            Platform::Linux,
        ),
    );
    v.push(
        PatternSuggestion::with_platform(
            RM_RF_GENERAL_COMMAND_D,
            RM_RF_GENERAL_ADVICE_D,
            Platform::MacOS,
        ),
    );
    v.push(PatternSuggestion::new(RM_RF_GENERAL_COMMAND_E, RM_RF_GENERAL_ADVICE_E));
    v.push(PatternSuggestion::new(RM_RF_GENERAL_COMMAND_F, RM_RF_GENERAL_ADVICE_F));
    v.push(PatternSuggestion::new(RM_RF_GENERAL_COMMAND_G, RM_RF_GENERAL_ADVICE_G));
    v.push(PatternSuggestion::new(RM_RF_GENERAL_COMMAND_H, RM_RF_GENERAL_ADVICE_H));
    assert(v@ =~= rm_rf_general_advice());
    v
}

/// Safer commands for a forced recursive removal with its flags apart.
pub open spec fn rm_r_f_separate_advice() -> Seq<PatternSuggestion> {
    seq![
        suggestion(RM_R_F_SEPARATE_COMMAND_A, RM_R_F_SEPARATE_ADVICE_A),
        suggestion(RM_R_F_SEPARATE_COMMAND_B, RM_R_F_SEPARATE_ADVICE_B),
        suggestion(RM_R_F_SEPARATE_COMMAND_C, RM_R_F_SEPARATE_ADVICE_C),
    ]
}

/// Safer commands for a forced recursive removal with its flags apart.
pub fn make_rm_r_f_separate_advice() -> (r: Vec<PatternSuggestion>)
    ensures
        r@ == rm_r_f_separate_advice(),
{
    let mut v: Vec<PatternSuggestion> = Vec::new();
    v.push(PatternSuggestion::new(RM_R_F_SEPARATE_COMMAND_A, RM_R_F_SEPARATE_ADVICE_A));
    v.push(PatternSuggestion::new(RM_R_F_SEPARATE_COMMAND_B, RM_R_F_SEPARATE_ADVICE_B));
    v.push(PatternSuggestion::new(RM_R_F_SEPARATE_COMMAND_C, RM_R_F_SEPARATE_ADVICE_C));
    assert(v@ =~= rm_r_f_separate_advice());
    v
}

/// Safer commands for a forced recursive removal with long flags.
pub open spec fn rm_recursive_force_advice() -> Seq<PatternSuggestion> {
    seq![
        suggestion(RM_RECURSIVE_FORCE_COMMAND_A, RM_RECURSIVE_FORCE_ADVICE_A),
        suggestion(RM_RECURSIVE_FORCE_COMMAND_B, RM_RECURSIVE_FORCE_ADVICE_B),
        suggestion(RM_RECURSIVE_FORCE_COMMAND_C, RM_RECURSIVE_FORCE_ADVICE_C),
    ]
}

/// Safer commands for a forced recursive removal with long flags.
pub fn make_rm_recursive_force_advice() -> (r: Vec<PatternSuggestion>)
    ensures
        r@ == rm_recursive_force_advice(),
{
    let mut v: Vec<PatternSuggestion> = Vec::new();
    v.push(PatternSuggestion::new(RM_RECURSIVE_FORCE_COMMAND_A, RM_RECURSIVE_FORCE_ADVICE_A));
    v.push(PatternSuggestion::new(RM_RECURSIVE_FORCE_COMMAND_B, RM_RECURSIVE_FORCE_ADVICE_B));
    v.push(PatternSuggestion::new(RM_RECURSIVE_FORCE_COMMAND_C, RM_RECURSIVE_FORCE_ADVICE_C));
    assert(v@ =~= rm_recursive_force_advice());
    v
}

/// Safer commands for `find -delete`.
pub open spec fn find_delete_advice() -> Seq<PatternSuggestion> {
    seq![
        suggestion(FIND_DELETE_COMMAND_A, FIND_DELETE_ADVICE_A),
        suggestion(FIND_DELETE_COMMAND_B, FIND_DELETE_ADVICE_B),
        suggestion(FIND_DELETE_COMMAND_C, FIND_DELETE_ADVICE_C),
        gated_suggestion(FIND_DELETE_COMMAND_D, FIND_DELETE_ADVICE_D),
    ]
}

/// Safer commands for `find -delete`.
pub fn make_find_delete_advice() -> (r: Vec<PatternSuggestion>)
    ensures
        r@ == find_delete_advice(),
{
    let mut v: Vec<PatternSuggestion> = Vec::new();
    v.push(PatternSuggestion::new(FIND_DELETE_COMMAND_A, FIND_DELETE_ADVICE_A));
    v.push(PatternSuggestion::new(FIND_DELETE_COMMAND_B, FIND_DELETE_ADVICE_B));
    v.push(PatternSuggestion::new(FIND_DELETE_COMMAND_C, FIND_DELETE_ADVICE_C));
    v.push(PatternSuggestion::gated(FIND_DELETE_COMMAND_D, FIND_DELETE_ADVICE_D));
    assert(v@ =~= find_delete_advice());
    v
}

/// Safer commands for `unlink`.
pub open spec fn unlink_advice() -> Seq<PatternSuggestion> {
    seq![
        suggestion(UNLINK_COMMAND_A, UNLINK_ADVICE_A),
        gated_suggestion(UNLINK_COMMAND_B, UNLINK_ADVICE_B),
        suggestion(UNLINK_COMMAND_C, UNLINK_ADVICE_C),
        suggestion_on(UNLINK_COMMAND_D, UNLINK_ADVICE_D, Platform::Linux),
    ]
}

/// Safer commands for `unlink`.
pub fn make_unlink_advice() -> (r: Vec<PatternSuggestion>)
    ensures
        r@ == unlink_advice(),
{
    let mut v: Vec<PatternSuggestion> = Vec::new();
    v.push(PatternSuggestion::new(UNLINK_COMMAND_A, UNLINK_ADVICE_A));
    v.push(PatternSuggestion::gated(UNLINK_COMMAND_B, UNLINK_ADVICE_B));
    v.push(PatternSuggestion::new(UNLINK_COMMAND_C, UNLINK_ADVICE_C));
    v.push(PatternSuggestion::with_platform(UNLINK_COMMAND_D, UNLINK_ADVICE_D, Platform::Linux));
    assert(v@ =~= unlink_advice());
    v
}

/// Safer commands for `truncate`.
pub open spec fn truncate_advice() -> Seq<PatternSuggestion> {
    seq![
        gated_suggestion(TRUNCATE_COMMAND_A, TRUNCATE_ADVICE_A),
        suggestion(TRUNCATE_COMMAND_B, TRUNCATE_ADVICE_B),
        suggestion(TRUNCATE_COMMAND_C, TRUNCATE_ADVICE_C),
        suggestion(TRUNCATE_COMMAND_D, TRUNCATE_ADVICE_D),
    ]
}

/// Safer commands for `truncate`.
pub fn make_truncate_advice() -> (r: Vec<PatternSuggestion>)
    ensures
        r@ == truncate_advice(),
{
    let mut v: Vec<PatternSuggestion> = Vec::new();
    v.push(PatternSuggestion::gated(TRUNCATE_COMMAND_A, TRUNCATE_ADVICE_A));
    v.push(PatternSuggestion::new(TRUNCATE_COMMAND_B, TRUNCATE_ADVICE_B));
    v.push(PatternSuggestion::new(TRUNCATE_COMMAND_C, TRUNCATE_ADVICE_C));
    v.push(PatternSuggestion::new(TRUNCATE_COMMAND_D, TRUNCATE_ADVICE_D));
    assert(v@ =~= truncate_advice());
    v
}

/// Safer commands for `shred`.
pub open spec fn shred_advice() -> Seq<PatternSuggestion> {
    seq![
        suggestion(SHRED_COMMAND_A, SHRED_ADVICE_A),
        gated_suggestion(SHRED_COMMAND_B, SHRED_ADVICE_B),
        suggestion(SHRED_COMMAND_C, SHRED_ADVICE_C),
        gated_suggestion(SHRED_COMMAND_D, SHRED_ADVICE_D),
    ]
}

/// Safer commands for `shred`.
pub fn make_shred_advice() -> (r: Vec<PatternSuggestion>)
    ensures
        r@ == shred_advice(),
{
    let mut v: Vec<PatternSuggestion> = Vec::new();
    v.push(PatternSuggestion::new(SHRED_COMMAND_A, SHRED_ADVICE_A));
    v.push(PatternSuggestion::gated(SHRED_COMMAND_B, SHRED_ADVICE_B));
    v.push(PatternSuggestion::new(SHRED_COMMAND_C, SHRED_ADVICE_C));
    v.push(PatternSuggestion::gated(SHRED_COMMAND_D, SHRED_ADVICE_D));
    assert(v@ =~= shred_advice());
    v
}

/// Safer commands for `tar --remove-files`.
pub open spec fn tar_remove_files_advice() -> Seq<PatternSuggestion> {
    seq![
        suggestion(TAR_REMOVE_FILES_COMMAND_A, TAR_REMOVE_FILES_ADVICE_A),
        suggestion(TAR_REMOVE_FILES_COMMAND_B, TAR_REMOVE_FILES_ADVICE_B),
        suggestion(TAR_REMOVE_FILES_COMMAND_C, TAR_REMOVE_FILES_ADVICE_C),
        suggestion(TAR_REMOVE_FILES_COMMAND_D, TAR_REMOVE_FILES_ADVICE_D),
    ]
}

/// Safer commands for `tar --remove-files`.
pub fn make_tar_remove_files_advice() -> (r: Vec<PatternSuggestion>)
    ensures
        r@ == tar_remove_files_advice(),
{
    let mut v: Vec<PatternSuggestion> = Vec::new();
    v.push(PatternSuggestion::new(TAR_REMOVE_FILES_COMMAND_A, TAR_REMOVE_FILES_ADVICE_A));
    v.push(PatternSuggestion::new(TAR_REMOVE_FILES_COMMAND_B, TAR_REMOVE_FILES_ADVICE_B));
    v.push(PatternSuggestion::new(TAR_REMOVE_FILES_COMMAND_C, TAR_REMOVE_FILES_ADVICE_C));
    v.push(PatternSuggestion::new(TAR_REMOVE_FILES_COMMAND_D, TAR_REMOVE_FILES_ADVICE_D));
    assert(v@ =~= tar_remove_files_advice());
    v
}

/// Safer commands for `dd` onto a file.
pub open spec fn dd_overwrite_advice() -> Seq<PatternSuggestion> {
    seq![
        suggestion(DD_OVERWRITE_COMMAND_A, DD_OVERWRITE_ADVICE_A),
        gated_suggestion(DD_OVERWRITE_COMMAND_B, DD_OVERWRITE_ADVICE_B),
        suggestion(DD_OVERWRITE_COMMAND_C, DD_OVERWRITE_ADVICE_C),
        suggestion(DD_OVERWRITE_COMMAND_D, DD_OVERWRITE_ADVICE_D),
    ]
}

/// Safer commands for `dd` onto a file.
pub fn make_dd_overwrite_advice() -> (r: Vec<PatternSuggestion>)
    ensures
        r@ == dd_overwrite_advice(),
{
    let mut v: Vec<PatternSuggestion> = Vec::new();
    v.push(PatternSuggestion::new(DD_OVERWRITE_COMMAND_A, DD_OVERWRITE_ADVICE_A));
    v.push(PatternSuggestion::gated(DD_OVERWRITE_COMMAND_B, DD_OVERWRITE_ADVICE_B));
    v.push(PatternSuggestion::new(DD_OVERWRITE_COMMAND_C, DD_OVERWRITE_ADVICE_C));
    v.push(PatternSuggestion::new(DD_OVERWRITE_COMMAND_D, DD_OVERWRITE_ADVICE_D));
    assert(v@ =~= dd_overwrite_advice());
    v
}

/// Safer commands for `mv` of a system or home path.
pub open spec fn mv_sensitive_advice() -> Seq<PatternSuggestion> {
    seq![
        suggestion(MV_SENSITIVE_COMMAND_A, MV_SENSITIVE_ADVICE_A),
        suggestion(MV_SENSITIVE_COMMAND_B, MV_SENSITIVE_ADVICE_B),
        suggestion(MV_SENSITIVE_COMMAND_C, MV_SENSITIVE_ADVICE_C),
        suggestion(MV_SENSITIVE_COMMAND_D, MV_SENSITIVE_ADVICE_D),
    ]
}

/// Safer commands for `mv` of a system or home path.
pub fn make_mv_sensitive_advice() -> (r: Vec<PatternSuggestion>)
    ensures
        r@ == mv_sensitive_advice(),
{
    let mut v: Vec<PatternSuggestion> = Vec::new();
    v.push(PatternSuggestion::new(MV_SENSITIVE_COMMAND_A, MV_SENSITIVE_ADVICE_A));
    v.push(PatternSuggestion::new(MV_SENSITIVE_COMMAND_B, MV_SENSITIVE_ADVICE_B));
    v.push(PatternSuggestion::new(MV_SENSITIVE_COMMAND_C, MV_SENSITIVE_ADVICE_C));
    v.push(PatternSuggestion::new(MV_SENSITIVE_COMMAND_D, MV_SENSITIVE_ADVICE_D));
    assert(v@ =~= mv_sensitive_advice());
    v
}

/// Safer commands for `mv` with a computed path.
pub open spec fn mv_dynamic_advice() -> Seq<PatternSuggestion> {
    seq![
        suggestion(MV_DYNAMIC_COMMAND_A, MV_DYNAMIC_ADVICE_A),
        suggestion(MV_DYNAMIC_COMMAND_B, MV_DYNAMIC_ADVICE_B),
        suggestion(MV_DYNAMIC_COMMAND_C, MV_DYNAMIC_ADVICE_C),
        suggestion(MV_DYNAMIC_COMMAND_D, MV_DYNAMIC_ADVICE_D),
    ]
}

/// Safer commands for `mv` with a computed path.
pub fn make_mv_dynamic_advice() -> (r: Vec<PatternSuggestion>)
    ensures
        r@ == mv_dynamic_advice(),
{
    let mut v: Vec<PatternSuggestion> = Vec::new();
    v.push(PatternSuggestion::new(MV_DYNAMIC_COMMAND_A, MV_DYNAMIC_ADVICE_A));
    v.push(PatternSuggestion::new(MV_DYNAMIC_COMMAND_B, MV_DYNAMIC_ADVICE_B));
    v.push(PatternSuggestion::new(MV_DYNAMIC_COMMAND_C, MV_DYNAMIC_ADVICE_C));
    v.push(PatternSuggestion::new(MV_DYNAMIC_COMMAND_D, MV_DYNAMIC_ADVICE_D));
    assert(v@ =~= mv_dynamic_advice());
    v
}

/// Safer commands for a copy of a system or home path that is removed again.
pub open spec fn sensitive_propagation_delete_advice() -> Seq<PatternSuggestion> {
    seq![
        suggestion(
            SENSITIVE_PROPAGATION_DELETE_COMMAND_A,
            SENSITIVE_PROPAGATION_DELETE_ADVICE_A,
        ),
        suggestion(
            SENSITIVE_PROPAGATION_DELETE_COMMAND_B,
            SENSITIVE_PROPAGATION_DELETE_ADVICE_B,
        ),
        suggestion(
            SENSITIVE_PROPAGATION_DELETE_COMMAND_C,
            SENSITIVE_PROPAGATION_DELETE_ADVICE_C,
        ),
        suggestion(
            SENSITIVE_PROPAGATION_DELETE_COMMAND_D,
            SENSITIVE_PROPAGATION_DELETE_ADVICE_D,
        ),
    ]
}

/// Safer commands for a copy of a system or home path that is removed again.
pub fn make_sensitive_propagation_delete_advice() -> (r: Vec<PatternSuggestion>)
    ensures
        r@ == sensitive_propagation_delete_advice(),
{
    let mut v: Vec<PatternSuggestion> = Vec::new();
    v.push(
        PatternSuggestion::new(
            SENSITIVE_PROPAGATION_DELETE_COMMAND_A,
            SENSITIVE_PROPAGATION_DELETE_ADVICE_A,
        ),
    );
    v.push(
        PatternSuggestion::new(
            SENSITIVE_PROPAGATION_DELETE_COMMAND_B,
            SENSITIVE_PROPAGATION_DELETE_ADVICE_B,
        ),
    );
    v.push(
        PatternSuggestion::new(
            SENSITIVE_PROPAGATION_DELETE_COMMAND_C,
            SENSITIVE_PROPAGATION_DELETE_ADVICE_C,
        ),
    );
    v.push(
        PatternSuggestion::new(
            SENSITIVE_PROPAGATION_DELETE_COMMAND_D,
            SENSITIVE_PROPAGATION_DELETE_ADVICE_D,
        ),
    );
    assert(v@ =~= sensitive_propagation_delete_advice());
    v
}

/// Safer commands for a redirection that truncates.
pub open spec fn redirect_truncate_advice() -> Seq<PatternSuggestion> {
    seq![
        suggestion(REDIRECT_TRUNCATE_COMMAND_A, REDIRECT_TRUNCATE_ADVICE_A),
        suggestion(REDIRECT_TRUNCATE_COMMAND_B, REDIRECT_TRUNCATE_ADVICE_B),
        suggestion(REDIRECT_TRUNCATE_COMMAND_C, REDIRECT_TRUNCATE_ADVICE_C),
        suggestion(REDIRECT_TRUNCATE_COMMAND_D, REDIRECT_TRUNCATE_ADVICE_D),
        suggestion(REDIRECT_TRUNCATE_COMMAND_E, REDIRECT_TRUNCATE_ADVICE_E),
    ]
}

/// Safer commands for a redirection that truncates.
pub fn make_redirect_truncate_advice() -> (r: Vec<PatternSuggestion>)
    ensures
        r@ == redirect_truncate_advice(),
{
    let mut v: Vec<PatternSuggestion> = Vec::new();
    v.push(PatternSuggestion::new(REDIRECT_TRUNCATE_COMMAND_A, REDIRECT_TRUNCATE_ADVICE_A));
    v.push(PatternSuggestion::new(REDIRECT_TRUNCATE_COMMAND_B, REDIRECT_TRUNCATE_ADVICE_B));
    v.push(PatternSuggestion::new(REDIRECT_TRUNCATE_COMMAND_C, REDIRECT_TRUNCATE_ADVICE_C));
    v.push(PatternSuggestion::new(REDIRECT_TRUNCATE_COMMAND_D, REDIRECT_TRUNCATE_ADVICE_D));
    v.push(PatternSuggestion::new(REDIRECT_TRUNCATE_COMMAND_E, REDIRECT_TRUNCATE_ADVICE_E));
    assert(v@ =~= redirect_truncate_advice());
    v
}

/// Safer commands for a recursive removal without force.
pub open spec fn rm_recursive_advice() -> Seq<PatternSuggestion> {
    seq![
        suggestion(RM_RECURSIVE_COMMAND_A, RM_RECURSIVE_ADVICE_A),
        suggestion_on(RM_RECURSIVE_COMMAND_B, RM_RECURSIVE_ADVICE_B, Platform::Linux),
        suggestion_on(RM_RECURSIVE_COMMAND_C, RM_RECURSIVE_ADVICE_C, Platform::MacOS),
        suggestion(RM_RECURSIVE_COMMAND_D, RM_RECURSIVE_ADVICE_D),
        suggestion(RM_RECURSIVE_COMMAND_E, RM_RECURSIVE_ADVICE_E),
        suggestion(RM_RECURSIVE_COMMAND_F, RM_RECURSIVE_ADVICE_F),
    ]
}

/// Safer commands for a recursive removal without force.
pub fn make_rm_recursive_advice() -> (r: Vec<PatternSuggestion>)
    ensures
        r@ == rm_recursive_advice(),
{
    let mut v: Vec<PatternSuggestion> = Vec::new();
    v.push(PatternSuggestion::new(RM_RECURSIVE_COMMAND_A, RM_RECURSIVE_ADVICE_A));
    v.push(
        PatternSuggestion::with_platform(
            RM_RECURSIVE_COMMAND_B,
            RM_RECURSIVE_ADVICE_B,
            Platform::Linux,
        ),
    );
    v.push(
        PatternSuggestion::with_platform(
            RM_RECURSIVE_COMMAND_C,
            RM_RECURSIVE_ADVICE_C,
            Platform::MacOS,
        ),
    );
    v.push(PatternSuggestion::new(RM_RECURSIVE_COMMAND_D, RM_RECURSIVE_ADVICE_D));
    v.push(PatternSuggestion::new(RM_RECURSIVE_COMMAND_E, RM_RECURSIVE_ADVICE_E));
    v.push(PatternSuggestion::new(RM_RECURSIVE_COMMAND_F, RM_RECURSIVE_ADVICE_F));
    assert(v@ =~= rm_recursive_advice());
    v
}

/// Safer commands for a recursive removal by a program that is computed.
pub open spec fn rm_recursive_unverified_advice() -> Seq<PatternSuggestion> {
    seq![
        gated_suggestion(
            RM_RECURSIVE_UNVERIFIED_COMMAND_A,
            RM_RECURSIVE_UNVERIFIED_ADVICE_A,
        ),
        suggestion(RM_RECURSIVE_UNVERIFIED_COMMAND_B, RM_RECURSIVE_UNVERIFIED_ADVICE_B),
        suggestion(RM_RECURSIVE_UNVERIFIED_COMMAND_C, RM_RECURSIVE_UNVERIFIED_ADVICE_C),
    ]
}

/// Safer commands for a recursive removal by a program that is computed.
pub fn make_rm_recursive_unverified_advice() -> (r: Vec<PatternSuggestion>)
    ensures
        r@ == rm_recursive_unverified_advice(),
{
    let mut v: Vec<PatternSuggestion> = Vec::new();
    v.push(
        PatternSuggestion::gated(
            RM_RECURSIVE_UNVERIFIED_COMMAND_A,
            RM_RECURSIVE_UNVERIFIED_ADVICE_A,
        ),
    );
    v.push(
        PatternSuggestion::new(
            RM_RECURSIVE_UNVERIFIED_COMMAND_B,
            RM_RECURSIVE_UNVERIFIED_ADVICE_B,
        ),
    );
    v.push(
        PatternSuggestion::new(
            RM_RECURSIVE_UNVERIFIED_COMMAND_C,
            RM_RECURSIVE_UNVERIFIED_ADVICE_C,
        ),
    );
    assert(v@ =~= rm_recursive_unverified_advice());
    v
}

/// Safer commands for a recursive `Remove-Item`.
pub open spec fn powershell_remove_item_recursive_advice() -> Seq<PatternSuggestion> {
    seq![
        suggestion(
            POWERSHELL_REMOVE_ITEM_RECURSIVE_COMMAND_A,
            POWERSHELL_REMOVE_ITEM_RECURSIVE_ADVICE_A,
        ),
        suggestion(
            POWERSHELL_REMOVE_ITEM_RECURSIVE_COMMAND_B,
            POWERSHELL_REMOVE_ITEM_RECURSIVE_ADVICE_B,
        ),
        suggestion(
            POWERSHELL_REMOVE_ITEM_RECURSIVE_COMMAND_C,
            POWERSHELL_REMOVE_ITEM_RECURSIVE_ADVICE_C,
        ),
    ]
}

/// Safer commands for a recursive `Remove-Item`.
pub fn make_powershell_remove_item_recursive_advice() -> (r: Vec<PatternSuggestion>)
    ensures
        r@ == powershell_remove_item_recursive_advice(),
{
    let mut v: Vec<PatternSuggestion> = Vec::new();
    v.push(
        PatternSuggestion::new(
            POWERSHELL_REMOVE_ITEM_RECURSIVE_COMMAND_A,
            POWERSHELL_REMOVE_ITEM_RECURSIVE_ADVICE_A,
        ),
    );
    v.push(
        PatternSuggestion::new(
            POWERSHELL_REMOVE_ITEM_RECURSIVE_COMMAND_B,
            POWERSHELL_REMOVE_ITEM_RECURSIVE_ADVICE_B,
        ),
    );
    v.push(
        PatternSuggestion::new(
            POWERSHELL_REMOVE_ITEM_RECURSIVE_COMMAND_C,
            POWERSHELL_REMOVE_ITEM_RECURSIVE_ADVICE_C,
        ),
    );
    assert(v@ =~= powershell_remove_item_recursive_advice());
    v
}

/// Safer commands for a removal of everything in a directory.
pub open spec fn rm_bare_glob_advice() -> Seq<PatternSuggestion> {
    seq![
        suggestion(RM_BARE_GLOB_COMMAND_A, RM_BARE_GLOB_ADVICE_A),
        suggestion(RM_BARE_GLOB_COMMAND_B, RM_BARE_GLOB_ADVICE_B),
        suggestion(RM_BARE_GLOB_COMMAND_C, RM_BARE_GLOB_ADVICE_C),
        suggestion(RM_BARE_GLOB_COMMAND_D, RM_BARE_GLOB_ADVICE_D),
        suggestion(RM_BARE_GLOB_COMMAND_E, RM_BARE_GLOB_ADVICE_E),
    ]
}

/// Safer commands for a removal of everything in a directory.
pub fn make_rm_bare_glob_advice() -> (r: Vec<PatternSuggestion>)
    ensures
        r@ == rm_bare_glob_advice(),
{
    let mut v: Vec<PatternSuggestion> = Vec::new();
    v.push(PatternSuggestion::new(RM_BARE_GLOB_COMMAND_A, RM_BARE_GLOB_ADVICE_A));
    v.push(PatternSuggestion::new(RM_BARE_GLOB_COMMAND_B, RM_BARE_GLOB_ADVICE_B));
    v.push(PatternSuggestion::new(RM_BARE_GLOB_COMMAND_C, RM_BARE_GLOB_ADVICE_C));
    v.push(PatternSuggestion::new(RM_BARE_GLOB_COMMAND_D, RM_BARE_GLOB_ADVICE_D));
    v.push(PatternSuggestion::new(RM_BARE_GLOB_COMMAND_E, RM_BARE_GLOB_ADVICE_E));
    assert(v@ =~= rm_bare_glob_advice());
    v
}

} // verus!
