//! The rules on files.

use vstd::prelude::*;
use crate::filesystem::{advice, rules, texts};
use crate::pack::{
    rule, rule_views, safe_views, DestructivePattern, Pack, RuleView, SafePattern, SafeView,
    Severity,
};
use crate::text::{chars_of, text_of};

verus! {

/// What the pack is for.
pub const FILESYSTEM_PACK_DESCRIPTION: &'static str = "Protects against recursive rm commands and equivalent filesystem destruction outside literal temp subdirectories";

/// The keywords of the pack: the programs that its rules are about, and the
/// redirections that may truncate.
pub open spec fn filesystem_keywords() -> Seq<&'static str> {
    seq![
        "rm",
        "find",
        "unlink",
        "truncate",
        "shred",
        "tar",
        "dd",
        "mv",
        "cp",
        "ln",
        "rsync",
        ">/",
        "> /",
        ">~",
        "> ~",
        ">$",
        "> $",
        ">\"",
        "> \"",
        ">'",
        "> '",
        "&>",
        ">&",
        ">|",
        "1>",
        "2>",
        ">%",
        "> %",
        ">!",
        "> !",
        ">^",
        "> ^",
    ]
}

/// The keywords of the pack.
fn create_keywords() -> (r: Vec<&'static str>)
    ensures
        r@ == filesystem_keywords(),
{
    let mut v: Vec<&'static str> = Vec::new();
    v.push("rm");
    v.push("find");
    v.push("unlink");
    v.push("truncate");
    v.push("shred");
    v.push("tar");
    v.push("dd");
    v.push("mv");
    v.push("cp");
    v.push("ln");
    v.push("rsync");
    v.push(">/");
    v.push("> /");
    v.push(">~");
    v.push("> ~");
    v.push(">$");
    v.push("> $");
    v.push(">\"");
    v.push("> \"");
    v.push(">'");
    v.push("> '");
    v.push("&>");
    v.push(">&");
    v.push(">|");
    v.push("1>");
    v.push("2>");
    v.push(">%");
    v.push("> %");
    v.push(">!");
    v.push("> !");
    v.push(">^");
    v.push("> ^");
    assert(v@ =~= filesystem_keywords());
    v
}

/// The patterns of commands on files that need no look.
pub open spec fn filesystem_safe_patterns() -> Seq<SafeView> {
    seq![
        SafeView { name: texts::RM_RF_TMP_NAME, pattern: texts::RM_RF_TMP_PATTERN@ },
        SafeView { name: texts::RM_FR_TMP_NAME, pattern: texts::RM_FR_TMP_PATTERN@ },
        SafeView { name: texts::RM_RF_VAR_TMP_NAME, pattern: texts::RM_RF_VAR_TMP_PATTERN@ },
        SafeView { name: texts::RM_FR_VAR_TMP_NAME, pattern: texts::RM_FR_VAR_TMP_PATTERN@ },
        SafeView { name: texts::RM_R_F_TMP_NAME, pattern: texts::RM_R_F_TMP_PATTERN@ },
        SafeView { name: texts::RM_F_R_TMP_NAME, pattern: texts::RM_F_R_TMP_PATTERN@ },
        SafeView { name: texts::RM_R_F_VAR_TMP_NAME, pattern: texts::RM_R_F_VAR_TMP_PATTERN@ },
        SafeView { name: texts::RM_F_R_VAR_TMP_NAME, pattern: texts::RM_F_R_VAR_TMP_PATTERN@ },
        SafeView {
            name: texts::RM_RECURSIVE_FORCE_TMP_NAME,
            pattern: texts::RM_RECURSIVE_FORCE_TMP_PATTERN@,
        },
        SafeView {
            name: texts::RM_FORCE_RECURSIVE_TMP_NAME,
            pattern: texts::RM_FORCE_RECURSIVE_TMP_PATTERN@,
        },
        SafeView {
            name: texts::RM_RECURSIVE_FORCE_VAR_TMP_NAME,
            pattern: texts::RM_RECURSIVE_FORCE_VAR_TMP_PATTERN@,
        },
        SafeView {
            name: texts::RM_FORCE_RECURSIVE_VAR_TMP_NAME,
            pattern: texts::RM_FORCE_RECURSIVE_VAR_TMP_PATTERN@,
        },
        SafeView { name: texts::FIND_DELETE_TMP_NAME, pattern: texts::FIND_DELETE_TMP_PATTERN@ },
        SafeView { name: texts::FIND_DELETE_VAR_TMP_NAME, pattern: texts::FIND_DELETE_VAR_TMP_PATTERN@ },
        SafeView { name: texts::UNLINK_TMP_NAME, pattern: texts::UNLINK_TMP_PATTERN@ },
        SafeView { name: texts::UNLINK_VAR_TMP_NAME, pattern: texts::UNLINK_VAR_TMP_PATTERN@ },
        SafeView { name: texts::UNLINK_HELP_NAME, pattern: texts::UNLINK_HELP_PATTERN@ },
        SafeView { name: texts::TRUNCATE_HELP_NAME, pattern: texts::TRUNCATE_HELP_PATTERN@ },
        SafeView { name: texts::TRUNCATE_GROW_NAME, pattern: texts::TRUNCATE_GROW_PATTERN@ },
        SafeView { name: texts::TRUNCATE_TMP_NAME, pattern: texts::TRUNCATE_TMP_PATTERN@ },
        SafeView { name: texts::TRUNCATE_VAR_TMP_NAME, pattern: texts::TRUNCATE_VAR_TMP_PATTERN@ },
        SafeView { name: texts::SHRED_HELP_NAME, pattern: texts::SHRED_HELP_PATTERN@ },
        SafeView { name: texts::SHRED_TMP_NAME, pattern: texts::SHRED_TMP_PATTERN@ },
        SafeView { name: texts::SHRED_VAR_TMP_NAME, pattern: texts::SHRED_VAR_TMP_PATTERN@ },
        SafeView { name: texts::TAR_REMOVE_FILES_TMP_NAME, pattern: texts::TAR_REMOVE_FILES_TMP_PATTERN@ },
        SafeView {
            name: texts::TAR_REMOVE_FILES_VAR_TMP_NAME,
            pattern: texts::TAR_REMOVE_FILES_VAR_TMP_PATTERN@,
        },
        SafeView { name: texts::DD_TMP_NAME, pattern: texts::DD_TMP_PATTERN@ },
        SafeView { name: texts::DD_VAR_TMP_NAME, pattern: texts::DD_VAR_TMP_PATTERN@ },
        SafeView { name: texts::DD_HELP_NAME, pattern: texts::DD_HELP_PATTERN@ },
        SafeView { name: texts::MV_TMP_NAME, pattern: texts::MV_TMP_PATTERN@ },
        SafeView { name: texts::MV_VAR_TMP_NAME, pattern: texts::MV_VAR_TMP_PATTERN@ },
        SafeView { name: texts::MV_HELP_NAME, pattern: texts::MV_HELP_PATTERN@ },
        SafeView { name: texts::MV_TO_TRASH_NAME, pattern: texts::MV_TO_TRASH_PATTERN@ },
        SafeView { name: texts::MV_TO_TRASH_QUOTED_NAME, pattern: texts::MV_TO_TRASH_QUOTED_PATTERN@ },
        SafeView { name: texts::MV_WITHIN_HOME_NAME, pattern: texts::MV_WITHIN_HOME_PATTERN@ },
    ]
}

/// The rules on sed and copies that are removed again.
pub open spec fn propagation_rules() -> Seq<RuleView> {
    seq![
        rule(
            texts::SED_EXEC_UNVERIFIED_NAME,
            texts::SED_EXEC_UNVERIFIED_PATTERN,
            texts::SED_EXEC_UNVERIFIED_REASON,
            Severity::High,
            texts::SED_EXEC_UNVERIFIED_EXPLANATION,
            Seq::empty(),
        ),
        rule(
            texts::CP_SENSITIVE_THEN_DELETE_NAME,
            texts::CP_SENSITIVE_THEN_DELETE_PATTERN,
            texts::CP_SENSITIVE_THEN_DELETE_REASON,
            Severity::Critical,
            texts::CP_SENSITIVE_THEN_DELETE_EXPLANATION,
            advice::sensitive_propagation_delete_advice(),
        ),
        rule(
            texts::LN_SYMLINK_SENSITIVE_THEN_DELETE_NAME,
            texts::LN_SYMLINK_SENSITIVE_THEN_DELETE_PATTERN,
            texts::LN_SYMLINK_SENSITIVE_THEN_DELETE_REASON,
            Severity::Critical,
            texts::LN_SYMLINK_SENSITIVE_THEN_DELETE_EXPLANATION,
            advice::sensitive_propagation_delete_advice(),
        ),
        rule(
            texts::RSYNC_SENSITIVE_THEN_DELETE_NAME,
            texts::RSYNC_SENSITIVE_THEN_DELETE_PATTERN,
            texts::RSYNC_SENSITIVE_THEN_DELETE_REASON,
            Severity::Critical,
            texts::RSYNC_SENSITIVE_THEN_DELETE_EXPLANATION,
            advice::sensitive_propagation_delete_advice(),
        ),
    ]
}

/// The rules on removals with `rm`.
pub open spec fn removal_rules() -> Seq<RuleView> {
    seq![
        rule(
            rules::RM_RF_ROOT_HOME_NAME,
            texts::RM_RF_ROOT_HOME_PATTERN,
            rules::RM_RF_ROOT_HOME_REASON,
            Severity::Critical,
            texts::RM_RF_ROOT_HOME_EXPLANATION,
            advice::rm_rf_root_home_advice(),
        ),
        rule(
            rules::RM_R_F_SEPARATE_ROOT_HOME_NAME,
            texts::RM_R_F_SEPARATE_ROOT_HOME_PATTERN,
            rules::RM_R_F_SEPARATE_ROOT_HOME_REASON,
            Severity::Critical,
            texts::RM_R_F_SEPARATE_ROOT_HOME_EXPLANATION,
            advice::rm_rf_root_home_advice(),
        ),
        rule(
            rules::RM_RECURSIVE_FORCE_ROOT_HOME_NAME,
            texts::RM_RECURSIVE_FORCE_ROOT_HOME_PATTERN,
            rules::RM_RECURSIVE_FORCE_ROOT_HOME_REASON,
            Severity::Critical,
            texts::RM_RECURSIVE_FORCE_ROOT_HOME_EXPLANATION,
            advice::rm_rf_root_home_advice(),
        ),
        rule(
            rules::RM_RF_GENERAL_NAME,
            texts::RM_RF_GENERAL_PATTERN,
            rules::RM_RF_GENERAL_REASON,
            Severity::High,
            texts::RM_RF_GENERAL_EXPLANATION,
            advice::rm_rf_general_advice(),
        ),
        rule(
            texts::RM_GLOB_HOME_NAME,
            texts::RM_GLOB_HOME_PATTERN,
            texts::RM_GLOB_HOME_REASON,
            Severity::High,
            texts::RM_GLOB_HOME_EXPLANATION,
            advice::rm_rf_general_advice(),
        ),
        rule(
            rules::RM_R_F_SEPARATE_NAME,
            texts::RM_R_F_SEPARATE_PATTERN,
            rules::RM_R_F_SEPARATE_REASON,
            Severity::High,
            texts::RM_R_F_SEPARATE_EXPLANATION,
            advice::rm_r_f_separate_advice(),
        ),
        rule(
            rules::RM_RECURSIVE_FORCE_NAME,
            texts::RM_RECURSIVE_FORCE_PATTERN,
            rules::RM_RECURSIVE_FORCE_REASON,
            Severity::High,
            texts::RM_RECURSIVE_FORCE_EXPLANATION,
            advice::rm_recursive_force_advice(),
        ),
    ]
}

/// The rules on `find`, `unlink` and `truncate`.
pub open spec fn deletion_rules() -> Seq<RuleView> {
    seq![
        rule(
            texts::FIND_DELETE_ROOT_HOME_NAME,
            texts::FIND_DELETE_ROOT_HOME_PATTERN,
            texts::FIND_DELETE_ROOT_HOME_REASON,
            Severity::Critical,
            texts::FIND_DELETE_ROOT_HOME_EXPLANATION,
            advice::find_delete_advice(),
        ),
        rule(
            texts::FIND_DELETE_GENERAL_NAME,
            texts::FIND_DELETE_GENERAL_PATTERN,
            texts::FIND_DELETE_GENERAL_REASON,
            Severity::High,
            texts::FIND_DELETE_GENERAL_EXPLANATION,
            advice::find_delete_advice(),
        ),
        rule(
            texts::UNLINK_ROOT_HOME_NAME,
            texts::UNLINK_ROOT_HOME_PATTERN,
            texts::UNLINK_ROOT_HOME_REASON,
            Severity::Critical,
            texts::UNLINK_ROOT_HOME_EXPLANATION,
            advice::unlink_advice(),
        ),
        rule(
            texts::UNLINK_GENERAL_NAME,
            texts::UNLINK_GENERAL_PATTERN,
            texts::UNLINK_GENERAL_REASON,
            Severity::High,
            texts::UNLINK_GENERAL_EXPLANATION,
            advice::unlink_advice(),
        ),
        rule(
            texts::TRUNCATE_ZERO_ROOT_HOME_NAME,
            texts::TRUNCATE_ZERO_ROOT_HOME_PATTERN,
            texts::TRUNCATE_ZERO_ROOT_HOME_REASON,
            Severity::Critical,
            texts::TRUNCATE_ZERO_ROOT_HOME_EXPLANATION,
            advice::truncate_advice(),
        ),
        rule(
            texts::TRUNCATE_ZERO_GENERAL_NAME,
            texts::TRUNCATE_ZERO_GENERAL_PATTERN,
            texts::TRUNCATE_ZERO_GENERAL_REASON,
            Severity::High,
            texts::TRUNCATE_ZERO_GENERAL_EXPLANATION,
            advice::truncate_advice(),
        ),
    ]
}

/// The rules on `shred`, `tar` and `dd`.
pub open spec fn overwrite_rules() -> Seq<RuleView> {
    seq![
        rule(
            texts::SHRED_ROOT_HOME_NAME,
            texts::SHRED_ROOT_HOME_PATTERN,
            texts::SHRED_ROOT_HOME_REASON,
            Severity::Critical,
            texts::SHRED_ROOT_HOME_EXPLANATION,
            advice::shred_advice(),
        ),
        rule(
            texts::SHRED_GENERAL_NAME,
            texts::SHRED_GENERAL_PATTERN,
            texts::SHRED_GENERAL_REASON,
            Severity::High,
            texts::SHRED_GENERAL_EXPLANATION,
            advice::shred_advice(),
        ),
        rule(
            texts::TAR_REMOVE_FILES_ROOT_HOME_NAME,
            texts::TAR_REMOVE_FILES_ROOT_HOME_PATTERN,
            texts::TAR_REMOVE_FILES_ROOT_HOME_REASON,
            Severity::Critical,
            texts::TAR_REMOVE_FILES_ROOT_HOME_EXPLANATION,
            advice::tar_remove_files_advice(),
        ),
        rule(
            texts::TAR_REMOVE_FILES_GENERAL_NAME,
            texts::TAR_REMOVE_FILES_GENERAL_PATTERN,
            texts::TAR_REMOVE_FILES_GENERAL_REASON,
            Severity::High,
            texts::TAR_REMOVE_FILES_GENERAL_EXPLANATION,
            advice::tar_remove_files_advice(),
        ),
        rule(
            texts::DD_OVERWRITE_ROOT_HOME_NAME,
            texts::DD_OVERWRITE_ROOT_HOME_PATTERN,
            texts::DD_OVERWRITE_ROOT_HOME_REASON,
            Severity::Critical,
            texts::DD_OVERWRITE_ROOT_HOME_EXPLANATION,
            advice::dd_overwrite_advice(),
        ),
        rule(
            texts::DD_OVERWRITE_GENERAL_NAME,
            texts::DD_OVERWRITE_GENERAL_PATTERN,
            texts::DD_OVERWRITE_GENERAL_REASON,
            Severity::High,
            texts::DD_OVERWRITE_GENERAL_EXPLANATION,
            advice::dd_overwrite_advice(),
        ),
    ]
}

/// The rules on `mv`, redirections and fork bombs.
pub open spec fn relocation_rules() -> Seq<RuleView> {
    seq![
        rule(
            texts::MV_SENSITIVE_SOURCE_ROOT_HOME_NAME,
            texts::MV_SENSITIVE_SOURCE_ROOT_HOME_PATTERN,
            texts::MV_SENSITIVE_SOURCE_ROOT_HOME_REASON,
            Severity::Critical,
            texts::MV_SENSITIVE_SOURCE_ROOT_HOME_EXPLANATION,
            advice::mv_sensitive_advice(),
        ),
        rule(
            texts::MV_DYNAMIC_PATH_NAME,
            texts::MV_DYNAMIC_PATH_PATTERN,
            texts::MV_DYNAMIC_PATH_REASON,
            Severity::High,
            texts::MV_DYNAMIC_PATH_EXPLANATION,
            advice::mv_dynamic_advice(),
        ),
        rule(
            texts::REDIRECT_TRUNCATE_ROOT_HOME_NAME,
            texts::REDIRECT_TRUNCATE_ROOT_HOME_PATTERN,
            texts::REDIRECT_TRUNCATE_ROOT_HOME_REASON,
            Severity::Critical,
            texts::REDIRECT_TRUNCATE_ROOT_HOME_EXPLANATION,
            advice::redirect_truncate_advice(),
        ),
        rule(
            texts::REDIRECT_TRUNCATE_DYNAMIC_PATH_NAME,
            texts::REDIRECT_TRUNCATE_DYNAMIC_PATH_PATTERN,
            texts::REDIRECT_TRUNCATE_DYNAMIC_PATH_REASON,
            Severity::High,
            texts::REDIRECT_TRUNCATE_DYNAMIC_PATH_EXPLANATION,
            advice::redirect_truncate_advice(),
        ),
        rule(
            texts::FORK_BOMB_NAME,
            texts::FORK_BOMB_PATTERN,
            texts::FORK_BOMB_REASON,
            Severity::Critical,
            texts::FORK_BOMB_EXPLANATION,
            Seq::empty(),
        ),
    ]
}

/// The rules on commands on files, the first that matches decides.
pub open spec fn filesystem_rules() -> Seq<RuleView> {
    propagation_rules() + removal_rules() + deletion_rules() + overwrite_rules() + relocation_rules()
}

/// The patterns of commands on files that need no look.
pub fn create_safe_patterns() -> (r: Vec<SafePattern>)
    ensures
        safe_views(r@) == filesystem_safe_patterns(),
{
    let mut v: Vec<SafePattern> = Vec::new();
    v.push(SafePattern::new(texts::RM_RF_TMP_NAME, texts::RM_RF_TMP_PATTERN));
    v.push(SafePattern::new(texts::RM_FR_TMP_NAME, texts::RM_FR_TMP_PATTERN));
    v.push(SafePattern::new(texts::RM_RF_VAR_TMP_NAME, texts::RM_RF_VAR_TMP_PATTERN));
    v.push(SafePattern::new(texts::RM_FR_VAR_TMP_NAME, texts::RM_FR_VAR_TMP_PATTERN));
    v.push(SafePattern::new(texts::RM_R_F_TMP_NAME, texts::RM_R_F_TMP_PATTERN));
    v.push(SafePattern::new(texts::RM_F_R_TMP_NAME, texts::RM_F_R_TMP_PATTERN));
    v.push(SafePattern::new(texts::RM_R_F_VAR_TMP_NAME, texts::RM_R_F_VAR_TMP_PATTERN));
    v.push(SafePattern::new(texts::RM_F_R_VAR_TMP_NAME, texts::RM_F_R_VAR_TMP_PATTERN));
    v.push(
        SafePattern::new(texts::RM_RECURSIVE_FORCE_TMP_NAME, texts::RM_RECURSIVE_FORCE_TMP_PATTERN),
    );
    v.push(
        SafePattern::new(texts::RM_FORCE_RECURSIVE_TMP_NAME, texts::RM_FORCE_RECURSIVE_TMP_PATTERN),
    );
    v.push(
        SafePattern::new(texts::RM_RECURSIVE_FORCE_VAR_TMP_NAME, texts::RM_RECURSIVE_FORCE_VAR_TMP_PATTERN),
    );
    v.push(
        SafePattern::new(texts::RM_FORCE_RECURSIVE_VAR_TMP_NAME, texts::RM_FORCE_RECURSIVE_VAR_TMP_PATTERN),
    );
    v.push(SafePattern::new(texts::FIND_DELETE_TMP_NAME, texts::FIND_DELETE_TMP_PATTERN));
    v.push(
        SafePattern::new(texts::FIND_DELETE_VAR_TMP_NAME, texts::FIND_DELETE_VAR_TMP_PATTERN),
    );
    v.push(SafePattern::new(texts::UNLINK_TMP_NAME, texts::UNLINK_TMP_PATTERN));
    v.push(SafePattern::new(texts::UNLINK_VAR_TMP_NAME, texts::UNLINK_VAR_TMP_PATTERN));
    v.push(SafePattern::new(texts::UNLINK_HELP_NAME, texts::UNLINK_HELP_PATTERN));
    v.push(SafePattern::new(texts::TRUNCATE_HELP_NAME, texts::TRUNCATE_HELP_PATTERN));
    v.push(SafePattern::new(texts::TRUNCATE_GROW_NAME, texts::TRUNCATE_GROW_PATTERN));
    v.push(SafePattern::new(texts::TRUNCATE_TMP_NAME, texts::TRUNCATE_TMP_PATTERN));
    v.push(SafePattern::new(texts::TRUNCATE_VAR_TMP_NAME, texts::TRUNCATE_VAR_TMP_PATTERN));
    v.push(SafePattern::new(texts::SHRED_HELP_NAME, texts::SHRED_HELP_PATTERN));
    v.push(SafePattern::new(texts::SHRED_TMP_NAME, texts::SHRED_TMP_PATTERN));
    v.push(SafePattern::new(texts::SHRED_VAR_TMP_NAME, texts::SHRED_VAR_TMP_PATTERN));
    v.push(
        SafePattern::new(texts::TAR_REMOVE_FILES_TMP_NAME, texts::TAR_REMOVE_FILES_TMP_PATTERN),
    );
    v.push(
        SafePattern::new(texts::TAR_REMOVE_FILES_VAR_TMP_NAME, texts::TAR_REMOVE_FILES_VAR_TMP_PATTERN),
    );
    v.push(SafePattern::new(texts::DD_TMP_NAME, texts::DD_TMP_PATTERN));
    v.push(SafePattern::new(texts::DD_VAR_TMP_NAME, texts::DD_VAR_TMP_PATTERN));
    v.push(SafePattern::new(texts::DD_HELP_NAME, texts::DD_HELP_PATTERN));
    v.push(SafePattern::new(texts::MV_TMP_NAME, texts::MV_TMP_PATTERN));
    v.push(SafePattern::new(texts::MV_VAR_TMP_NAME, texts::MV_VAR_TMP_PATTERN));
    v.push(SafePattern::new(texts::MV_HELP_NAME, texts::MV_HELP_PATTERN));
    v.push(SafePattern::new(texts::MV_TO_TRASH_NAME, texts::MV_TO_TRASH_PATTERN));
    v.push(
        SafePattern::new(texts::MV_TO_TRASH_QUOTED_NAME, texts::MV_TO_TRASH_QUOTED_PATTERN),
    );
    v.push(SafePattern::new(texts::MV_WITHIN_HOME_NAME, texts::MV_WITHIN_HOME_PATTERN));
    assert(safe_views(v@) =~= filesystem_safe_patterns());
    v
}

/// Adds the rules on sed and copies that are removed again.
fn add_propagation_rules(v: &mut Vec<DestructivePattern>)
    ensures
        rule_views(final(v)@) == rule_views(old(v)@) + propagation_rules(),
{
    let ghost before = rule_views(v@);
    v.push(
        DestructivePattern::new(
            texts::SED_EXEC_UNVERIFIED_NAME,
            texts::SED_EXEC_UNVERIFIED_PATTERN,
            texts::SED_EXEC_UNVERIFIED_REASON,
            Severity::High,
            texts::SED_EXEC_UNVERIFIED_EXPLANATION,
            Vec::new(),
        ),
    );
    v.push(
        DestructivePattern::new(
            texts::CP_SENSITIVE_THEN_DELETE_NAME,
            texts::CP_SENSITIVE_THEN_DELETE_PATTERN,
            texts::CP_SENSITIVE_THEN_DELETE_REASON,
            Severity::Critical,
            texts::CP_SENSITIVE_THEN_DELETE_EXPLANATION,
            advice::make_sensitive_propagation_delete_advice(),
        ),
    );
    v.push(
        DestructivePattern::new(
            texts::LN_SYMLINK_SENSITIVE_THEN_DELETE_NAME,
            texts::LN_SYMLINK_SENSITIVE_THEN_DELETE_PATTERN,
            texts::LN_SYMLINK_SENSITIVE_THEN_DELETE_REASON,
            Severity::Critical,
            texts::LN_SYMLINK_SENSITIVE_THEN_DELETE_EXPLANATION,
            advice::make_sensitive_propagation_delete_advice(),
        ),
    );
    v.push(
        DestructivePattern::new(
            texts::RSYNC_SENSITIVE_THEN_DELETE_NAME,
            texts::RSYNC_SENSITIVE_THEN_DELETE_PATTERN,
            texts::RSYNC_SENSITIVE_THEN_DELETE_REASON,
            Severity::Critical,
            texts::RSYNC_SENSITIVE_THEN_DELETE_EXPLANATION,
            advice::make_sensitive_propagation_delete_advice(),
        ),
    );
    assert(rule_views(v@) =~= before + propagation_rules());
}

/// Adds the rules on removals with `rm`.
fn add_removal_rules(v: &mut Vec<DestructivePattern>)
    ensures
        rule_views(final(v)@) == rule_views(old(v)@) + removal_rules(),
{
    let ghost before = rule_views(v@);
    v.push(
        DestructivePattern::new(
            rules::RM_RF_ROOT_HOME_NAME,
            texts::RM_RF_ROOT_HOME_PATTERN,
            rules::RM_RF_ROOT_HOME_REASON,
            Severity::Critical,
            texts::RM_RF_ROOT_HOME_EXPLANATION,
            advice::make_rm_rf_root_home_advice(),
        ),
    );
    v.push(
        DestructivePattern::new(
            rules::RM_R_F_SEPARATE_ROOT_HOME_NAME,
            texts::RM_R_F_SEPARATE_ROOT_HOME_PATTERN,
            rules::RM_R_F_SEPARATE_ROOT_HOME_REASON,
            Severity::Critical,
            texts::RM_R_F_SEPARATE_ROOT_HOME_EXPLANATION,
            advice::make_rm_rf_root_home_advice(),
        ),
    );
    v.push(
        DestructivePattern::new(
            rules::RM_RECURSIVE_FORCE_ROOT_HOME_NAME,
            texts::RM_RECURSIVE_FORCE_ROOT_HOME_PATTERN,
            rules::RM_RECURSIVE_FORCE_ROOT_HOME_REASON,
            Severity::Critical,
            texts::RM_RECURSIVE_FORCE_ROOT_HOME_EXPLANATION,
            advice::make_rm_rf_root_home_advice(),
        ),
    );
    v.push(
        DestructivePattern::new(
            rules::RM_RF_GENERAL_NAME,
            texts::RM_RF_GENERAL_PATTERN,
            rules::RM_RF_GENERAL_REASON,
            Severity::High,
            texts::RM_RF_GENERAL_EXPLANATION,
            advice::make_rm_rf_general_advice(),
        ),
    );
    v.push(
        DestructivePattern::new(
            texts::RM_GLOB_HOME_NAME,
            texts::RM_GLOB_HOME_PATTERN,
            texts::RM_GLOB_HOME_REASON,
            Severity::High,
            texts::RM_GLOB_HOME_EXPLANATION,
            advice::make_rm_rf_general_advice(),
        ),
    );
    v.push(
        DestructivePattern::new(
            rules::RM_R_F_SEPARATE_NAME,
            texts::RM_R_F_SEPARATE_PATTERN,
            rules::RM_R_F_SEPARATE_REASON,
            Severity::High,
            texts::RM_R_F_SEPARATE_EXPLANATION,
            advice::make_rm_r_f_separate_advice(),
        ),
    );
    v.push(
        DestructivePattern::new(
            rules::RM_RECURSIVE_FORCE_NAME,
            texts::RM_RECURSIVE_FORCE_PATTERN,
            rules::RM_RECURSIVE_FORCE_REASON,
            Severity::High,
            texts::RM_RECURSIVE_FORCE_EXPLANATION,
            advice::make_rm_recursive_force_advice(),
        ),
    );
    assert(rule_views(v@) =~= before + removal_rules());
}

/// Adds the rules on `find`, `unlink` and `truncate`.
fn add_deletion_rules(v: &mut Vec<DestructivePattern>)
    ensures
        rule_views(final(v)@) == rule_views(old(v)@) + deletion_rules(),
{
    let ghost before = rule_views(v@);
    v.push(
        DestructivePattern::new(
            texts::FIND_DELETE_ROOT_HOME_NAME,
            texts::FIND_DELETE_ROOT_HOME_PATTERN,
            texts::FIND_DELETE_ROOT_HOME_REASON,
            Severity::Critical,
            texts::FIND_DELETE_ROOT_HOME_EXPLANATION,
            advice::make_find_delete_advice(),
        ),
    );
    v.push(
        DestructivePattern::new(
            texts::FIND_DELETE_GENERAL_NAME,
            texts::FIND_DELETE_GENERAL_PATTERN,
            texts::FIND_DELETE_GENERAL_REASON,
            Severity::High,
            texts::FIND_DELETE_GENERAL_EXPLANATION,
            advice::make_find_delete_advice(),
        ),
    );
    v.push(
        DestructivePattern::new(
            texts::UNLINK_ROOT_HOME_NAME,
            texts::UNLINK_ROOT_HOME_PATTERN,
            texts::UNLINK_ROOT_HOME_REASON,
            Severity::Critical,
            texts::UNLINK_ROOT_HOME_EXPLANATION,
            advice::make_unlink_advice(),
        ),
    );
    v.push(
        DestructivePattern::new(
            texts::UNLINK_GENERAL_NAME,
            texts::UNLINK_GENERAL_PATTERN,
            texts::UNLINK_GENERAL_REASON,
            Severity::High,
            texts::UNLINK_GENERAL_EXPLANATION,
            advice::make_unlink_advice(),
        ),
    );
    v.push(
        DestructivePattern::new(
            texts::TRUNCATE_ZERO_ROOT_HOME_NAME,
            texts::TRUNCATE_ZERO_ROOT_HOME_PATTERN,
            texts::TRUNCATE_ZERO_ROOT_HOME_REASON,
            Severity::Critical,
            texts::TRUNCATE_ZERO_ROOT_HOME_EXPLANATION,
            advice::make_truncate_advice(),
        ),
    );
    v.push(
        DestructivePattern::new(
            texts::TRUNCATE_ZERO_GENERAL_NAME,
            texts::TRUNCATE_ZERO_GENERAL_PATTERN,
            texts::TRUNCATE_ZERO_GENERAL_REASON,
            Severity::High,
            texts::TRUNCATE_ZERO_GENERAL_EXPLANATION,
            advice::make_truncate_advice(),
        ),
    );
    assert(rule_views(v@) =~= before + deletion_rules());
}

/// Adds the rules on `shred`, `tar` and `dd`.
fn add_overwrite_rules(v: &mut Vec<DestructivePattern>)
    ensures
        rule_views(final(v)@) == rule_views(old(v)@) + overwrite_rules(),
{
    let ghost before = rule_views(v@);
    v.push(
        DestructivePattern::new(
            texts::SHRED_ROOT_HOME_NAME,
            texts::SHRED_ROOT_HOME_PATTERN,
            texts::SHRED_ROOT_HOME_REASON,
            Severity::Critical,
            texts::SHRED_ROOT_HOME_EXPLANATION,
            advice::make_shred_advice(),
        ),
    );
    v.push(
        DestructivePattern::new(
            texts::SHRED_GENERAL_NAME,
            texts::SHRED_GENERAL_PATTERN,
            texts::SHRED_GENERAL_REASON,
            Severity::High,
            texts::SHRED_GENERAL_EXPLANATION,
            advice::make_shred_advice(),
        ),
    );
    v.push(
        DestructivePattern::new(
            texts::TAR_REMOVE_FILES_ROOT_HOME_NAME,
            texts::TAR_REMOVE_FILES_ROOT_HOME_PATTERN,
            texts::TAR_REMOVE_FILES_ROOT_HOME_REASON,
            Severity::Critical,
            texts::TAR_REMOVE_FILES_ROOT_HOME_EXPLANATION,
            advice::make_tar_remove_files_advice(),
        ),
    );
    v.push(
        DestructivePattern::new(
            texts::TAR_REMOVE_FILES_GENERAL_NAME,
            texts::TAR_REMOVE_FILES_GENERAL_PATTERN,
            texts::TAR_REMOVE_FILES_GENERAL_REASON,
            Severity::High,
            texts::TAR_REMOVE_FILES_GENERAL_EXPLANATION,
            advice::make_tar_remove_files_advice(),
        ),
    );
    v.push(
        DestructivePattern::new(
            texts::DD_OVERWRITE_ROOT_HOME_NAME,
            texts::DD_OVERWRITE_ROOT_HOME_PATTERN,
            texts::DD_OVERWRITE_ROOT_HOME_REASON,
            Severity::Critical,
            texts::DD_OVERWRITE_ROOT_HOME_EXPLANATION,
            advice::make_dd_overwrite_advice(),
        ),
    );
    v.push(
        DestructivePattern::new(
            texts::DD_OVERWRITE_GENERAL_NAME,
            texts::DD_OVERWRITE_GENERAL_PATTERN,
            texts::DD_OVERWRITE_GENERAL_REASON,
            Severity::High,
            texts::DD_OVERWRITE_GENERAL_EXPLANATION,
            advice::make_dd_overwrite_advice(),
        ),
    );
    assert(rule_views(v@) =~= before + overwrite_rules());
}

/// Adds the rules on `mv`, redirections and fork bombs.
fn add_relocation_rules(v: &mut Vec<DestructivePattern>)
    ensures
        rule_views(final(v)@) == rule_views(old(v)@) + relocation_rules(),
{
    let ghost before = rule_views(v@);
    v.push(
        DestructivePattern::new(
            texts::MV_SENSITIVE_SOURCE_ROOT_HOME_NAME,
            texts::MV_SENSITIVE_SOURCE_ROOT_HOME_PATTERN,
            texts::MV_SENSITIVE_SOURCE_ROOT_HOME_REASON,
            Severity::Critical,
            texts::MV_SENSITIVE_SOURCE_ROOT_HOME_EXPLANATION,
            advice::make_mv_sensitive_advice(),
        ),
    );
    v.push(
        DestructivePattern::new(
            texts::MV_DYNAMIC_PATH_NAME,
            texts::MV_DYNAMIC_PATH_PATTERN,
            texts::MV_DYNAMIC_PATH_REASON,
            Severity::High,
            texts::MV_DYNAMIC_PATH_EXPLANATION,
            advice::make_mv_dynamic_advice(),
        ),
    );
    v.push(
        DestructivePattern::new(
            texts::REDIRECT_TRUNCATE_ROOT_HOME_NAME,
            texts::REDIRECT_TRUNCATE_ROOT_HOME_PATTERN,
            texts::REDIRECT_TRUNCATE_ROOT_HOME_REASON,
            Severity::Critical,
            texts::REDIRECT_TRUNCATE_ROOT_HOME_EXPLANATION,
            advice::make_redirect_truncate_advice(),
        ),
    );
    v.push(
        DestructivePattern::new(
            texts::REDIRECT_TRUNCATE_DYNAMIC_PATH_NAME,
            texts::REDIRECT_TRUNCATE_DYNAMIC_PATH_PATTERN,
            texts::REDIRECT_TRUNCATE_DYNAMIC_PATH_REASON,
            Severity::High,
            texts::REDIRECT_TRUNCATE_DYNAMIC_PATH_EXPLANATION,
            advice::make_redirect_truncate_advice(),
        ),
    );
    v.push(
        DestructivePattern::new(
            texts::FORK_BOMB_NAME,
            texts::FORK_BOMB_PATTERN,
            texts::FORK_BOMB_REASON,
            Severity::Critical,
            texts::FORK_BOMB_EXPLANATION,
            Vec::new(),
        ),
    );
    assert(rule_views(v@) =~= before + relocation_rules());
}

/// The rules on commands on files.
pub fn create_destructive_patterns() -> (r: Vec<DestructivePattern>)
    ensures
        rule_views(r@) == filesystem_rules(),
{
    let mut v: Vec<DestructivePattern> = Vec::new();
    assert(rule_views(v@) =~= Seq::<RuleView>::empty());
    add_propagation_rules(&mut v);
    add_removal_rules(&mut v);
    add_deletion_rules(&mut v);
    add_overwrite_rules(&mut v);
    add_relocation_rules(&mut v);
    assert(rule_views(v@) =~= filesystem_rules());
    v
}

/// The rules on files: removals, and what destroys files like them.
#[must_use]
pub fn create_pack() -> (r: Pack)
    ensures
        r.id@ == "core.filesystem"@,
        r.name@ == "Core Filesystem"@,
        r.description@ == FILESYSTEM_PACK_DESCRIPTION@,
        r.keywords@ == filesystem_keywords(),
        r.safe() == filesystem_safe_patterns(),
        r.rules() == filesystem_rules(),
{
    let id = chars_of("core.filesystem");
    Pack {
        id: text_of(id.as_slice()),
        name: "Core Filesystem",
        description: FILESYSTEM_PACK_DESCRIPTION,
        keywords: create_keywords(),
        safe_patterns: create_safe_patterns(),
        destructive_patterns: create_destructive_patterns(),
    }
}

} // verus!
