//! The names and texts of the rules on files that patterns find.

use vstd::prelude::*;

verus! {

/// The name of a safe pattern.
pub const RM_RF_TMP_NAME: &'static str = "rm-rf-tmp";

/// The safe pattern `rm-rf-tmp`.
pub const RM_RF_TMP_PATTERN: &'static str = r"^rm\s+-[a-zA-Z]*[rR][a-zA-Z]*f[a-zA-Z]*\s+(?:(?:/private)?/tmp/(?!\.\.(?:/|\s|$)|[^\s]*/\.\.(?:/|\s|$))\S*(?:\s+|$))+$";

/// The name of a safe pattern.
pub const RM_FR_TMP_NAME: &'static str = "rm-fr-tmp";

/// The safe pattern `rm-fr-tmp`.
pub const RM_FR_TMP_PATTERN: &'static str = r"^rm\s+-[a-zA-Z]*f[a-zA-Z]*[rR][a-zA-Z]*\s+(?:(?:/private)?/tmp/(?!\.\.(?:/|\s|$)|[^\s]*/\.\.(?:/|\s|$))\S*(?:\s+|$))+$";

/// The name of a safe pattern.
pub const RM_RF_VAR_TMP_NAME: &'static str = "rm-rf-var-tmp";

/// The safe pattern `rm-rf-var-tmp`.
pub const RM_RF_VAR_TMP_PATTERN: &'static str = r"^rm\s+-[a-zA-Z]*[rR][a-zA-Z]*f[a-zA-Z]*\s+(?:(?:/private)?/var/tmp/(?!\.\.(?:/|\s|$)|[^\s]*/\.\.(?:/|\s|$))\S*(?:\s+|$))+$";

/// The name of a safe pattern.
pub const RM_FR_VAR_TMP_NAME: &'static str = "rm-fr-var-tmp";

/// The safe pattern `rm-fr-var-tmp`.
pub const RM_FR_VAR_TMP_PATTERN: &'static str = r"^rm\s+-[a-zA-Z]*f[a-zA-Z]*[rR][a-zA-Z]*\s+(?:(?:/private)?/var/tmp/(?!\.\.(?:/|\s|$)|[^\s]*/\.\.(?:/|\s|$))\S*(?:\s+|$))+$";

/// The name of a safe pattern.
pub const RM_R_F_TMP_NAME: &'static str = "rm-r-f-tmp";

/// The safe pattern `rm-r-f-tmp`.
pub const RM_R_F_TMP_PATTERN: &'static str = r"^rm\s+(-[a-zA-Z]+\s+)*-[rR]\s+(-[a-zA-Z]+\s+)*-f\s+(?:(?:/private)?/tmp/(?!\.\.(?:/|\s|$)|[^\s]*/\.\.(?:/|\s|$))\S*(?:\s+|$))+$";

/// The name of a safe pattern.
pub const RM_F_R_TMP_NAME: &'static str = "rm-f-r-tmp";

/// The safe pattern `rm-f-r-tmp`.
pub const RM_F_R_TMP_PATTERN: &'static str = r"^rm\s+(-[a-zA-Z]+\s+)*-f\s+(-[a-zA-Z]+\s+)*-[rR]\s+(?:(?:/private)?/tmp/(?!\.\.(?:/|\s|$)|[^\s]*/\.\.(?:/|\s|$))\S*(?:\s+|$))+$";

/// The name of a safe pattern.
pub const RM_R_F_VAR_TMP_NAME: &'static str = "rm-r-f-var-tmp";

/// The safe pattern `rm-r-f-var-tmp`.
pub const RM_R_F_VAR_TMP_PATTERN: &'static str = r"^rm\s+(-[a-zA-Z]+\s+)*-[rR]\s+(-[a-zA-Z]+\s+)*-f\s+(?:(?:/private)?/var/tmp/(?!\.\.(?:/|\s|$)|[^\s]*/\.\.(?:/|\s|$))\S*(?:\s+|$))+$";

/// The name of a safe pattern.
pub const RM_F_R_VAR_TMP_NAME: &'static str = "rm-f-r-var-tmp";

/// The safe pattern `rm-f-r-var-tmp`.
pub const RM_F_R_VAR_TMP_PATTERN: &'static str = r"^rm\s+(-[a-zA-Z]+\s+)*-f\s+(-[a-zA-Z]+\s+)*-[rR]\s+(?:(?:/private)?/var/tmp/(?!\.\.(?:/|\s|$)|[^\s]*/\.\.(?:/|\s|$))\S*(?:\s+|$))+$";

/// The name of a safe pattern.
pub const RM_RECURSIVE_FORCE_TMP_NAME: &'static str = "rm-recursive-force-tmp";

/// The safe pattern `rm-recursive-force-tmp`.
pub const RM_RECURSIVE_FORCE_TMP_PATTERN: &'static str = r"^rm\s+.*--recursive.*--force\s+(?:(?:/private)?/tmp/(?!\.\.(?:/|\s|$)|[^\s]*/\.\.(?:/|\s|$))\S*(?:\s+|$))+$";

/// The name of a safe pattern.
pub const RM_FORCE_RECURSIVE_TMP_NAME: &'static str = "rm-force-recursive-tmp";

/// The safe pattern `rm-force-recursive-tmp`.
pub const RM_FORCE_RECURSIVE_TMP_PATTERN: &'static str = r"^rm\s+.*--force.*--recursive\s+(?:(?:/private)?/tmp/(?!\.\.(?:/|\s|$)|[^\s]*/\.\.(?:/|\s|$))\S*(?:\s+|$))+$";

/// The name of a safe pattern.
pub const RM_RECURSIVE_FORCE_VAR_TMP_NAME: &'static str = "rm-recursive-force-var-tmp";

/// The safe pattern `rm-recursive-force-var-tmp`.
pub const RM_RECURSIVE_FORCE_VAR_TMP_PATTERN: &'static str = r"^rm\s+.*--recursive.*--force\s+(?:(?:/private)?/var/tmp/(?!\.\.(?:/|\s|$)|[^\s]*/\.\.(?:/|\s|$))\S*(?:\s+|$))+$";

/// The name of a safe pattern.
pub const RM_FORCE_RECURSIVE_VAR_TMP_NAME: &'static str = "rm-force-recursive-var-tmp";

/// The safe pattern `rm-force-recursive-var-tmp`.
pub const RM_FORCE_RECURSIVE_VAR_TMP_PATTERN: &'static str = r"^rm\s+.*--force.*--recursive\s+(?:(?:/private)?/var/tmp/(?!\.\.(?:/|\s|$)|[^\s]*/\.\.(?:/|\s|$))\S*(?:\s+|$))+$";

/// The name of a safe pattern.
pub const FIND_DELETE_TMP_NAME: &'static str = "find-delete-tmp";

/// The safe pattern `find-delete-tmp`.
pub const FIND_DELETE_TMP_PATTERN: &'static str = r"^(?![^|;&]*(?:[\\$`]|\n\s*\S))find\s+/tmp(?:/(?!\.\.(?:/|\s|$)|[^\s]*/\.\.(?:/|\s|$))[^|;&\s]*)?(?:\s+(?:/tmp(?:/(?!\.\.(?:/|\s|$)|[^\s]*/\.\.(?:/|\s|$))[^|;&\s]*)?|-[a-zA-Z][^|;&\s]*(?:\s+[^/~$\-|;&\s][^|;&\s]*)?))*\s+-delete(?:\s+-[a-zA-Z][^|;&\s]*(?:\s+[^/~$\-|;&\s][^|;&\s]*)?)*\s*$";

/// The name of a safe pattern.
pub const FIND_DELETE_VAR_TMP_NAME: &'static str = "find-delete-var-tmp";

/// The safe pattern `find-delete-var-tmp`.
pub const FIND_DELETE_VAR_TMP_PATTERN: &'static str = r"^(?![^|;&]*(?:[\\$`]|\n\s*\S))find\s+/var/tmp(?:/(?!\.\.(?:/|\s|$)|[^\s]*/\.\.(?:/|\s|$))[^|;&\s]*)?(?:\s+(?:/var/tmp(?:/(?!\.\.(?:/|\s|$)|[^\s]*/\.\.(?:/|\s|$))[^|;&\s]*)?|-[a-zA-Z][^|;&\s]*(?:\s+[^/~$\-|;&\s][^|;&\s]*)?))*\s+-delete(?:\s+-[a-zA-Z][^|;&\s]*(?:\s+[^/~$\-|;&\s][^|;&\s]*)?)*\s*$";

/// The name of a safe pattern.
pub const UNLINK_TMP_NAME: &'static str = "unlink-tmp";

/// The safe pattern `unlink-tmp`.
pub const UNLINK_TMP_PATTERN: &'static str = r"^(?![^|;&]*(?:[\\$`]|\n\s*\S))unlink\s+(?:/private)?/tmp/(?!\.\.(?:/|\s|$)|[^\s]*/\.\.(?:/|\s|$))[^|;&\s]+\s*$";

/// The name of a safe pattern.
pub const UNLINK_VAR_TMP_NAME: &'static str = "unlink-var-tmp";

/// The safe pattern `unlink-var-tmp`.
pub const UNLINK_VAR_TMP_PATTERN: &'static str = r"^(?![^|;&]*(?:[\\$`]|\n\s*\S))unlink\s+(?:/private)?/var/tmp/(?!\.\.(?:/|\s|$)|[^\s]*/\.\.(?:/|\s|$))[^|;&\s]+\s*$";

/// The name of a safe pattern.
pub const UNLINK_HELP_NAME: &'static str = "unlink-help";

/// The safe pattern `unlink-help`.
pub const UNLINK_HELP_PATTERN: &'static str = r"^unlink\s+(?:--help|--version)\s*$";

/// The name of a safe pattern.
pub const TRUNCATE_HELP_NAME: &'static str = "truncate-help";

/// The safe pattern `truncate-help`.
pub const TRUNCATE_HELP_PATTERN: &'static str = r"^truncate\s+(?:--help|--version)\s*$";

/// The name of a safe pattern.
pub const TRUNCATE_GROW_NAME: &'static str = "truncate-grow";

/// The safe pattern `truncate-grow`.
pub const TRUNCATE_GROW_PATTERN: &'static str = r"^(?![^|;&]*\n\s*\S)truncate\s+(?:-s\s+\+[^|;&\s]+|--size=\+[^|;&\s]+)\s+[^|;&\s]+\s*$";

/// The name of a safe pattern.
pub const TRUNCATE_TMP_NAME: &'static str = "truncate-tmp";

/// The safe pattern `truncate-tmp`.
pub const TRUNCATE_TMP_PATTERN: &'static str = r"^(?![^|;&]*(?:[\\$`]|\n\s*\S))truncate\s+(?:-s\s+[^|;&\s]+|--size=[^|;&\s]+)\s+(?:/private)?/tmp/(?!\.\.(?:/|\s|$)|[^\s]*/\.\.(?:/|\s|$))[^|;&\s]+\s*$";

/// The name of a safe pattern.
pub const TRUNCATE_VAR_TMP_NAME: &'static str = "truncate-var-tmp";

/// The safe pattern `truncate-var-tmp`.
pub const TRUNCATE_VAR_TMP_PATTERN: &'static str = r"^(?![^|;&]*(?:[\\$`]|\n\s*\S))truncate\s+(?:-s\s+[^|;&\s]+|--size=[^|;&\s]+)\s+(?:/private)?/var/tmp/(?!\.\.(?:/|\s|$)|[^\s]*/\.\.(?:/|\s|$))[^|;&\s]+\s*$";

/// The name of a safe pattern.
pub const SHRED_HELP_NAME: &'static str = "shred-help";

/// The safe pattern `shred-help`.
pub const SHRED_HELP_PATTERN: &'static str = r"^shred\s+(?:--help|--version)\s*$";

/// The name of a safe pattern.
pub const SHRED_TMP_NAME: &'static str = "shred-tmp";

/// The safe pattern `shred-tmp`.
pub const SHRED_TMP_PATTERN: &'static str = r"^(?![^|;&]*(?:[\\$`]|\n\s*\S))shred(?:\s+(?:-[a-zA-Z][a-zA-Z0-9_-]*(?:\s+[^/~$\-|;&\s][^\s|;&]*)?|--[a-z\-]+(?:=[^|;&\s]+|\s+[^/~$\-|;&\s][^\s|;&]*)?))*\s+(?:/private)?/tmp/(?!\.\.(?:/|\s|$)|[^\s]*/\.\.(?:/|\s|$))[^|;&\s]+(?:\s+(?:-[a-zA-Z][a-zA-Z0-9_-]*(?:\s+[^/~$\-|;&\s][^\s|;&]*)?|--[a-z\-]+(?:=[^|;&\s]+|\s+[^/~$\-|;&\s][^\s|;&]*)?))*\s*$";

/// The name of a safe pattern.
pub const SHRED_VAR_TMP_NAME: &'static str = "shred-var-tmp";

/// The safe pattern `shred-var-tmp`.
pub const SHRED_VAR_TMP_PATTERN: &'static str = r"^(?![^|;&]*(?:[\\$`]|\n\s*\S))shred(?:\s+(?:-[a-zA-Z][a-zA-Z0-9_-]*(?:\s+[^/~$\-|;&\s][^\s|;&]*)?|--[a-z\-]+(?:=[^|;&\s]+|\s+[^/~$\-|;&\s][^\s|;&]*)?))*\s+(?:/private)?/var/tmp/(?!\.\.(?:/|\s|$)|[^\s]*/\.\.(?:/|\s|$))[^|;&\s]+(?:\s+(?:-[a-zA-Z][a-zA-Z0-9_-]*(?:\s+[^/~$\-|;&\s][^\s|;&]*)?|--[a-z\-]+(?:=[^|;&\s]+|\s+[^/~$\-|;&\s][^\s|;&]*)?))*\s*$";

/// The name of a safe pattern.
pub const TAR_REMOVE_FILES_TMP_NAME: &'static str = "tar-remove-files-tmp";

/// The safe pattern `tar-remove-files-tmp`.
pub const TAR_REMOVE_FILES_TMP_PATTERN: &'static str = r"^(?![^|;&]*(?:[\\$`]|\n\s*\S))tar(?=\s+[^|;&]*--remove-files\b)(?:\s+(?:-[a-zA-Z][a-zA-Z0-9_-]*(?:\s+[^/~$\-|;&\s][^\s|;&]*)?|--[a-z\-]+(?:=[^|;&\s]+|\s+[^/~$\-|;&\s][^\s|;&]*)?))*\s+(?:/private)?/tmp/(?!\.\.(?:/|\s|$)|[^\s]*/\.\.(?:/|\s|$))[^|;&\s]+(?:\s+(?:-[a-zA-Z][a-zA-Z0-9_-]*(?:\s+[^/~$\-|;&\s][^\s|;&]*)?|--[a-z\-]+(?:=[^|;&\s]+|\s+[^/~$\-|;&\s][^\s|;&]*)?))*\s*$";

/// The name of a safe pattern.
pub const TAR_REMOVE_FILES_VAR_TMP_NAME: &'static str = "tar-remove-files-var-tmp";

/// The safe pattern `tar-remove-files-var-tmp`.
pub const TAR_REMOVE_FILES_VAR_TMP_PATTERN: &'static str = r"^(?![^|;&]*(?:[\\$`]|\n\s*\S))tar(?=\s+[^|;&]*--remove-files\b)(?:\s+(?:-[a-zA-Z][a-zA-Z0-9_-]*(?:\s+[^/~$\-|;&\s][^\s|;&]*)?|--[a-z\-]+(?:=[^|;&\s]+|\s+[^/~$\-|;&\s][^\s|;&]*)?))*\s+(?:/private)?/var/tmp/(?!\.\.(?:/|\s|$)|[^\s]*/\.\.(?:/|\s|$))[^|;&\s]+(?:\s+(?:-[a-zA-Z][a-zA-Z0-9_-]*(?:\s+[^/~$\-|;&\s][^\s|;&]*)?|--[a-z\-]+(?:=[^|;&\s]+|\s+[^/~$\-|;&\s][^\s|;&]*)?))*\s*$";

/// The name of a safe pattern.
pub const DD_TMP_NAME: &'static str = "dd-tmp";

/// The safe pattern `dd-tmp`.
pub const DD_TMP_PATTERN: &'static str = r#"^(?![^|;&]*(?:[\\$`]|\n\s*\S))dd(?=\s+[^|;&]*\bof=)(?:\s+(?:[a-zA-Z]+=[^|;&\s]+|--?[a-zA-Z][a-zA-Z0-9\-]*(?:=[^|;&\s]+)?))*\s+of=['"]?(?:/private)?/tmp/(?!\.\.(?:/|\s|$)|[^\s]*/\.\.(?:/|\s|$))[^|;&\s]+(?:\s+(?:(?!of=)[a-zA-Z]+=[^|;&\s]+|--?[a-zA-Z][a-zA-Z0-9\-]*(?:=[^|;&\s]+)?))*\s*$"#;

/// The name of a safe pattern.
pub const DD_VAR_TMP_NAME: &'static str = "dd-var-tmp";

/// The safe pattern `dd-var-tmp`.
pub const DD_VAR_TMP_PATTERN: &'static str = r#"^(?![^|;&]*(?:[\\$`]|\n\s*\S))dd(?=\s+[^|;&]*\bof=)(?:\s+(?:[a-zA-Z]+=[^|;&\s]+|--?[a-zA-Z][a-zA-Z0-9\-]*(?:=[^|;&\s]+)?))*\s+of=['"]?(?:/private)?/var/tmp/(?!\.\.(?:/|\s|$)|[^\s]*/\.\.(?:/|\s|$))[^|;&\s]+(?:\s+(?:(?!of=)[a-zA-Z]+=[^|;&\s]+|--?[a-zA-Z][a-zA-Z0-9\-]*(?:=[^|;&\s]+)?))*\s*$"#;

/// The name of a safe pattern.
pub const DD_HELP_NAME: &'static str = "dd-help";

/// The safe pattern `dd-help`.
pub const DD_HELP_PATTERN: &'static str = r"^dd\s+(?:--help|--version)\s*$";

/// The name of a safe pattern.
pub const MV_TMP_NAME: &'static str = "mv-tmp";

/// The safe pattern `mv-tmp`.
pub const MV_TMP_PATTERN: &'static str = r"^(?![^|;&]*(?:[\\$`]|\n\s*\S))mv(?:\s+(?:-[a-zA-Z][a-zA-Z0-9_-]*(?:\s+[^/~$\-|;&\s][^\s|;&]*)?|--[a-z\-]+(?:=[^|;&\s]+|\s+[^/~$\-|;&\s][^\s|;&]*)?))*\s+(?:(?:/private)?/tmp/(?!\.\.(?:/|\s|$)|[^\s]*/\.\.(?:/|\s|$))[^|;&\s]+\s+)+(?:/private)?/tmp/(?!\.\.(?:/|\s|$)|[^\s]*/\.\.(?:/|\s|$))[^|;&\s]+\s*$";

/// The name of a safe pattern.
pub const MV_VAR_TMP_NAME: &'static str = "mv-var-tmp";

/// The safe pattern `mv-var-tmp`.
pub const MV_VAR_TMP_PATTERN: &'static str = r"^(?![^|;&]*(?:[\\$`]|\n\s*\S))mv(?:\s+(?:-[a-zA-Z][a-zA-Z0-9_-]*(?:\s+[^/~$\-|;&\s][^\s|;&]*)?|--[a-z\-]+(?:=[^|;&\s]+|\s+[^/~$\-|;&\s][^\s|;&]*)?))*\s+(?:(?:/private)?/var/tmp/(?!\.\.(?:/|\s|$)|[^\s]*/\.\.(?:/|\s|$))[^|;&\s]+\s+)+(?:/private)?/var/tmp/(?!\.\.(?:/|\s|$)|[^\s]*/\.\.(?:/|\s|$))[^|;&\s]+\s*$";

/// The name of a safe pattern.
pub const MV_HELP_NAME: &'static str = "mv-help";

/// The safe pattern `mv-help`.
pub const MV_HELP_PATTERN: &'static str = r"^mv\s+(?:--help|--version)\s*$";

/// The name of a safe pattern.
pub const MV_TO_TRASH_NAME: &'static str = "mv-to-trash";

/// The safe pattern `mv-to-trash`.
pub const MV_TO_TRASH_PATTERN: &'static str = r"^(?![^|;&]*[\\$`])mv(?:[ \t]+--?[a-zA-Z][a-zA-Z0-9-]*)*(?:[ \t]+(?:~/|/home/[^/\s]+/|/Users/[^/\s]+/|(?:/private)?(?:/var)?/tmp/|\./)?(?!\.\.(?:/|\s|$)|[^\s]*/\.\.(?:/|\s|$))[A-Za-z0-9._][^\s;|&]*)+[ \t]+(?:~/\.local/share/Trash|~/\.Trash)(?:/(?!\.\.(?:/|\s|$)|[^\s]*/\.\.(?:/|\s|$))[^\s;|&]*)?\s*$";

/// The name of a safe pattern.
pub const MV_TO_TRASH_QUOTED_NAME: &'static str = "mv-to-trash-quoted";

/// The safe pattern `mv-to-trash-quoted`.
pub const MV_TO_TRASH_QUOTED_PATTERN: &'static str = r#"^(?![^|;&]*[\\$`])mv(?:[ \t]+--?[a-zA-Z][a-zA-Z0-9-]*)*(?:[ \t]+(?:(?:~/|/home/[^/\s'"]+/|/Users/[^/\s'"]+/|(?:/private)?(?:/var)?/tmp/|\./)?(?!\.\.(?:/|\s|$)|[^\s]*/\.\.(?:/|\s|$))[A-Za-z0-9._][^\s;|&]*|"(?:~/|/home/[^/"]+/|/Users/[^/"]+/|(?:/private)?(?:/var)?/tmp/|\./)?(?!\.\.(?:/|")|[^"]*/\.\.(?:/|"))[A-Za-z0-9._][^"$`;|&]*"|'(?:~/|/home/[^/']+/|/Users/[^/']+/|(?:/private)?(?:/var)?/tmp/|\./)?(?!\.\.(?:/|')|[^']*/\.\.(?:/|'))[A-Za-z0-9._][^'$`;|&]*'))+[ \t]+(?:(?:~|/home/[^/\s'"]+|/Users/[^/\s'"]+)(?:/\.local/share/Trash|/\.Trash)(?:/(?!\.\.(?:/|\s|$)|[^\s]*/\.\.(?:/|\s|$))[^\s;|&"']*)?|"(?:~|/home/[^/\s'"]+|/Users/[^/\s'"]+)(?:/\.local/share/Trash|/\.Trash)(?:/(?!\.\.(?:/|\s|$)|[^\s]*/\.\.(?:/|\s|$))[^\s;|&"']*)?"|'(?:~|/home/[^/\s'"]+|/Users/[^/\s'"]+)(?:/\.local/share/Trash|/\.Trash)(?:/(?!\.\.(?:/|\s|$)|[^\s]*/\.\.(?:/|\s|$))[^\s;|&"']*)?')[ \t]*$"#;

/// The name of a safe pattern.
pub const MV_WITHIN_HOME_NAME: &'static str = "mv-within-home";

/// The safe pattern `mv-within-home`.
pub const MV_WITHIN_HOME_PATTERN: &'static str = r#"^(?![^|;&]*[\\$`])mv(?:[ \t]+--?[a-zA-Z][a-zA-Z0-9-]*)*(?:[ \t]+(?:(?:~|/home/[^/|;&\s'"]+|/Users/[^/|;&\s'"]+)/(?!\.)[^/\s'"$`;|&]+(?:/(?!\.\.(?:/|\s|$))[^/\s'"$`;|&]+)+/?|"(?:~|/home/[^/"]+|/Users/[^/"]+)/(?!\.)[^/"$`;|&]+(?:/(?!\.\.(?:/|"))[^/"$`;|&]+)+/?"|'(?:~|/home/[^/']+|/Users/[^/']+)/(?!\.)[^/'$`;|&]+(?:/(?!\.\.(?:/|'))[^/'$`;|&]+)+/?'))+[ \t]+(?:(?:~|/home/[^/|;&\s'"]+|/Users/[^/|;&\s'"]+)/(?!\.)[^/\s'"$`;|&]+(?:/(?!\.\.(?:/|\s|$))[^/\s'"$`;|&]+)*/?|"(?:~|/home/[^/"]+|/Users/[^/"]+)/(?!\.)[^/"$`;|&]+(?:/(?!\.\.(?:/|"))[^/"$`;|&]+)*/?"|'(?:~|/home/[^/']+|/Users/[^/']+)/(?!\.)[^/'$`;|&]+(?:/(?!\.\.(?:/|'))[^/'$`;|&]+)*/?')[ \t]*$"#;

/// The name of a rule.
pub const SED_EXEC_UNVERIFIED_NAME: &'static str = "sed-exec-unverified";

/// Why `sed-exec-unverified` denies.
pub const SED_EXEC_UNVERIFIED_REASON: &'static str = "GNU sed executes shell input that dcg cannot statically verify.";

/// The pattern of `sed-exec-unverified`, which matches nothing: what `sed` would run decides.
pub const SED_EXEC_UNVERIFIED_PATTERN: &'static str = r"(?!)";

/// What to know of `sed-exec-unverified`.
pub const SED_EXEC_UNVERIFIED_EXPLANATION: &'static str = "Use a literal sed replacement or inspect the fully rendered shell command before allowing execution. Backreferences, '&', and an empty `e` command depend on runtime input.";

/// The name of a rule.
pub const CP_SENSITIVE_THEN_DELETE_NAME: &'static str = "cp-sensitive-then-delete";

/// Why `cp-sensitive-then-delete` denies.
pub const CP_SENSITIVE_THEN_DELETE_REASON: &'static str = "archive copy of a sensitive path into temp followed by forced recursive deletion is a cross-segment data-loss bypass. EXTREMELY DANGEROUS.";

/// The pattern of `cp-sensitive-then-delete`.
pub const CP_SENSITIVE_THEN_DELETE_PATTERN: &'static str = r#"\bcp\b[^|;&]*(?:\s(?:-[A-Za-z]*a[A-Za-z]*|--archive)\b)[^|;&]*?(?:\s|=)(?:['"\\]|\$['"])?(?:/(?:etc|usr|bin|sbin|root|boot|lib|lib64|var|home|Users|sys|proc|dev|opt)(?:/|(?=[\s\)'"]|$))|/(?=[\s\)'"]|$)|~(?=\s|$|/|\))|\$\{?HOME\b)[^|;&]*?(?:\s|=)(?:['"\\]|\$['"])?(?:/tmp/|/var/tmp/|\$TMPDIR/|\$\{TMPDIR\}/)[^|;&\s'"]*[^|;&]*(?:&&|;|\|\|)[^|;&]*\brm\b[^|;&]*\s(?:-[A-Za-z]*[rR][A-Za-z]*f[A-Za-z]*|-[A-Za-z]*f[A-Za-z]*[rR][A-Za-z]*|-[rR]\s+-f|-f\s+-[rR]|--recursive\s+--force|--force\s+--recursive)[^|;&]*?(?:\s|=)(?:['"\\]|\$['"])?(?:/tmp/|/var/tmp/|\$TMPDIR/|\$\{TMPDIR\}/)"#;

/// What to know of `cp-sensitive-then-delete`.
pub const CP_SENSITIVE_THEN_DELETE_EXPLANATION: &'static str = "`cp -al /etc /tmp/x && rm -rf /tmp/x` is a propagation variant of the \
     relocate-then-delete bypass: the copy segment is allowed, and the temp \
     delete segment is normally safe, but the compound command can destroy \
     sensitive content or hide irreversible deletion behind a temp path.\n\n\
     Safer alternatives:\n\
     - Copy beside the original or into a named backup path and verify with `diff -r`.\n\
     - Do not combine sensitive-source propagation and forced deletion in one command.\n\
     - Use `rm -ri` if a derived temp tree genuinely needs manual cleanup.";

/// The name of a rule.
pub const LN_SYMLINK_SENSITIVE_THEN_DELETE_NAME: &'static str = "ln-symlink-sensitive-then-delete";

/// Why `ln-symlink-sensitive-then-delete` denies.
pub const LN_SYMLINK_SENSITIVE_THEN_DELETE_REASON: &'static str = "symlink from a sensitive path into temp followed by forced recursive deletion can traverse and destroy the target. EXTREMELY DANGEROUS.";

/// The pattern of `ln-symlink-sensitive-then-delete`.
pub const LN_SYMLINK_SENSITIVE_THEN_DELETE_PATTERN: &'static str = r#"\bln\b[^|;&]*\s-[A-Za-z]*s[A-Za-z]*[^|;&]*?(?:\s|=)(?:['"\\]|\$['"])?(?:/(?:etc|usr|bin|sbin|root|boot|lib|lib64|var|home|Users|sys|proc|dev|opt)(?:/|(?=[\s\)'"]|$))|/(?=[\s\)'"]|$)|~(?=\s|$|/|\))|\$\{?HOME\b)[^|;&]*?(?:\s|=)(?:['"\\]|\$['"])?(?:/tmp/|/var/tmp/|\$TMPDIR/|\$\{TMPDIR\}/)[^|;&\s'"]*[^|;&]*(?:&&|;|\|\|)[^|;&]*\brm\b[^|;&]*\s(?:-[A-Za-z]*[rR][A-Za-z]*f[A-Za-z]*|-[A-Za-z]*f[A-Za-z]*[rR][A-Za-z]*|-[rR]\s+-f|-f\s+-[rR]|--recursive\s+--force|--force\s+--recursive)[^|;&]*?(?:\s|=)(?:['"\\]|\$['"])?(?:/tmp/|/var/tmp/|\$TMPDIR/|\$\{TMPDIR\}/)"#;

/// What to know of `ln-symlink-sensitive-then-delete`.
pub const LN_SYMLINK_SENSITIVE_THEN_DELETE_EXPLANATION: &'static str = "`ln -s /etc /tmp/x && rm -rf /tmp/x/.` can turn an apparently safe temp \
     cleanup into deletion through a symlink. The temp path does not make the \
     operation safe once it points back at a sensitive tree.\n\n\
     Safer alternatives:\n\
     - Inspect symlinks with `readlink` and `ls -la` before removing anything.\n\
     - Remove only the link itself with `unlink /tmp/<link>` when that is the intent.\n\
     - Avoid combining symlink creation and recursive deletion in one command.";

/// The name of a rule.
pub const RSYNC_SENSITIVE_THEN_DELETE_NAME: &'static str = "rsync-sensitive-then-delete";

/// Why `rsync-sensitive-then-delete` denies.
pub const RSYNC_SENSITIVE_THEN_DELETE_REASON: &'static str = "rsync archive of a sensitive path into temp followed by forced recursive deletion is a cross-segment data-loss bypass. EXTREMELY DANGEROUS.";

/// The pattern of `rsync-sensitive-then-delete`.
pub const RSYNC_SENSITIVE_THEN_DELETE_PATTERN: &'static str = r#"\brsync\b[^|;&]*(?:\s(?:-[A-Za-z]*a[A-Za-z]*|--archive)\b)[^|;&]*?(?:\s|=)(?:['"\\]|\$['"])?(?:/(?:etc|usr|bin|sbin|root|boot|lib|lib64|var|home|Users|sys|proc|dev|opt)(?:/|(?=[\s\)'"]|$))|/(?=[\s\)'"]|$)|~(?=\s|$|/|\))|\$\{?HOME\b)[^|;&]*?(?:\s|=)(?:['"\\]|\$['"])?(?:/tmp/|/var/tmp/|\$TMPDIR/|\$\{TMPDIR\}/)[^|;&\s'"]*[^|;&]*(?:&&|;|\|\|)[^|;&]*\brm\b[^|;&]*\s(?:-[A-Za-z]*[rR][A-Za-z]*f[A-Za-z]*|-[A-Za-z]*f[A-Za-z]*[rR][A-Za-z]*|-[rR]\s+-f|-f\s+-[rR]|--recursive\s+--force|--force\s+--recursive)[^|;&]*?(?:\s|=)(?:['"\\]|\$['"])?(?:/tmp/|/var/tmp/|\$TMPDIR/|\$\{TMPDIR\}/)"#;

/// What to know of `rsync-sensitive-then-delete`.
pub const RSYNC_SENSITIVE_THEN_DELETE_EXPLANATION: &'static str = "`rsync -a /etc/ /tmp/dest/ && rm -rf /tmp/dest` is the rsync form of the \
     sensitive-source propagation bypass. Archive mode preserves enough structure \
     that the later temp cleanup should require human review.\n\n\
     Safer alternatives:\n\
     - Run rsync and inspect the destination in a separate step.\n\
     - Use `--dry-run` for rsync previews.\n\
     - Use `rm -ri` for manual cleanup of derived temp trees.";

/// The pattern of `rm-rf-root-home`.
pub const RM_RF_ROOT_HOME_PATTERN: &'static str = r#"\brm\s+-[a-zA-Z]*[rR][a-zA-Z]*f[a-zA-Z]*\s+['"\\]?(?:[/~]|\$\{?HOME\b)|\brm\s+-[a-zA-Z]*f[a-zA-Z]*[rR][a-zA-Z]*\s+['"\\]?(?:[/~]|\$\{?HOME\b)"#;

/// What to know of `rm-rf-root-home`.
pub const RM_RF_ROOT_HOME_EXPLANATION: &'static str = "This command would recursively delete files starting from the root filesystem (/) \
     or home directory (~). This is catastrophic and will destroy:\n\n\
     - Your entire operating system\n\
     - All installed applications and libraries\n\
     - All user data, documents, and configurations\n\
     - Boot files, making the system unbootable\n\n\
     There is NO recovery without backups. Even with backups, full restoration \
     takes hours to days.\n\n\
     dcg auto-allows recursive deletion only for literal temp paths:\n  \
     rm -rf /tmp/<subdir>/scratch\n\n\
     For any other directory, preview first, then either delete interactively \
     or move the tree aside (dcg allows all three forms):\n  \
     find /path/to/directory -type f | head -20\n  \
     rm -ri /path/to/directory   # needs a terminal; with stdin closed it deletes nothing and exits 0\n  \
     mv /path/to/directory ~/.Trash/            # macOS soft-delete, recoverable\n  \
     mv /path/to/directory ~/.local/share/Trash/ # Linux soft-delete, recoverable\n\n\
     Under a home directory, prefer the Trash move: relocating into /tmp is \
     itself denied there (`mv-sensitive-source-root-home`), because \
     relocate-then-delete is the bypass that rule exists to stop.";

/// The pattern of `rm-r-f-separate-root-home`.
pub const RM_R_F_SEPARATE_ROOT_HOME_PATTERN: &'static str = r#"\brm\s+(-[a-zA-Z]+\s+)*-[rR]\s+(-[a-zA-Z]+\s+)*-f\s+['"\\]?(?:[/~]|\$\{?HOME\b)|\brm\s+(-[a-zA-Z]+\s+)*-f\s+(-[a-zA-Z]+\s+)*-[rR]\s+['"\\]?(?:[/~]|\$\{?HOME\b)"#;

/// What to know of `rm-r-f-separate-root-home`.
pub const RM_R_F_SEPARATE_ROOT_HOME_EXPLANATION: &'static str = "Separate `-r -f` flags on `/` or `~` have identical effect to `rm -rf /`: \
     recursive, forced, silent deletion of the entire filesystem or home directory.\n\n\
     There is NO recovery without backups. Run only if truly intended.\n\n\
     For a specific directory, preview first, then either delete interactively \
     or move the tree aside (dcg allows both forms):\n  \
     ls -la /path/to/directory\n  \
     rm -ri /path/to/directory   # needs a terminal; with stdin closed it deletes nothing and exits 0\n  \
     mv /path/to/directory /tmp/delete-me-<literal-timestamp>";

/// The pattern of `rm-recursive-force-root-home`.
pub const RM_RECURSIVE_FORCE_ROOT_HOME_PATTERN: &'static str = r#"\brm\s+.*--recursive.*--force\s+['"\\]?(?:[/~]|\$\{?HOME\b)|\brm\s+.*--force.*--recursive\s+['"\\]?(?:[/~]|\$\{?HOME\b)"#;

/// What to know of `rm-recursive-force-root-home`.
pub const RM_RECURSIVE_FORCE_ROOT_HOME_EXPLANATION: &'static str = "The long-flag form has identical effect to `rm -rf /`: recursive, forced, \
     silent deletion. Run only if truly intended.\n\n\
     For a specific directory, preview first, then either delete interactively \
     or move the tree aside (dcg allows both forms):\n  \
     ls -la /path/to/directory\n  \
     rm -ri /path/to/directory   # needs a terminal; with stdin closed it deletes nothing and exits 0\n  \
     mv /path/to/directory /tmp/delete-me-<literal-timestamp>";

/// The pattern of `rm-rf-general`.
pub const RM_RF_GENERAL_PATTERN: &'static str = r"\brm\s+-[a-zA-Z]*[rR][a-zA-Z]*f|\brm\s+-[a-zA-Z]*f[a-zA-Z]*[rR]";

/// What to know of `rm-rf-general`.
pub const RM_RF_GENERAL_EXPLANATION: &'static str = "rm -rf recursively removes files and directories without confirmation prompts. \
     The -f (force) flag suppresses all warnings, making accidental deletions \
     silent and immediate.\n\n\
     Why this is dangerous:\n\
     - Deleted files bypass the trash - they're gone immediately\n\
     - Typos in paths can delete unintended directories\n\
     - Wildcards can expand to match more than expected\n\
     - No undo mechanism exists\n\n\
     Safe alternatives:\n\
     - rm -ri: Interactive mode, confirms each file. Needs a terminal: with stdin closed, as under an agent hook, it prompts, deletes nothing, and exits 0\n\
     - mv <path> /tmp/delete-me-<literal-timestamp>: Move the tree aside instead of deleting it (dcg allows this form)\n\
     - trash-cli (Linux) or mv <path> ~/.Trash/ (macOS): Moves files to trash instead of deleting\n\
     - rm -rf in literal /tmp or /var/tmp subdirectories: Allowed\n\
     - Variable-rooted paths such as $TMPDIR: Reviewed because the environment may point anywhere\n\n\
     Preview what would be deleted:\n  \
     find /path/to/delete -type f | wc -l  # Count files\n  \
     ls -la /path/to/delete               # List contents";

/// The name of a rule.
pub const RM_GLOB_HOME_NAME: &'static str = "rm-glob-home";

/// Why `rm-glob-home` denies.
pub const RM_GLOB_HOME_REASON: &'static str = "rm with an unexpanded glob under a home directory deletes an unbounded, shell-chosen file set and requires human approval.";

/// The pattern of `rm-glob-home`.
pub const RM_GLOB_HOME_PATTERN: &'static str = r"(?:^|[^\w-])rm\b[^|;&\n]*?[ \t](?:~|/Users|/home|\$\{?HOME\}?)/[^|;&\s]*[*?\[]";

/// What to know of `rm-glob-home`.
pub const RM_GLOB_HOME_EXPLANATION: &'static str = "The glob is expanded by the shell at execution time, so the author cannot \
     review the exact file set being deleted: `rm -f ~/Downloads/*.md` removes \
     every matching file, exactly like the already-blocked recursive forms.\n\n\
     Safer alternatives:\n\
     - Preview the expansion first: `ls ~/Downloads/*.md`\n\
     - Delete explicitly named files: `rm ~/Downloads/one-file.md`\n\
     - Move to trash instead: `mv ~/Downloads/*.md ~/.Trash/` on macOS, \
     `mv ~/Downloads/*.md ~/.local/share/Trash/` on Linux";

/// The pattern of `rm-r-f-separate`.
pub const RM_R_F_SEPARATE_PATTERN: &'static str = r"\brm\s+(-[a-zA-Z]+\s+)*-[rR]\s+(-[a-zA-Z]+\s+)*-f|\brm\s+(-[a-zA-Z]+\s+)*-f\s+(-[a-zA-Z]+\s+)*-[rR]";

/// What to know of `rm-r-f-separate`.
pub const RM_R_F_SEPARATE_EXPLANATION: &'static str = "rm with separate -r and -f flags has the same effect as rm -rf: recursive \
     forced deletion without confirmation.\n\n\
     Common variations that are all equivalent:\n\
     - rm -r -f path\n\
     - rm -f -r path\n\
     - rm -r -f -v path (verbose but still forced)\n\n\
     All carry the same risks as rm -rf: immediate, silent, irreversible deletion.\n\n\
     This rule matches the -r/-f flag PAIR, not a filesystem path, so it also \
     fires when `rm` is another tool's subcommand (`git rm -r -f`, \
     `bq rm -r -f`). The recursive-force semantics still apply, but to that \
     tool's objects — tracked files and index entries for git, a dataset and \
     everything in it for bq — not to a directory tree. Enable that tool's pack \
     for guidance written for it; this rule is the backstop when it is not.\n\n\
     Safer approach for temporary directories:\n\
     - rm -r -f /tmp/mydir    # Allowed - temp directories are safe\n\
     - Resolve and inspect $TMPDIR before using it as a deletion root\n\n\
     For other paths, prefer:\n  \
     rm -ri /path  # Interactive confirmation";

/// The pattern of `rm-recursive-force-long`.
pub const RM_RECURSIVE_FORCE_PATTERN: &'static str = r"\brm\s+.*--recursive.*--force|\brm\s+.*--force.*--recursive";

/// What to know of `rm-recursive-force-long`.
pub const RM_RECURSIVE_FORCE_EXPLANATION: &'static str = "rm --recursive --force is the long-form equivalent of rm -rf. While more \
     readable, it carries identical risks: silent, recursive, irreversible deletion.\n\n\
     The long flags may appear in:\n\
     - Scripts aiming for clarity\n\
     - Generated code from build tools\n\
     - Cross-platform compatibility scenarios\n\n\
     All standard rm -rf precautions apply:\n\
     - Verify the path before running\n\
     - Use absolute paths to avoid ambiguity\n\
     - Consider using trash-cli for recoverable deletion\n\n\
     Preview command:\n  \
     find /path -maxdepth 2 -ls | head -30\n\n\
     Forms dcg accepts instead:\n  \
     rm --recursive --force /tmp/<subdir>   # literal temp paths are allowed\n  \
     rm -ri /path/to/directory              # needs a terminal; with stdin closed it deletes nothing and exits 0\n  \
     mv /path/to/directory /tmp/delete-me-<literal-timestamp>";

/// The name of a rule.
pub const FIND_DELETE_ROOT_HOME_NAME: &'static str = "find-delete-root-home";

/// Why `find-delete-root-home` denies.
pub const FIND_DELETE_ROOT_HOME_REASON: &'static str = "find <sensitive-path> -delete is bytewise-equivalent to rm -rf on root/home and is EXTREMELY DANGEROUS. This command will NOT be executed.";

/// The pattern of `find-delete-root-home`.
pub const FIND_DELETE_ROOT_HOME_PATTERN: &'static str = r#"\bfind\b[^|;&]*?(?:\s|=)['"\\]?(?:/(?:etc|usr|bin|sbin|root|boot|lib|lib64|var|home|Users|sys|proc|dev|opt)(?:/|(?=\s|$|['"]))|/(?=\s|$|['"])|~(?=\s|$|/)|\$\{?HOME\b)[^|;&]*?\s-delete(?:\s|$|[;&|)\n])"#;

/// What to know of `find-delete-root-home`.
pub const FIND_DELETE_ROOT_HOME_EXPLANATION: &'static str = "`find <path> -delete` is the bytewise-equivalent of `rm -rf <path>`: \
     it recursively removes every file and (when -depth is implied) every \
     directory matched by the predicate. Targeting `/`, `~`, `$HOME`, or any \
     top-level system directory (`/etc`, `/usr`, `/var`, `/home`, `/boot`, \
     `/dev`, `/proc`, `/sys`, `/lib`, `/lib64`, `/opt`, `/root`) destroys \
     the operating system or user data the same way `rm -rf` would.\n\n\
     There is NO recovery without backups.\n\n\
     If you only need to delete files matching a pattern, use a much more \
     specific path:\n  \
     find /path/to/specific/subdir -name '*.tmp' -delete\n\n\
     Always preview first:\n  \
     find /path -type f | head -20";

/// The name of a rule.
pub const FIND_DELETE_GENERAL_NAME: &'static str = "find-delete-general";

/// Why `find-delete-general` denies.
pub const FIND_DELETE_GENERAL_REASON: &'static str = "find ... -delete is destructive (bytewise-equivalent to rm -rf on the matched tree) and requires human approval.";

/// The pattern of `find-delete-general`.
pub const FIND_DELETE_GENERAL_PATTERN: &'static str = r"\bfind\b[^|;&]*\s-delete(?:\s|$|[;&|)\n])";

/// What to know of `find-delete-general`.
pub const FIND_DELETE_GENERAL_EXPLANATION: &'static str = "`find ... -delete` recursively deletes every path matched by the find \
     expression. The action flag `-delete` implies `-depth` (so directories \
     are deleted after their contents). With no path predicate it deletes \
     the entire starting tree. Common pitfalls:\n\n\
     - `find . -delete` deletes the current working directory's contents.\n\
     - `find <path> -delete` with a wide -name glob matches more than expected.\n\
     - `-delete` errors are silent by default — failures don't stop the walk.\n\n\
     Safer alternatives:\n\
     - Drop -delete to preview: `find <path> ...` (just lists matches)\n\
     - Add -print -delete to log each deletion as it happens\n\
     - Use `find /tmp/<subdir> ... -delete` (allowed under temp dirs)\n\
     - For a few files: `find ... | xargs -t -p rm -i` for confirmation";

/// The name of a rule.
pub const UNLINK_ROOT_HOME_NAME: &'static str = "unlink-root-home";

/// Why `unlink-root-home` denies.
pub const UNLINK_ROOT_HOME_REASON: &'static str = "unlink on a sensitive system or home path is one-shot data destruction with no recovery. EXTREMELY DANGEROUS.";

/// The pattern of `unlink-root-home`.
pub const UNLINK_ROOT_HOME_PATTERN: &'static str = r#"\bunlink\s+['"\\]?(?:/(?:etc|usr|bin|sbin|root|boot|lib|lib64|var|home|Users|sys|proc|dev|opt)(?:/|(?=\s|$|['"]))|/(?=\s|$|['"])|~(?=\s|$|/)|\$\{?HOME\b)"#;

/// What to know of `unlink-root-home`.
pub const UNLINK_ROOT_HOME_EXPLANATION: &'static str = "`unlink <file>` is the raw POSIX unlink(2) primitive: it removes a single \
     directory entry without prompting, without trash, without backup. On a \
     sensitive system file (`/etc/passwd`, `/etc/shadow`, `/etc/sudoers`) or \
     a home-directory key (`~/.ssh/id_ed25519`, `$HOME/.gnupg/...`) the result \
     is irrecoverable.\n\n\
     There is NO recovery without backups.\n\n\
     Safer alternatives:\n\
     - `mv <file> <file>.deleted-YYYYMMDD` then verify nothing breaks, then\n\
     `unlink <file>.deleted-...` after a few days.\n\
     - `cp <file> <file>.bak && unlink <file>` to keep an explicit backup.\n\
     - `unlink /tmp/<subdir>/scratch` is allowed (temp dirs).";

/// The name of a rule.
pub const UNLINK_GENERAL_NAME: &'static str = "unlink-general";

/// Why `unlink-general` denies.
pub const UNLINK_GENERAL_REASON: &'static str = "unlink is destructive (POSIX equivalent of rm on a single file) and requires human approval.";

/// The pattern of `unlink-general`.
pub const UNLINK_GENERAL_PATTERN: &'static str = r"\bunlink\s+\S";

/// What to know of `unlink-general`.
pub const UNLINK_GENERAL_EXPLANATION: &'static str = "`unlink <file>` removes a single directory entry without confirmation, \
     without trash, without backup. While not as broad as `rm -rf`, a typo in \
     the target path destroys an unintended file.\n\n\
     Safer alternatives:\n\
     - Verify the path with `ls -la <file>` first.\n\
     - Make a backup: `cp <file> <file>.bak`.\n\
     - For temp scratch: `unlink /tmp/<subdir>/scratch` is allowed.\n\
     - Use `mv <file> /tmp/quarantine-<file>` if you want a delayed delete.";

/// The name of a rule.
pub const TRUNCATE_ZERO_ROOT_HOME_NAME: &'static str = "truncate-zero-root-home";

/// Why `truncate-zero-root-home` denies.
pub const TRUNCATE_ZERO_ROOT_HOME_REASON: &'static str = "truncate with a potentially shrinking size on a sensitive system or home path destroys data. EXTREMELY DANGEROUS.";

/// The pattern of `truncate-zero-root-home`.
pub const TRUNCATE_ZERO_ROOT_HOME_PATTERN: &'static str = r#"\btruncate\b[^|;&]*?(?:\s-s\s+(?!\+)\S+|\s--size=(?!\+)\S+)[^|;&]*?\s+['"\\]?(?:/(?:etc|usr|bin|sbin|root|boot|lib|lib64|var|home|Users|sys|proc|dev|opt)(?:/|(?=\s|$|['"]))|/(?=\s|$|['"])|~(?=\s|$|/)|\$\{?HOME\b)"#;

/// What to know of `truncate-zero-root-home`.
pub const TRUNCATE_ZERO_ROOT_HOME_EXPLANATION: &'static str = "`truncate -s 0 <file>` zeros a file in place. `truncate -s -<N> <file>` \
     shrinks a file by N bytes (destroying the trailing data). On a sensitive \
     system file (`/etc/passwd`, `/etc/shadow`, `/etc/sudoers`) or a home-\
     directory key/credential the result is irrecoverable.\n\n\
     There is NO recovery without backups.\n\n\
     Safer alternatives:\n\
     - Make a backup first: `cp <file> <file>.bak && truncate -s 0 <file>`.\n\
     - For growth (NOT shrink): `truncate -s +<N>` is allowed (no data loss).\n\
     - For temp scratch: `truncate -s 0 /tmp/<subdir>/scratch` is allowed.";

/// The name of a rule.
pub const TRUNCATE_ZERO_GENERAL_NAME: &'static str = "truncate-zero-general";

/// Why `truncate-zero-general` denies.
pub const TRUNCATE_ZERO_GENERAL_REASON: &'static str = "truncate with an absolute or shrinking size can destroy file content and requires human approval.";

/// The pattern of `truncate-zero-general`.
pub const TRUNCATE_ZERO_GENERAL_PATTERN: &'static str = r"\btruncate\b[^|;&]*?(?:\s-s\s+(?!\+)\S+|\s--size=(?!\+)\S+)";

/// What to know of `truncate-zero-general`.
pub const TRUNCATE_ZERO_GENERAL_EXPLANATION: &'static str = "`truncate -s 0 <file>` zeros a file in place; `truncate -s -<N> <file>` \
     shrinks it by N bytes. Both destroy data without confirmation, without \
     trash, without backup. While not as broad as `rm`, a typo in the target \
     path destroys an unintended file.\n\n\
     Safer alternatives:\n\
     - Verify the size first: `wc -c <file>`.\n\
     - Make a backup: `cp <file> <file>.bak && truncate -s 0 <file>`.\n\
     - For growth: `truncate -s +<N>` (allowed; non-destructive).\n\
     - For temp scratch: `truncate -s 0 /tmp/<subdir>/scratch` is allowed.";

/// The name of a rule.
pub const SHRED_ROOT_HOME_NAME: &'static str = "shred-root-home";

/// Why `shred-root-home` denies.
pub const SHRED_ROOT_HOME_REASON: &'static str = "shred on a sensitive system or home path destroys data beyond forensic recovery. EXTREMELY DANGEROUS.";

/// The pattern of `shred-root-home`.
pub const SHRED_ROOT_HOME_PATTERN: &'static str = r#"\bshred\b[^|;&]*?\s+['"\\]?(?:/(?:etc|usr|bin|sbin|root|boot|lib|lib64|var|home|Users|sys|proc|dev|opt)(?:/|(?=\s|$|['"]))|/(?=\s|$|['"])|~(?=\s|$|/)|\$\{?HOME\b)"#;

/// What to know of `shred-root-home`.
pub const SHRED_ROOT_HOME_EXPLANATION: &'static str = "`shred` overwrites file content with random data (DoD-style multi-pass by \
     default). With `-u`/`--remove`/`-fzu` the file is also unlinked. On a \
     sensitive system file (`/etc/passwd`, `/etc/shadow`, `/etc/sudoers`) or a \
     home-directory key/credential the result is unrecoverable even with \
     specialised forensics — that is shred's entire design intent.\n\n\
     There is NO recovery without backups.\n\n\
     Safer alternatives:\n\
     - Verify the path with `ls -la <file>` first.\n\
     - Make a backup: `cp <file> <file>.bak && shred -u <file>`.\n\
     - For temp scratch: `shred -u /tmp/<subdir>/scratch` is allowed.\n\
     - For modern SSDs, single-pass is sufficient: `shred -n 1 -u <file>`.";

/// The name of a rule.
pub const SHRED_GENERAL_NAME: &'static str = "shred-general";

/// Why `shred-general` denies.
pub const SHRED_GENERAL_REASON: &'static str = "shred destroys file content beyond recovery and requires human approval.";

/// The pattern of `shred-general`.
pub const SHRED_GENERAL_PATTERN: &'static str = r"\bshred\s+(?:-[a-zA-Z]+\s+|--[a-z\-]+\s+|--[a-z\-]+=\S+\s+)*\S";

/// What to know of `shred-general`.
pub const SHRED_GENERAL_EXPLANATION: &'static str = "`shred` overwrites file content with random data; `-u`/`--remove` adds an \
     unlink step. The whole point is that the data cannot be recovered. While \
     not as broad as `rm -rf`, a typo in the target path destroys an unintended \
     file with no possibility of undo.\n\n\
     Safer alternatives:\n\
     - Verify the path with `ls -la <file>` first.\n\
     - Make a backup: `cp <file> <file>.bak`.\n\
     - For temp scratch: `shred -u /tmp/<subdir>/scratch` is allowed.\n\
     - On modern SSDs `shred` may not actually overwrite the underlying flash \
     cells; use `cryptsetup erase` or vendor secure-erase utilities instead.";

/// The name of a rule.
pub const TAR_REMOVE_FILES_ROOT_HOME_NAME: &'static str = "tar-remove-files-root-home";

/// Why `tar-remove-files-root-home` denies.
pub const TAR_REMOVE_FILES_ROOT_HOME_REASON: &'static str = "tar --remove-files on a sensitive system or home path is recursive deletion masquerading as an archive operation. EXTREMELY DANGEROUS.";

/// The pattern of `tar-remove-files-root-home`.
pub const TAR_REMOVE_FILES_ROOT_HOME_PATTERN: &'static str = r#"\btar\b[^|;&]*?\s--remove-files\b[^|;&]*?(?:\s|=)['"\\]?(?:/(?:etc|usr|bin|sbin|root|boot|lib|lib64|var|home|Users|sys|proc|dev|opt)(?:/|(?=[\s\)'"]|$))|/(?=[\s\)'"]|$)|~(?=\s|$|/|\))|\$\{?HOME\b)|\btar\b[^|;&]*?(?:\s|=)['"\\]?(?:/(?:etc|usr|bin|sbin|root|boot|lib|lib64|var|home|Users|sys|proc|dev|opt)(?:/|(?=[\s\)'"]|$))|/(?=[\s\)'"]|$)|~(?=\s|$|/|\))|\$\{?HOME\b)[^|;&]*?\s--remove-files\b"#;

/// What to know of `tar-remove-files-root-home`.
pub const TAR_REMOVE_FILES_ROOT_HOME_EXPLANATION: &'static str = "`tar --remove-files -cf <archive> <source>` first archives the source paths \
     into <archive>, then deletes the originals. With a sensitive source \
     (`/etc`, `/usr`, `/var`, `/home/<user>`, `~`, `$HOME`, ...) the result is \
     bytewise-equivalent to `rm -rf <source>`. With `-cf /dev/null` the archive \
     is discarded entirely, making this a pure recursive delete with no audit \
     trail.\n\n\
     There is NO recovery without backups.\n\n\
     Safer alternatives:\n\
     - Drop `--remove-files`: `tar -cf out.tar <source>` (sources preserved).\n\
     - Two-step with confirmation: `tar -cf out.tar <source> && rm -ri <source>`.\n\
     - Verify the source first: `ls -la <source>`.\n\
     - Allowed for temp dirs: `tar --remove-files -cf out.tar /tmp/<subdir>`.";

/// The name of a rule.
pub const TAR_REMOVE_FILES_GENERAL_NAME: &'static str = "tar-remove-files-general";

/// Why `tar-remove-files-general` denies.
pub const TAR_REMOVE_FILES_GENERAL_REASON: &'static str = "tar --remove-files deletes source paths after archiving and requires human approval.";

/// The pattern of `tar-remove-files-general`.
pub const TAR_REMOVE_FILES_GENERAL_PATTERN: &'static str = r"\btar\b[^|;&]*?\s--remove-files\b";

/// What to know of `tar-remove-files-general`.
pub const TAR_REMOVE_FILES_GENERAL_EXPLANATION: &'static str = "`tar --remove-files <source>` deletes the source paths once they have been \
     archived. While not as broad as `rm -rf`, a typo or wide glob in the source \
     list destroys files the agent did not intend to remove. With `-cf /dev/null` \
     the archive itself is discarded — the operation becomes a pure delete.\n\n\
     Safer alternatives:\n\
     - Drop `--remove-files` to preserve sources after archiving.\n\
     - Verify the source list with `ls -la` before running.\n\
     - For temp scratch: `tar --remove-files -cf out.tar /tmp/<subdir>` is allowed.";

/// The name of a rule.
pub const DD_OVERWRITE_ROOT_HOME_NAME: &'static str = "dd-overwrite-root-home";

/// Why `dd-overwrite-root-home` denies.
pub const DD_OVERWRITE_ROOT_HOME_REASON: &'static str = "dd of=<sensitive-path> overwrites file contents in place. EXTREMELY DANGEROUS on a system or home file.";

/// The pattern of `dd-overwrite-root-home`.
pub const DD_OVERWRITE_ROOT_HOME_PATTERN: &'static str = r#"\bdd\b[^|;&]*?\bof=['"\\]?(?!/dev/)(?:/(?:etc|usr|bin|sbin|root|boot|lib|lib64|var|home|Users|sys|proc|opt)(?:/|(?=[\s\)'"]|$))|/(?=[\s\)'"]|$)|~(?=\s|$|/|\))|\$\{?HOME\b)"#;

/// What to know of `dd-overwrite-root-home`.
pub const DD_OVERWRITE_ROOT_HOME_EXPLANATION: &'static str = "`dd if=/dev/zero of=<file>` and `dd if=/dev/urandom of=<file>` overwrite the \
     file's contents in place — the `truncate -s 0` equivalent at the dd layer. \
     On a sensitive system file (`/etc/passwd`, `/etc/shadow`, `/etc/sudoers`) or \
     a home-directory key/credential the result is irrecoverable. Even without an \
     explicit input source (`dd of=<file>` reads from stdin), the file's content \
     is destroyed.\n\n\
     There is NO recovery without backups.\n\n\
     Safer alternatives:\n\
     - Make a backup first: `cp <file> <file>.bak && dd if=/dev/zero of=<file>`.\n\
     - For read-only verification: `dd if=<file> of=/dev/null` (output discarded).\n\
     - For temp scratch: `dd if=/dev/zero of=/tmp/<subdir>/scratch` is allowed.\n\n\
     Device-level dd (`dd of=/dev/sda`) is governed by the `system.disk` pack \
     — enable it for partition-table protection.";

/// The name of a rule.
pub const DD_OVERWRITE_GENERAL_NAME: &'static str = "dd-overwrite-general";

/// Why `dd-overwrite-general` denies.
pub const DD_OVERWRITE_GENERAL_REASON: &'static str = "dd with of=<file> overwrites file contents and requires human approval.";

/// The pattern of `dd-overwrite-general`.
pub const DD_OVERWRITE_GENERAL_PATTERN: &'static str = r#"\bdd\b[^|;&]*?\bof=['"\\]?(?!/dev/)\S"#;

/// What to know of `dd-overwrite-general`.
pub const DD_OVERWRITE_GENERAL_EXPLANATION: &'static str = "`dd of=<file>` overwrites the file's contents (with the input from `if=` \
     or stdin if no input source is given). While not as broad as `rm -rf`, a \
     typo in the target path destroys an unintended file with no possibility of \
     undo.\n\n\
     Safer alternatives:\n\
     - Verify the path first: `ls -la <file>`.\n\
     - Make a backup: `cp <file> <file>.bak && dd if=/dev/zero of=<file>`.\n\
     - Read-only verification: `dd if=<file> of=/dev/null`.\n\
     - For temp scratch: `dd if=/dev/zero of=/tmp/<subdir>/scratch` is allowed.\n\
     - For device writes: enable the `system.disk` pack.";

/// The name of a rule.
pub const MV_SENSITIVE_SOURCE_ROOT_HOME_NAME: &'static str = "mv-sensitive-source-root-home";

/// Why `mv-sensitive-source-root-home` denies.
pub const MV_SENSITIVE_SOURCE_ROOT_HOME_REASON: &'static str = "mv touching a sensitive system or home path is the cross-segment recursive-force-delete bypass. EXTREMELY DANGEROUS.";

/// The pattern of `mv-sensitive-source-root-home`.
pub const MV_SENSITIVE_SOURCE_ROOT_HOME_PATTERN: &'static str = r#"\bmv\b[^|;&]*?(?:\s|=)(?:['"\\]|\$['"])?(?:/(?:etc|usr|bin|sbin|root|boot|lib|lib64|var|home|Users|sys|proc|dev|opt)(?:/|(?=[\s\)'"]|$))|/(?=[\s\)'"]|$)|~(?=\s|$|/|\))|\$\{?HOME\b)"#;

/// What to know of `mv-sensitive-source-root-home`.
pub const MV_SENSITIVE_SOURCE_ROOT_HOME_EXPLANATION: &'static str = "`mv /etc /tmp/x && rm -rf /tmp/x` is the canonical cross-segment bypass: \
     each segment is individually allowed (mv-to-tmp is benign; rm-rf-in-tmp \
     is safe) but the pair destroys `/etc`. The same shape closes via \
     `mv /etc /dev/null`, `mv $HOME /tmp/x`, or any \"relocate then delete\" chain.\n\n\
     Any mv that mentions a sensitive path (source OR destination — `/etc`, \
     `/usr`, `/var`, `/home`, `~`, `$HOME`, ...) blocks here, including \
     in-place renames within /etc.\n\n\
     Safer alternatives:\n\
     - Rename or move within one home subtree — allowed, quoted or not:\n  \
     `mv ~/Documents/<a> ~/Documents/<b>` (both sides at least two components \
     below the home root, no dotfile tree, no `..`).\n\
     - Soft-delete into the platform Trash (recoverable, and allowed):\n  \
     `mv <path> ~/.Trash/` on macOS, `mv <path> ~/.local/share/Trash/` on Linux.\n\
     - Soft-delete via in-place rename: `mv <file> <file>.deleted-YYYYMMDD`.\n\
     - Copy first and verify, then delete the copy's source only with explicit \
     approval: `cp -a <source> <source>.bak && diff -r <source> <source>.bak` \
     (the recursive delete of a home or system source stays gated).\n\
     - Pure tmp-to-tmp moves: `mv /tmp/<a> /tmp/<b>` is allowed.\n\
     - Moving a home root, a top-level home directory, or a dotfile tree is \
     still gated: use `dcg allow-once` for those.";

/// The name of a rule.
pub const MV_DYNAMIC_PATH_NAME: &'static str = "mv-dynamic-path";

/// Why `mv-dynamic-path` denies.
pub const MV_DYNAMIC_PATH_REASON: &'static str = "mv with a shell-expanded or escaped path cannot be verified before execution.";

/// The pattern of `mv-dynamic-path`.
pub const MV_DYNAMIC_PATH_PATTERN: &'static str = r"\bmv\b[^|;&]*(?:[$`]|\\(?:[^\r\n]|$|\r(?:[^\n]|$)))";

/// What to know of `mv-dynamic-path`.
pub const MV_DYNAMIC_PATH_EXPLANATION: &'static str = "Shell variables and command substitutions are controlled by the calling environment and may resolve to `/`, `/etc`, a home directory, or another persistent tree. Backslash escapes can also hide traversal from lexical path checks, so dcg cannot safely classify this move.\n\n\
     Safer alternatives:\n\
     - Resolve and inspect every path before moving it.\n\
     - Use an explicit literal `/tmp/<subdir>` or `/var/tmp/<subdir>` path.\n\
     - Use `dcg allow-once` only after verifying the resolved source and destination.";

/// The name of a rule.
pub const REDIRECT_TRUNCATE_ROOT_HOME_NAME: &'static str = "redirect-truncate-root-home";

/// Why `redirect-truncate-root-home` denies.
pub const REDIRECT_TRUNCATE_ROOT_HOME_REASON: &'static str = "shell truncating redirect (including arbitrary numeric, named, and PowerShell all-stream forms) to an existing sensitive system or home path destroys the previous file contents. A currently absent literal target inside an existing home-directory VCS worktree is allowed; dynamic paths, symlinks, missing parents, system paths, and .git internals stay blocked.";

/// The pattern of `redirect-truncate-root-home`.
pub const REDIRECT_TRUNCATE_ROOT_HOME_PATTERN: &'static str = r#"(?<![<>])(?:&>|>&|\*>|(?:[0-9]+|\{[A-Za-z_][A-Za-z0-9_]*\})?>\|?)\s*(?:['"\\]|\$['"])?(?!/dev/(?:null|zero|full|tty)\b)(?:/(?:etc|usr|bin|sbin|root|boot|lib|lib64|var|home|Users|sys|proc|dev|opt)(?:/|(?=[\s\)'"]|$))|/(?=[\s\)'"]|$)|~(?=\s|$|/|\))|\$\{?HOME\b)"#;

/// What to know of `redirect-truncate-root-home`.
pub const REDIRECT_TRUNCATE_ROOT_HOME_EXPLANATION: &'static str = "`> /etc/passwd` (or `: > /etc/passwd`, `echo > /etc/passwd`, etc.) opens \
     the target file with O_WRONLY|O_CREAT|O_TRUNC — the contents are destroyed \
     before any write happens. This applies equally to `>|` (force-overwrite), \
     `&>` / `>&` (stdout+stderr to file), and numbered FD forms (`1>`, `2>`, `1>|`, \
     `2>|`). All of these are silent, immediate, irrecoverable.\n\n\
     There is NO recovery without backups.\n\n\
     Safer alternatives:\n\
     - Use append (`>>`) to preserve existing content: `echo line >> <file>`.\n\
     - A literal, currently absent destination inside an existing home-directory VCS \
     worktree is allowed. Existing files, symlinks, dynamic paths, missing parents, \
     system paths, and `.git` internals remain blocked.\n\
     - For race-free exclusive creation, resolve a literal path and use:\n  \
     `producer | dcg create-new <path>` (existing files, directories, and symlinks are refused).\n\
     - Make a backup, then write via a temp file:\n  \
     `cp <file> <file>.bak && echo data > /tmp/<subdir>/out && cp -f /tmp/<subdir>/out <file>`\n  \
     (a truncating redirect straight back onto a home/system path is denied \
     by this same rule).\n\
     - For temp scratch: `> /tmp/<subdir>/scratch` is allowed.\n\
     - Read redirects (`< <file>`) are not affected — they don't truncate.";

/// The name of a rule.
pub const REDIRECT_TRUNCATE_DYNAMIC_PATH_NAME: &'static str = "redirect-truncate-dynamic-path";

/// Why `redirect-truncate-dynamic-path` denies.
pub const REDIRECT_TRUNCATE_DYNAMIC_PATH_REASON: &'static str = "shell redirect to a dynamic or escaped path may truncate a sensitive file and requires human approval.";

/// The pattern of `redirect-truncate-dynamic-path`.
pub const REDIRECT_TRUNCATE_DYNAMIC_PATH_PATTERN: &'static str = r#"(?<![<>])(?:&>|>&|\*>|(?:[0-9]+|\{[A-Za-z_][A-Za-z0-9_]*\})?>\|?)\s*(?:[^|;&\s]*[\\$`]|~[A-Za-z_][^|;&\s]*|(?!(?:/tmp|/var/tmp)(?:/|(?=[\s|;&]|$)))/[^|;&\s]*['"?*\[][^|;&\s]*|[%!][^|;&\s]*|\^(?!(?:/tmp|/var/tmp)(?:/|(?=[\s|;&]|$)))[^|;&\s]+)"#;

/// What to know of `redirect-truncate-dynamic-path`.
pub const REDIRECT_TRUNCATE_DYNAMIC_PATH_EXPLANATION: &'static str = "The redirect target is expanded by the shell at runtime, so dcg cannot prove where it points before the file is opened with O_TRUNC.\n\n\
     Safer alternatives:\n\
     - Resolve and inspect the target path first.\n\
     - Use a literal `/tmp/<subdir>/scratch` path for disposable output.\n\
     - Use append (`>>`) when preserving existing content is acceptable.";

/// The name of a rule.
pub const FORK_BOMB_NAME: &'static str = "fork-bomb";

/// Why `fork-bomb` denies.
pub const FORK_BOMB_REASON: &'static str = "This is a fork bomb: it recursively spawns processes until the system is unusable.";

/// The pattern of `fork-bomb`.
pub const FORK_BOMB_PATTERN: &'static str = r"([A-Za-z0-9_:]+)\s*\(\s*\)\s*\{\s*\1\s*\|\s*\1\s*&\s*;?\s*\}\s*;\s*\1";

/// What to know of `fork-bomb`.
pub const FORK_BOMB_EXPLANATION: &'static str = "A fork bomb defines a function that pipes itself into itself in the \
     background and then calls it. Process count grows exponentially until \
     the kernel can no longer schedule anything; the machine typically \
     needs a hard reboot, losing all unsaved work in every application.\n\n\
     There is no legitimate reason to run this shape. If you are testing \
     process limits, use `ulimit -u` in a disposable VM or container.";

} // verus!
