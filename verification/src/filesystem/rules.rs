//! The names of the rules on removals, and what they tell.

use vstd::prelude::*;

verus! {

/// The name of the rule for a forced recursive removal, its flags in one cluster, of an absolute or home path.
pub const RM_RF_ROOT_HOME_NAME: &'static str = "rm-rf-root-home";

/// Why it denies: a forced recursive removal, its flags in one cluster, of an absolute or home path.
pub const RM_RF_ROOT_HOME_REASON: &'static str = "rm -rf on root or home paths is EXTREMELY DANGEROUS. This command will NOT be executed. Ask the user to run it manually if truly needed.";

/// The name of the rule for a forced recursive removal, its flags apart, of an absolute or home path.
pub const RM_R_F_SEPARATE_ROOT_HOME_NAME: &'static str = "rm-r-f-separate-root-home";

/// Why it denies: a forced recursive removal, its flags apart, of an absolute or home path.
pub const RM_R_F_SEPARATE_ROOT_HOME_REASON: &'static str = "rm with separate -r -f flags targeting root or home is EXTREMELY DANGEROUS.";

/// The name of the rule for a forced recursive removal, its flags long, of an absolute or home path.
pub const RM_RECURSIVE_FORCE_ROOT_HOME_NAME: &'static str = "rm-recursive-force-root-home";

/// Why it denies: a forced recursive removal, its flags long, of an absolute or home path.
pub const RM_RECURSIVE_FORCE_ROOT_HOME_REASON: &'static str = "rm --recursive --force targeting root or home is EXTREMELY DANGEROUS.";

/// The name of the rule for a forced recursive removal with its flags in one cluster.
pub const RM_RF_GENERAL_NAME: &'static str = "rm-rf-general";

/// Why it denies: a forced recursive removal with its flags in one cluster.
pub const RM_RF_GENERAL_REASON: &'static str = "rm -rf is destructive and requires human approval. Explain what you want to delete and why, then ask the user to run the command manually.";

/// The name of the rule for a forced recursive removal with its flags apart.
pub const RM_R_F_SEPARATE_NAME: &'static str = "rm-r-f-separate";

/// Why it denies: a forced recursive removal with its flags apart.
pub const RM_R_F_SEPARATE_REASON: &'static str = "rm with separate -r -f flags is destructive and requires human approval.";

/// The name of the rule for a forced recursive removal with long flags.
pub const RM_RECURSIVE_FORCE_NAME: &'static str = "rm-recursive-force-long";

/// Why it denies: a forced recursive removal with long flags.
pub const RM_RECURSIVE_FORCE_REASON: &'static str = "rm --recursive --force is destructive and requires human approval.";

/// The name of the rule for a recursive removal of an absolute or home path.
pub const RM_RECURSIVE_ROOT_HOME_NAME: &'static str = "rm-recursive-root-home";

/// Why it denies: a recursive removal of an absolute or home path.
pub const RM_RECURSIVE_ROOT_HOME_REASON: &'static str = "recursive rm targeting a root, home, or absolute system path is EXTREMELY DANGEROUS, even without --force.";

/// The name of the rule for a removal of everything in the working directory.
pub const RM_BARE_GLOB_NAME: &'static str = "rm-bare-glob";

/// Why it denies: a removal of everything in the working directory.
pub const RM_BARE_GLOB_REASON: &'static str = "rm with a bare * operand deletes every file the shell finds in the working directory - an unbounded, shell-chosen file set that cannot be reviewed from the command text. This command will NOT be executed.";

/// The name of the rule for a removal of everything in the root directory.
pub const RM_BARE_GLOB_ROOT_NAME: &'static str = "rm-bare-glob-root";

/// Why it denies: a removal of everything in the root directory.
pub const RM_BARE_GLOB_ROOT_REASON: &'static str = "rm /* deletes the top-level entries of the filesystem root; on systems where /bin, /lib, and /sbin are symlinks this can brick the machine even without -r. EXTREMELY DANGEROUS.";

/// The name of the rule for a recursive removal.
pub const RM_RECURSIVE_GENERAL_NAME: &'static str = "rm-recursive-general";

/// Why it denies: a recursive removal.
pub const RM_RECURSIVE_GENERAL_REASON: &'static str = "recursive rm can silently remove an entire writable directory tree and requires human approval, even without --force.";

/// The name of the rule for a recursive removal by a program that is computed.
pub const RM_RECURSIVE_UNVERIFIED_NAME: &'static str = "rm-recursive-unverified";

/// Why it denies: a recursive removal by a program that is computed.
pub const RM_RECURSIVE_UNVERIFIED_REASON: &'static str = "a dynamically resolved executable may be rm and is followed by recursive deletion syntax that cannot be verified safe before shell expansion.";

/// The name of the rule for a recursive `Remove-Item` of PowerShell.
pub const POWERSHELL_REMOVE_ITEM_RECURSIVE_NAME: &'static str = "powershell-remove-item-recursive";

/// Why it denies: a recursive `Remove-Item` of PowerShell.
pub const POWERSHELL_REMOVE_ITEM_RECURSIVE_REASON: &'static str = "PowerShell Remove-Item (or an alias) with -Recurse permanently deletes an entire item tree without using the Recycle Bin.";

/// What to know of a removal of everything in the working directory.
pub const RM_BARE_GLOB_EXPLANATION: &'static str = "A bare * (or ./*) handed to rm is expanded by the shell at execution time, so \
     the command text never shows what gets deleted: every file in the working \
     directory that matches, whatever the directory happens to contain when the \
     command runs. Leaving off -f does not bound it - -f only decides whether errors \
     are reported, and the write-protection query it suppresses reaches nobody under \
     an agent hook.\n\n\
     Preview the expansion, then delete a reviewable set (dcg allows these forms):\n  \
     ls -la                           # see what * would match\n  \
     rm ./file-one ./file-two         # explicitly named files\n  \
     rm *.log                         # a constrained, reviewable glob\n  \
     rm -i *                          # interactive; needs a terminal - with stdin closed it deletes nothing and exits 0\n  \
     mv ./file /tmp/delete-me-<literal-timestamp>   # move aside instead of deleting";

/// What to know of a removal of everything in the root directory.
pub const RM_BARE_GLOB_ROOT_EXPLANATION: &'static str = "rm /* expands to every top-level entry of the filesystem root. Without -r the \
     directories survive, but on systems where /bin, /lib, and /sbin are symlinks \
     into /usr, deleting those symlinks bricks the machine - no shell, no rescue \
     tooling, and -f is irrelevant to any of it.\n\n\
     There is almost no legitimate reason to run this. If one file under / was \
     meant, name it explicitly after previewing (dcg allows these forms):\n  \
     ls -la /                        # see what /* would match\n  \
     rm /specific-file               # one named file, still reviewed\n  \
     mv /specific-file /tmp/delete-me-<literal-timestamp>";

/// What to know of a recursive removal.
pub const RM_RECURSIVE_GENERAL_EXPLANATION: &'static str = "rm -r deletes a directory and everything under it. Leaving off -f does not \
     bound the command: -f only decides whether errors are reported and whether a \
     write-protected file is queried, and that query reaches a terminal, not an agent \
     hook. Everything the process can unlink, it unlinks, and there is no undo.\n\n\
     dcg auto-allows recursive deletion only for literal temp paths:\n  \
     rm -r /tmp/<subdir>/scratch\n\n\
     For any other directory, preview first, then either delete interactively or move \
     the tree aside (dcg allows both forms):\n  \
     ls -la /path/to/directory\n  \
     rm -ri /path/to/directory   # needs a terminal; with stdin closed it deletes nothing and exits 0\n  \
     mv /path/to/directory /tmp/delete-me-<literal-timestamp>\n\n\
     The trash directory is ~/.Trash on macOS and ~/.local/share/Trash on Linux.";

/// What to know of a recursive removal of an absolute or home path.
pub const RM_RECURSIVE_ROOT_HOME_EXPLANATION: &'static str = "A recursive rm rooted at /, ~, or $HOME removes the account or the machine, and \
     leaving off -f changes nothing about that: -f decides whether errors are reported, \
     not what is deleted.\n\n\
     There is NO recovery without backups. Even with backups, full restoration takes \
     hours to days.\n\n\
     If one directory under the home was meant, name it in full and delete that \
     instead:\n  \
     rm -r ~/projects/scratch-build   # a specific path, still reviewed\n  \
     rm -r ~                          # never this\n\n\
     dcg auto-allows recursive deletion only for literal temp paths:\n  \
     rm -r /tmp/<subdir>/scratch\n\n\
     For a specific directory, preview first, then either delete interactively or move \
     the tree aside (dcg allows both forms):\n  \
     ls -la /path/to/directory\n  \
     rm -ri /path/to/directory   # needs a terminal; with stdin closed it deletes nothing and exits 0\n  \
     mv /path/to/directory /tmp/delete-me-<literal-timestamp>";

/// What to know of a recursive removal by a program that is computed.
pub const RM_RECURSIVE_UNVERIFIED_EXPLANATION: &'static str = "The command word is resolved at run time, so dcg cannot read which binary will \
     run, and the arguments beside it are recursive deletion syntax. A find -exec \
     placeholder is filled from the search result, and PowerShell splatting takes both \
     the flags and the path from a hashtable, so in either form the deletion target is \
     assembled after this check would have run. dcg fails closed here rather than guess.\n\n\
     Make the command word literal and the command gets the ordinary recursive-rm \
     decision instead:\n  \
     rm -r ./tree\n\n\
     If the command really must be assembled, print the assembled text first and run \
     that literal text. Reading the tree costs nothing and is always accepted:\n  \
     ls -la /path/to/directory";

/// What to know of a recursive `Remove-Item` of PowerShell.
pub const POWERSHELL_REMOVE_ITEM_RECURSIVE_EXPLANATION: &'static str = "Remove-Item -Recurse deletes the whole item tree immediately. PowerShell has no \
     Recycle Bin step: the cmdlet unlinks, and nothing lands anywhere recoverable.\n\n\
     Preview and safer forms:\n  \
     Get-ChildItem -Recurse <path>          # list the tree first\n  \
     Remove-Item -Recurse -WhatIf <path>    # report the removal without doing it (dcg allows -WhatIf)\n  \
     Move-Item <path> (Join-Path ([IO.Path]::GetTempPath()) delete-me-<literal-timestamp>)\n\n\
     To recycle rather than delete, call \
     Microsoft.VisualBasic.FileIO.FileSystem::DeleteDirectory with SendToRecycleBin.";

} // verus!
