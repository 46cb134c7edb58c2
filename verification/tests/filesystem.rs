//! What the filesystem pack finds, and what it lets through.

use command_guard::filesystem::create_pack;
use command_guard::filesystem::command::{parse_rm_command, parse_rm_command_segment_in_dialect, rm_segment_receives_automated_stdin};
use command_guard::filesystem::executable::{RmExecutableCertainty, rm_executable_certainty};
use command_guard::filesystem::flags::{Dequoted, dequote_rm_flag_token};
use command_guard::filesystem::guidance::{classifier_rule_guidance, classifier_rule_names};
use command_guard::filesystem::powershell::parse_powershell_remove_item_segment;
use command_guard::filesystem::rules::{POWERSHELL_REMOVE_ITEM_RECURSIVE_NAME, RM_BARE_GLOB_NAME, RM_BARE_GLOB_ROOT_NAME, RM_RECURSIVE_FORCE_NAME, RM_RECURSIVE_FORCE_ROOT_HOME_NAME, RM_RECURSIVE_GENERAL_NAME, RM_RECURSIVE_ROOT_HOME_NAME, RM_RECURSIVE_UNVERIFIED_NAME, RM_RF_GENERAL_NAME, RM_RF_ROOT_HOME_NAME, RM_R_F_SEPARATE_NAME, RM_R_F_SEPARATE_ROOT_HOME_NAME};
use command_guard::filesystem::scan::{command_contains_empty_paren_pair, filesystem_keyword_candidate, filesystem_semantic_scan_required};
use command_guard::filesystem::segment::RmParseDecision;
use command_guard::pack::{Pack, Platform, Severity};
use command_guard::shell::token::ShellDialect;
use command_guard::shell::wrappers::normalize_command;

/// A command that the pack finds, for a reason that holds the given words.
fn assert_blocks(pack: &Pack, command: &str, reason: &str) {
    match pack.check(command) {
        Some(found) => assert!(
            found.reason.contains(reason),
            "'{command}' is blocked for another reason: {}",
            found.reason
        ),
        None => panic!("'{command}' must be blocked"),
    }
}

/// A command that the pack finds, with the given severity.
fn assert_blocks_with_severity(pack: &Pack, command: &str, severity: Severity) {
    match pack.check(command) {
        Some(found) => assert_eq!(found.severity, severity, "severity of '{command}'"),
        None => panic!("'{command}' must be blocked"),
    }
}

/// A command that the pack finds by the given rule.
fn assert_blocks_with_pattern(pack: &Pack, command: &str, name: &str) {
    match pack.check(command) {
        Some(found) => assert_eq!(found.name, Some(name), "rule for '{command}'"),
        None => panic!("'{command}' must be blocked"),
    }
}

/// A command that a safe pattern of the pack clears.
fn assert_safe_pattern_matches(pack: &Pack, command: &str) {
    assert!(pack.matches_safe(command), "'{command}' must match a safe pattern");
}

/// A command that the pack has nothing to say of.
fn assert_no_match(pack: &Pack, command: &str) {
    if let Some(found) = pack.check(command) {
        panic!("'{command}' must not match, but met {:?}", found.name);
    }
}

#[test]
fn dequote_rm_flag_token_collapses_balanced_quotes() {
    for (input, want) in [
        ("-r'f'", "-rf"),
        ("-'r'f", "-rf"),
        ("-r\"f\"", "-rf"),
        ("'-r'f", "-rf"),
        ("'-rf'", "-rf"),
        ("-rf''", "-rf"),
        ("'-'r'f'", "-rf"),
        ("-r\\f", "-rf"),
        ("--recursive", "--recursive"),
        ("-rf", "-rf"),
    ] {
        assert_eq!(
            dequote_rm_flag_token(input).as_str(),
            want,
            "input {input:?}"
        );
    }
    for opaque in ["-r'f", "-r\"f", "-rf\\"] {
        assert_eq!(
            dequote_rm_flag_token(opaque).as_str(),
            opaque,
            "unbalanced {opaque:?} must stay opaque"
        );
    }
    assert!(matches!(
        dequote_rm_flag_token("-rf"),
        Dequoted::Borrowed(_)
    ));
}

#[test]
fn fork_bomb_is_blocked_issue_302() {
    let pack = create_pack();
    let fork_bomb = pack
        .destructive_patterns
        .iter()
        .find(|p| p.name == Some("fork-bomb"))
        .expect("fork-bomb rule must exist");
    for bomb in [
        ":(){ :|:& };:",
        "bomb(){ bomb|bomb& };bomb",
        ": () { : | : & ; } ; :",
        "b(){ b|b&;};b",
        ":( ){ :|:& };:",
    ] {
        assert!(
            filesystem_semantic_scan_required(bomb, ShellDialect::Posix),
            "fork bomb must force the pack via semantic scan: {bomb}"
        );
        assert!(
            fork_bomb.regex.is_match(bomb),
            "fork-bomb regex must match: {bomb}"
        );
    }
    for benign in [
        "serve(){ python|tee & };logs",
        "f(){ a|b& };f",
        "retry(){ curl -s x|jq . ; };retry",
    ] {
        assert!(
            !fork_bomb.regex.is_match(benign),
            "non-self-referential function must not match fork-bomb: {benign}"
        );
    }
}

#[test]
fn empty_paren_pair_detection_issue_302() {
    for present in [":(){ :;}", "foo() {}", ":( ){ }", "x(  )", "arr=()", "$()"] {
        assert!(
            command_contains_empty_paren_pair(present),
            "empty paren pair expected: {present}"
        );
    }
    for absent in [
        "echo hi", "(ls)", "foo(bar)", "$(date)", "$((1+1))", "a || b",
    ] {
        assert!(
            !command_contains_empty_paren_pair(absent),
            "no empty paren pair expected: {absent}"
        );
    }
}

#[test]
fn subcommand_rm_stays_covered_by_the_flag_pair_rules() {
    let pack = create_pack();
    for command in [
        "rm -r -f /var/data/old",
        "git rm -r -f src/legacy",
        "bq rm -r -f my_project:my_dataset",
    ] {
        assert!(
            pack.check(command).is_some(),
            "core.filesystem must keep covering `{command}` — it is the \
             always-on backstop for recursive-force deletion"
        );
    }
}

#[test]
fn filesystem_test_pack_creation() {
    let pack = create_pack();
    assert_eq!(pack.id, "core.filesystem");
    assert_eq!(pack.name, "Core Filesystem");
    assert!(pack.keywords.contains(&"rm"));
    assert!(pack.keywords.contains(&"find"));
    assert!(pack.keywords.contains(&"cp"));
    assert!(pack.keywords.contains(&"ln"));
    assert!(pack.keywords.contains(&"rsync"));
}

#[test]
fn find_delete_blocks_root_critical() {
    let pack = create_pack();
    for cmd in [
        "find / -delete",
        "find /etc -delete",
        "find /usr -delete",
        "find /home -delete",
        "find /var -delete",
        "find /boot -delete",
        "find /lib -delete",
        "find /lib64 -delete",
        "find /root -delete",
        "find /sys -delete",
        "find /proc -delete",
        "find /dev -delete",
        "find /opt -delete",
        "find ~ -delete",
        "find $HOME -delete",
        "find ${HOME} -delete",
        "find / -depth -delete",
        "find / -type f -delete",
        "find /etc -name '*.conf' -delete",
        "find /home -mindepth 1 -delete",
        "find \"/\" -delete",
        "find '/etc' -delete",
    ] {
        assert_blocks_with_severity(&pack, cmd, Severity::Critical);
    }
}

#[test]
fn find_delete_blocks_general_high() {
    let pack = create_pack();
    for cmd in [
        "find . -delete",
        "find ./node_modules -delete",
        "find . -name '*.pyc' -delete",
        "find /data -delete",
        "find /workspace/build -delete",
        "find ./target -type f -delete",
    ] {
        assert_blocks_with_severity(&pack, cmd, Severity::High);
    }
}

#[test]
fn find_delete_under_tmp_is_allowed() {
    let pack = create_pack();
    for cmd in [
        "find /tmp -delete",
        "find /tmp/foo -delete",
        "find /tmp/foo -name '*.log' -delete",
        "find /var/tmp -delete",
        "find /var/tmp/dir -type f -delete",
    ] {
        assert_safe_pattern_matches(&pack, cmd);
    }
}

#[test]
fn find_delete_with_secondary_sensitive_path_still_blocks() {
    let pack = create_pack();
    let cases = [
        "find /tmp/foo /etc -delete",
        "find /tmp /usr -delete",
        "find /var/tmp/foo /home/user -delete",
        "find $TMPDIR / -delete",
    ];
    for cmd in cases {
        assert_blocks_with_severity(&pack, cmd, Severity::Critical);
    }
}

#[test]
fn find_without_delete_is_not_blocked() {
    let pack = create_pack();
    for cmd in [
        "find . -name '*.rs'",
        "find / -type f -name passwd",
        "find /etc -ls",
        "find . -print",
        "find . -exec cat {} +",
        "find . -name -delete-this-not-a-flag",
    ] {
        assert_no_match(&pack, cmd);
    }
}

#[test]
fn find_delete_blocks_in_compound_commands() {
    let pack = create_pack();
    for cmd in [
        "true; find / -delete",
        "echo done; find /etc -delete",
        "true && find /etc -delete",
        "false || find /etc -delete",
        "(find /etc -delete)",
        "find /tmp -delete; find /etc -delete", // 2nd segment dangerous
    ] {
        assert_blocks(&pack, cmd, "find");
    }
}

#[test]
fn find_delete_blocks_with_terminating_separator() {
    let pack = create_pack();
    for cmd in [
        "find /etc -delete; echo done",
        "find /etc -delete && echo done",
        "find /etc -delete | tee log",
        "find /etc -delete&& echo done", // no space before &&
    ] {
        assert_blocks(&pack, cmd, "find");
    }
}

#[test]
fn find_delete_path_prefixed_normalizes_to_bare_find() {
    for (input, expected_substring) in [
        ("/usr/bin/find / -delete", "find / -delete"),
        ("/usr/local/bin/find /etc -delete", "find /etc -delete"),
        ("/bin/find /home -delete", "find /home -delete"),
        ("/sbin/find /etc -delete", "find /etc -delete"),
    ] {
        let normalized = normalize_command(input);
        assert!(
            normalized.contains(expected_substring),
            "PATH_NORMALIZER did not strip `{input}` to expected form `{expected_substring}` (got `{normalized}`)"
        );
    }
}

#[test]
fn find_temp_compound_blocks_conservatively() {
    let pack = create_pack();
    for cmd in [
        "echo done; find /tmp -delete",
        "true && find /tmp -delete",
        "echo done; find /tmp/foo -delete",
        "echo done; find $TMPDIR -delete",
    ] {
        assert_blocks(&pack, cmd, "find");
    }
}

#[test]
fn find_temp_safe_only_when_whole_command() {
    let pack = create_pack();
    for cmd in [
        "find /tmp -delete",
        "find /tmp/foo -delete",
        "find /tmp -name '*.log' -delete",
        "find /tmp/foo -name '*.tmp' -delete",
        "find /var/tmp -delete",
    ] {
        assert_safe_pattern_matches(&pack, cmd);
    }
}

#[test]
fn unlink_blocks_root_critical() {
    let pack = create_pack();
    for cmd in [
        "unlink /etc/passwd",
        "unlink /etc/shadow",
        "unlink /etc/sudoers",
        "unlink /usr/bin/sudo",
        "unlink /boot/vmlinuz",
        "unlink ~/.bashrc",
        "unlink ~/.ssh/id_ed25519",
        "unlink $HOME/.gnupg/secring.gpg",
        "unlink ${HOME}/.aws/credentials",
        "unlink \"/etc/passwd\"",
        "unlink '/etc/shadow'",
        "echo done; unlink /etc/passwd",
        "true && unlink /etc/passwd",
        "(unlink /etc/passwd)",
        "sudo unlink /etc/passwd",
        "env FOO=bar unlink /etc/passwd",
        "/usr/bin/unlink /etc/passwd",
        "/bin/unlink /etc/shadow",
    ] {
        assert_blocks_with_severity(&pack, cmd, Severity::Critical);
    }
}

#[test]
fn unlink_blocks_general_high() {
    let pack = create_pack();
    for cmd in [
        "unlink ./important.db",
        "unlink ./build/output.bin",
        "unlink secrets.txt",
        "unlink /data/important",
        "unlink /workspace/build/critical.bin",
    ] {
        assert_blocks_with_severity(&pack, cmd, Severity::High);
    }
}

#[test]
fn unlink_under_tmp_is_allowed() {
    let pack = create_pack();
    for cmd in [
        "unlink /tmp/scratch",
        "unlink /tmp/foo/bar",
        "unlink /var/tmp/cache",
    ] {
        assert_safe_pattern_matches(&pack, cmd);
    }
}

#[test]
fn unlink_help_is_allowed() {
    let pack = create_pack();
    for cmd in ["unlink --help", "unlink --version"] {
        assert_safe_pattern_matches(&pack, cmd);
    }
}

#[test]
fn unlink_path_traversal_in_tmp_is_blocked() {
    let pack = create_pack();
    for cmd in [
        "unlink /tmp/../etc/passwd",
        "unlink /tmp/foo/../../etc/shadow",
        "unlink $TMPDIR/../etc/passwd",
    ] {
        assert_blocks(&pack, cmd, "unlink");
    }
}

#[test]
fn unlink_compound_with_temp_blocks_conservatively() {
    let pack = create_pack();
    for cmd in [
        "echo done; unlink /tmp/scratch",
        "true && unlink /tmp/scratch",
    ] {
        assert_blocks(&pack, cmd, "unlink");
    }
}

#[test]
fn unlink_no_false_positive_substring_traps() {
    let pack = create_pack();
    for cmd in [
        "cat /etc/unlink-script.sh",
        "ls unlink-foo.txt",
        "echo unlink",
        "unlink",
        "unlink ",
    ] {
        assert_no_match(&pack, cmd);
    }
}

#[test]
fn unlink_path_prefixed_normalizes_to_bare() {
    for (input, expected) in [
        ("/usr/bin/unlink /etc/passwd", "unlink /etc/passwd"),
        ("/bin/unlink /etc/shadow", "unlink /etc/shadow"),
        ("/usr/local/bin/unlink /etc/sudoers", "unlink /etc/sudoers"),
    ] {
        let normalized = normalize_command(input);
        assert!(
            normalized.contains(expected),
            "PATH_NORMALIZER did not strip `{input}` to `{expected}` (got `{normalized}`)"
        );
    }
}

#[test]
fn truncate_blocks_zero_root_critical() {
    let pack = create_pack();
    for cmd in [
        "truncate -s 0 /etc/passwd",
        "truncate -s 0 /etc/shadow",
        "truncate -s 0 /etc/sudoers",
        "truncate -s 1 /etc/passwd",
        "truncate --size=1 /etc/shadow",
        "truncate -s 0 /usr/bin/sudo",
        "truncate -s 0 /boot/vmlinuz",
        "truncate -s 0 ~/.bashrc",
        "truncate -s 0 $HOME/.aws/credentials",
        "truncate -s 0 ${HOME}/.gnupg/secring.gpg",
        "truncate --size=0 /etc/passwd",
        "truncate -s -100 /etc/passwd",
        "truncate -s -1024 /etc/hosts",
        "truncate --size=-100 /etc/passwd",
        "echo done; truncate -s 0 /etc/passwd",
        "true && truncate -s 0 /etc/passwd",
        "(truncate -s 0 /etc/passwd)",
        "sudo truncate -s 0 /etc/passwd",
        "env FOO=bar truncate -s 0 /etc/passwd",
        "/usr/bin/truncate -s 0 /etc/passwd",
        "/bin/truncate --size=0 /etc/shadow",
    ] {
        assert_blocks_with_severity(&pack, cmd, Severity::Critical);
    }
}

#[test]
fn truncate_blocks_zero_general_high() {
    let pack = create_pack();
    for cmd in [
        "truncate -s 0 ./important.db",
        "truncate -s 1 ./important.db",
        "truncate --size=1 build/output.bin",
        "truncate -s 0 build/output.bin",
        "truncate --size=0 secrets.txt",
        "truncate -s -100 ./large.log",
        "truncate -s 0 /data/important",
    ] {
        assert_blocks_with_severity(&pack, cmd, Severity::High);
    }
}

#[test]
fn truncate_under_tmp_is_allowed() {
    let pack = create_pack();
    for cmd in [
        "truncate -s 0 /tmp/scratch.bin",
        "truncate -s 1G /tmp/sparse-file.bin",
        "truncate -s 0 /var/tmp/cache.bin",
        "truncate -s 100M /var/tmp/test.img",
        "truncate -s -100 /tmp/log.txt",
    ] {
        assert_safe_pattern_matches(&pack, cmd);
    }
}

#[test]
fn truncate_grow_is_allowed_anywhere() {
    let pack = create_pack();
    for cmd in [
        "truncate -s +1024 ./output.bin",
        "truncate -s +1G /var/log/sparse",
        "truncate --size=+100M ./preallocated",
    ] {
        assert_safe_pattern_matches(&pack, cmd);
    }
}

#[test]
fn truncate_help_is_allowed() {
    let pack = create_pack();
    for cmd in ["truncate --help", "truncate --version"] {
        assert_safe_pattern_matches(&pack, cmd);
    }
}

#[test]
fn truncate_no_false_positive_substring_traps() {
    let pack = create_pack();
    for cmd in [
        "cat /etc/truncate-readme.txt",
        "ls truncate-script.sh",
        "echo truncate",
        "truncate -r ref.bin out.bin",
        "truncate --reference=ref.bin out.bin",
    ] {
        assert_no_match(&pack, cmd);
    }
}

#[test]
fn truncate_path_prefixed_normalizes_to_bare() {
    for (input, expected) in [
        (
            "/usr/bin/truncate -s 0 /etc/passwd",
            "truncate -s 0 /etc/passwd",
        ),
        (
            "/bin/truncate --size=0 /etc/shadow",
            "truncate --size=0 /etc/shadow",
        ),
    ] {
        let normalized = normalize_command(input);
        assert!(
            normalized.contains(expected),
            "PATH_NORMALIZER did not strip `{input}` to `{expected}` (got `{normalized}`)"
        );
    }
}

#[test]
fn shred_blocks_root_critical() {
    let pack = create_pack();
    for cmd in [
        "shred /etc/passwd",
        "shred -u /etc/passwd",
        "shred -fzu /etc/shadow",
        "shred --remove /etc/hosts",
        "shred -n 3 -u /etc/passwd",
        "shred -u ~/.ssh/id_ed25519",
        "shred -u $HOME/.aws/credentials",
        "shred -u ${HOME}/.gnupg/secring.gpg",
        "shred -fzu /usr/bin/sudo",
        "shred -u /boot/vmlinuz",
        "echo done; shred -u /etc/passwd",
        "true && shred -u /etc/passwd",
        "(shred -u /etc/passwd)",
        "sudo shred -u /etc/passwd",
        "env FOO=bar shred -u /etc/passwd",
        "/usr/bin/shred -fzu /etc/passwd",
        "/bin/shred -u /etc/shadow",
    ] {
        assert_blocks_with_severity(&pack, cmd, Severity::Critical);
    }
}

#[test]
fn shred_blocks_general_high() {
    let pack = create_pack();
    for cmd in [
        "shred ./important.db",
        "shred -u ./secrets.txt",
        "shred -fzu build/output.bin",
        "shred -u /data/private",
        "shred --remove /workspace/build/critical.bin",
    ] {
        assert_blocks_with_severity(&pack, cmd, Severity::High);
    }
}

#[test]
fn shred_under_tmp_is_allowed() {
    let pack = create_pack();
    for cmd in [
        "shred -u /tmp/scratch.bin",
        "shred -fzu /tmp/foo/cache",
        "shred -u /var/tmp/cache.bin",
        "shred -n 1 -u /tmp/scratch",
        "shred /tmp/foo/output",
    ] {
        assert_safe_pattern_matches(&pack, cmd);
    }
}

#[test]
fn shred_help_is_allowed() {
    let pack = create_pack();
    for cmd in ["shred --help", "shred --version"] {
        assert_safe_pattern_matches(&pack, cmd);
    }
}

#[test]
fn shred_no_false_positive_substring_traps() {
    let pack = create_pack();
    for cmd in [
        "cat /etc/shred-readme.txt",
        "ls shred-script.sh",
        "echo shred",
    ] {
        assert_no_match(&pack, cmd);
    }
}

#[test]
fn shred_path_prefixed_normalizes_to_bare() {
    for (input, expected) in [
        ("/usr/bin/shred -u /etc/passwd", "shred -u /etc/passwd"),
        ("/bin/shred -fzu /etc/shadow", "shred -fzu /etc/shadow"),
    ] {
        let normalized = normalize_command(input);
        assert!(
            normalized.contains(expected),
            "PATH_NORMALIZER did not strip `{input}` to `{expected}` (got `{normalized}`)"
        );
    }
}

#[test]
fn tar_remove_files_blocks_root_critical() {
    let pack = create_pack();
    for cmd in [
        "tar --remove-files -cf out.tar /etc",
        "tar --remove-files -czf out.tar.gz /home/user",
        "tar --remove-files -cf out.tar /usr/local",
        "tar -cf out.tar --remove-files /etc",
        "tar -cf out.tar /etc --remove-files",
        "tar --remove-files -cf /dev/null /etc",
        "tar --remove-files -cf out.tar \"/etc\"",
        "tar --remove-files -cf out.tar '/etc'",
        "tar --remove-files -cf out.tar ~/.ssh",
        "tar --remove-files -cf out.tar $HOME/.aws",
        "tar --remove-files -cf out.tar ${HOME}/.gnupg",
        "echo done; tar --remove-files -cf out.tar /etc",
        "true && tar --remove-files -cf out.tar /etc",
        "(tar --remove-files -cf out.tar /etc)",
        "sudo tar --remove-files -cf out.tar /etc",
        "env FOO=bar tar --remove-files -cf out.tar /etc",
        "/usr/bin/tar --remove-files -cf out.tar /etc",
        "/bin/tar --remove-files -cf out.tar /etc",
    ] {
        assert_blocks_with_severity(&pack, cmd, Severity::Critical);
        assert_blocks_with_pattern(&pack, cmd, "tar-remove-files-root-home");
    }
}

#[test]
fn tar_remove_files_blocks_general_high() {
    let pack = create_pack();
    for cmd in [
        "tar --remove-files -cf out.tar ./build",
        "tar --remove-files -cf out.tar important.db",
        "tar --remove-files -cf out.tar ./workspace",
        "tar -cf out.tar --remove-files data.json",
    ] {
        assert_blocks_with_severity(&pack, cmd, Severity::High);
        assert_blocks_with_pattern(&pack, cmd, "tar-remove-files-general");
    }
}

#[test]
fn tar_remove_files_under_tmp_is_allowed() {
    let pack = create_pack();
    for cmd in [
        "tar --remove-files -cf out.tar /tmp/scratch",
        "tar -cf out.tar --remove-files /tmp/foo",
        "tar --remove-files -czf out.tar.gz /var/tmp/cache",
    ] {
        assert_safe_pattern_matches(&pack, cmd);
    }
}

#[test]
fn tar_without_remove_files_is_allowed() {
    let pack = create_pack();
    for cmd in [
        "tar -cf out.tar /etc",
        "tar -czf out.tar.gz /home/user",
        "tar -xf in.tar",
        "tar -xzf in.tar.gz -C /tmp",
        "tar -tf in.tar",
        "tar --help",
        "tar --version",
    ] {
        assert_no_match(&pack, cmd);
    }
}

#[test]
fn tar_no_false_positive_substring_traps() {
    let pack = create_pack();
    for cmd in [
        "cat tar-readme.md",
        "ls /etc/tar-config",
        "echo --remove-files",
        "grep --remove-files docs/",
    ] {
        assert_no_match(&pack, cmd);
    }
}

#[test]
fn tar_remove_files_mixed_sources_blocks_via_general() {
    let pack = create_pack();
    assert_blocks_with_pattern(
        &pack,
        "tar --remove-files -cf out.tar /tmp/foo /etc/bar",
        "tar-remove-files-root-home",
    );
}

#[test]
fn tar_remove_files_path_prefixed_normalizes_to_bare() {
    for (input, expected) in [
        (
            "/usr/bin/tar --remove-files -cf out.tar /etc",
            "tar --remove-files -cf out.tar /etc",
        ),
        (
            "/bin/tar --remove-files -cf out.tar /home/user",
            "tar --remove-files -cf out.tar /home/user",
        ),
    ] {
        let normalized = normalize_command(input);
        assert!(
            normalized.contains(expected),
            "PATH_NORMALIZER did not strip `{input}` to `{expected}` (got `{normalized}`)"
        );
    }
}

#[test]
fn dd_overwrite_blocks_root_critical() {
    let pack = create_pack();
    for cmd in [
        "dd if=/dev/zero of=/etc/passwd",
        "dd if=/dev/urandom of=/etc/shadow",
        "dd if=/dev/zero of=/etc/sudoers",
        "dd if=/dev/zero of=/etc/passwd bs=1M count=10",
        "dd if=/dev/urandom of=/etc/shadow bs=4096 count=1",
        "dd of=/etc/passwd if=/dev/zero",
        "dd of=/etc/passwd if=/dev/zero bs=1M",
        "dd of=/etc/passwd",
        "dd if=/dev/zero of=\"/etc/passwd\"",
        "dd if=/dev/zero of='/etc/shadow'",
        "dd if=/dev/zero of=~/.ssh/id_ed25519",
        "dd if=/dev/zero of=$HOME/.aws/credentials",
        "dd if=/dev/zero of=${HOME}/.gnupg/secring.gpg",
        "dd if=/dev/zero of=/usr/bin/sudo",
        "dd if=/dev/zero of=/boot/vmlinuz",
        "echo done; dd if=/dev/zero of=/etc/passwd",
        "true && dd if=/dev/zero of=/etc/passwd",
        "(dd if=/dev/zero of=/etc/passwd)",
        "sudo dd if=/dev/zero of=/etc/passwd",
        "env FOO=bar dd if=/dev/zero of=/etc/passwd",
        "/usr/bin/dd if=/dev/zero of=/etc/passwd",
        "/bin/dd if=/dev/zero of=/etc/shadow",
    ] {
        assert_blocks_with_severity(&pack, cmd, Severity::Critical);
        assert_blocks_with_pattern(&pack, cmd, "dd-overwrite-root-home");
    }
}

#[test]
fn dd_overwrite_blocks_general_high() {
    let pack = create_pack();
    for cmd in [
        "dd if=/dev/zero of=./important.db",
        "dd if=/dev/urandom of=secrets.txt",
        "dd if=/dev/zero of=build/output.bin bs=1M count=10",
        "dd of=workspace/critical.bin",
        "dd if=/dev/zero of=/data/important",
    ] {
        assert_blocks_with_severity(&pack, cmd, Severity::High);
        assert_blocks_with_pattern(&pack, cmd, "dd-overwrite-general");
    }
}

#[test]
fn dd_to_dev_null_is_allowed() {
    let pack = create_pack();
    for cmd in [
        "dd if=/etc/passwd of=/dev/null",
        "dd if=/etc/shadow of=/dev/null bs=1M",
        "dd if=/dev/sda of=/dev/null count=1024",
        "dd if=/etc/sudoers of=/dev/zero",
        "dd if=/etc/passwd of=/dev/full",
    ] {
        assert_no_match(&pack, cmd);
    }
}

#[test]
fn dd_to_device_falls_through_to_system_disk() {
    let pack = create_pack();
    for cmd in [
        "dd if=/dev/zero of=/dev/sda",
        "dd if=/dev/urandom of=/dev/sdb1",
        "dd of=/dev/loop0 if=/tmp/img",
    ] {
        assert_no_match(&pack, cmd);
    }
}

#[test]
fn dd_backup_to_tmp_from_sensitive_is_allowed() {
    let pack = create_pack();
    for cmd in [
        "dd if=/etc/passwd of=/tmp/passwd.bak",
        "dd if=/etc/shadow of=/tmp/shadow.backup",
        "dd if=/home/user/.ssh/id_ed25519 of=/tmp/keybackup",
    ] {
        assert_safe_pattern_matches(&pack, cmd);
    }
}

#[test]
fn dd_under_tmp_is_allowed() {
    let pack = create_pack();
    for cmd in [
        "dd if=/dev/zero of=/tmp/scratch.bin bs=1M count=10",
        "dd if=/dev/urandom of=/tmp/random.bin bs=4096 count=1",
        "dd if=/dev/zero of=/var/tmp/cache.bin",
        "dd of=/tmp/out.bin",
        "dd of=/tmp/out.bin if=/dev/zero",
    ] {
        assert_safe_pattern_matches(&pack, cmd);
    }
}

#[test]
fn dd_only_the_final_output_operand_determines_safety() {
    let pack = create_pack();
    assert_blocks_with_severity(
        &pack,
        "dd if=/dev/zero of=/tmp/scratch of=/etc/passwd",
        Severity::Critical,
    );
    assert_safe_pattern_matches(&pack, "dd if=/dev/zero of=/etc/passwd of=/tmp/scratch");
}

#[test]
fn dd_help_is_allowed() {
    let pack = create_pack();
    for cmd in ["dd --help", "dd --version"] {
        assert_safe_pattern_matches(&pack, cmd);
    }
}

#[test]
fn dd_no_false_positive_substring_traps() {
    let pack = create_pack();
    for cmd in [
        "echo address",
        "ls add-ons.txt",
        "cat odd.log",
        "echo dd-script",
        "ls dd-readme.md",
        "dd",
        "dd if=/dev/zero",
        "dd if=/etc/passwd",
    ] {
        assert_no_match(&pack, cmd);
    }
}

#[test]
fn dd_path_prefixed_normalizes_to_bare() {
    for (input, expected) in [
        (
            "/usr/bin/dd if=/dev/zero of=/etc/passwd",
            "dd if=/dev/zero of=/etc/passwd",
        ),
        (
            "/bin/dd if=/dev/urandom of=/etc/shadow",
            "dd if=/dev/urandom of=/etc/shadow",
        ),
    ] {
        let normalized = normalize_command(input);
        assert!(
            normalized.contains(expected),
            "PATH_NORMALIZER did not strip `{input}` to `{expected}` (got `{normalized}`)"
        );
    }
}

#[test]
fn mv_sensitive_source_blocks_critical() {
    let pack = create_pack();
    for cmd in [
        "mv /etc /tmp/x",
        "mv /etc/passwd /tmp/passwd-deleted",
        "mv /home/user /tmp/relocated",
        "mv $HOME /tmp/x",
        "mv ${HOME} /tmp/x",
        "mv ~/.ssh /tmp/keys",
        "mv /usr/local /tmp/x",
        "mv /var/log /tmp/log-relocated",
        "mv /etc /dev/null",
        "mv /home/user /dev/null",
        "mv ./build/foo /etc/local-config.bak",
        "mv ./key.pem /home/user/.ssh/id_rsa",
        "mv /etc/hosts /etc/hosts.bak",
        "mv /etc/passwd /etc/passwd.old",
        "mv -v /etc /tmp/x",
        "mv -f /etc /tmp/x",
        "mv -t /tmp/x /etc",
        "mv --backup=numbered /etc /tmp/x",
        "mv \"/etc\" /tmp/x",
        "mv '/etc' /tmp/x",
        "echo done; mv /etc /tmp/x",
        "true && mv /etc /tmp/x",
        "(mv /etc /tmp/x)",
        "sudo mv /etc /tmp/x",
        "env FOO=bar mv /etc /tmp/x",
        "/usr/bin/mv /etc /tmp/x",
        "/bin/mv /etc /tmp/x",
    ] {
        assert_blocks_with_severity(&pack, cmd, Severity::Critical);
        assert_blocks_with_pattern(&pack, cmd, "mv-sensitive-source-root-home");
    }
}

#[test]
fn mv_no_sensitive_path_is_allowed() {
    let pack = create_pack();
    for cmd in [
        "mv ./old.txt ./new.txt",
        "mv build/output.bin dist/",
        "mv foo.log foo.log.1",
        "mv ./src/a.rs ./src/b.rs",
    ] {
        assert_no_match(&pack, cmd);
    }
}

#[test]
fn mv_literal_operands_with_line_continuations_are_allowed_issue_356() {
    let pack = create_pack();
    for cmd in [
        "mv fileA.md fileB.md \\\n               fileC.md \\\n               destdir/",
        "mv fileA.md fileB.md \\\r\n               fileC.md \\\r\n               destdir/",
    ] {
        assert_no_match(&pack, cmd);
    }

    for cmd in [
        "mv fileA.md \\\n               $DEST/",
        r"mv fileA\ name.md destdir/",
        "mv fileA\\\rdest.md destdir/",
    ] {
        assert_blocks_with_pattern(&pack, cmd, "mv-dynamic-path");
    }
}

#[test]
fn sensitive_propagation_then_delete_blocks_critical() {
    let pack = create_pack();
    for (cmd, pattern) in [
        (
            "cp -al /etc /tmp/x && rm -rf /tmp/x",
            "cp-sensitive-then-delete",
        ),
        (
            "cp --archive /etc/passwd /tmp/passwd && rm -fr /tmp/passwd",
            "cp-sensitive-then-delete",
        ),
        (
            "sudo cp -a /home/user/.ssh /var/tmp/keys && rm --recursive --force /var/tmp/keys",
            "cp-sensitive-then-delete",
        ),
        (
            "ln -s /etc /tmp/x && rm -rf /tmp/x/.",
            "ln-symlink-sensitive-then-delete",
        ),
        (
            "ln -sf $HOME /tmp/home && rm -rf /tmp/home/.",
            "ln-symlink-sensitive-then-delete",
        ),
        (
            "rsync -a /etc/ /tmp/dest/ && rm -rf /tmp/dest",
            "rsync-sensitive-then-delete",
        ),
        (
            "rsync --archive /home/user/ /var/tmp/home/ && rm -f -r /var/tmp/home",
            "rsync-sensitive-then-delete",
        ),
    ] {
        assert_blocks_with_severity(&pack, cmd, Severity::Critical);
        assert_blocks_with_pattern(&pack, cmd, pattern);
    }
}

#[test]
fn sensitive_propagation_without_delete_is_allowed() {
    let pack = create_pack();
    for cmd in [
        "cp -a /etc /tmp/x",
        "cp --archive /etc/passwd /tmp/passwd",
        "ln -s /etc /tmp/x",
        "rsync -a /etc/ /tmp/dest/",
    ] {
        assert_no_match(&pack, cmd);
    }
}

#[test]
fn non_sensitive_propagation_then_delete_is_allowed() {
    let pack = create_pack();
    for cmd in [
        "cp -al /tmp/a /tmp/b && rm -rf /tmp/b",
        "cp --archive ./build /tmp/build && rm -fr /tmp/build",
        "ln -s /tmp/a /tmp/b && rm -rf /tmp/b/.",
        "rsync -a ./target/ /tmp/target/ && rm -rf /tmp/target",
    ] {
        assert!(
            pack.check(cmd).is_none(),
            "non-sensitive temp propagation should be allowed: {cmd}",
        );
    }
}

#[test]
fn mv_under_tmp_is_allowed() {
    let pack = create_pack();
    for cmd in [
        "mv /tmp/foo /tmp/bar",
        "mv /tmp/foo /tmp/sub/bar",
        "mv -v /tmp/foo /tmp/bar",
        "mv /var/tmp/foo /var/tmp/bar",
        "mv /var/tmp/dir1 /var/tmp/dir2",
    ] {
        assert_safe_pattern_matches(&pack, cmd);
    }
}

#[test]
fn ambient_tmpdir_roots_are_not_automatically_safe() {
    let pack = create_pack();
    for cmd in [
        "find $TMPDIR -delete",
        "find ${TMPDIR}/work -delete",
        "unlink $TMPDIR/file",
        "truncate -s 0 ${TMPDIR}/cache.bin",
        "shred -u $TMPDIR/file",
        "tar --remove-files -cf out.tar ${TMPDIR}/scratch",
        "dd if=/dev/zero of=$TMPDIR/cache.bin",
        "mv $TMPDIR/foo $TMPDIR/bar",
        "mv ${TMPDIR}/foo ${TMPDIR}/bar",
        "export TMPDIR=/; find $TMPDIR/etc -delete",
        "TMPDIR=/etc; unlink $TMPDIR/passwd",
        "find /tmp/$TARGET -delete",
        "unlink /tmp/$TARGET",
        "truncate -s 0 /tmp/$TARGET",
        "shred -u /tmp/$TARGET",
        "tar --remove-files -cf out.tar /tmp/$TARGET",
        "dd if=/dev/zero of=/tmp/$TARGET",
        "mv /tmp/$SOURCE /tmp/$DESTINATION",
        r"unlink /tmp/.\./etc/passwd",
    ] {
        assert!(
            pack.check(cmd).is_some(),
            "dynamic temp-root command must be reviewed: {cmd}"
        );
    }
}

#[test]
fn mv_help_is_allowed() {
    let pack = create_pack();
    for cmd in ["mv --help", "mv --version"] {
        assert_safe_pattern_matches(&pack, cmd);
    }
}

#[test]
fn mv_no_false_positive_substring_traps() {
    let pack = create_pack();
    for cmd in [
        "cat mv-script.sh",
        "ls mv-readme.md",
        "echo mv",
        "echo amv-tools",
        "ls /etc",
        "cat /etc/passwd",
    ] {
        assert_no_match(&pack, cmd);
    }
}

#[test]
fn mv_path_prefixed_normalizes_to_bare() {
    for (input, expected) in [
        ("/usr/bin/mv /etc /tmp/x", "mv /etc /tmp/x"),
        ("/bin/mv /home/user /tmp/x", "mv /home/user /tmp/x"),
    ] {
        let normalized = normalize_command(input);
        assert!(
            normalized.contains(expected),
            "PATH_NORMALIZER did not strip `{input}` to `{expected}` (got `{normalized}`)"
        );
    }
}

#[test]
fn redirect_truncate_blocks_critical() {
    let pack = create_pack();
    for cmd in [
        "> /etc/passwd",
        ">/etc/passwd",
        ": > /etc/passwd",
        ": >/etc/shadow",
        "echo > /etc/passwd",
        "echo \"x\" > /etc/passwd",
        "cat /dev/null > /etc/passwd",
        "printf foo > /etc/sudoers",
        ">| /etc/passwd",
        "echo x >| /etc/passwd",
        "&> /etc/passwd",
        "make &> /etc/log",
        ">& /etc/passwd",
        "make >& /etc/log",
        "make >&/etc/log",
        "echo x 1> /etc/passwd",
        "echo x 2> /etc/passwd",
        "echo x 0> /etc/passwd",
        "echo x 3> /etc/passwd",
        "echo x 17>| /etc/passwd",
        "echo x 1>| /etc/passwd",
        "echo x 2>| /etc/passwd",
        "echo x {audit}> /etc/passwd",
        "Write-Output x *> /etc/passwd",
        "echo x > ~/.ssh/id_ed25519",
        "echo x > $HOME/.aws/credentials",
        "echo x > ${HOME}/.gnupg/secring.gpg",
        "echo x > /usr/bin/sudo",
        "echo x > /boot/vmlinuz",
        "echo x > \"/etc/passwd\"",
        "echo x > '/etc/shadow'",
        "echo done; > /etc/passwd",
        "true && > /etc/passwd",
        "(> /etc/passwd)",
        "sudo bash -c '> /etc/passwd'",
        "  > /etc/passwd",
        "\t> /etc/passwd",
    ] {
        assert_blocks_with_severity(&pack, cmd, Severity::Critical);
        assert_blocks_with_pattern(&pack, cmd, "redirect-truncate-root-home");
    }
}

#[test]
fn redirect_truncate_rules_suggest_exclusive_create_new_sink() {
    let pack = create_pack();
    for rule_name in [
        "redirect-truncate-root-home",
        "redirect-truncate-dynamic-path",
    ] {
        let rule = pack
            .destructive_patterns
            .iter()
            .find(|pattern| pattern.name == Some(rule_name))
            .unwrap_or_else(|| panic!("missing {rule_name} rule"));
        assert!(
            rule.suggestions.iter().any(|suggestion| {
                suggestion.command == "producer | dcg create-new {path}"
                    && suggestion.description.contains("only if no file")
            }),
            "{rule_name} must expose the non-overwriting positive capability"
        );
    }
}

#[test]
fn redirect_append_is_allowed() {
    let pack = create_pack();
    for cmd in [
        "echo line >> /etc/syslog",
        "echo line >> ~/.bashrc",
        "make >> build.log",
        "echo line >> /etc/passwd",
        "echo line >> /etc/shadow",
        "command >> /usr/local/log",
        "echo x &>> /etc/log",
        "echo x 1>> /etc/passwd",
        "echo x 2>> /etc/passwd",
        "echo x 17>> /etc/passwd",
        "echo x {audit}>> /etc/passwd",
        "Write-Output x *>> /etc/passwd",
    ] {
        assert_no_match(&pack, cmd);
    }
}

#[test]
fn redirect_truncate_to_non_sensitive_is_allowed() {
    let pack = create_pack();
    for cmd in [
        "make > build.log",
        "cargo test > test.log",
        "echo x > ./output.txt",
        "echo x > foo.log",
        "ls > files.txt",
        "command > /tmp/scratch",
        "echo x >| build.log",
        "echo x &> build.log",
        "echo x >& build.log",
        "echo x 2> err.log",
    ] {
        assert_no_match(&pack, cmd);
    }
}

#[test]
fn redirect_truncate_to_dynamic_path_is_blocked() {
    let pack = create_pack();
    for cmd in [
        "echo data > $TMPDIR/passwd",
        "echo data > ${TMPDIR}/passwd",
        "echo data > ${TMPDIR:-/tmp}/passwd",
        "echo data > /tmp/$TARGET",
        "echo data>$LOG_FILE",
        r"echo data > /tmp/.\./etc/passwd",
        "echo data 2> `dynamic-path`",
        ": > ~root/.ssh/authorized_keys",
        ": > /e''tc/passwd",
        ": > /e\"tc\"/passwd",
        ": > /et?/passwd",
        "echo x >%TARGET%",
        "echo x >!TARGET!",
        "echo x >^/etc/passwd",
    ] {
        assert_blocks_with_pattern(&pack, cmd, "redirect-truncate-dynamic-path");
    }

    for cmd in [
        r#": > "/tmp/literal""#,
        ": > '/tmp/literal'",
        ": > /tmp/e''tc/passwd",
        ": > /tmp/et?/passwd",
        "echo x >^/tmp/output",
        "echo x >>%TARGET%",
        "echo x <>%TARGET%",
        "echo x 3>&1",
    ] {
        assert_no_match(&pack, cmd);
    }
}

#[test]
fn redirect_read_is_allowed() {
    let pack = create_pack();
    for cmd in [
        "cat < /etc/passwd",
        "wc -l < /etc/hosts",
        "sort < /etc/passwd > /tmp/sorted",
        "while read line; do echo $line; done < /etc/hosts",
    ] {
        assert_no_match(&pack, cmd);
    }
}

#[test]
fn redirect_to_fd_is_allowed() {
    let pack = create_pack();
    for cmd in [
        "echo x 1>&2",
        "echo x 2>&1",
        "command 2>&1 | tee log.txt",
        "echo x >&2",
        "exec >&-",
        "echo x 3>&1",
        "echo x {audit}>&1",
        "Write-Output x *>&1",
    ] {
        assert_no_match(&pack, cmd);
    }
}

#[test]
fn redirect_no_false_positive_substring_traps() {
    let pack = create_pack();
    for cmd in [
        "test 5 > 3",
        "[ \"a\" \\> \"b\" ]",
        "ls /etc",
        "cat /etc/passwd",
        "cat <<EOF",
        "cat <<<\"input\"",
    ] {
        assert_no_match(&pack, cmd);
    }
}

#[test]
fn redirect_to_dev_null_zero_full_is_allowed_universally() {
    let pack = create_pack();
    for cmd in [
        "command > /dev/null",
        "command >/dev/null",
        "command 2>&1 > /dev/null",
        "command > /dev/null 2>&1",
        "command 2> /dev/null",
        "command &> /dev/null",
        "cat /etc/passwd > /dev/null",
        "find . > /dev/null 2>&1",
        "make > /dev/zero",
        "echo test > /dev/full",
    ] {
        assert_no_match(&pack, cmd);
    }
}

#[test]
fn redirect_to_dev_devices_still_blocks() {
    let pack = create_pack();
    for cmd in [
        "> /dev/sda",
        "echo zero > /dev/sda1",
        "command > /dev/sdb",
        "echo > /dev/nvme0n1",
        "echo > /dev/st0",
        "echo > /dev/tty0",
        "echo > /dev/ttys002",
        "echo x > /dev/fd/3",
        "echo x > /dev/fd/7",
        "echo x > /dev/fd/12",
        "echo x > /dev/stdouts",
    ] {
        assert_blocks_with_pattern(&pack, cmd, "redirect-truncate-root-home");
    }
}

#[test]
fn redirect_to_controlling_terminal_is_allowed() {
    let pack = create_pack();
    for cmd in [
        "echo prompt > /dev/tty",
        "read -p x < /dev/tty > /dev/tty",
        "echo x > /dev/null",
        "echo x > /dev/zero",
        "echo x > /dev/full",
    ] {
        assert_no_match(&pack, cmd);
    }
}

#[test]
fn redirect_to_std_stream_symlinks_blocks() {
    let pack = create_pack();
    for cmd in [
        "gh pr view 204 --json number,title > /dev/stdout",
        "command > /dev/stdout",
        "command >/dev/stdout",
        "command > /dev/stderr",
        "echo warn 1> /dev/stderr",
        "echo warn 2> /dev/stdout",
        "command &> /dev/stdout",
        "echo x > /dev/fd/0",
        "echo x > /dev/fd/1",
        "echo x >/dev/fd/2",
    ] {
        assert_blocks_with_pattern(&pack, cmd, "redirect-truncate-root-home");
    }
}

#[test]
fn redirect_truncate_macos_home_spelling_blocks() {
    let pack = create_pack();
    for cmd in [
        "echo x > /Users/jemanuel/.zshrc",
        "echo x >/Users/jemanuel/.zshrc",
        ": > /Users/jemanuel/.zshrc",
        "echo x >| /Users/jemanuel/.zshrc",
        "echo x 2> /Users/jemanuel/.zshrc",
        "echo x &> /Users/jemanuel/.zshrc",
        "printf x > /Users/jemanuel/.ssh/config",
        "echo x > \"/Users/jemanuel/.zshrc\"",
        "echo x > /Users",
        "echo x > /Users/Shared/notes.txt",
    ] {
        assert_blocks_with_severity(&pack, cmd, Severity::Critical);
        assert_blocks_with_pattern(&pack, cmd, "redirect-truncate-root-home");
    }

    for cmd in ["echo x > /Usersland/file.txt", "echo x > ./Users/file.txt"] {
        assert_no_match(&pack, cmd);
    }
}

#[test]
fn mv_sensitive_source_macos_home_spelling_blocks() {
    let pack = create_pack();
    assert_blocks_with_pattern(
        &pack,
        "mv /Users/jemanuel/.zshrc /tmp/x",
        "mv-sensitive-source-root-home",
    );
    assert_blocks_with_pattern(
        &pack,
        "mv /home/user/.zshrc /tmp/x",
        "mv-sensitive-source-root-home",
    );
}

#[test]
fn redirect_glued_operator_blocks_destructive() {
    let pack = create_pack();
    for cmd in [
        "echo data>/etc/passwd",
        "printf data>/etc/passwd",
        "echo data>~/.ssh/id_rsa",
        "echo data>$HOME/.aws/credentials",
        "echo \"data\">/etc/passwd",
        "echo data>'/etc/passwd'",
        "echo data>\"/etc/passwd\"",
        "echo x 2>/etc/passwd",
        "echo x 1>/etc/passwd",
        "echo x &>/etc/passwd",
        "echo x >|/etc/passwd",
    ] {
        assert_blocks_with_pattern(&pack, cmd, "redirect-truncate-root-home");
    }
}

#[test]
fn redirect_glued_operator_to_non_sensitive_is_allowed() {
    let pack = create_pack();
    for cmd in [
        "echo data>./local.txt",
        "echo data>build.log",
        "echo data>/tmp/scratch",
        "echo data>/dev/null",
    ] {
        assert_no_match(&pack, cmd);
    }
}

#[test]
fn redirect_ansi_c_and_locale_quoted_paths_block() {
    let pack = create_pack();
    for cmd in [
        "> $'/etc/passwd'",
        "> $\"/etc/passwd\"",
        ": > $'/etc/shadow'",
        "echo > $'/etc/passwd'",
        "echo > $\"/etc/passwd\"",
    ] {
        assert_blocks_with_pattern(&pack, cmd, "redirect-truncate-root-home");
    }
}

#[test]
fn mv_ansi_c_and_locale_quoted_sources_block() {
    let pack = create_pack();
    for cmd in [
        "mv $'/etc' /tmp/x",
        "mv $\"/etc\" /tmp/x",
        "mv $'/etc/passwd' /tmp/passwd",
        "mv $\"/home/user\" /tmp/relocated",
    ] {
        assert_blocks_with_pattern(&pack, cmd, "mv-sensitive-source-root-home");
    }
}

#[test]
fn echo_quoted_data_args_with_arrow_no_path_dont_falsely_match() {
    let pack = create_pack();
    for cmd in [
        "echo \"5 > 3\"",
        "echo \"user>admin\"",
        "echo \"<html><body>\"",
    ] {
        assert_no_match(&pack, cmd);
    }
}

#[test]
fn test_rm_rf_root_critical() {
    let pack = create_pack();
    assert_blocks_with_severity(&pack, "rm -rf /", Severity::Critical);
    assert_blocks_with_severity(&pack, "rm -rf /etc", Severity::Critical);
    assert_blocks_with_severity(&pack, "rm -rf /home", Severity::Critical);
    assert_blocks_with_severity(&pack, "rm -rf ~/", Severity::Critical);
    assert_blocks_with_severity(&pack, "rm -rf /tmp/cache /etc", Severity::Critical);
    assert_blocks_with_pattern(&pack, "rm -rf /", "rm-rf-root-home");
    assert_blocks_with_severity(&pack, "rm -rf \"/\"", Severity::Critical);
    assert_blocks_with_severity(&pack, "rm -rf '/'", Severity::Critical);
    assert_blocks_with_severity(&pack, "rm -rf \"~/\"", Severity::Critical);
    assert_blocks_with_severity(&pack, "rm -rf '/etc'", Severity::Critical);
}

#[test]
fn private_tmp_is_equivalent_to_tmp_on_macos() {
    let pack = create_pack();
    for cmd in [
        "rm -rf /private/tmp/some/subdir/file",
        "rm -fr /private/tmp/build",
        "rm -r -f /private/tmp/scratch",
        "rm -rf /private/var/tmp/build",
        "rm --recursive --force /private/tmp/cache",
    ] {
        assert!(
            pack.check(cmd).is_none(),
            "macOS-canonical private tmp path must be allowed: {cmd}"
        );
    }
    assert!(pack.check("rm -rf /private/tmp/../etc").is_some());
    assert!(pack.check("rm -rf /private/etc").is_some());
}

#[test]
fn windows_user_temp_subpaths_are_equivalent_to_tmp() {
    let pack = create_pack();
    for cmd in [
        r"rm -rf /c/Users/u/AppData/Local/Temp/some/subdir/file",
        r"rm -rf /C/users/U/appdata/local/temp/x",
        r"rm -rf C:\Users\u\AppData\Local\Temp\some\file",
        r"rm -rf C:\Users\u\AppData\Local\TEMP\build",
        r#"rm -rf "C:\Users\u\AppData\Local\Temp\x""#,
        r"rm -fr /c/Users/u/AppData/Local/Temp/build",
        r"rm -r -f C:/Users/u/AppData/Local/Temp/scratch",
    ] {
        assert!(
            pack.check(cmd).is_none(),
            "literal per-user Windows temp subpath must be allowed: {cmd}"
        );
    }
    for cmd in [
        r"rm -rf C:\Users\u\AppData\Local\Temp",
        r"rm -rf /c/Users/u/Documents/x",
        r"rm -rf /c/Users/u/AppData/Local/Tempx/y",
        r"rm -rf C:\Users\u\AppData\Local\Temp\..\..\Documents",
        r"rm -rf C:\Users\u\AppData\Local\Temp\x /etc",
        r"rm -rf C:\Windows\Temp\x",
        r#"rm -rf "$TEMP/some/subdir/file""#,
        r"rm -rf $TMP/build",
        r"rm -rf $env:TEMP\x",
    ] {
        assert!(
            pack.check(cmd).is_some(),
            "Windows temp carve-out must stay bounded: {cmd}"
        );
    }
}

#[test]
fn powershell_remove_item_literal_user_temp_subpath_is_allowed() {
    for cmd in [
        r"Remove-Item -Recurse -Force C:\Users\u\AppData\Local\Temp\some\subdir\file",
        r"Remove-Item -Recurse c:\users\u\appdata\local\TEMP\x",
        r"Remove-Item -Recurse -Force 'C:\Users\u\AppData\Local\Temp\x'",
        r"Remove-Item -Recurse -Force -Path:C:\Users\u\AppData\Local\Temp\x",
    ] {
        assert!(
            matches!(
                parse_powershell_remove_item_segment(cmd, false),
                RmParseDecision::Allow
            ),
            "literal temp Remove-Item must be allowed: {cmd}"
        );
    }
    for cmd in [
        r"Remove-Item -Recurse -Force $env:TEMP\some\subdir\file",
        r"Remove-Item -Recurse -Force C:\Users\u",
        r"Remove-Item -Recurse -Force C:\Users\u\AppData\Local\Temp",
        r"Remove-Item -Recurse -Force C:\Users\u\AppData\Local\Temp\x C:\Windows\System32",
        r"Remove-Item -Recurse -Force C:\Users\u\AppData\Local\Temp\x,C:\Windows",
        r"Remove-Item -Recurse -Force C:\Windows\Temp\x",
    ] {
        assert!(
            matches!(
                parse_powershell_remove_item_segment(cmd, false),
                RmParseDecision::Deny(_)
            ),
            "Remove-Item outside the literal temp carve-out must stay denied: {cmd}"
        );
    }
}

#[test]
fn mv_to_trash_is_allowed_and_stays_bounded() {
    let pack = create_pack();
    for cmd in [
        "mv /private/tmp/some/subdir/file ~/.local/share/Trash/",
        "mv /tmp/scratch.txt ~/.local/share/Trash/",
        "mv ~/Downloads/junk.md ~/.local/share/Trash/",
        "mv ~/Downloads/junk.md ~/.Trash/",
        "mv /Users/alice/Downloads/old.pdf ~/.Trash/",
        "mv /home/alice/notes/old.txt ~/.local/share/Trash/files/",
        "mv report.bak ~/.Trash",
    ] {
        assert!(
            pack.check(cmd).is_none(),
            "move into the platform Trash must be allowed: {cmd}"
        );
    }
    for cmd in [
        "mv /etc ~/.local/share/Trash/",
        "mv ~/ ~/.Trash/",
        "mv /Users/alice/ ~/.Trash/",
        "mv /tmp/../etc ~/.Trash/",
        "mv ~/Downloads/x ~/.Trash/../../etc",
        "mv \"$f\" ~/.local/share/Trash/",
        "mv /etc;x ~/.Trash/",
    ] {
        assert!(
            pack.check(cmd).is_some(),
            "Trash carve-out must stay bounded: {cmd}"
        );
    }
}

#[test]
fn globbed_rm_under_home_is_blocked() {
    let pack = create_pack();
    for cmd in [
        "rm -f /Users/kaitaylor/Downloads/*.md",
        "rm -f /Users/kaitaylor/Downloads/*",
        "rm -f /Users/kaitaylor/*.md",
        "rm /Users/kaitaylor/Documents/*.pdf",
        "rm -f /home/alice/reports/*.csv",
        "rm ~/Downloads/*.md",
        "rm -f ~/notes/draft?.txt",
        "rm $HOME/Downloads/*.md",
        "rm -f /Users/*/Downloads/junk.md",
    ] {
        assert_blocks_with_pattern(&pack, cmd, "rm-glob-home");
    }
    for cmd in [
        "rm -f /Users/kaitaylor/Downloads/one-file.md",
        "rm ~/Downloads/specific.md",
        "rm -f \"/Users/kaitaylor/Downloads/*.md\"",
        "rm -f ./build/*.o",
        "rm -f /tmp/scratch.txt\nls ~/Downloads/*.md",
        "docker run --rm -v ~/data/*.json:/data img",
    ] {
        assert!(
            pack.check(cmd).is_none(),
            "bounded or non-expanding delete must stay allowed: {cmd}"
        );
    }
}

#[test]
fn test_rm_separate_and_long_flag_root_is_critical() {
    let pack = create_pack();
    assert_blocks_with_severity(&pack, "rm -r -f /", Severity::Critical);
    assert_blocks_with_severity(&pack, "rm -f -r /", Severity::Critical);
    assert_blocks_with_severity(&pack, "rm -r -f /etc", Severity::Critical);
    assert_blocks_with_severity(&pack, "rm -r -f ~/", Severity::Critical);
    assert_blocks_with_pattern(&pack, "rm -r -f /", "rm-r-f-separate-root-home");

    assert_blocks_with_severity(&pack, "rm --recursive --force /", Severity::Critical);
    assert_blocks_with_severity(&pack, "rm --force --recursive /", Severity::Critical);
    assert_blocks_with_severity(&pack, "rm --recursive --force /etc", Severity::Critical);
    assert_blocks_with_pattern(
        &pack,
        "rm --recursive --force /",
        "rm-recursive-force-root-home",
    );

    assert_blocks_with_severity(&pack, "rm -r -f \"/\"", Severity::Critical);
    assert_blocks_with_severity(&pack, "rm --recursive --force '/'", Severity::Critical);
    assert_blocks_with_severity(&pack, "rm -rf \\/", Severity::Critical);
    assert_blocks_with_severity(&pack, "rm -rf \\~", Severity::Critical);
    assert_blocks_with_severity(&pack, "rm -r -f \\/", Severity::Critical);
    assert_blocks_with_severity(&pack, "rm --recursive --force \\/", Severity::Critical);
    assert_blocks_with_severity(&pack, "rm -rf $HOME", Severity::Critical);
    assert_blocks_with_severity(&pack, "rm -rf \"$HOME\"", Severity::Critical);
    assert_blocks_with_severity(&pack, "rm -rf ${HOME}", Severity::Critical);
    assert_blocks_with_severity(&pack, "rm -rf \"${HOME}\"", Severity::Critical);
    assert_blocks_with_severity(&pack, "rm -r -f $HOME", Severity::Critical);
    assert_blocks_with_severity(&pack, "rm --recursive --force $HOME", Severity::Critical);

    assert_blocks_with_severity(&pack, "rm -r -f ./build", Severity::High);
    assert_blocks_with_severity(&pack, "rm --recursive --force ./build", Severity::High);
}

#[test]
fn test_rm_rf_general_high() {
    let pack = create_pack();
    assert_blocks_with_severity(&pack, "rm -rf ./build", Severity::High);
    assert_blocks_with_pattern(&pack, "rm -rf ./build", "rm-rf-general");
}

#[test]
fn test_rm_rf_tmp_with_trailing_redirections_is_safe() {
    let pack = create_pack();
    let safe_cases = [
        "rm -rf /tmp/sigtest* 2>/dev/null",
        "rm -rf /tmp/sigtest* /tmp/tardis-test /tmp/tardis-bench 2>/dev/null",
        "rm -rf /tmp/foo > /tmp/log.txt",
        "rm -rf /tmp/foo > /tmp/log.txt 2>&1",
        "rm -rf /tmp/foo &>/dev/null",
        "rm -rf /tmp/foo &>> /tmp/audit.log",
        "rm -rf /var/tmp/foo 2>/dev/null",
        "rm -r -f /tmp/foo 2>/dev/null",
        "rm -f -r /tmp/foo 2>/dev/null",
        "rm --recursive --force /tmp/foo 2>/dev/null",
    ];
    for cmd in safe_cases {
        assert!(
            pack.check(cmd).is_none(),
            "rm -rf with trailing redirection on /tmp/* must not be blocked; cmd={cmd}"
        );
    }

    let unsafe_cases = [
        "rm -rf /etc 2>/dev/null",
        "rm -rf /tmp/ok /etc 2>/dev/null",
        "rm -rf / 2>/dev/null",
    ];
    for cmd in unsafe_cases {
        assert!(
            pack.check(cmd).is_some(),
            "rm -rf targeting root/etc must still be blocked even with a trailing redirection; cmd={cmd}"
        );
    }
}

#[test]
fn test_rm_flags_ordering() {
    let pack = create_pack();
    assert_blocks(&pack, "rm -r -f ./build", "separate -r -f flags");
    assert_blocks(&pack, "rm -f -r ./build", "separate -r -f flags");
    assert_blocks(
        &pack,
        "rm --recursive --force ./build",
        "rm --recursive --force is destructive",
    );
    assert_blocks(
        &pack,
        "rm --force --recursive ./build",
        "rm --recursive --force is destructive",
    );
}

#[test]
fn test_safe_rm_tmp() {
    let pack = create_pack();
    assert_safe_pattern_matches(&pack, "rm -rf /tmp/test");
    assert_safe_pattern_matches(&pack, "rm -rf /var/tmp/stuff");
    assert!(!pack.matches_safe("rm -rf $TMPDIR/junk"));
    assert!(!pack.matches_safe("rm -rf ${TMPDIR}/junk"));
}

#[test]
fn test_tmpdir_brace_requires_exact_var_name() {
    let pack = create_pack();
    assert!(!pack.matches_safe("rm -rf ${TMPDIR_NOT}/junk"));
    assert_rm_parser_denies(
        "rm -rf ${TMPDIR_NOT}/junk",
        RM_RF_GENERAL_NAME,
        Severity::High,
    );
}

#[test]
fn test_safe_rm_variants() {
    let pack = create_pack();
    assert_safe_pattern_matches(&pack, "rm -fr /tmp/test");
    assert_safe_pattern_matches(&pack, "rm -r -f /tmp/test");
    assert_safe_pattern_matches(&pack, "rm --recursive --force /tmp/test");
}

#[test]
fn test_path_traversal_blocked() {
    let pack = create_pack();
    assert!(!pack.matches_safe("rm -rf /tmp/../etc"));
    assert!(!pack.matches_safe("rm -rf /var/tmp/../etc"));

    assert_blocks(&pack, "rm -rf /tmp/../etc", "rm -rf on root or home paths");
}

fn assert_rm_parser_allows(command: &str) {
    let decision = parse_rm_command(command);
    assert!(
        matches!(decision, RmParseDecision::Allow),
        "Expected rm parser to allow '{command}', got {decision:?}",
    );
}

fn assert_rm_parser_denies(command: &str, expected_rule: &str, expected_severity: Severity) {
    match parse_rm_command(command) {
        RmParseDecision::Deny(hit) => {
            assert_eq!(
                hit.pattern_name, expected_rule,
                "Unexpected rule for '{command}'"
            );
            assert_eq!(
                hit.severity, expected_severity,
                "Unexpected severity for '{command}'"
            );
        }
        other => unreachable!("Expected rm parser to deny '{command}', got {other:?}"),
    }
}

fn assert_rm_parser_no_match(command: &str) {
    match parse_rm_command(command) {
        RmParseDecision::NoMatch => {}
        other => {
            unreachable!("Expected rm parser to return NoMatch for '{command}', got {other:?}")
        }
    }
}

#[test]
fn test_rm_parser_rejects_variable_tmpdir_roots() {
    assert_rm_parser_denies(
        r#"rm -rf "$TMPDIR/foo""#,
        RM_RF_GENERAL_NAME,
        Severity::High,
    );
    assert_rm_parser_denies(
        r#"rm -rf "${TMPDIR}/foo""#,
        RM_RF_GENERAL_NAME,
        Severity::High,
    );
    assert_rm_parser_denies(r"rm -rf $TMPDIR/foo", RM_RF_GENERAL_NAME, Severity::High);
    assert_rm_parser_denies(
        r"rm -rf ${TMPDIR:-/tmp}/foo",
        RM_RF_GENERAL_NAME,
        Severity::High,
    );
    assert_rm_parser_denies(r"rm -rf '$TMPDIR/foo'", RM_RF_GENERAL_NAME, Severity::High);
    assert_rm_parser_denies(
        r#"rm -r -f "$TMPDIR/foo""#,
        RM_R_F_SEPARATE_NAME,
        Severity::High,
    );
    assert_rm_parser_denies(
        r#"rm -r -f "${TMPDIR}/foo""#,
        RM_R_F_SEPARATE_NAME,
        Severity::High,
    );
    assert_rm_parser_denies(
        r#"rm --recursive --force "$TMPDIR/foo""#,
        RM_RECURSIVE_FORCE_NAME,
        Severity::High,
    );
    assert_rm_parser_denies(
        r#"rm --recursive --force "${TMPDIR}/foo""#,
        RM_RECURSIVE_FORCE_NAME,
        Severity::High,
    );
    assert_rm_parser_denies(
        r#"rm --force --recursive "$TMPDIR/foo""#,
        RM_RECURSIVE_FORCE_NAME,
        Severity::High,
    );
    assert_rm_parser_denies(
        r#"rm --force --recursive "${TMPDIR}/foo""#,
        RM_RECURSIVE_FORCE_NAME,
        Severity::High,
    );
    assert_rm_parser_denies(
        r#"export TMPDIR=/; rm -rf "$TMPDIR/etc""#,
        RM_RF_GENERAL_NAME,
        Severity::High,
    );
}

#[test]
fn test_rm_parser_allows_literal_tmp_double_quoted() {
    assert_rm_parser_allows(r#"rm -rf "/tmp/foo""#);
    assert_rm_parser_allows(r#"rm -rf "/tmp/build/artifacts""#);
    assert_rm_parser_allows(r#"rm -rf "/var/tmp/cache""#);
    assert_rm_parser_allows(r#"rm -rf "/tmp/{literal}""#);
    assert_rm_parser_allows(r#"rm -rf "/tmp/O'Reilly""#);
    assert_rm_parser_allows(r#"rm -rf "/tmp/.\./etc""#);

    assert_rm_parser_denies(
        r#"rm -rf "/tmp/../etc""#,
        RM_RF_ROOT_HOME_NAME,
        Severity::Critical,
    );

    for command in [
        r#"rm -rf "/tmp/$TARGET""#,
        r#"rm -rf "/tmp/$(printf ../etc)""#,
        r"rm -rf /tmp/{cache,../etc}",
        r"rm -rf /tmp/''../etc",
        r"rm -rf /tmp/.\./etc",
    ] {
        assert!(
            matches!(parse_rm_command(command), RmParseDecision::Deny(_)),
            "expanded or quote-concatenated temp path must be denied: {command}"
        );
    }
}

#[test]
fn test_rm_parser_handles_compound_segments() {
    assert_rm_parser_allows("cp -al /tmp/a /tmp/b && rm -rf /tmp/b");
    assert_rm_parser_denies(
        "echo ok && rm -rf ./build",
        RM_RF_GENERAL_NAME,
        Severity::High,
    );
}

#[test]
fn test_rm_parser_traversal_blocked() {
    assert_rm_parser_denies(
        "rm -rf /tmp/../etc",
        RM_RF_ROOT_HOME_NAME,
        Severity::Critical,
    );
}

#[test]
fn test_rm_parser_option_terminator() {
    assert_rm_parser_no_match("rm -- -rf /tmp/safe");
    assert_rm_parser_denies("rm -rf -- /tmp/safe", RM_RF_GENERAL_NAME, Severity::High);
    assert_rm_parser_denies("rm -rf -- /", RM_RF_ROOT_HOME_NAME, Severity::Critical);
    assert_rm_parser_denies(
        "rm -r -f -- /",
        RM_R_F_SEPARATE_ROOT_HOME_NAME,
        Severity::Critical,
    );
    assert_rm_parser_denies(
        "rm --recursive --force -- /",
        RM_RECURSIVE_FORCE_ROOT_HOME_NAME,
        Severity::Critical,
    );
}

#[test]
fn test_rm_parser_blocks_recursive_only_deletion() {
    for command in [
        "rm -r ./build",
        "rm -R Desktop",
        "rm --recursive ./tree",
        "rm --rec ./tree",
        "rm ./build -r",
        "rm -rv ./build",
    ] {
        assert_rm_parser_denies(command, RM_RECURSIVE_GENERAL_NAME, Severity::High);
    }

    for command in [
        "rm -r /",
        "rm -R /etc",
        "rm --recursive ~/Documents",
        "rm -r $HOME",
        "rm -r /Users/alice/Desktop",
    ] {
        assert_rm_parser_denies(command, RM_RECURSIVE_ROOT_HOME_NAME, Severity::Critical);
    }
}

#[test]
fn test_rm_parser_preserves_force_rule_ids() {
    for command in ["rm -rf ./build", "rm -fr ./build", "rm -rvf ./build"] {
        assert_rm_parser_denies(command, RM_RF_GENERAL_NAME, Severity::High);
    }
    for command in [
        "rm -r -f ./build",
        "rm -f -R ./build",
        "rm -r --force ./build",
        "rm --recursive -f ./build",
    ] {
        assert_rm_parser_denies(command, RM_R_F_SEPARATE_NAME, Severity::High);
    }
    for command in [
        "rm --recursive --force ./build",
        "rm --force --recursive ./build",
        "rm --rec --fo ./build",
    ] {
        assert_rm_parser_denies(command, RM_RECURSIVE_FORCE_NAME, Severity::High);
    }
}

#[test]
fn test_rm_parser_interactive_and_force_are_order_sensitive() {
    for command in [
        "rm -r -i ./build",
        "rm -r -I ./build",
        "rm -rfi ./build",
        "rm -rfI ./build",
        "rm -r -f --interactive=once ./build",
        "rm -r --force --interactive=always ./build",
        "rm -r --interactive ./build",
        "rm -r --interactive=o ./build",
        "rm -r --interactive=y ./build",
        "rm ./build -r -i",
    ] {
        assert_rm_parser_allows(command);
    }

    for command in ["rm -rif ./build", "rm -rIf ./build"] {
        assert_rm_parser_denies(command, RM_RF_GENERAL_NAME, Severity::High);
    }
    for command in [
        "rm -r -i --force ./build",
        "rm -r --interactive=once -f ./build",
        "rm -r -i -f ./build",
        "rm -r -I --force ./build",
        "rm -r --interactive=always -f ./build",
    ] {
        assert_rm_parser_denies(command, RM_R_F_SEPARATE_NAME, Severity::High);
    }
    for command in [
        "rm -r --interactive=never ./build",
        "rm -r --interactive=no ./build",
        "rm -r --interactive=none ./build",
    ] {
        assert_rm_parser_denies(command, RM_RECURSIVE_GENERAL_NAME, Severity::High);
    }
}

#[test]
fn test_rm_parser_recursive_only_temp_and_non_execution_forms() {
    for command in [
        "rm -r /tmp/build",
        "rm -R /var/tmp/cache",
        r#"rm --recursive "/tmp/build artifacts""#,
    ] {
        assert_rm_parser_allows(command);
    }

    for command in [
        "rm -r",
        "rm --recursive",
        "rm ./build --version -r",
        "rm --recursive-x ./build",
        "rm --v ./build -r",
        "rm -rz ./build",
    ] {
        assert_rm_parser_no_match(command);
    }

    assert_rm_parser_denies(
        "rm -r -- /tmp/build",
        RM_RECURSIVE_GENERAL_NAME,
        Severity::High,
    );
    assert_rm_parser_no_match("rm -- -r ./build");
}

#[test]
fn test_rm_parser_models_apple_option_stop_after_first_operand() {
    let pack = create_pack();
    for (command, expected_rule) in [
        ("rm -r ./build --help", RM_RECURSIVE_GENERAL_NAME),
        ("rm -r ./build --version", RM_RECURSIVE_GENERAL_NAME),
        ("rm -r ./build -i", RM_RECURSIVE_GENERAL_NAME),
        ("rm -r ./build -I", RM_RECURSIVE_GENERAL_NAME),
        ("rm -rf ./build -i", RM_RF_GENERAL_NAME),
        (
            "rm -r ./build --interactive=always",
            RM_RECURSIVE_GENERAL_NAME,
        ),
        ("rm -r /tmp/build --help", RM_RECURSIVE_GENERAL_NAME),
    ] {
        assert_rm_parser_denies(command, expected_rule, Severity::High);
        assert!(pack.check(command).is_some(), "pack must deny: {command}");
    }

    assert_rm_parser_denies(
        "rm -r /etc -i",
        RM_RECURSIVE_ROOT_HOME_NAME,
        Severity::Critical,
    );
    assert_rm_parser_denies(
        "rm -rf $HOME --interactive=always",
        RM_RF_ROOT_HOME_NAME,
        Severity::Critical,
    );

    for command in [
        "rm ./build --help -r",
        "rm ./build --version -R",
        "rm --recursive ./build --help",
    ] {
        assert_rm_parser_no_match(command);
    }

    assert_rm_parser_allows("rm -i ./build -r");
}

#[test]
fn test_rm_parser_temp_exception_requires_real_subdirectory() {
    let pack = create_pack();
    let root_only_paths = [
        "/tmp/",
        "/tmp//",
        "/tmp/./",
        "/var/tmp/",
        "/var/tmp//",
        "/var/tmp/./",
        r#""/tmp/""#,
        r#""/tmp//""#,
        r#""/tmp/./""#,
        r#""/var/tmp/""#,
        r#""/var/tmp//""#,
        r#""/var/tmp/./""#,
    ];

    for flags in ["-r", "-rf"] {
        for path in root_only_paths {
            let command = format!("rm {flags} {path}");
            assert!(
                matches!(parse_rm_command(&command), RmParseDecision::Deny(_)),
                "temp root without a real subdirectory must be denied: {command}"
            );
            assert!(
                pack.check(&command).is_some(),
                "pack must deny temp root without a real subdirectory: {command}"
            );
        }
    }

    for command in [
        "rm -r /tmp/foo",
        "rm -r /var/tmp/foo",
        r#"rm -r "/tmp/foo""#,
        r#"rm -r "/var/tmp/foo""#,
        "rm -rf /tmp/foo",
        "rm -rf /var/tmp/foo",
        r#"rm -rf "/tmp/foo""#,
        r#"rm -rf "/var/tmp/foo""#,
    ] {
        assert_rm_parser_allows(command);
        assert!(
            pack.check(command).is_none(),
            "literal temp subdirectory must remain allowed: {command}"
        );
    }
}

#[test]
fn test_rm_parser_interactive_prompts_require_terminal_stdin() {
    for command in [
        "yes | rm -r -i ./tree",
        "yes | rm -rI ./tree",
        "printf 'y\\n' | rm --recursive --interactive=always ./tree",
        "rm -ri ./tree < answers.txt",
        "rm -rI ./tree <<< y",
        "rm --recursive --interactive=always ./tree 0<answers.txt",
        "< answers.txt rm -ri ./tree",
        "0<answers.txt rm -rI ./tree",
        "yes | { rm -ri ./tree; }",
        "yes | ( rm -ri ./tree )",
        "yes | { echo ready; rm -ri ./tree; }",
        "yes | while true; do rm -ri ./tree; break; done",
        "yes | if true; then rm -ri ./tree; fi",
        "yes | { # }\n rm -ri ./tree; }",
        "exec < answers.txt; rm -ri ./tree",
        "exec 0<answers.txt; rm -rI ./tree",
    ] {
        assert_rm_parser_denies(command, RM_RECURSIVE_GENERAL_NAME, Severity::High);
    }

    let heredoc_group = "yes | { cat <<'EOF'\n}\nEOF\nrm -ri ./tree; }";
    let rm_start = heredoc_group
        .find("rm -ri")
        .expect("test command contains rm segment");
    assert!(rm_segment_receives_automated_stdin(
        heredoc_group,
        rm_start,
        ShellDialect::Posix,
    ));

    for command in [
        "rm -ri ./tree",
        "rm -rI ./tree",
        "rm --recursive --interactive=always ./tree",
        "printf 'y\\n' | { cat; }; rm -ri ./tree",
        "(exec < answers.txt; true); rm -ri ./tree",
        "exec 3<answers.txt; rm -ri ./tree",
        "exec <> answers.txt; rm -ri ./tree",
    ] {
        assert_rm_parser_allows(command);
    }
}

#[test]
fn test_rm_parser_normalizes_segment_local_wrappers_and_executables() {
    for command in [
        "echo ok; sudo rm -r ./tree",
        "yes | env rm -ri ./tree",
        "yes | FOO=bar rm -ri ./tree",
        "command rm -r ./tree",
        r"\rm -r ./tree",
        "exec rm -r ./tree",
        "nohup rm -r ./tree",
        "time rm -r ./tree",
        "/bin/rm -r ./tree",
        r#""/bin/rm" -r ./tree"#,
        r"'/usr/bin/rm' -r ./tree",
        "nice rm -r ./tree",
        "nice -n 5 sudo rm -r ./tree",
        "ionice -c 3 rm -r ./tree",
        "ionice -tc3 /bin/rm -r ./tree",
        "setsid -fw rm -r ./tree",
        "timeout --signal KILL 10 rm -r ./tree",
        "timeout -k5 10 nice rm -r ./tree",
        "/bin/busybox rm -r ./tree",
        "busybox nice rm -r ./tree",
    ] {
        assert_rm_parser_denies(command, RM_RECURSIVE_GENERAL_NAME, Severity::High);
    }
}

#[test]
fn test_rm_parser_skips_leading_posix_assignments_before_executable() {
    for command in [
        "FOO=bar rm -r ./tree",
        "FOO=bar /bin/rm -r ./tree",
        "FOO=bar sudo rm -r ./tree",
        "x=$(printf ok) rm -r ./tree",
        "FOO=bar x=$(printf ok) command rm -r ./tree",
        "x=$(rm -r /tmp/cache) rm -r ./tree",
    ] {
        assert_rm_parser_denies(command, RM_RECURSIVE_GENERAL_NAME, Severity::High);
    }

    for command in [
        "FOO=bar rm -r /tmp/foo",
        "x=$(printf ok) /bin/rm -r /var/tmp/foo",
        r#"FOO="a b" sudo rm -r "/tmp/foo""#,
    ] {
        assert_rm_parser_allows(command);
    }
}

#[test]
fn test_rm_parser_wrapper_normalization_preserves_safe_controls() {
    for command in [
        "echo ok; sudo rm -r /tmp/foo",
        "env rm -r /var/tmp/foo",
        r#""/bin/rm" -r "/tmp/foo""#,
        "nice -n 5 rm -r /tmp/foo",
        "ionice -c3 rm -r /var/tmp/foo",
        "setsid rm -r /tmp/foo",
        "timeout 10 rm -r /var/tmp/foo",
        "busybox rm -r /tmp/foo",
    ] {
        assert_rm_parser_allows(command);
    }

    for command in [
        "command -v rm",
        "command -V rm",
        "echo 'sudo rm -r ./tree'",
        "echo FOO=bar rm -r ./tree",
        r#"echo "/bin/rm -r ./tree""#,
        "printf '%s\\n' 'yes | rm -ri ./tree'",
    ] {
        assert_rm_parser_no_match(command);
    }
}

#[test]
fn test_rm_parser_follows_explicit_xargs_and_find_exec_argv() {
    for command in [
        "printf './tree\\n' | xargs rm -r",
        "xargs -0 -n 1 /bin/rm -r",
        "xargs nice rm -r",
        "xargs rm",
        r#"xargs "$cmd" -r"#,
        r"find ./root -exec rm -r {} \;",
        "find ./root -exec /bin/rm -r {} +",
        r"find ./root -execdir sudo rm -r {} \;",
        r#"find ./root -exec "$cmd" -r {} \;"#,
        r"find /bin/rm -maxdepth 0 -exec {} -r ./tree \;",
        r"find /bin/rm -maxdepth 0 -execdir {} -r ./tree +",
        r"find /bin/rm -maxdepth 0 -exec \{\} -r ./tree \;",
        r"find /bin/rm -maxdepth 0 -exec '{''}' -r ./tree \;",
    ] {
        assert!(
            matches!(parse_rm_command(command), RmParseDecision::Deny(_)),
            "explicit argv frontend must preserve recursive rm detection: {command}"
        );
    }

    for command in [
        "printf './tree\\n' | xargs echo 'rm -r ./tree'",
        "xargs rm --",
        r"find ./root -exec rm -r /tmp/foo \;",
        r"find ./root -exec /bin/rm -r /var/tmp/foo \;",
        r"find ./root -exec echo 'rm -r ./tree' \;",
        r"find ./root -exec echo \{\} -r ./tree \;",
    ] {
        assert_rm_parser_no_match(command);
    }

    for command in [
        r"find /bin/rm -maxdepth 0 -exec {} -r ./tree \;",
        r"find /bin/rm -maxdepth 0 -execdir {} -r ./tree +",
    ] {
        match parse_rm_command(command) {
            RmParseDecision::Deny(hit) => {
                assert_eq!(hit.pattern_name, RM_RECURSIVE_UNVERIFIED_NAME);
                assert_eq!(hit.severity, Severity::High);
            }
            other => unreachable!(
                "placeholder executable must be attributed as unverified: {command}: {other:?}"
            ),
        }
    }
}

#[test]
fn test_rm_parser_dialect_aware_dynamic_executable_seam() {
    for (command, dialect) in [
        (r"r$x -r ./tree", ShellDialect::Posix),
        (r#""$cmd" -r ./tree"#, ShellDialect::Posix),
        (r"$(printf rm) -r ./tree", ShellDialect::Posix),
        (r"%DELETE_CMD% -r ./tree", ShellDialect::Cmd),
        (r"& $cmd -r ./tree", ShellDialect::PowerShell),
        (r"& ('r'+'m') -r ./tree", ShellDialect::PowerShell),
        (r"& $('rm') -r ./tree", ShellDialect::PowerShell),
        (
            r"& @('noop', ('r'+'m'))[1] -r ./tree",
            ShellDialect::PowerShell,
        ),
    ] {
        match parse_rm_command_segment_in_dialect(command, false, dialect) {
            RmParseDecision::Deny(hit) => {
                assert_eq!(hit.pattern_name, RM_RECURSIVE_UNVERIFIED_NAME);
                assert_eq!(hit.severity, Severity::High);
            }
            other => unreachable!(
                "dynamic executable with recursive rm argv must be denied: {command}: {other:?}"
            ),
        }
    }

    for (command, dialect) in [
        (r"not$x -r ./tree", ShellDialect::Posix),
        (r"'$cmd' -r ./tree", ShellDialect::Posix),
        (r#"echo "$cmd" -r ./tree"#, ShellDialect::Posix),
        (r#"rm -- "$cmd" -r ./tree"#, ShellDialect::Posix),
        (r#""$cmd" -r /tmp/foo"#, ShellDialect::Posix),
        (r"echo %DELETE_CMD% -r ./tree", ShellDialect::Cmd),
        (r"& '$cmd' -r ./tree", ShellDialect::PowerShell),
        (r"& @('echo', 'printf')[1] ./tree", ShellDialect::PowerShell),
        (r"$cmd = 'rm'", ShellDialect::PowerShell),
        ("$text = @'\n@params\n'@", ShellDialect::PowerShell),
        (r"${global:cmd} += 'rm'", ShellDialect::PowerShell),
    ] {
        assert!(
            matches!(
                parse_rm_command_segment_in_dialect(command, false, dialect),
                RmParseDecision::NoMatch
            ),
            "inert, impossible, post-terminator, or temp-safe dynamic data must not deny: {command}"
        );
    }

    assert_eq!(
        rm_executable_certainty("rm", ShellDialect::Posix),
        RmExecutableCertainty::Exact
    );
    assert_eq!(
        rm_executable_certainty(r"r$x", ShellDialect::Posix),
        RmExecutableCertainty::MayBeRm
    );
    assert_eq!(
        rm_executable_certainty(r"not$x", ShellDialect::Posix),
        RmExecutableCertainty::Other
    );
}

#[test]
fn test_powershell_remove_item_recurse_is_dialect_correct() {
    for command in [
        "rm -Recurse ./tree",
        "ri -r ./tree",
        "Remove-Item -Recurse ./tree",
        "REMOVE-ITEM ./tree -Rec",
        "Remove-Item -Path ./tree -Recurse",
        "rm -r /tmp/dcg-powershell-tree",
        "Remove`-Item -Recurse ./tree",
        "Remove-Item -Rec`urse ./tree",
        "r`m -R ./tree",
        "Remove-Item -Recurse -Path (Resolve-Path ./tree)",
        "Remove-Item -Recurse (Get-Item ./tree)",
    ] {
        match parse_rm_command_segment_in_dialect(
            command,
            command.contains('|'),
            ShellDialect::PowerShell,
        ) {
            RmParseDecision::Deny(hit) => {
                assert_eq!(hit.pattern_name, POWERSHELL_REMOVE_ITEM_RECURSIVE_NAME);
                assert_eq!(hit.severity, Severity::Critical);
            }
            other => unreachable!(
                "PowerShell recursive Remove-Item must be denied: {command}: {other:?}"
            ),
        }
    }

    match parse_rm_command_segment_in_dialect(
        "Remove-Item -Recurse",
        true,
        ShellDialect::PowerShell,
    ) {
        RmParseDecision::Deny(hit) => {
            assert_eq!(hit.pattern_name, POWERSHELL_REMOVE_ITEM_RECURSIVE_NAME);
        }
        other => unreachable!(
            "pipeline-fed PowerShell Remove-Item must be denied without a positional path: {other:?}"
        ),
    }

    for command in [
        "Remove-Item -Recurse ./tree -WhatIf",
        "rm -r ./tree -WhatIf:$true",
        "ri -Recurse -Path ./tree -WhatIf",
    ] {
        let decision =
            parse_rm_command_segment_in_dialect(command, false, ShellDialect::PowerShell);
        assert!(
            matches!(decision, RmParseDecision::Allow),
            "proven PowerShell WhatIf must remain a non-executing preview: {command}: {decision:?}"
        );
    }

    for command in [
        "Remove-Item -Recurse ./tree -WhatIf:$false",
        "rm -r ./tree -WhatIf:$value",
        "ri -WhatIf ./tree -Recurse -WhatIf:$false",
    ] {
        assert!(
            matches!(
                parse_rm_command_segment_in_dialect(command, false, ShellDialect::PowerShell),
                RmParseDecision::Deny(_)
            ),
            "disabled or unproven WhatIf must not rescue recursive deletion: {command}"
        );
    }

    assert!(matches!(
        parse_rm_command_segment_in_dialect(
            "Remove-Item ./one.txt",
            false,
            ShellDialect::PowerShell
        ),
        RmParseDecision::NoMatch
    ));

    match parse_rm_command_segment_in_dialect(
        "Remove-Item @params",
        false,
        ShellDialect::PowerShell,
    ) {
        RmParseDecision::Deny(hit) => {
            assert_eq!(hit.pattern_name, RM_RECURSIVE_UNVERIFIED_NAME);
        }
        other => unreachable!(
            "PowerShell splatting must fail closed because it can inject -Recurse and -Path: {other:?}"
        ),
    }
}

#[test]
fn test_dialect_escaped_rm_command_words_and_candidate_signal() {
    match parse_rm_command_segment_in_dialect("r^m -r ./tree", false, ShellDialect::Cmd) {
        RmParseDecision::Deny(hit) => {
            assert_eq!(hit.pattern_name, RM_RECURSIVE_GENERAL_NAME);
            assert_eq!(hit.severity, Severity::High);
        }
        other => unreachable!("Cmd caret-decoded rm must be denied: {other:?}"),
    }

    for (command, dialect) in [
        ("r`m -R ./tree", ShellDialect::PowerShell),
        ("Remove`-Item -Recurse ./tree", ShellDialect::PowerShell),
        ("& ('r'+'m') -r ./tree", ShellDialect::PowerShell),
        ("Remove-Item @params", ShellDialect::PowerShell),
        ("r^m -r ./tree", ShellDialect::Cmd),
        ("%DELETE_CMD% -r ./tree", ShellDialect::Cmd),
        ("echo x >%TARGET%", ShellDialect::Cmd),
    ] {
        assert!(
            filesystem_semantic_scan_required(command, dialect),
            "dialect-obfuscated rm must force core.filesystem candidate selection: {command}"
        );
    }

    for (command, dialect) in [
        ("Write-Output 'r`m -r ./tree'", ShellDialect::PowerShell),
        ("echo r^m -r ./tree", ShellDialect::Cmd),
        ("rm -r ./tree", ShellDialect::Posix),
    ] {
        assert!(
            !filesystem_semantic_scan_required(command, dialect),
            "inert data or ordinary POSIX syntax must not require a dialect fallback scan: {command}"
        );
    }
}

#[test]
fn test_filesystem_keyword_candidate_requires_command_word_boundaries() {
    for command in [
        "rm -rf ./tree",
        "/usr/bin/find . -delete",
        r#""C:\Tools\cp.exe" -a /etc /tmp/etc"#,
        "echo ready && rsync -a /etc/ /tmp/etc/",
        "echo data > /etc/passwd",
        "ECHO data 2> C:\\logs\\error.txt",
        "CP --help",
    ] {
        assert!(
            filesystem_keyword_candidate(command),
            "real filesystem command or redirect must remain a candidate: {command}"
        );
    }

    for command in [
        "scp report.csv analyst@external.example:/incoming/",
        "pscp report.csv analyst@external.example:/incoming/",
        "winscp.exe /help",
        "echo xcp",
        "printf 'carpet'",
    ] {
        assert!(
            !filesystem_keyword_candidate(command),
            "embedded keyword substring must not initialize core.filesystem: {command}"
        );
    }
}

#[test]
fn test_interactive_recursive_rm_does_not_shadow_destructive_redirect() {
    let pack = create_pack();
    for command in [
        "rm -ri ./tree <> /etc/passwd",
        "rm -ri ./tree 0<> /etc/passwd",
        "rm -r /tmp/foo <> /etc/passwd",
        "rm -r /var/tmp/foo 0<> /etc/passwd",
        "rm -ri ./tree 3>/etc/passwd",
        "rm -ri ./tree 0> /etc/passwd",
        "rm -ri ./tree *> /etc/passwd",
        "rm -ri ./tree {audit}> /etc/passwd",
    ] {
        assert_rm_parser_allows(command);
    }
    assert_rm_parser_denies(
        "rm -r ./tree <> /etc/passwd",
        RM_RECURSIVE_GENERAL_NAME,
        Severity::High,
    );

    assert_blocks_with_pattern(
        &pack,
        "rm -rfi ./build > /etc/passwd",
        "redirect-truncate-root-home",
    );
    assert_blocks_with_pattern(
        &pack,
        r#"rm -r -i ./build > "$HOME/.profile""#,
        "redirect-truncate-root-home",
    );
    for command in [
        "rm -ri ./tree 3>/etc/passwd",
        "rm -ri ./tree 0> /etc/passwd",
        "rm -ri ./tree *> /etc/passwd",
        "rm -ri ./tree {audit}> /etc/passwd",
    ] {
        assert_blocks_with_pattern(&pack, command, "redirect-truncate-root-home");
    }
}

const PLACEHOLDER: &str = "No additional explanation is available yet";

const ACCEPTED_FORMS: &[&str] = &["rm -ri", "/tmp/delete-me-", "ls -la", "-WhatIf"];

#[test]
fn every_classifier_rule_resolves_to_authored_guidance() {
    let pack = create_pack();
    for name in classifier_rule_names() {
        let (explanation, suggestions) = pack.rule_guidance(name);
        let explanation =
            explanation.unwrap_or_else(|| panic!("classifier rule {name} has no explanation"));
        assert!(
            !explanation.contains(PLACEHOLDER),
            "classifier rule {name} resolves to the placeholder"
        );
        assert!(
            ACCEPTED_FORMS.iter().any(|form| explanation.contains(form)),
            "classifier rule {name} names no command dcg accepts: {explanation}"
        );
        assert!(
            !suggestions.is_empty(),
            "classifier rule {name} offers no safer alternative"
        );
        for suggestion in suggestions {
            assert!(
                !suggestion.command.contains("--maxdepth"),
                "{name}: find takes -maxdepth, not --maxdepth"
            );
        }
    }
}

#[test]
fn classifier_rule_explanations_are_distinct() {
    let pack = create_pack();
    let mut seen: Vec<(&str, &str)> = Vec::new();
    for name in classifier_rule_names() {
        let explanation = pack.rule_guidance(name).0.expect("explanation");
        if let Some((other, _)) = seen.iter().find(|(_, text)| *text == explanation) {
            panic!("{name} reuses the explanation authored for {other}");
        }
        seen.push((name, explanation));
    }
}

#[test]
fn classifier_only_guidance_covers_exactly_the_pattern_less_rules() {
    let pack = create_pack();
    for name in classifier_rule_names() {
        let has_pattern = pack
            .destructive_patterns
            .iter()
            .any(|pattern| pattern.name == Some(name));
        let has_table_row = classifier_rule_guidance(name).is_some();
        assert!(
            has_pattern != has_table_row,
            "{name}: pattern={has_pattern} table={has_table_row}; exactly one must hold"
        );
    }
    assert!(classifier_rule_guidance("no-such-rule").is_none());
}

#[test]
fn classifier_rule_name_list_mirrors_the_constants() {
    let declared = [
        RM_RF_ROOT_HOME_NAME,
        RM_R_F_SEPARATE_ROOT_HOME_NAME,
        RM_RECURSIVE_FORCE_ROOT_HOME_NAME,
        RM_RF_GENERAL_NAME,
        RM_R_F_SEPARATE_NAME,
        RM_RECURSIVE_FORCE_NAME,
        RM_RECURSIVE_ROOT_HOME_NAME,
        RM_BARE_GLOB_NAME,
        RM_BARE_GLOB_ROOT_NAME,
        RM_RECURSIVE_GENERAL_NAME,
        RM_RECURSIVE_UNVERIFIED_NAME,
        POWERSHELL_REMOVE_ITEM_RECURSIVE_NAME,
    ];
    let names = classifier_rule_names();
    assert_eq!(declared.len(), names.len());
    for name in declared {
        assert!(names.contains(&name), "{name} is not listed");
    }
}

#[test]
fn rm_suggestions_no_longer_advertise_linux_trash_on_macos() {
    let pack = create_pack();
    let trash_rules = [RM_RF_GENERAL_NAME, RM_RECURSIVE_GENERAL_NAME];
    for name in trash_rules {
        let (_, suggestions) = pack.rule_guidance(name);
        assert!(
            suggestions.iter().any(|suggestion| {
                suggestion.platform == Platform::MacOS
                    && suggestion.command.contains("~/.Trash")
            }),
            "{name} offers no macOS trash suggestion"
        );
    }
}

#[test]
fn bare_glob_rm_is_denied_and_reviewable_shapes_stay_allowed() {
    let pack = create_pack();
    for (command, rule) in [
        ("rm -f *", RM_BARE_GLOB_NAME),
        ("rm *", RM_BARE_GLOB_NAME),
        ("rm -f ./*", RM_BARE_GLOB_NAME),
        ("rm -fv *", RM_BARE_GLOB_NAME),
        ("cd /srv/app && rm -f *", RM_BARE_GLOB_NAME),
        ("rm /*", RM_BARE_GLOB_ROOT_NAME),
        ("rm -f /*", RM_BARE_GLOB_ROOT_NAME),
    ] {
        let matched = pack
            .check(command)
            .unwrap_or_else(|| panic!("{command} must be denied"));
        assert_eq!(matched.name, Some(rule), "{command}");
        assert!(
            matched.explanation.is_some(),
            "{command}: bare-glob denial must carry guidance"
        );
    }

    for command in [
        "rm *.log",
        "rm -f *.env",
        "rm build/*",
        "rm -f build/*",
        "rm '*'",
        "rm \"*\"",
        "rm -i *",
        "rm ./file-one ./file-two",
        "rm -f notes.txt",
        "echo *",
        "ls *",
    ] {
        assert!(
            pack.check(command).is_none(),
            "{command} must stay allowed, matched {:?}",
            pack.check(command).and_then(|matched| matched.name)
        );
    }

    assert_eq!(
        pack.check("rm -rf *").and_then(|matched| matched.name),
        Some(RM_RF_GENERAL_NAME)
    );
}
