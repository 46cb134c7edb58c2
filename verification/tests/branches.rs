//! Git commands: options, aliases and expansions, on given values.

use command_guard::git::alias::InvokedGitAliasDecision;
use command_guard::git::branch::{
    branch_command_decision_in_dialect, dynamic_git_branch_may_mutate,
    semantic_branch_argv_may_mutate,
};
use command_guard::git::create_pack;
use command_guard::git::cross::invoked_visible_git_alias_in_dialect;
use command_guard::git::expansion::GitSemanticWord;
use command_guard::git::options::BranchCommandDecision;
use command_guard::git::semantic::{command_executes_git_in_dialect, git_semantic_scan_required};
use command_guard::git::view::{
    rebuilt_git_command, syntax_view_for_pattern_matching, syntax_view_in_dialect,
};
use command_guard::shell::token::ShellDialect;

fn posix(command: &str) -> BranchCommandDecision {
    branch_command_decision_in_dialect(command, ShellDialect::Posix)
}

#[test]
fn long_options_take_back_what_they_can() {
    for command in [
        "git branch -d --no-delete x",
        "git branch --delete --no-del x",
        "git branch -f --no-force x",
        "git branch -d --help x",
        "git branch -d --unknown x",
        "git branch -d --format",
    ] {
        assert_eq!(posix(command), BranchCommandDecision::NonDestructive, "{command}");
    }
    for command in [
        "git branch -D --no-delete x",
        "git branch -M --no-force a b",
        "git branch -C --no-force a b",
        "git branch --no-delete -d x",
        "git branch -d --contains",
        "git branch --forc x",
    ] {
        assert_eq!(posix(command), BranchCommandDecision::Destructive, "{command}");
    }
}

#[test]
fn nothing_counts_behind_the_options() {
    for command in ["git branch -- -D x", "git branch --end-of-options -D x", "git branch -- $x"] {
        assert_eq!(posix(command), BranchCommandDecision::NonDestructive, "{command}");
    }
    for command in ["git branch -D -- x", "git branch -D -- $x"] {
        assert_ne!(posix(command), BranchCommandDecision::NonDestructive, "{command}");
    }
}

#[test]
fn other_commands_are_no_branch_commands() {
    for command in ["ls -d", "git status", "echo git branch -D x", "git log -D", ""] {
        assert_eq!(posix(command), BranchCommandDecision::NotBranch, "{command}");
    }
    assert_eq!(posix("git branch; git branch -D x"), BranchCommandDecision::Unparsed);
}

#[test]
fn an_unbounded_program_needs_literal_evidence() {
    for command in ["$x", "$x y", "$x $y", "$x status $y"] {
        assert!(!dynamic_git_branch_may_mutate(command, ShellDialect::Posix), "{command}");
    }
    for command in ["$x -D main", "$x y --delete z", "$x branch -d z"] {
        assert!(dynamic_git_branch_may_mutate(command, ShellDialect::Posix), "{command}");
    }
    assert!(!dynamic_git_branch_may_mutate("git branch -D x", ShellDialect::Posix));
}

#[test]
fn an_unproven_dialect_is_cautious() {
    assert!(dynamic_git_branch_may_mutate("git branch -%x%", ShellDialect::Cmd));
    assert!(dynamic_git_branch_may_mutate("git branch -%x%", ShellDialect::Unknown));
    assert!(git_semantic_scan_required("%G% reset --hard", ShellDialect::Cmd));
    assert!(git_semantic_scan_required("%G% reset --hard", ShellDialect::Unknown));
    assert!(command_executes_git_in_dialect("anything", ShellDialect::Unknown));
    assert_eq!(
        invoked_visible_git_alias_in_dialect("git -c alias.x=x x", ShellDialect::Unknown),
        InvokedGitAliasDecision::Unverified
    );
}

#[test]
fn the_last_definition_of_an_alias_counts() {
    let decide = |command: &str| invoked_visible_git_alias_in_dialect(command, ShellDialect::Posix);
    match decide("git -c alias.x=status -c alias.y=log -c 'alias.X=branch -d' x a") {
        InvokedGitAliasDecision::Expanded(alias) => {
            assert_eq!(alias.subcommand, "branch");
            assert_eq!(alias.arguments, vec!["-d", "a"]);
        }
        other => panic!("{other:?}"),
    }
    match decide("git -c 'alias.status=!rm -r x' -c alias.x=status x") {
        InvokedGitAliasDecision::Expanded(alias) => assert_eq!(alias.subcommand, "status"),
        other => panic!("{other:?}"),
    }
    match decide("git -c \"alias.$n=status\" x") {
        InvokedGitAliasDecision::Expanded(alias) => assert_eq!(alias.subcommand, "status"),
        other => panic!("{other:?}"),
    }
    assert_eq!(decide("git -c \"alias.$n=!ls\" x"), InvokedGitAliasDecision::Unverified);
    assert_eq!(decide("git -c \"alias.$n=$v\" x"), InvokedGitAliasDecision::Unverified);
    assert_eq!(decide("git -c 'alias.x=\"open' x"), InvokedGitAliasDecision::NoMatch);
    assert_eq!(decide("ls"), InvokedGitAliasDecision::NoMatch);
}

#[test]
fn views_name_git_plainly() {
    assert_eq!(
        syntax_view_in_dialect("g$(printf it) reset --hard", ShellDialect::Posix),
        Some("git reset --hard".to_string())
    );
    let command = "g''it commit -m 'reset --hard'";
    assert_eq!(
        rebuilt_git_command(command, ShellDialect::Posix),
        Some("git commit -m 'reset --hard'".to_string())
    );
    assert_eq!(rebuilt_git_command("ls -l", ShellDialect::Posix), None);
    assert_eq!(rebuilt_git_command(command, ShellDialect::Unknown), None);
    assert_eq!(
        syntax_view_for_pattern_matching(
            command,
            "g''it commit -m ''",
            "git commit -m ''",
            ShellDialect::Posix
        ),
        syntax_view_in_dialect("git commit -m ''", ShellDialect::Posix)
    );
    assert_eq!(
        syntax_view_for_pattern_matching("ls -l", "ls -l", "", ShellDialect::Posix),
        syntax_view_in_dialect("ls -l", ShellDialect::Posix)
    );
}

#[test]
fn a_segment_is_found_wherever_it_stands() {
    let pack = create_pack();
    for command in [
        "git push --force; git status",
        "git status; git push --force",
        "git checkout -b x && git reset --hard",
    ] {
        assert!(pack.check(command).is_some(), "{command}");
    }
    assert!(pack.check("ls -la").is_none());
    assert!(pack.might_match("GIT status"));
    assert!(!pack.might_match("ls"));
}

#[test]
fn plain_branch_commands_are_decided_by_their_arguments() {
    for (line, destructive) in [
        ("", false),
        ("--list", false),
        ("-d victim", true),
        ("-D victim", true),
        ("--delete victim", true),
        ("--del victim", true),
        ("-m old new", false),
        ("-M old new", true),
        ("-C old new", true),
        ("-f main a/b.c_d-1", true),
        ("--force --no-force main", false),
        ("-- -d", false),
        ("--sort -d", false),
        ("--format=x -d y", true),
    ] {
        let words: Vec<GitSemanticWord> = line
            .split_whitespace()
            .map(|w| GitSemanticWord { decoded: w.chars().collect(), dynamic: false, may_split: false })
            .collect();
        assert_eq!(
            semantic_branch_argv_may_mutate(&words, 0, ShellDialect::Posix),
            destructive,
            "{line}"
        );
        let want = if destructive {
            BranchCommandDecision::Destructive
        } else {
            BranchCommandDecision::NonDestructive
        };
        assert_eq!(posix(&format!("git branch {line}")), want, "{line}");
    }
}
