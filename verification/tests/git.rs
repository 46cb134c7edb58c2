//! What the Git pack finds, and what it lets through.

use command_guard::git::create_pack;
use command_guard::git::alias::{InvokedGitAliasDecision, git_subcommand_token_is_dispatchable, shell_alias_args_cross_function_scope};
use command_guard::git::branch::{branch_command_decision, branch_command_decision_in_dialect, dynamic_git_branch_may_mutate};
use command_guard::git::options::BranchCommandDecision;
use command_guard::git::control::command_after_posix_control_prefixes;
use command_guard::git::cross::invoked_visible_git_alias_in_dialect;
use command_guard::git::semantic::{command_executes_git_in_dialect, git_semantic_scan_required};
use command_guard::git::view::syntax_view_in_dialect;
use command_guard::pack::{Pack, Severity};
use command_guard::shell::token::ShellDialect;

/// A command that the pack finds, for a reason that holds the given words.
fn assert_blocks(pack: &Pack, command: &str, reason: &str) {
    match pack.check(command) {
        Some(found) => assert!(
            found.reason.contains(reason),
            "'{command}' is blocked for another reason: {}",
            found.reason
        ),
        None => panic!("'{command}' must be blocked"),
    }
}

/// A command that the pack finds, with the given severity.
fn assert_blocks_with_severity(pack: &Pack, command: &str, severity: Severity) {
    match pack.check(command) {
        Some(found) => assert_eq!(found.severity, severity, "severity of '{command}'"),
        None => panic!("'{command}' must be blocked"),
    }
}

/// A command that the pack finds by the given rule.
fn assert_blocks_with_pattern(pack: &Pack, command: &str, name: &str) {
    match pack.check(command) {
        Some(found) => assert_eq!(found.name, Some(name), "rule for '{command}'"),
        None => panic!("'{command}' must be blocked"),
    }
}

/// A command that a safe pattern of the pack clears.
fn assert_safe_pattern_matches(pack: &Pack, command: &str) {
    assert!(pack.matches_safe(command), "'{command}' must match a safe pattern");
}

/// A command that the pack has nothing to say of.
fn assert_no_match(pack: &Pack, command: &str) {
    if let Some(found) = pack.check(command) {
        panic!("'{command}' must not match, but met {:?}", found.name);
    }
}

/// A command that the pack lets through.
fn assert_allows(pack: &Pack, command: &str) {
    if let Some(found) = pack.check(command) {
        panic!("'{command}' must be allowed, but met {:?}", found.name);
    }
}

/// Commands that the pack lets through.
fn test_batch_allows(pack: &Pack, commands: &[&str]) {
    for command in commands {
        assert_allows(pack, command);
    }
}

/// Every pattern of the pack is one that the matcher takes.
fn assert_patterns_compile(pack: &Pack) {
    for pattern in &pack.safe_patterns {
        assert!(pattern.regex.is_compiled(), "safe pattern {}", pattern.name);
    }
    for pattern in &pack.destructive_patterns {
        assert!(pattern.regex.is_compiled(), "rule {:?}", pattern.name);
    }
}

/// Every rule of the pack says why.
fn assert_all_patterns_have_reasons(pack: &Pack) {
    for pattern in &pack.destructive_patterns {
        assert!(!pattern.reason.is_empty(), "rule {:?}", pattern.name);
    }
}

/// No two safe patterns, and no two rules, of the pack have one name.
fn assert_unique_pattern_names(pack: &Pack) {
    for (i, pattern) in pack.safe_patterns.iter().enumerate() {
        for other in &pack.safe_patterns[i + 1..] {
            assert_ne!(pattern.name, other.name);
        }
    }
    for (i, pattern) in pack.destructive_patterns.iter().enumerate() {
        for other in &pack.destructive_patterns[i + 1..] {
            assert!(pattern.name.is_none() || pattern.name != other.name, "{:?}", pattern.name);
        }
    }
}

/// The pack answers for a command in a moment.
fn assert_matches_within_budget(pack: &Pack, command: &str) {
    let start = std::time::Instant::now();
    let _ = pack.check(command);
    let spent = start.elapsed();
    assert!(spent.as_millis() < 500, "took {spent:?}");
}

#[test]
fn powershell_expression_statement_is_not_a_git_invocation() {
    for command in [
        "\"$X\" \"$Y\"",
        "\"$BIN\" run \"$ARG\"",
        "\"$X\" y",
        "$X $Y",
        "\"$X\" -D",
        "\"$env:TOOL\" \"$env:ARG\"",
        "$x = \"$Y\" \"$Z\"",
    ] {
        assert!(
            !command_executes_git_in_dialect(command, ShellDialect::PowerShell),
            "expression statement must not execute git: {command}"
        );
        assert!(
            !dynamic_git_branch_may_mutate(command, ShellDialect::PowerShell),
            "expression statement must not reach branch mutation: {command}"
        );
        assert_ne!(
            branch_command_decision_in_dialect(command, ShellDialect::PowerShell),
            BranchCommandDecision::Destructive,
            "expression statement must not be a destructive branch command: {command}"
        );
    }
}

#[test]
fn powershell_expression_shortcut_excludes_invoking_shapes() {
    assert_eq!(
        branch_command_decision_in_dialect("$x = git branch -D main", ShellDialect::PowerShell),
        BranchCommandDecision::Destructive,
        "assignment RHS is a real invocation and must stay destructive"
    );
    for command in [
        "$(git branch -D main)",
        "\"$(git branch -D main)\"",
        "@(git branch -D main)",
    ] {
        assert!(
            command_executes_git_in_dialect(command, ShellDialect::PowerShell),
            "subexpression statements keep the conservative treatment: {command}"
        );
    }
}

#[test]
fn quoted_dynamic_executable_with_dynamic_argument_is_unknown_program() {
    for command in ["\"$X\" \"$Y\"", "\"$BIN\" run \"$ARG\"", "$X $Y"] {
        for dialect in [
            ShellDialect::Posix,
            ShellDialect::PowerShell,
            ShellDialect::Cmd,
            ShellDialect::Unknown,
        ] {
            let decision = branch_command_decision_in_dialect(command, dialect);
            assert!(
                !matches!(
                    decision,
                    BranchCommandDecision::Destructive
                        | BranchCommandDecision::DestructiveDynamic
                ),
                "dynamic executable without git evidence must not be branch-destructive: {command} ({dialect:?}) -> {decision:?}"
            );
        }
    }
}

#[test]
fn unbounded_dynamic_executable_without_git_evidence_is_not_branch() {
    for command in [
        "s=s.replace('a `x` b', 'c')",
        "s=s.replace(a `x` b, c)",
        "$cmd $arg",
        "s=s.replace('a $(x) b', 'c')",
        "s=`echo hi`",
        "print('a `x` b', 'c')",
    ] {
        for dialect in [ShellDialect::Unknown, ShellDialect::Posix] {
            let decision = branch_command_decision_in_dialect(command, dialect);
            assert!(
                !matches!(
                    decision,
                    BranchCommandDecision::Destructive
                        | BranchCommandDecision::DestructiveDynamic
                ),
                "no git evidence, must not deny as git branch: {command} ({dialect:?}) -> {decision:?}"
            );
        }
    }
}

#[test]
fn literal_branch_evidence_stays_fail_closed_281() {
    for command in [
        "git branch $(cat f)",
        "git branch -D $BR",
        "$(producer) branch -d feature",
    ] {
        for dialect in [ShellDialect::Unknown, ShellDialect::Posix] {
            assert_eq!(
                branch_command_decision_in_dialect(command, dialect),
                BranchCommandDecision::DestructiveDynamic,
                "literal branch evidence must stay denied: {command} ({dialect:?})"
            );
        }
    }
}

#[test]
fn wildcard_basename_executable_supplies_no_git_evidence_360() {
    for command in [
        "/* *",
        "/* */",
        "/** Default language for new articles */",
        "/? *",
        "./* *",
        "lib/* *",
        "/[ab]* *",
        "/* b*",
        "dir/$X $sub",
    ] {
        for dialect in [ShellDialect::Unknown, ShellDialect::Posix] {
            let decision = branch_command_decision_in_dialect(command, dialect);
            assert!(
                !matches!(
                    decision,
                    BranchCommandDecision::Destructive
                        | BranchCommandDecision::DestructiveDynamic
                ),
                "wildcard basename is no git evidence: {command} ({dialect:?}) -> {decision:?}"
            );
        }
    }
}

#[test]
fn python_heredoc_with_jsdoc_body_is_not_a_branch_command_360() {
    let command = "cd /tmp/proj && python3 - <<'PY'\npairs = [\n    ('src/settings.ts', '/** Default language for new articles */', '/** Default locale */'),\n]\nfor path, old, new in pairs:\n    text = open(path).read()\n    open(path, 'w').write(text.replace(old, new))\nPY";
    for dialect in [ShellDialect::Unknown, ShellDialect::Posix] {
        let decision = branch_command_decision_in_dialect(command, dialect);
        assert!(
            !matches!(
                decision,
                BranchCommandDecision::Destructive | BranchCommandDecision::DestructiveDynamic
            ),
            "python heredoc body is not a git branch command: ({dialect:?}) -> {decision:?}"
        );
    }
}

#[test]
fn glob_directory_with_literal_git_basename_stays_denied_361() {
    for command in [
        "/usr/*/git branch -D main",
        "/usr/*/git branch $name",
        "/*/bin/git branch -D main",
        "/opt/?/git branch $name",
        "$PREFIX/*/git branch -D main",
    ] {
        for dialect in [ShellDialect::Unknown, ShellDialect::Posix] {
            let decision = branch_command_decision_in_dialect(command, dialect);
            assert!(
                matches!(
                    decision,
                    BranchCommandDecision::Destructive
                        | BranchCommandDecision::DestructiveDynamic
                ),
                "literal git basename must stay fail-closed: {command} ({dialect:?}) -> {decision:?}"
            );
        }
    }
}

#[test]
fn literal_mutation_flags_after_wildcard_executable_stay_denied_360() {
    for command in [
        "/* -D main",
        "/* -d feature",
        "/* --delete feature",
        "/* --force --delete feature",
        "/* -M old new",
        "lib/* -D main",
        "/* $sub -D main",
        "$cmd $sub -D main",
    ] {
        for dialect in [ShellDialect::Unknown, ShellDialect::Posix] {
            assert_eq!(
                branch_command_decision_in_dialect(command, dialect),
                BranchCommandDecision::DestructiveDynamic,
                "literal mutation flags stay denied: {command} ({dialect:?})"
            );
        }
    }
}

#[test]
fn frontend_strip_failure_keeps_git_scan_required() {
    for command in [
        "nice -n $(x) git reset --hard",
        "timeout $(x) git reset --hard",
        "mise exec --cd $(pwd) git reset --hard",
        "mise exec --no-such-flag git reset --hard",
        "sudo nice -n $(x) git reset --hard",
        "nice -n $(x) git branch -D main",
    ] {
        assert!(
            command_executes_git_in_dialect(command, ShellDialect::Posix),
            "frontend bail must keep the wrapped git command scan-required: {command}"
        );
    }
    for command in ["foo exec git reset --hard", "timeout 5 sleep 1"] {
        assert!(
            !command_executes_git_in_dialect(command, ShellDialect::Posix),
            "unknown program argv keeps the documented default: {command}"
        );
    }
}

#[test]
fn branch_creation_with_unresolvable_expansion_uses_dynamic_rule() {
    for command in [
        "git branch backup-$(date +%s)",
        "git branch backup/pre-$(git rev-parse --short HEAD)",
        "git branch $FLAGS",
    ] {
        for dialect in [ShellDialect::Posix, ShellDialect::Unknown] {
            assert_eq!(
                branch_command_decision_in_dialect(command, dialect),
                BranchCommandDecision::DestructiveDynamic,
                "unquoted dynamic branch argv fails closed under the dynamic rule: {command} ({dialect:?})"
            );
        }
    }
}

#[test]
fn branch_creation_safe_spellings_stay_allowed() {
    for command in [
        "git branch mybackup",
        "git branch foo-$(echo x)",
        "git branch \"backup-$(date +%s)\"",
        "git branch \"backup/pre-$(git rev-parse --short HEAD)\"",
        "git branch -- backup-$(date +%s)",
    ] {
        for dialect in [ShellDialect::Posix, ShellDialect::Unknown] {
            let decision = branch_command_decision_in_dialect(command, dialect);
            assert!(
                !matches!(
                    decision,
                    BranchCommandDecision::Destructive
                        | BranchCommandDecision::DestructiveDynamic
                ),
                "safe branch creation spelling must not fail closed: {command} ({dialect:?}) -> {decision:?}"
            );
        }
    }
    for command in [
        "git branch -D main",
        "git branch -d merged",
        "git branch -f main HEAD~1",
    ] {
        assert_eq!(
            branch_command_decision_in_dialect(command, ShellDialect::Posix),
            BranchCommandDecision::Destructive,
            "literal mutation flags stay on branch-force-delete: {command}"
        );
    }
}

#[test]
fn git_test_pack_creation() {
    let pack = create_pack();

    assert_eq!(pack.id, "core.git");
    assert_eq!(pack.name, "Core Git");
    assert!(!pack.description.is_empty());
    assert!(pack.keywords.contains(&"git"));

    assert_patterns_compile(&pack);
    assert_all_patterns_have_reasons(&pack);
    assert_unique_pattern_names(&pack);
}

fn assert_shell_alias(
    command: &str,
    dialect: ShellDialect,
    expected_body: &str,
    expected_args: &[&str],
) {
    let InvokedGitAliasDecision::Shell(alias) =
        invoked_visible_git_alias_in_dialect(command, dialect)
    else {
        panic!("expected visible shell alias: {command}");
    };
    assert_eq!(alias.shell_body, expected_body, "command: {command}");
    assert_eq!(
        alias.invoked_args, expected_args,
        "appended arguments for: {command}"
    );
}

fn assert_expanded_alias(
    command: &str,
    dialect: ShellDialect,
    expected_subcommand: &str,
    expected_args: &[&str],
) {
    let InvokedGitAliasDecision::Expanded(alias) =
        invoked_visible_git_alias_in_dialect(command, dialect)
    else {
        panic!("expected expanded Git alias: {command}");
    };
    assert_eq!(alias.subcommand, expected_subcommand, "command: {command}");
    assert_eq!(alias.arguments, expected_args, "arguments for: {command}");
}

#[test]
fn visible_git_shell_aliases_preserve_body_and_arguments() {
    for command in [
        "git -c 'alias.x=!rm -r ./tree' x",
        "git -calias.x='!rm -r ./tree' x",
        "ALIAS_BODY='!rm -r ./tree' git --config-env=alias.x=ALIAS_BODY x",
        "ALIAS_BODY='!rm -r ./tree' git --config-env alias.x=ALIAS_BODY x",
        "GIT_CONFIG_COUNT=1 GIT_CONFIG_KEY_0=alias.x GIT_CONFIG_VALUE_0='!rm -r ./tree' git x",
    ] {
        assert_shell_alias(command, ShellDialect::Posix, "rm -r ./tree", &[]);
    }
    assert_shell_alias(
        "git -c 'alias.x=!rm -r' x ./tree",
        ShellDialect::Posix,
        "rm -r",
        &["./tree"],
    );
    assert_shell_alias(
        "git -c 'alias.x=!rm' x -r ./tree",
        ShellDialect::Posix,
        "rm",
        &["-r", "./tree"],
    );
    assert_shell_alias(
        "git -c alias.x=y -c 'alias.y=!rm -r ./tree' x",
        ShellDialect::Posix,
        "rm -r ./tree",
        &[],
    );
    assert_shell_alias(
        "git -c 'alias.x=!f(){ rm -r ./tree; }; f' x",
        ShellDialect::Posix,
        "f(){ rm -r ./tree; }; f",
        &[],
    );
    assert_shell_alias(
        "git -c \"alias.x=!sh -c 'rm -r ./tree | tee /tmp/log'\" x",
        ShellDialect::Posix,
        "sh -c 'rm -r ./tree | tee /tmp/log'",
        &[],
    );
}

#[test]
fn visible_git_alias_resolution_is_bounded_and_last_definition_wins() {
    for command in [
        "git -c alias.x=x x",
        "git -c alias.x=y -c alias.y=x x",
        "git -c 'alias.x=!rm -r ./tree' $alias",
        "git -c \"alias.$name=!rm -r ./tree\" x",
        "git -c \"alias.x=!rm $target\" x",
        "git -c 'alias.x=!f() { git branch \"$@\"; }; f' x -d victim",
        "git -c 'alias.x=!f () { git branch \"${1}\" \"${2}\"; }; f' x -d victim",
    ] {
        assert_eq!(
            invoked_visible_git_alias_in_dialect(command, ShellDialect::Posix),
            InvokedGitAliasDecision::Unverified,
            "must fail closed: {command}"
        );
    }
    for command in [
        "git -c alias.x=status -c 'alias.x=!rm -r ./tree' status",
        "git -c 'alias.x=!rm -r ./tree' status",
        "MISSING= git --config-env=alias.x=ABSENT x",
    ] {
        assert_eq!(
            invoked_visible_git_alias_in_dialect(command, ShellDialect::Posix),
            InvokedGitAliasDecision::NoMatch,
            "configured-but-inert alias must not match: {command}"
        );
    }
    assert_expanded_alias(
        "git -c 'alias.x=!rm -r ./tree' -c alias.x=status x",
        ShellDialect::Posix,
        "status",
        &[],
    );
    assert_shell_alias(
        "git -c alias.x=status -c 'alias.x=!rm -r ./tree' x",
        ShellDialect::Posix,
        "rm -r ./tree",
        &[],
    );

    let mut command = String::from("git");
    for index in 0..65 {
        command.push_str(&format!(" -c alias.dummy{index}=status"));
    }
    command.push_str(" -c 'alias.x=!rm -r ./tree' x");
    assert_shell_alias(&command, ShellDialect::Posix, "rm -r ./tree", &[]);
}

#[test]
fn shell_alias_function_scope_detection_is_quote_aware() {
    assert!(shell_alias_args_cross_function_scope(
        "f() { git branch \"$@\"; }; f"
    ));
    assert!(shell_alias_args_cross_function_scope(
        "f () { git branch \"${1}\"; }; f"
    ));
    assert!(!shell_alias_args_cross_function_scope(
        "f() { printf '%s' '$@'; }; f"
    ));
    assert!(!shell_alias_args_cross_function_scope("git branch \"$@\""));
}

#[test]
fn non_shell_aliases_expose_exact_expanded_git_argv() {
    for (command, subcommand, arguments) in [
        (
            "git -c 'alias.x=branch -d' x victim",
            "branch",
            &["-d", "victim"][..],
        ),
        ("git -c 'alias.x=reset --hard' x", "reset", &["--hard"][..]),
        ("git -c 'alias.x=clean -fd' x", "clean", &["-fd"][..]),
        (
            "git -c alias.x=y -c 'alias.y=branch -d' x victim",
            "branch",
            &["-d", "victim"][..],
        ),
        (
            "git config alias.x 'branch -d'; git x victim",
            "branch",
            &["-d", "victim"][..],
        ),
        (
            "git config alias.x 'reset --hard'; git x",
            "reset",
            &["--hard"][..],
        ),
        (
            "git config alias.x 'clean -fd'; git x",
            "clean",
            &["-fd"][..],
        ),
    ] {
        assert_expanded_alias(command, ShellDialect::Posix, subcommand, arguments);
    }
    for command in ["git nuke", "git custom-helper", "git -C /tmp/repo nuke"] {
        assert_eq!(
            invoked_visible_git_alias_in_dialect(command, ShellDialect::Posix),
            InvokedGitAliasDecision::Unverified,
            "runtime aliases/helpers make unknown Git commands unverified: {command}"
        );
    }
    for command in ["git status", "git log", "git branch"] {
        assert_eq!(
            invoked_visible_git_alias_in_dialect(command, ShellDialect::Posix),
            InvokedGitAliasDecision::NoMatch,
            "known Git builtins remain directly inspectable: {command}"
        );
    }
}

#[test]
fn active_expansion_is_role_aware_for_git_branch_mutation() {
    for (command, dialect) in [
        ("then git branch -d victim", ShellDialect::Posix),
        ("do ! git branch --delete victim", ShellDialect::Posix),
        ("else { sudo git branch -D victim", ShellDialect::Posix),
        ("g${part}t branch -d victim", ShellDialect::Posix),
        ("git br${part}anch -d victim", ShellDialect::Posix),
        ("git branch -${flag} victim", ShellDialect::Posix),
        ("$cmd branch -d victim", ShellDialect::Posix),
        ("$result = git branch -d victim", ShellDialect::PowerShell),
        ("git br${part}anch -d victim", ShellDialect::PowerShell),
        ("git branch -${flag} victim", ShellDialect::PowerShell),
        ("%G% branch -d victim", ShellDialect::Cmd),
        ("!G! branch --delete victim", ShellDialect::Cmd),
        ("git br%PART%anch -d victim", ShellDialect::Cmd),
        ("git branch -%FLAG% victim", ShellDialect::Cmd),
        ("call g^it branch -^d victim", ShellDialect::Cmd),
        ("@g^it branch -^d victim", ShellDialect::Cmd),
        ("& ('g'+'it') branch -d victim", ShellDialect::PowerShell),
        ("& $('git') branch -d victim", ShellDialect::PowerShell),
    ] {
        let decision = branch_command_decision_in_dialect(command, dialect);
        assert!(
            matches!(
                decision,
                BranchCommandDecision::Destructive | BranchCommandDecision::DestructiveDynamic
            ),
            "active syntax can select destructive Git branch semantics: {command} -> {decision:?}"
        );
    }

    for (command, dialect) in [
        ("command then git branch -d victim", ShellDialect::Posix),
        ("'then' git branch -d victim", ShellDialect::Posix),
        ("then else git branch -d victim", ShellDialect::Posix),
        ("echo g${part}t branch -d victim", ShellDialect::Posix),
        ("git status -${flag}", ShellDialect::Posix),
        ("git branch --format \"$value\"", ShellDialect::Posix),
        ("git branch -- \"$value\"", ShellDialect::Posix),
        ("git branch --format \"$value\"", ShellDialect::PowerShell),
        ("git branch -- \"$value\"", ShellDialect::PowerShell),
        ("$cmd branch -d victim", ShellDialect::PowerShell),
        ("git branch --format \"%VALUE%\"", ShellDialect::Cmd),
        ("git branch -- \"%VALUE%\"", ShellDialect::Cmd),
        ("call g^it branch --format -^d", ShellDialect::Cmd),
        ("@g^it branch --format -^d", ShellDialect::Cmd),
        ("call echo git branch -d victim", ShellDialect::Cmd),
        (
            "$outlook = New-Object -ComObject Outlook.Application\n\
             $mail = $outlook.CreateItem(0)\n\
             $mail.Subject = 'Daily dossier'\n\
             $mail.HTMLBody = Get-Content .\\dossier.html -Raw\n\
             $mail.Send()",
            ShellDialect::PowerShell,
        ),
    ] {
        assert_ne!(
            branch_command_decision_in_dialect(command, dialect),
            BranchCommandDecision::Destructive,
            "active data must not be reinterpreted as Git syntax: {command}"
        );
    }

    for command in [
        "git x -d victim",
        "git x --delete victim",
        "git x -M old new",
    ] {
        assert_eq!(
            branch_command_decision_in_dialect(command, ShellDialect::Posix),
            BranchCommandDecision::Destructive,
            "an unresolved command can be a persistent branch alias: {command}"
        );
    }
    for command in ["git status -d", "git x -- -d", "git x"] {
        assert_ne!(
            branch_command_decision_in_dialect(command, ShellDialect::Posix),
            BranchCommandDecision::Destructive,
            "known builtins and post-terminator data remain safe: {command}"
        );
    }

    let outlook_assignment = "$outlook = New-Object -ComObject Outlook.Application";
    assert!(
        !command_executes_git_in_dialect(outlook_assignment, ShellDialect::PowerShell),
        "a PowerShell assignment must analyze its executable RHS, not its dynamic lvalue"
    );

    for command in [
        "& ('g'+'it') -c 'alias.x=!rm -r ./tree' x",
        "& $('git') -c 'alias.x=!rm -r ./tree' x",
    ] {
        assert_eq!(
            invoked_visible_git_alias_in_dialect(command, ShellDialect::PowerShell),
            InvokedGitAliasDecision::Unverified,
            "PowerShell call-operator expressions must fail closed: {command}"
        );
    }
}

#[test]
fn posix_control_prefixes_expose_only_the_introduced_command() {
    for command in [
        "if git reset --hard",
        "then git reset --hard",
        "elif env FOO=1 git reset --hard",
        "else sudo git reset --hard",
        "while ! git reset --hard",
        "until { git reset --hard",
        "do git reset --hard",
        "{ git reset --hard",
        "! git reset --hard",
        "then { sudo git reset --hard",
        "\\\n then git reset --hard",
        "coproc git reset --hard",
        "then coproc git reset --hard",
        "coproc JOB { git reset --hard",
        "coproc JOB ( git reset --hard )",
        "coproc JOB if git reset --hard",
        "function f { git reset --hard",
        "function f() { git reset --hard",
        "function f if git reset --hard",
        "then function f { git reset --hard",
    ] {
        assert!(
            command_executes_git_in_dialect(command, ShellDialect::Posix),
            "reserved control prefix must expose Git: {command}"
        );
    }

    for command in [
        "command then git reset --hard",
        "env then git reset --hard",
        "sudo then git reset --hard",
        "/usr/bin/then git reset --hard",
        "'then' git reset --hard",
        "ifconfig git reset --hard",
        "then else git reset --hard",
        "do then git reset --hard",
        "coproc echo git reset --hard",
        "coproc JOB { echo git reset --hard",
        "function f { echo git reset --hard",
        "command coproc git reset --hard",
        "env coproc git reset --hard",
        "sudo coproc git reset --hard",
        "/usr/bin/coproc git reset --hard",
        "'coproc' git reset --hard",
    ] {
        assert!(
            !command_executes_git_in_dialect(command, ShellDialect::Posix),
            "argv data or invalid reserved-word order must not expose Git: {command}"
        );
    }

    let mut deeply_nested = String::new();
    for index in 0..80 {
        deeply_nested.push_str(&format!("function f{index} {{ "));
    }
    deeply_nested.push_str("git reset --hard");
    for index in (0..80).rev() {
        deeply_nested.push_str(&format!("; }}; f{index}"));
    }
    let nested_chars: Vec<char> = deeply_nested.chars().collect();
    let (deeply_nested_body, _) =
        command_after_posix_control_prefixes(&nested_chars, ShellDialect::Posix);
    assert!(
        command_executes_git_in_dialect(&deeply_nested, ShellDialect::Posix),
        "valid structural nesting beyond the parser budget must fail closed; parser body: \
         {deeply_nested_body:?}"
    );
}

#[test]
fn visible_git_alias_state_flows_across_shell_segments() {
    assert_shell_alias(
        "git config alias.x '!rm -r ./tree'; git x",
        ShellDialect::Posix,
        "rm -r ./tree",
        &[],
    );
    for command in [
        "git config alias.x 'reset --hard'; if true; then git x; fi",
        "git config alias.x '!rm -r ./tree'; while true; do git x; done",
    ] {
        assert_eq!(
            invoked_visible_git_alias_in_dialect(command, ShellDialect::Posix),
            InvokedGitAliasDecision::Unverified,
            "control-flow alias invocation must fail closed: {command}"
        );
    }
    assert_shell_alias(
        "export GIT_CONFIG_COUNT=1; export GIT_CONFIG_KEY_0=alias.x; export GIT_CONFIG_VALUE_0='!rm -r ./tree'; git x",
        ShellDialect::Posix,
        "rm -r ./tree",
        &[],
    );
    assert_shell_alias(
        "set GIT_CONFIG_COUNT=1 & set GIT_CONFIG_KEY_0=alias.x & set \"GIT_CONFIG_VALUE_0=!rm -r ./tree\" & git x",
        ShellDialect::Cmd,
        "rm -r ./tree",
        &[],
    );
    assert_shell_alias(
        "$env:GIT_CONFIG_COUNT='1'; $env:GIT_CONFIG_KEY_0='alias.x'; $env:GIT_CONFIG_VALUE_0='!rm -r ./tree'; git x",
        ShellDialect::PowerShell,
        "rm -r ./tree",
        &[],
    );
    assert_shell_alias(
        "$Env:GIT_CONFIG_COUNT = '1'; $ENV:GIT_CONFIG_KEY_0 = 'alias.x'; $env:GIT_CONFIG_VALUE_0 = '!rm -r ./tree'; git x",
        ShellDialect::PowerShell,
        "rm -r ./tree",
        &[],
    );
    assert_shell_alias(
        "export GIT_CONFIG_COUNT GIT_CONFIG_KEY_0 GIT_CONFIG_VALUE_0; GIT_CONFIG_COUNT=1; GIT_CONFIG_KEY_0=alias.x; GIT_CONFIG_VALUE_0='!rm -r ./tree'; git x",
        ShellDialect::Posix,
        "rm -r ./tree",
        &[],
    );
    assert_expanded_alias(
        "git config alias.x status; git x",
        ShellDialect::Posix,
        "status",
        &[],
    );
    let removed = "git config alias.x '!rm -r ./tree' && git config --unset alias.x && git x";
    assert_eq!(
        invoked_visible_git_alias_in_dialect(removed, ShellDialect::Posix),
        InvokedGitAliasDecision::Unverified,
        "unknown helper namespace remains unverified after alias removal: {removed}"
    );
    for command in [
        "git config alias.x '!rm -r ./tree'; false && git config alias.x status; git x",
        "export GIT_CONFIG_COUNT=1; export GIT_CONFIG_KEY_0=alias.x; export GIT_CONFIG_VALUE_0='!rm -r ./tree'; false && GIT_CONFIG_VALUE_0=status; git x",
        "export GIT_CONFIG_COUNT=1; export GIT_CONFIG_KEY_0=alias.x; export GIT_CONFIG_VALUE_0='!rm -r ./tree'; (GIT_CONFIG_VALUE_0=status); git x",
        "export GIT_CONFIG_COUNT=1; export GIT_CONFIG_KEY_0=alias.x; export GIT_CONFIG_VALUE_0='!rm -r ./tree'; GIT_CONFIG_VALUE_0=status | cat; git x",
        "export GIT_CONFIG_COUNT=1; export GIT_CONFIG_KEY_0=alias.x; export GIT_CONFIG_VALUE_0='!rm -r ./tree'; f() { GIT_CONFIG_VALUE_0=status; }; git x",
        "export GIT_CONFIG_COUNT=1; export GIT_CONFIG_KEY_0=alias.x; export GIT_CONFIG_VALUE_0='!rm -r ./tree'; while false; do GIT_CONFIG_VALUE_0=status; done; git x",
        "export GIT_CONFIG_COUNT=1; export GIT_CONFIG_KEY_0=alias.x; export GIT_CONFIG_VALUE_0='!rm -r ./tree'; case no in yes) GIT_CONFIG_VALUE_0=status ;; esac; git x",
    ] {
        assert_eq!(
            invoked_visible_git_alias_in_dialect(command, ShellDialect::Posix),
            InvokedGitAliasDecision::Unverified,
            "conditional alias-state mutation must not be flattened: {command}"
        );
    }
    let skipped_multiline_override = "export GIT_CONFIG_COUNT=1
export GIT_CONFIG_KEY_0=alias.x
export GIT_CONFIG_VALUE_0='!printf EXECUTED'
if false
then
GIT_CONFIG_VALUE_0=status
fi
git x";
    assert_eq!(
        invoked_visible_git_alias_in_dialect(skipped_multiline_override, ShellDialect::Posix),
        InvokedGitAliasDecision::Unverified,
        "a skipped multiline override must not hide the dangerous alias"
    );
    assert_expanded_alias(
        "export GIT_CONFIG_COUNT=1
export GIT_CONFIG_KEY_0=alias.x
export GIT_CONFIG_VALUE_0='!printf EXECUTED'
GIT_CONFIG_VALUE_0=status
git x",
        ShellDialect::Posix,
        "status",
        &[],
    );
    assert_expanded_alias(
        "git config alias.x '!rm -r ./tree'; git config alias.x status; git x",
        ShellDialect::Posix,
        "status",
        &[],
    );
}

#[test]
fn dynamic_shell_executables_receive_a_conservative_git_view() {
    for (command, dialect) in [
        (
            "& @('noop', ('g'+'it'))[1] reset --hard",
            ShellDialect::PowerShell,
        ),
        ("& $G reset --hard", ShellDialect::PowerShell),
        ("%G% reset --hard", ShellDialect::Cmd),
        ("g${PART}t reset --hard", ShellDialect::Posix),
    ] {
        assert!(
            git_semantic_scan_required(command, dialect),
            "dynamic executable must force core.git candidate selection: {command}"
        );
        assert!(
            command_executes_git_in_dialect(command, dialect),
            "dynamic executable must conservatively remain Git-capable: {command}"
        );
        let view = syntax_view_in_dialect(command, dialect)
            .unwrap_or_else(|| panic!("dynamic executable needs a syntax view: {command}"));
        assert_eq!(view, "git reset --hard", "unexpected view for {command}");
        assert_eq!(
            create_pack()
                .matches_destructive(&view)
                .and_then(|matched| matched.name),
            Some("reset-hard"),
            "semantic view must reach the destructive reset rule: {command}"
        );
    }

    for (command, dialect) in [
        ("echo '$G reset --hard'", ShellDialect::Posix),
        ("echo '$G reset --hard'", ShellDialect::PowerShell),
    ] {
        assert!(
            !git_semantic_scan_required(command, dialect),
            "single-quoted data must not force a semantic scan: {command}"
        );
    }
}

#[test]
fn test_reset_hard_critical() {
    let pack = create_pack();

    assert_blocks_with_severity(&pack, "git reset --hard", Severity::Critical);
    assert_blocks_with_pattern(&pack, "git reset --hard", "reset-hard");
    assert_blocks(&pack, "git reset --hard HEAD", "destroys uncommitted");
    assert_blocks(&pack, "git reset --hard HEAD~1", "destroys uncommitted");
    assert_blocks(
        &pack,
        "git reset --hard origin/main",
        "destroys uncommitted",
    );
}

#[test]
fn test_clean_force_critical() {
    let pack = create_pack();

    assert_blocks_with_severity(&pack, "git clean -f", Severity::Critical);
    assert_blocks_with_pattern(&pack, "git clean -f", "clean-force");
    assert_blocks(&pack, "git clean -fd", "removes untracked files");
    assert_blocks(&pack, "git clean -xf", "removes untracked files");
}

#[test]
fn test_push_force_critical() {
    let pack = create_pack();

    assert_blocks_with_severity(&pack, "git push --force", Severity::Critical);
    assert_blocks_with_severity(&pack, "git push -f", Severity::Critical);
    assert_blocks(
        &pack,
        "git push origin main --force",
        "destroy remote history",
    );
    assert_blocks(
        &pack,
        "git push --force origin main",
        "destroy remote history",
    );

    assert_blocks_with_severity(&pack, "git push -uf origin main", Severity::Critical);
    assert_blocks_with_severity(&pack, "git push -fv origin main", Severity::Critical);
    assert_blocks_with_severity(&pack, "git push -fuv origin main", Severity::Critical);
    assert_blocks_with_severity(&pack, "git push -vf origin main", Severity::Critical);

    assert!(
        pack.check("git push origin feature-f").is_none(),
        "branch named `feature-f` must not be treated as a force flag"
    );
    assert!(
        pack.check("git push origin hotfix-fallback").is_none(),
        "branch named `hotfix-fallback` must not be treated as a force flag"
    );
    assert!(
        pack.check("git push origin feature--force").is_none(),
        "branch name `feature--force` must not trigger push-force-long"
    );

    assert!(
        pack.check("git push --force-with-lease origin main")
            .is_none(),
        "--force-with-lease is the safer alternative and must not be blocked"
    );
    assert!(
        pack.check("git push --force-with-lease --force-if-includes origin main")
            .is_none(),
        "--force-with-lease --force-if-includes must not be blocked"
    );

    for cmd in [
        "git push origin main && echo done --force",
        "git push origin main; echo --force",
        "git push origin main || echo --force",
        "git push origin main | tee log --force",
        "branch=$(git rev-parse HEAD) && git push --force-with-lease origin main",
        "echo `git push origin main` && true --force",
    ] {
        assert!(
            pack.check(cmd).is_none(),
            "push-force must not span shell boundaries; cmd={cmd}"
        );
    }

    for cmd in [
        "git fetch && git push --force origin main",
        "git fetch; git push -f origin main",
        "git fetch || git push --force",
    ] {
        assert!(
            pack.check(cmd).is_some(),
            "a real force-push statement after a separator must still be blocked; cmd={cmd}"
        );
    }
}

#[test]
fn test_stash_clear_critical() {
    let pack = create_pack();

    assert_blocks_with_severity(&pack, "git stash clear", Severity::Critical);
    assert_blocks_with_pattern(&pack, "git stash clear", "stash-clear");
}

#[test]
fn test_checkout_discard_high() {
    let pack = create_pack();

    assert_blocks_with_severity(&pack, "git checkout -- file.txt", Severity::High);
    assert_blocks_with_pattern(&pack, "git checkout -- file.txt", "checkout-discard");
    assert_blocks(&pack, "git checkout -- .", "discards uncommitted changes");
}

#[test]
fn show_redirect_onto_same_path_is_denied_373() {
    let pack = create_pack();

    for cmd in [
        "git show origin/main:Directory.Packages.props > Directory.Packages.props",
        "git show HEAD~1:src/config.rs > src/config.rs",
        "git show origin/main:README.md >> README.md",
        "git show origin/main:README.md >| README.md",
        "git show HEAD:a.txt > ./a.txt",
        "git show HEAD:a.txt > a.txt && cargo build",
    ] {
        assert_blocks_with_pattern(&pack, cmd, "show-redirect-overwrite-source");
        assert_blocks_with_severity(&pack, cmd, Severity::High);
    }

    for cmd in [
        "git show origin/main:Directory.Packages.props",
        "git show HEAD~1:src/config.rs",
        "git show origin/main:README.md > README.md.from-ref",
        "git show origin/main:README.md > /tmp/README.md",
        "git show HEAD:a.txt > b.txt",
        "git show HEAD:a.txt | less",
        "git show HEAD:a.txt | grep TODO",
    ] {
        assert!(
            pack.check(cmd)
                .is_none_or(|hit| hit.name != Some("show-redirect-overwrite-source")),
            "safe form must not match show-redirect-overwrite-source: {cmd:?}"
        );
    }
}

#[test]
fn test_restore_worktree_high() {
    let pack = create_pack();

    assert_blocks_with_severity(&pack, "git restore file.txt", Severity::High);
    assert_blocks(
        &pack,
        "git restore --worktree file.txt",
        "discards uncommitted",
    );
    assert_blocks(&pack, "git restore .", "discards uncommitted");
    assert_blocks(
        &pack,
        "git restore --staged --worktree file.txt",
        "discards uncommitted",
    );
    assert_blocks(&pack, "git restore -S -W file.txt", "discards uncommitted");
    assert_blocks(&pack, "git restore . --worktree", "discards uncommitted");
}

#[test]
fn posix_test_brackets_are_not_branch_mutations() {
    let pack = create_pack();
    for cmd in [
        "[ -f x ]",
        "[ -d x ]",
        "[ -d /some/dir/.git ]",
        "[ -d \"$p/.git\" ]",
        "[[ -f x ]]",
        "[[ -d \"$repo/.git\" ]]",
        "[ -f .git/config ]",
        "test -d \"$p/.git\"",
    ] {
        assert!(
            pack.check(cmd).is_none(),
            "POSIX test must not be blocked: {cmd}"
        );
        assert!(
            matches!(
                branch_command_decision(cmd),
                BranchCommandDecision::NotBranch
            ),
            "POSIX test must not parse as a branch command: {cmd}"
        );
    }

    assert!(
        matches!(
            branch_command_decision("gi[t] branch -D feature"),
            BranchCommandDecision::Destructive | BranchCommandDecision::DestructiveDynamic
        ),
        "closed bracket expression in executable position must stay fail-closed"
    );
}

#[test]
fn branch_regex_walkers_do_not_bridge_newlines() {
    let pack = create_pack();
    for cmd in [
        "git branch --list\n[ -d \"$p/.git\" ] && echo x",
        "git branch --show-current\ntest -d \"$p/.git\"",
        "git branch\ncat -d file",
    ] {
        assert!(
            pack.check(cmd).is_none(),
            "newline-separated benign lines must not combine into a branch deletion: {cmd}"
        );
    }
}

#[test]
fn test_branch_delete_and_force_update_high() {
    let pack = create_pack();

    assert_blocks_with_severity(&pack, "git branch -d feature", Severity::High);
    assert_blocks_with_severity(&pack, "git branch -D feature", Severity::High);
    assert_blocks_with_pattern(&pack, "git branch -d feature", "branch-force-delete");
    assert_blocks_with_pattern(&pack, "git branch -D feature", "branch-force-delete");
    assert_blocks_with_pattern(&pack, "git branch --delete feature", "branch-force-delete");
    assert_blocks_with_pattern(&pack, "git branch --force feature", "branch-force-delete");
    assert_blocks_with_pattern(&pack, "git branch -f feature", "branch-force-delete");
    for cmd in [
        "git branch -M old existing",
        "git branch -C old existing",
        "git branch --d feature",
        "git branch --del feature",
        "git branch --dele feature",
        "git branch --delet feature",
        "git branch --forc feature",
        "git branch --no-format -d feature",
        "git branch --no-sort -d feature",
        "git branch --no-points-at -d feature",
        "git branch --no-set-upstream-to -d feature",
        "git branch --set-upstream -d feature",
        "git branch --merged HEAD -d feature",
        "git branch --contains HEAD --delete feature",
        "git branch --no-delete -d feature",
        "git branch --no-force -f feature",
        "git branch -D --no-delete --no-force feature",
        "git --no-literal-pathspecs branch --del feature",
        "git --shallow-file shallow branch -d feature",
        "git --attr-source HEAD branch --del feature",
        "FOO=bar git branch --del feature",
        "exec git branch --del feature",
        "gIt.ExE branch -d feature",
        "git-branch -d feature",
        "/usr/lib/git-core/git-branch --delete feature",
        "git -c alias.x=branch x -d feature",
        "git -calias.x=branch x --delete feature",
        "git -c alias.x=y -c alias.y=branch x -D feature",
        "git -c 'alias.x=!git branch' x -d feature",
        "GIT_CONFIG_COUNT=1 GIT_CONFIG_KEY_0=alias.x GIT_CONFIG_VALUE_0=branch git x -d feature",
        "ALIAS_COMMAND=branch git --config-env=alias.x=ALIAS_COMMAND x -d feature",
        r"& 'C:\Program Files\Git\cmd\git.exe' branch -d feature",
    ] {
        assert_blocks_with_pattern(&pack, cmd, "branch-force-delete");
    }

    assert_blocks_with_pattern(
        &pack,
        "git branch -Dr origin/feature",
        "branch-force-delete",
    );
    assert_blocks_with_pattern(&pack, "git branch -vD feature", "branch-force-delete");
    assert_blocks_with_pattern(&pack, "git branch -vd feature", "branch-force-delete");
    assert_blocks_with_pattern(&pack, "git branch -fv feature", "branch-force-delete");
    assert_blocks_with_pattern(&pack, "git branch -vdf feature", "branch-force-delete");
    assert_blocks_with_pattern(
        &pack,
        "sudo git -C /tmp/repo branch -d feature",
        "branch-force-delete",
    );
    assert_blocks_with_pattern(
        &pack,
        "git --no-pager branch --delete feature",
        "branch-force-delete",
    );
    assert_blocks_with_pattern(
        &pack,
        "git branch --format -d --delete feature",
        "branch-force-delete",
    );
    assert!(
        pack.check("git branch -a").is_none(),
        "listing all branches must not be blocked"
    );
    assert!(
        pack.check("git branch --merged").is_none(),
        "merged-branch listing must not be blocked"
    );
    assert!(
        pack.check("git branch feature").is_none(),
        "ordinary branch creation must not be blocked"
    );

    for cmd in [
        "git push --force-with-lease origin main",
        "git push --force-if-includes origin HEAD:main",
        "git push --force-with-lease=main:abc123 origin",
    ] {
        assert!(
            pack.check(cmd).is_none(),
            "`--force-with-lease` / `--force-if-includes` must not trip branch-force-delete; cmd={cmd}"
        );
    }

    for cmd in [
        "branch=$(git branch --show-current) && git push --force-with-lease origin HEAD:main",
        "git branch --show-current && git push --force-with-lease origin main",
        "git branch --show-current; git push --force-with-lease origin main",
        "git branch --show-current || git push --force-with-lease origin main",
        "git branch --show-current | tee /tmp/branch && git push --force-with-lease",
        "`git branch --show-current` && git push --force-with-lease",
        "git branch --show-current && ls -d",
        "git branch --show-current; printf '%s' --delete",
        "git branch --show-current || echo --force",
    ] {
        assert!(
            pack.check(cmd).is_none(),
            "branch-force-delete must not span shell boundaries; cmd={cmd}"
        );
    }

    for cmd in [
        "git branch --format='%(refname:short) -d'",
        "git branch --format='--delete %(refname:short)'",
        "git branch --format -d",
        "git branch --sort -d",
        "git branch --points-at -d",
        "git branch --set-upstream-to -d",
        "git branch --form -d",
        "git branch --so -d",
        "git branch --poi -d",
        "git branch --merged -d feature",
        "git branch --contains -d feature",
        "git branch --with -d feature",
        "git branch --without --delete feature",
        "git branch -u -d feature",
        "git branch -tdirect",
        "git branch -tinherit",
        "git branch -- -d",
        "git branch --end-of-options -d",
        "git branch --delete --no-delete feature",
        "git branch -d --no-delete feature",
        "git branch --force --no-force feature",
        "git branch --delete=feature",
        "git branch --force=feature",
        "git branch --help -d feature",
        "git branch -dh feature",
        "git branch -hd feature",
        "git help branch -d feature",
        "git --version branch -d feature",
        "git --exec-path branch -d feature",
        "FOO=bar git branch --format -d",
        "time git branch --format -d",
        "git-branch --format -d",
        "/usr/lib/git-core/git-branch --merged -d feature",
        "git -c 'alias.x=branch --format' x -d",
        "git -c alias.x=status x -d feature",
        "git -c alias.x=y -c alias.y=status x -d feature",
        "GIT_CONFIG_COUNT=1 GIT_CONFIG_KEY_0=alias.x GIT_CONFIG_VALUE_0='branch --format' git x -d",
        "ALIAS_COMMAND='branch --format' git --config-env alias.x=ALIAS_COMMAND x -d",
        r"& 'C:\Program Files\Git\cmd\git.exe' branch --format -d",
        r#"git branch --format -d "$(printf feature)""#,
    ] {
        assert!(
            pack.check(cmd).is_none(),
            "quoted format data must not trigger branch deletion; cmd={cmd}"
        );
    }
    assert_blocks_with_pattern(
        &pack,
        "git branch -tdirect -d feature",
        "branch-force-delete",
    );
}

#[test]
fn posix_literal_printf_substitutions_cannot_hide_branch_deletion() {
    let destructive = [
        "g$(printf it) br$(printf anch) -$(printf d) feature",
        "g`printf it` br`printf anch` -`printf d` feature",
        "g$(printf it) branch -d feature",
        "git br$(printf anch) -d feature",
        "git branch -$(printf d) feature",
        "$(printf git) branch -d feature",
        "git $(printf branch) -d feature",
        "git branch --$(printf delete) feature",
        "g$(printf '')it branch -d feature",
    ];
    for command in destructive {
        assert_eq!(
            branch_command_decision_in_dialect(command, ShellDialect::Posix),
            BranchCommandDecision::Destructive,
            "literal command substitution must not hide deletion: {command}"
        );
        assert_eq!(
            branch_command_decision(command),
            BranchCommandDecision::Destructive,
            "unknown callers must conservatively recognize POSIX substitution: {command}"
        );
    }

    for command in [
        "git branch --format $(printf %s -d)",
        "git branch --format \"$(printf %s -d)\"",
    ] {
        assert_eq!(
            branch_command_decision_in_dialect(command, ShellDialect::Posix),
            BranchCommandDecision::NonDestructive,
            "option data must stay non-destructive: {command}"
        );
    }

    let reset_view = syntax_view_in_dialect(
        "g$(printf it) re$(printf set) --ha$(printf rd)",
        ShellDialect::Posix,
    )
    .expect("static printf substitution should produce a syntax view");
    assert_eq!(reset_view, "git reset --hard");

    let inert_view =
        syntax_view_in_dialect("echo \"$(printf 'git reset --hard')\"", ShellDialect::Posix)
            .expect("literal substitution data should produce a non-matching view");
    assert_eq!(inert_view, "__dcg_non_git_command__");
}

#[test]
fn unresolved_posix_substitutions_are_role_aware() {
    for command in [
        "g$(producer) branch -d feature",
        "git br$(producer) -d feature",
        "git branch -$(producer) feature",
        "$(producer) branch -d feature",
        "git $(producer) -d feature",
        "git branch $(producer)",
        "git branch --format $(producer)",
        "/usr/bin/git branch $(producer)",
        "sudo git branch $(producer)",
    ] {
        assert_eq!(
            branch_command_decision_in_dialect(command, ShellDialect::Posix),
            BranchCommandDecision::DestructiveDynamic,
            "dynamic shell output can occupy a destructive syntax role: {command}"
        );
    }

    for command in [
        "echo $(producer)",
        "git branch --format \"$(producer)\"",
        "git branch '$(producer)'",
        r"git branch \$(producer)",
        "git branch -- \"$(producer)\"",
        "git branch -udanger --format \"$(producer)\"",
    ] {
        assert_ne!(
            branch_command_decision_in_dialect(command, ShellDialect::Posix),
            BranchCommandDecision::Destructive,
            "inert or quoted option data must remain safe: {command}"
        );
    }
}

#[test]
fn test_stash_drop_medium() {
    let pack = create_pack();

    assert_blocks_with_severity(&pack, "git stash drop", Severity::Medium);
    assert_blocks(&pack, "git stash drop stash@{0}", "Recoverable");
}

#[test]
fn test_safe_checkout_new_branch() {
    let pack = create_pack();

    assert_safe_pattern_matches(&pack, "git checkout -b feature");
    assert_safe_pattern_matches(&pack, "git checkout -b feature/new-thing");
    assert_allows(&pack, "git checkout -b fix-123");
}

#[test]
fn test_safe_checkout_orphan() {
    let pack = create_pack();

    assert_safe_pattern_matches(&pack, "git checkout --orphan gh-pages");
    assert_allows(&pack, "git checkout --orphan new-root");
}

#[test]
fn test_safe_restore_staged() {
    let pack = create_pack();

    assert_allows(&pack, "git restore --staged file.txt");
    assert_allows(&pack, "git restore -S file.txt");
    assert_allows(&pack, "git restore . --staged");
    assert_allows(&pack, "git restore . -S");
    assert_allows(&pack, "git restore --staged");
    assert_allows(&pack, "git -C /tmp/repo restore . --staged");
}

#[test]
fn test_safe_clean_dry_run() {
    let pack = create_pack();

    assert_allows(&pack, "git clean -n");
    assert_allows(&pack, "git clean -dn");
    assert_allows(&pack, "git clean --dry-run");
}

#[test]
fn test_specificity_safe_git_commands() {
    let pack = create_pack();

    test_batch_allows(
        &pack,
        &[
            "git status",
            "git log",
            "git log --oneline",
            "git diff",
            "git diff --cached",
            "git show HEAD",
            "git branch",
            "git branch -a",
            "git remote -v",
            "git fetch",
            "git pull",
            "git push", // Without --force
            "git add .",
            "git commit -m 'message'",
            "git branch --merged",
        ],
    );
}

#[test]
fn test_specificity_unrelated_commands() {
    let pack = create_pack();

    assert_no_match(&pack, "ls -la");
    assert_no_match(&pack, "cargo build");
    assert_no_match(&pack, "npm install");
    assert_no_match(&pack, "docker run");
}

#[test]
fn test_specificity_substring_not_matched() {
    let pack = create_pack();

    assert_no_match(&pack, "cat .gitignore");
    assert_no_match(&pack, "echo digit");
}

#[test]
fn test_performance_normal_commands() {
    let pack = create_pack();

    assert_matches_within_budget(&pack, "git reset --hard");
    assert_matches_within_budget(&pack, "git push --force origin main");
    assert_matches_within_budget(&pack, "git checkout -b feature/new");
}

#[test]
fn test_performance_pathological_inputs() {
    let pack = create_pack();

    let long_flags = format!("git {}", "-".repeat(500));
    assert_matches_within_budget(&pack, &long_flags);

    let many_spaces = format!("git{}status", " ".repeat(100));
    assert_matches_within_budget(&pack, &many_spaces);
}

#[test]
fn dispatchable_git_subcommand_tokens_are_name_shaped() {
    for token in ["pull", "lg", "foo-bar", "st.sub", "a_b", "x+y", "v2"] {
        assert!(
            git_subcommand_token_is_dispatchable(token),
            "expected {token:?} to be dispatchable"
        );
    }
}

#[test]
fn tokenizer_artifacts_are_not_dispatchable_git_subcommands() {
    for token in [
        "pull;", "pull'", "fetch\"", "", "sub|x", "x&y", "sub>out", "pu ll", "x`y", "$(x)",
    ] {
        assert!(
            !git_subcommand_token_is_dispatchable(token),
            "expected {token:?} to be rejected as a tokenizer artifact"
        );
    }
}
