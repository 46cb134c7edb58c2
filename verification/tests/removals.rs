//! Removals: options, operands, exemptions and places, on given values.

use command_guard::filesystem::command::{
    parse_rm_command, parse_rm_command_segment, parse_rm_command_segment_in_dialect,
    parse_rm_command_with_exemptions, parse_rm_segment_in_dialect_with_exemptions,
};
use command_guard::filesystem::create_pack;
use command_guard::filesystem::flags::{dequote_rm_flag_token, Dequoted, Span};
use command_guard::filesystem::guidance::classifier_rule_names;
use command_guard::filesystem::paths::{windows_literal_user_temp_subpath, PathToken, QuoteKind};
use command_guard::filesystem::rules::{
    RM_BARE_GLOB_NAME, RM_RECURSIVE_FORCE_NAME, RM_RECURSIVE_GENERAL_NAME,
    RM_RECURSIVE_ROOT_HOME_NAME, RM_RECURSIVE_UNVERIFIED_NAME, RM_RF_GENERAL_NAME,
    RM_RF_ROOT_HOME_NAME, RM_R_F_SEPARATE_NAME,
};
use command_guard::filesystem::scan::filesystem_keyword_candidate;
use command_guard::filesystem::segment::{
    rm_targets_exempted_for_rule, RmParseDecision, RmParseMatch, TargetExemption,
};
use command_guard::filesystem::stdin::{
    posix_pipeline_group_is_active, prior_posix_exec_redirects_stdin,
};
use command_guard::pack::Severity;
use command_guard::shell::token::ShellDialect;

fn denial(command: &str) -> RmParseMatch {
    match parse_rm_command(command) {
        RmParseDecision::Deny(hit) => hit,
        other => panic!("'{command}' must be denied, got {other:?}"),
    }
}

fn is_allowed(command: &str) -> bool {
    matches!(parse_rm_command(command), RmParseDecision::Allow)
}

fn is_no_match(command: &str) -> bool {
    matches!(parse_rm_command(command), RmParseDecision::NoMatch)
}

#[test]
fn options_are_read_in_every_spelling() {
    for (command, rule) in [
        ("rm -rf ./x", RM_RF_GENERAL_NAME),
        ("rm -fR ./x", RM_RF_GENERAL_NAME),
        ("rm -r -f ./x", RM_R_F_SEPARATE_NAME),
        ("rm --recursive --force ./x", RM_RECURSIVE_FORCE_NAME),
        ("rm --rec --fo ./x", RM_RECURSIVE_FORCE_NAME),
        ("rm -r --force ./x", RM_R_F_SEPARATE_NAME),
        ("rm -r ./x", RM_RECURSIVE_GENERAL_NAME),
        ("rm -r /etc/x", RM_RECURSIVE_ROOT_HOME_NAME),
        ("rm ./x -rf", RM_RF_GENERAL_NAME),
        ("rm -r'f' ./x", RM_RF_GENERAL_NAME),
    ] {
        assert_eq!(denial(command).pattern_name, rule, "{command}");
    }
    for command in ["rm -rq ./x", "rm --pre -r ./x", "rm --help -r ./x", "rm -r --recursive=x ./x"] {
        let apple = parse_rm_command(command);
        assert!(matches!(apple, RmParseDecision::NoMatch), "{command}: {apple:?}");
    }
}

#[test]
fn either_reading_of_the_options_denies() {
    assert_eq!(denial("rm -r ./tree --help").pattern_name, RM_RECURSIVE_GENERAL_NAME);
    assert_eq!(denial("rm ./tree -r").pattern_name, RM_RECURSIVE_GENERAL_NAME);
}

#[test]
fn the_last_prompt_option_counts() {
    assert!(is_allowed("rm -rfi ./x"));
    assert!(is_allowed("rm -rfI ./x"));
    assert_eq!(denial("rm -rif ./x").pattern_name, RM_RF_GENERAL_NAME);
    assert!(is_allowed("rm -rf --interactive ./x"));
    assert!(is_allowed("rm -rf --interactive=once ./x"));
    assert_eq!(denial("rm -rf --interactive=never ./x").pattern_name, RM_RF_GENERAL_NAME);
    assert!(is_no_match("rm -rf --interactive=maybe ./x"));
}

#[test]
fn one_unsafe_operand_is_enough() {
    assert!(is_allowed("rm -rf /tmp/a /var/tmp/b"));
    let hit = denial("rm -rf /tmp/a ./b /var/tmp/c");
    assert_eq!(hit.pattern_name, RM_RF_GENERAL_NAME);
    assert_eq!(hit.severity, Severity::High);
    let hit = denial("rm -rf /tmp/a /etc");
    assert_eq!(hit.pattern_name, RM_RF_ROOT_HOME_NAME);
    assert_eq!(hit.severity, Severity::Critical);
}

#[test]
fn temporary_paths_are_trusted_only_where_they_stay() {
    for command in [
        "rm -rf /tmp/a/../../etc",
        "rm -rf /tmp/..",
        "rm -rf /tmp/",
        "rm -rf /tmp/.",
        "rm -rf '/tmp/a'",
        "rm -rf /tmp/$x",
        "rm -rf -- /tmp/a",
        "rm -r -f \"/tmp/a\"",
    ] {
        denial(command);
    }
    for command in ["rm -rf /tmp/a", "rm -rf \"/tmp/a\"", "rm -rf /private/tmp/a/./b", "rm -rf /tmp/a..b"] {
        assert!(is_allowed(command), "{command}");
    }
    assert!(windows_literal_user_temp_subpath(r"C:\Users\ann\AppData\Local\Temp\x"));
    assert!(windows_literal_user_temp_subpath("/c/Users/ann/AppData/Local/Temp/x/y"));
    assert!(!windows_literal_user_temp_subpath(r"C:\Users\ann\AppData\Local\Temp"));
    assert!(!windows_literal_user_temp_subpath(r"C:\Users\ann\AppData\Local\Temp\..\x"));
    assert!(!windows_literal_user_temp_subpath(r"C:\Users\ann\AppData\Local\Temp\%x%"));
}

#[test]
fn exemptions_hold_for_all_operands_or_none() {
    let one = vec![TargetExemption::new("core.filesystem:rm-rf-general", "./a", "./*")];
    let both = vec![
        TargetExemption::new("core.filesystem:rm-rf-general", "./a", "./*"),
        TargetExemption::new("core.filesystem:rm-rf-general", "./b", "./b"),
    ];
    let other = vec![TargetExemption::new("core.filesystem:rm-rf-root-home", "./a", "./*")];
    let decide = |command: &str, ex: &Vec<TargetExemption>| {
        parse_rm_command_with_exemptions(command, ex, &mut Vec::new())
    };
    assert!(matches!(decide("rm -rf ./a", &one), RmParseDecision::Allow));
    assert!(matches!(decide("rm -rf ./a ./b", &one), RmParseDecision::Deny(_)));
    assert!(matches!(decide("rm -rf ./a ./b", &both), RmParseDecision::Allow));
    assert!(matches!(decide("rm -rf './a'", &one), RmParseDecision::Deny(_)));
    assert!(matches!(decide("rm -rf \"./a\"", &one), RmParseDecision::Allow));
    assert!(matches!(decide("rm -rf ./a", &other), RmParseDecision::Deny(_)));
    assert!(matches!(decide("rm -r ./a", &one), RmParseDecision::Deny(_)));
    assert!(matches!(decide("echo ./a", &both), RmParseDecision::NoMatch));
}

#[test]
fn suppressions_name_rule_glob_and_target() {
    let path = |text: &str, quote: QuoteKind| PathToken {
        unquoted: text.chars().collect(),
        quote,
        start: 0,
        end: text.len(),
    };
    let ex = vec![
        TargetExemption::new("core.filesystem:rm-rf-root-home", "./a", "/*"),
        TargetExemption::new("core.filesystem:rm-rf-general", "./a", "./*"),
        TargetExemption::new("core.filesystem:rm-rf-general", "./a", "./a"),
        TargetExemption::new("core.filesystem:rm-rf-general", "./b", "./b"),
    ];
    let noted = |paths: &Vec<PathToken>| {
        let (all, list) = rm_targets_exempted_for_rule(RM_RF_GENERAL_NAME, paths, &ex);
        let text = |v: &Vec<char>| v.iter().collect::<String>();
        let list: Vec<(String, String, String)> =
            list.iter().map(|n| (text(&n.rule_id), text(&n.glob), text(&n.target))).collect();
        (all, list)
    };
    let note = |glob: &str, target: &str| {
        ("core.filesystem:rm-rf-general".to_string(), glob.to_string(), target.to_string())
    };
    assert_eq!(
        noted(&vec![path("./b", QuoteKind::Unquoted), path("./a", QuoteKind::Double)]),
        (true, vec![note("./b", "./b"), note("./*", "./a")])
    );
    assert_eq!(noted(&vec![path("./a", QuoteKind::Unquoted), path("./c", QuoteKind::Unquoted)]), (false, vec![]));
    assert_eq!(noted(&vec![path("./a", QuoteKind::Single)]), (false, vec![]));
    assert_eq!(noted(&vec![]), (false, vec![]));
}

#[test]
fn suppressions_of_a_command_are_noted() {
    let ex = vec![
        TargetExemption::new("core.filesystem:rm-rf-general", "./a", "./*"),
        TargetExemption::new("core.filesystem:rm-bare-glob", "*", "**"),
    ];
    let noted = |command: &str| {
        let mut list = Vec::new();
        parse_rm_command_with_exemptions(command, &ex, &mut list);
        list.iter().map(|n| n.target.iter().collect::<String>()).collect::<Vec<String>>()
    };
    // Both readings of the options note what they would have denied.
    assert_eq!(noted("rm -rf ./a"), vec!["./a", "./a"]);
    assert_eq!(noted("rm -rf ./a; rm -rf ./b"), vec!["./a", "./a"]);
    assert_eq!(noted("rm -rf ./b; rm -rf ./a"), Vec::<String>::new());
    assert_eq!(noted("rm -f *"), vec!["*", "*"]);
    assert_eq!(noted("find . -exec rm -rf ./a ';'"), vec!["./a", "./a"]);
    assert_eq!(noted("rm -rf /tmp/a"), Vec::<String>::new());
    assert_eq!(noted("echo ./a"), Vec::<String>::new());
    let mut list = Vec::new();
    let decision = parse_rm_segment_in_dialect_with_exemptions(
        "r^m -rf ./a",
        false,
        ShellDialect::Cmd,
        &ex,
        &mut list,
    );
    assert!(matches!(decision, RmParseDecision::Allow));
    assert_eq!(list.len(), 2);
    let mut none = Vec::new();
    parse_rm_command_with_exemptions("rm -rf ./a", &vec![], &mut none);
    assert!(none.is_empty());
}

#[test]
fn option_words_are_rewritten_only_where_quotes_end() {
    assert!(matches!(dequote_rm_flag_token("-rf"), Dequoted::Borrowed("-rf")));
    assert!(matches!(dequote_rm_flag_token("-r'f"), Dequoted::Borrowed("-r'f")));
    assert!(matches!(dequote_rm_flag_token("-r\\"), Dequoted::Borrowed("-r\\")));
    match dequote_rm_flag_token("-r'f'") {
        Dequoted::Owned(word) => assert_eq!(word, "-rf"),
        other => panic!("{other:?}"),
    }
}

#[test]
fn a_pattern_needs_its_program_as_a_word() {
    let pack = create_pack();
    for command in ["charm -r -f build", "charm -rf build", "charm --recursive --force build", "charm -rf /"] {
        assert!(!filesystem_keyword_candidate(command), "{command}");
        assert!(pack.check(command).is_none(), "{command}");
    }
    for command in ["/bin/rm -r -f build", "git rm -rf build", "rm --recursive --force build"] {
        assert!(filesystem_keyword_candidate(command), "{command}");
        assert!(pack.check(command).is_some(), "{command}");
    }
    for pattern in &pack.safe_patterns {
        assert!(pattern.regex.is_compiled(), "{}", pattern.name);
    }
    for pattern in &pack.destructive_patterns {
        assert!(pattern.regex.is_compiled(), "{:?}", pattern.name);
    }
}

#[test]
fn only_a_single_find_is_safe() {
    let pack = create_pack();
    for command in [
        "find /tmp -delete",
        "find /tmp/a -name x -delete",
        "find /var/tmp/a /var/tmp/b -mtime +3 -delete -print",
        "find /tmp -delete\n",
    ] {
        assert!(pack.matches_safe(command), "{command}");
    }
    for command in [
        "find /tmp -delete; find -delete",
        "find /tmp -delete;find -delete",
        "find /tmp -print|xargs -delete",
        "find /tmp/a;find -delete",
        "find /tmp -print &find -delete",
        "find /tmp -print\nfind -delete",
        "find /var/tmp -delete; find -delete",
        "find /var/tmp/a&find -delete",
    ] {
        assert!(!pack.matches_safe(command), "{command}");
    }
}

#[test]
fn only_a_single_temporary_command_is_safe() {
    let pack = create_pack();
    for command in [
        "unlink /tmp/a",
        "unlink /private/var/tmp/a\n",
        "truncate -s +1G a",
        "truncate --size=0 /tmp/a",
        "truncate -s 0 /var/tmp/a",
        "shred -n 3 --remove=wipe /tmp/a -u",
        "shred /var/tmp/a",
        "tar --remove-files -cf out.tar /tmp/a",
        "tar --remove-files -cf out.tar /var/tmp/a",
        "dd if=/dev/zero of=/tmp/a bs=1M",
        "dd of='/var/tmp/a' if=b",
        "mv -f /tmp/a /tmp/b",
        "mv /var/tmp/a /var/tmp/b",
        "mv /home/u/x/y /home/u/x/z",
    ] {
        assert!(pack.matches_safe(command), "{command}");
    }
    for command in [
        "unlink /tmp/a;reboot",
        "unlink /tmp/a|reboot",
        "unlink /tmp/a&reboot",
        "unlink /var/tmp/a;reboot",
        "truncate -s +1G a;reboot",
        "truncate -s +1G\na",
        "truncate -s +1;reboot a",
        "truncate -s 0;reboot /tmp/a",
        "truncate -s 0 /tmp/a;reboot",
        "truncate --size=0 /var/tmp/a&reboot",
        "shred /tmp/a;shred -u b",
        "shred -u ;b /tmp/a",
        "shred --random-source=a;b /var/tmp/a",
        "shred -u\nb /tmp/a",
        "tar --remove-files -cf out.tar /tmp/a;tar -cf b",
        "tar --remove-files /var/tmp/a|tar -x",
        "dd if=a of=/tmp/a;dd if=b",
        "dd of=/tmp/a\ndd=b",
        "dd of=/var/tmp/a bs=1;reboot",
        "mv /tmp/a;mv /tmp/b",
        "mv /tmp/a /tmp/b;reboot",
        "mv /var/tmp/a&mv /var/tmp/b",
        "mv /home/u;rm/x/y /home/u/x/z",
    ] {
        assert!(!pack.matches_safe(command), "{command}");
    }
    assert!(pack.check("unlink /tmp/a;reboot").is_some());
    assert!(pack.check("unlink /tmp/a").is_none());
}

#[test]
fn a_wide_character_behind_a_backslash_starts_a_word() {
    let chars = |s: &str| s.chars().collect::<Vec<char>>();
    assert!(!posix_pipeline_group_is_active(&chars("|\\\u{e9}{"), 4));
    assert!(posix_pipeline_group_is_active(&chars("|\\e{"), 4));
    assert!(posix_pipeline_group_is_active(&chars("|{"), 2));
    assert!(posix_pipeline_group_is_active(&chars("|{"), 9));
    assert!(!posix_pipeline_group_is_active(&chars("|{"), 1));
    assert!(!prior_posix_exec_redirects_stdin(&chars("rm -r x"), 99));
    assert!(prior_posix_exec_redirects_stdin(&chars("exec <f; rm -r x"), 99));
}

#[test]
fn a_denied_part_denies_the_whole() {
    for command in [
        "echo a; rm -r ./tree; echo b",
        "true && rm -r ./tree",
        "rm -r /tmp/a; rm -r ./tree",
        "find . -exec rm -r {} +",
        r"find . -name x -exec echo {} \; -exec rm -r {} \;",
    ] {
        denial(command);
    }
    assert!(is_allowed("rm -r /tmp/a; echo b"));
    assert!(is_no_match("echo a; echo 'rm -r ./tree'"));
}

#[test]
fn nobody_answers_a_prompt_in_a_pipeline() {
    assert!(is_allowed("rm -ri ./tree"));
    denial("yes | rm -ri ./tree");
    denial("rm -ri ./tree < answers");
    assert!(matches!(parse_rm_command_segment("rm -ri ./tree", false), RmParseDecision::Allow));
    assert!(matches!(parse_rm_command_segment("rm -ri ./tree", true), RmParseDecision::Deny(_)));
}

#[test]
fn computed_programs_are_denied_for_their_arguments() {
    for (command, dialect) in [
        ("$cmd -r ./tree", ShellDialect::Posix),
        ("r${x}m -r ./tree", ShellDialect::Posix),
        ("& $cmd -r ./tree", ShellDialect::PowerShell),
        ("%CMD% -r ./tree", ShellDialect::Cmd),
    ] {
        match parse_rm_command_segment_in_dialect(command, false, dialect) {
            RmParseDecision::Deny(hit) => {
                assert_eq!(hit.pattern_name, RM_RECURSIVE_UNVERIFIED_NAME, "{command}");
            }
            other => panic!("'{command}' must be denied, got {other:?}"),
        }
    }
    for (command, dialect) in [
        ("$cmd ./tree", ShellDialect::Posix),
        ("ls${x} -r ./tree", ShellDialect::Posix),
        ("$cmd -r /tmp/a", ShellDialect::Posix),
    ] {
        assert!(
            matches!(
                parse_rm_command_segment_in_dialect(command, false, dialect),
                RmParseDecision::NoMatch
            ),
            "{command}"
        );
    }
}

#[test]
fn places_are_counted_in_bytes() {
    assert_eq!(denial("rm -rf ./x").span, Some(Span { start: 3, end: 6 }));
    let hit = denial("rm é *");
    assert_eq!(hit.pattern_name, RM_BARE_GLOB_NAME);
    assert_eq!(hit.span, Some(Span { start: 6, end: 7 }));
    assert_eq!(denial("sudo rm -rf ./x").span, None);
}

#[test]
fn every_denied_removal_is_explained() {
    let pack = create_pack();
    for command in [
        "rm -rf /",
        "rm -r -f /",
        "rm --recursive --force /",
        "rm -rf ./x",
        "rm -r -f ./x",
        "rm --recursive --force ./x",
        "rm -r /etc",
        "rm -r ./x",
        "rm *",
        "rm /*",
    ] {
        let found = pack.check(command).expect(command);
        assert!(found.explanation.is_some(), "{command}");
        let name = found.name.expect("a rule");
        assert!(classifier_rule_names().contains(&name), "{name}");
        let (explanation, suggestions) = pack.rule_guidance(name);
        assert_eq!(explanation, found.explanation, "{name}");
        assert!(!suggestions.is_empty(), "{name}");
    }
    let (explanation, suggestions) = pack.rule_guidance("no-such-rule");
    assert!(explanation.is_none() && suggestions.is_empty());
}

#[test]
fn other_parts_do_not_hide_a_finding() {
    let pack = create_pack();
    for command in [
        "rm -r /tmp/a; truncate -s 0 /etc/passwd",
        "mv /etc /tmp/x; echo done",
        "echo a && shred /etc/passwd",
    ] {
        assert!(pack.check(command).is_some(), "{command}");
    }
    assert!(pack.check("ls; echo done").is_none());
}
