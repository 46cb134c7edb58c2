//! Words, tokens and patterns, on given values.

use command_guard::git::expansion::{
    git_token_expansion_may_split, git_token_has_active_expansion,
};
use command_guard::git::substitution::{resolve_literal_printf_substitutions, Resolution};
use command_guard::pattern::{is_supported, CompiledRegex};
use command_guard::shell::decode::decode_posix;
use command_guard::shell::parts::parts_form;
use command_guard::shell::segments::split_command_segments;
use command_guard::shell::token::{
    tokenize_for_shell_dialect, NormalizeTokenKind, ShellDialect,
};
use command_guard::shell::words::{quote_word, split_words};
use command_guard::shell::wrappers::normalize_command;
use command_guard::text::{byte_position, char_position, find_text, text_of};

fn chars(s: &str) -> Vec<char> {
    s.chars().collect()
}

fn text(v: &[char]) -> String {
    v.iter().collect()
}

#[test]
fn words_are_split_as_a_shell_does() {
    let words = split_words(&chars("git -c 'alias.x=!rm -r' \"a b\" c\\ d")).expect("words");
    let words: Vec<String> = words.iter().map(|w| text(w)).collect();
    assert_eq!(words, vec!["git", "-c", "alias.x=!rm -r", "a b", "c d"]);
    assert!(split_words(&chars("git 'open")).is_none());
}

#[test]
fn a_quoted_word_reads_back_as_itself() {
    assert_eq!(text(&quote_word(&chars("plain"))), "plain");
    assert_eq!(text(&quote_word(&chars("a b"))), "'a b'");
    assert_eq!(text(&quote_word(&chars(""))), "''");
    assert_eq!(text(&quote_word(&chars("it's"))), "'it'\\''s'");
    assert_eq!(text(&quote_word(&chars("a\nb"))), "'a\nb'");
    assert_eq!(text(&quote_word(&chars("a{b}!-_/.:@"))), "a{b}!-_/.:@");
    for word in ["", "a b", "it's", "$HOME", "a\"b", "x;y"] {
        let line = quote_word(&chars(word));
        let words = split_words(&line).expect("one word");
        assert_eq!(words.len(), 1, "{word:?}");
        assert_eq!(text(&words[0]), word);
    }
}

#[test]
fn posix_words_are_decoded() {
    for (raw, want) in [
        ("git", "git"),
        ("g'i't", "git"),
        ("\"g\\$it\"", "g$it"),
        ("g\\it", "git"),
        ("$'\\x67it'", "git"),
        ("$'\\147it'", "git"),
        ("$'\\u0067it'", "git"),
        ("$'a\\nb'", "a\nb"),
        ("'a\\nb'", "a\\nb"),
    ] {
        assert_eq!(text(&decode_posix(&chars(raw))), want, "{raw}");
    }
}

#[test]
fn programs_are_named_plainly() {
    for (command, want) in [
        ("rm -rf ./x", "rm -rf ./x"),
        ("/bin/rm -rf ./x", "rm -rf ./x"),
        ("/usr/local/sbin/tool x", "tool x"),
        ("/opt/rm -rf ./x", "/opt/rm -rf ./x"),
        ("\\rm -rf ./x", "rm -rf ./x"),
        ("'/usr/bin/rm' -rf ./x", "rm -rf ./x"),
        ("'my tool' x", "'my tool' x"),
        ("sudo -u root nice -n 5 /bin/rm x", "rm x"),
        ("env A=b command rm x", "rm x"),
        ("timeout --signal KILL 10 rm x", "rm x"),
        ("sudo --unknown rm x", "sudo --unknown rm x"),
    ] {
        assert_eq!(normalize_command(command), want);
    }
}

#[test]
fn tokens_keep_their_order_and_places() {
    let line = chars("echo 'a; b' && rm \"$(x y)\"");
    let tokens = tokenize_for_shell_dialect(&line, ShellDialect::Posix);
    let parts: Vec<(bool, String)> = tokens
        .iter()
        .map(|t| (t.kind == NormalizeTokenKind::Word, text(&line[t.start..t.end])))
        .collect();
    assert_eq!(
        parts,
        vec![
            (true, "echo".to_string()),
            (true, "'a; b'".to_string()),
            (false, "&&".to_string()),
            (true, "rm".to_string()),
            (true, "\"$(x y)\"".to_string()),
        ]
    );
    for pair in tokens.windows(2) {
        assert!(pair[0].end <= pair[1].start);
    }
}

#[test]
fn segments_cut_at_separators_only() {
    let line = chars("git fetch && git push; echo 'a; b'");
    let segments: Vec<String> = split_command_segments(&line)
        .iter()
        .map(|s| text(s.text(&line)).trim().to_string())
        .collect();
    assert_eq!(segments, vec!["git fetch", "git push", "echo 'a; b'"]);
}

#[test]
fn patterns_compile_and_match() {
    let guarded = CompiledRegex::new(r"^git\s+push\s+(?!--dry-run)--force\b");
    assert!(guarded.is_compiled());
    assert!(guarded.is_match("git push --force"));
    assert!(!guarded.is_match("git push --dry-run"));
    assert_eq!(guarded.as_str(), r"^git\s+push\s+(?!--dry-run)--force\b");

    let repeated = CompiledRegex::new(r"(\w+)\|\1");
    assert!(repeated.is_match("bomb|bomb"));
    assert!(!repeated.is_match("a|b"));

    let broken = CompiledRegex::new("(");
    assert!(!broken.is_compiled());
    assert!(!broken.is_match("("));
}

#[test]
fn only_supported_patterns_are_compiled() {
    for pattern in [
        r"(a)\1",
        r"^(?:a|b)*?[^[:alnum:]_-]+$",
        r"[]a][^]b]\{\.\n",
        r"(?i:git)(?=x)(?!y)(?<=z)(?<!w)",
    ] {
        assert!(is_supported(pattern), "{pattern}");
        assert!(CompiledRegex::new(pattern).is_compiled(), "{pattern}");
    }
    for pattern in [
        r"(?:(a|b\1)c)*d",
        "a{18446744073709551615}b",
        "a{2}",
        "a*+",
        "(?>a)",
        "(?<name>a)",
        "(a",
        "a)",
        "[a",
        "a\\",
        r"[\1]",
        r"\x41",
        "\u{e9}",
        "a\nb",
    ] {
        assert!(!is_supported(pattern), "{pattern}");
        assert!(!CompiledRegex::new(pattern).is_compiled(), "{pattern}");
        assert!(!CompiledRegex::new(pattern).is_match("acbcd"), "{pattern}");
    }
}

#[test]
fn quotes_decide_what_is_expanded() {
    for raw in ["'$x'", "'`x`'", "'*'", "plain", "\\$x", "[", "{}"] {
        assert!(!git_token_has_active_expansion(&chars(raw), ShellDialect::Posix), "{raw}");
    }
    for raw in ["$x", "\"$x\"", "`x`", "a*", "[ab]", "{a,b}", "<(x)"] {
        assert!(git_token_has_active_expansion(&chars(raw), ShellDialect::Posix), "{raw}");
    }
    assert!(git_token_expansion_may_split(&chars("$x"), ShellDialect::Posix));
    assert!(!git_token_expansion_may_split(&chars("\"$x\""), ShellDialect::Posix));
    assert!(!git_token_expansion_may_split(&chars("\"%x%\""), ShellDialect::Cmd));
    assert!(git_token_expansion_may_split(&chars("%x%"), ShellDialect::Cmd));
}

#[test]
fn literal_parts_form_what_they_can() {
    let parts = |list: &[&str]| -> Vec<Vec<char>> { list.iter().map(|p| chars(p)).collect() };
    assert!(parts_form(&parts(&["g", "t"]), &chars("git")));
    assert!(parts_form(&parts(&["", ""]), &chars("git")));
    assert!(parts_form(&parts(&["gi", "", "t"]), &chars("git")));
    assert!(parts_form(&parts(&["git", ""]), &chars("git")));
    assert!(!parts_form(&parts(&["git", "t"]), &chars("git")));
    assert!(!parts_form(&parts(&["g", "x"]), &chars("git")));
    assert!(parts_form(&parts(&["a", "b", "a"]), &chars("abba")));
    assert!(!parts_form(&parts(&["a", "c", "a"]), &chars("abba")));
}

#[test]
fn known_substitutions_are_replaced() {
    match resolve_literal_printf_substitutions(&chars("g$(printf it) br`printf anch`")) {
        Resolution::Resolved(t) => assert_eq!(text(&t), "git branch"),
        _ => panic!("the output of printf is known"),
    }
    assert!(matches!(
        resolve_literal_printf_substitutions(&chars("git branch")),
        Resolution::Unchanged
    ));
    assert!(matches!(
        resolve_literal_printf_substitutions(&chars("git $(producer)")),
        Resolution::Open
    ));
}

#[test]
fn characters_and_bytes_are_counted_apart() {
    let line = chars("é → x");
    assert_eq!(text_of(&line), "é → x");
    assert_eq!(byte_position(&line, 0), 0);
    assert_eq!(byte_position(&line, 1), 2);
    assert_eq!(byte_position(&line, 3), 6);
    assert_eq!(char_position(&line, 6), Some(3));
    assert_eq!(char_position(&line, 1), None);
    assert_eq!(find_text(&line, 0, &chars("x")), Some(4));
    assert_eq!(find_text(&line, 0, &chars("y")), None);
}
