use minishell::command::{BuiltInCommand, Command, CommandType, ParseError, probe_target};
use minishell::input::{Input, tokenize, trim};
use minishell::numbers::parse_i32;
use minishell::resolve::ExecutableCandidate;

fn parse(line: &str, probes: Vec<ExecutableCandidate>) -> Result<Command, ParseError> {
    let input = Input::new(line);
    Command::from_input(&input, &probes)
}

#[test]
fn trim_removes_surrounding_whitespace() {
    assert_eq!(trim("  x  "), "x");
    assert_eq!(trim("\t a b \n"), "a b");
    assert_eq!(trim(""), "");
    assert_eq!(trim("   \t\n"), "");
    assert_eq!(trim("plain"), "plain");
}

#[test]
fn tokenize_splits_on_whitespace_runs() {
    assert_eq!(tokenize("a b"), vec!["a", "b"]);
    assert_eq!(tokenize("  a   b "), vec!["a", "b"]);
    assert_eq!(tokenize("one"), vec!["one"]);
    assert_eq!(tokenize(""), Vec::<String>::new());
    assert_eq!(tokenize(" \t "), Vec::<String>::new());
    assert_eq!(tokenize("a\tb\nc"), vec!["a", "b", "c"]);
}

#[test]
fn whitespace_only_lines_parse_to_empty() {
    for line in ["", " ", "   \t  ", "\n", " \r\n", "\u{a0}", "\u{2003}\u{a0}", "\u{85}\u{3000}"] {
        assert!(line.chars().all(char::is_whitespace));
        let cmd = parse(line, vec![]).unwrap();
        assert!(matches!(cmd, Command::Empty));
    }
}

#[test]
fn trim_and_tokenize_agree_with_the_standard_whitespace_set() {
    for line in ["\u{a0}x\u{3000}", " a\u{a0}b ", "\u{1680}\u{2000}t\u{200a}", "echo\u{2028}hi"] {
        assert_eq!(trim(line), line.trim());
        assert_eq!(tokenize(line.trim()), line.split_whitespace().collect::<Vec<_>>());
    }
}

#[test]
fn echo_separated_by_a_non_ascii_space_keeps_the_line() {
    let cmd = parse("echo\u{a0}hi", vec![]).unwrap();
    match cmd {
        Command::CommandBuiltIn { builtin_command: BuiltInCommand::Echo { content } } => {
            assert_eq!(content, "echo\u{a0}hi");
        }
        _ => panic!("expected the echo built-in"),
    }
}

#[test]
fn exit_without_argument_has_code_zero() {
    let cmd = parse("exit", vec![]).unwrap();
    match cmd {
        Command::CommandBuiltIn { builtin_command: BuiltInCommand::Exit { exit_code } } => {
            assert_eq!(exit_code, 0);
        }
        _ => panic!("expected the exit built-in"),
    }
}

#[test]
fn exit_with_argument_keeps_its_code() {
    let cmd = parse("exit 3", vec![]).unwrap();
    match cmd {
        Command::CommandBuiltIn { builtin_command: BuiltInCommand::Exit { exit_code } } => {
            assert_eq!(exit_code, 3);
        }
        _ => panic!("expected the exit built-in"),
    }
}

#[test]
fn exit_with_extra_arguments_reads_the_first() {
    let cmd = parse("exit 5 9", vec![]).unwrap();
    match cmd {
        Command::CommandBuiltIn { builtin_command: BuiltInCommand::Exit { exit_code } } => {
            assert_eq!(exit_code, 5);
        }
        _ => panic!("expected the exit built-in"),
    }
}

#[test]
fn exit_with_malformed_code_is_a_parse_error() {
    let r = parse("exit abc", vec![]);
    assert!(matches!(r, Err(ParseError::InvalidExitCode)));
    let r = parse("exit 1x", vec![]);
    assert!(matches!(r, Err(ParseError::InvalidExitCode)));
}

#[test]
fn echo_keeps_spacing_after_its_prefix() {
    let cmd = parse("echo   hello   world", vec![]).unwrap();
    match cmd {
        Command::CommandBuiltIn { builtin_command: BuiltInCommand::Echo { content } } => {
            assert_eq!(content, "  hello   world");
        }
        _ => panic!("expected the echo built-in"),
    }
}

#[test]
fn echo_without_the_literal_prefix_keeps_the_line() {
    let cmd = parse("echo", vec![]).unwrap();
    match cmd {
        Command::CommandBuiltIn { builtin_command: BuiltInCommand::Echo { content } } => {
            assert_eq!(content, "echo");
        }
        _ => panic!("expected the echo built-in"),
    }
    let cmd = parse("echo\thi", vec![]).unwrap();
    match cmd {
        Command::CommandBuiltIn { builtin_command: BuiltInCommand::Echo { content } } => {
            assert_eq!(content, "echo\thi");
        }
        _ => panic!("expected the echo built-in"),
    }
}

#[test]
fn type_of_a_builtin_name_reports_builtin() {
    for name in ["exit", "echo", "type"] {
        let cmd = parse(&format!("type {}", name), vec![]).unwrap();
        match cmd {
            Command::CommandBuiltIn {
                builtin_command: BuiltInCommand::Type { command_name, command_type },
            } => {
                assert_eq!(command_name, name);
                assert!(matches!(command_type, CommandType::BuiltIn));
            }
            _ => panic!("expected the type built-in"),
        }
    }
}

#[test]
fn type_without_argument_is_a_silent_no_op() {
    let cmd = parse("type", vec![]).unwrap();
    assert!(matches!(cmd, Command::Empty));
}

#[test]
fn type_of_a_resolved_name_reports_the_first_match() {
    let probes = vec![
        ExecutableCandidate::NotFound,
        ExecutableCandidate::Runnable("/usr/bin/x".to_string()),
        ExecutableCandidate::Runnable("/opt/bin/x".to_string()),
    ];
    let cmd = parse("type x", probes).unwrap();
    match cmd {
        Command::CommandBuiltIn {
            builtin_command: BuiltInCommand::Type { command_name, command_type },
        } => {
            assert_eq!(command_name, "x");
            match command_type {
                CommandType::Other(path) => assert_eq!(path, "/usr/bin/x"),
                _ => panic!("expected a resolved path"),
            }
        }
        _ => panic!("expected the type built-in"),
    }
}

#[test]
fn type_of_an_unresolved_name_reports_invalid() {
    let probes = vec![ExecutableCandidate::NotFound, ExecutableCandidate::NotRunnable];
    let cmd = parse("type x", probes).unwrap();
    match cmd {
        Command::CommandBuiltIn {
            builtin_command: BuiltInCommand::Type { command_name, command_type },
        } => {
            assert_eq!(command_name, "x");
            assert!(matches!(command_type, CommandType::Invalid));
        }
        _ => panic!("expected the type built-in"),
    }
}

#[test]
fn unresolved_name_parses_to_not_found_with_the_trimmed_line() {
    let cmd = parse("  nonexistentcmd123  ", vec![]).unwrap();
    match cmd {
        Command::CommandNotFound { unknown_command_name } => {
            assert_eq!(unknown_command_name, "nonexistentcmd123");
        }
        _ => panic!("expected a not-found command"),
    }
    let cmd = parse("foo bar", vec![ExecutableCandidate::NotRunnable]).unwrap();
    match cmd {
        Command::CommandNotFound { unknown_command_name } => {
            assert_eq!(unknown_command_name, "foo bar");
        }
        _ => panic!("expected a not-found command"),
    }
}

#[test]
fn resolved_name_parses_to_an_external_command() {
    let probes = vec![ExecutableCandidate::Runnable("/bin/foo".to_string())];
    let cmd = parse("foo bar baz", probes).unwrap();
    match cmd {
        Command::CommandExternal { command_name, args } => {
            assert_eq!(command_name, "foo");
            assert_eq!(args, vec!["bar", "baz"]);
        }
        _ => panic!("expected an external command"),
    }
}

#[test]
fn external_command_without_arguments_has_none() {
    let probes = vec![ExecutableCandidate::Runnable("/bin/foo".to_string())];
    let cmd = parse("foo", probes).unwrap();
    match cmd {
        Command::CommandExternal { command_name, args } => {
            assert_eq!(command_name, "foo");
            assert!(args.is_empty());
        }
        _ => panic!("expected an external command"),
    }
}

#[test]
fn builtin_names_take_priority_over_external_lookup() {
    let probes = vec![ExecutableCandidate::Runnable("/bin/echo".to_string())];
    let cmd = parse("echo hi", probes).unwrap();
    assert!(matches!(
        cmd,
        Command::CommandBuiltIn { builtin_command: BuiltInCommand::Echo { .. } }
    ));
}

#[test]
fn probe_target_names_what_needs_resolution() {
    assert_eq!(probe_target(&Input::new("ls -l")), Some("ls".to_string()));
    assert_eq!(probe_target(&Input::new("type foo")), Some("foo".to_string()));
    assert_eq!(probe_target(&Input::new("type echo")), None);
    assert_eq!(probe_target(&Input::new("type")), None);
    assert_eq!(probe_target(&Input::new("exit 3")), None);
    assert_eq!(probe_target(&Input::new("echo hi")), None);
    assert_eq!(probe_target(&Input::new("   ")), None);
}

#[test]
fn parse_i32_accepts_signed_decimals_in_range() {
    assert_eq!(parse_i32("0"), Some(0));
    assert_eq!(parse_i32("42"), Some(42));
    assert_eq!(parse_i32("+42"), Some(42));
    assert_eq!(parse_i32("-7"), Some(-7));
    assert_eq!(parse_i32("007"), Some(7));
    assert_eq!(parse_i32("2147483647"), Some(i32::MAX));
    assert_eq!(parse_i32("-2147483648"), Some(i32::MIN));
}

#[test]
fn parse_i32_rejects_what_the_standard_parser_rejects() {
    for s in ["", "-", "+", "abc", "1x", " 1", "1 ", "2147483648", "-2147483649",
        "99999999999999999999", "+-3", "1.5"] {
        assert_eq!(parse_i32(s), None, "accepted {:?}", s);
        assert!(s.parse::<i32>().is_err());
    }
}
