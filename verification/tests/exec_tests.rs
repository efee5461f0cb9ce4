use minishell::resolve::{
    ExecutableCandidate, candidate_is_runnable, candidate_path, probe_outcome, resolve_first,
};
use minishell::shell::shell_step;

#[test]
fn blank_line_prints_nothing_and_continues() {
    let out = shell_step("   \t ", &vec![]).unwrap();
    assert_eq!(out.output, None);
    assert!(out.is_continue);
    assert!(out.spawn.is_none());
}

#[test]
fn exit_stops_the_loop_with_its_code() {
    let out = shell_step("exit", &vec![]).unwrap();
    assert!(!out.is_continue);
    assert_eq!(out.exit_code, 0);
    assert_eq!(out.output, None);

    let out = shell_step("exit 3", &vec![]).unwrap();
    assert!(!out.is_continue);
    assert_eq!(out.exit_code, 3);
}

#[test]
fn exit_with_malformed_code_surfaces_the_error() {
    assert!(shell_step("exit abc", &vec![]).is_err());
}

#[test]
fn echo_prints_the_spacing_as_typed() {
    let out = shell_step("echo   hello   world", &vec![]).unwrap();
    assert_eq!(out.output.as_deref(), Some("  hello   world"));
    assert!(out.is_continue);
}

#[test]
fn type_of_echo_prints_shell_builtin() {
    let out = shell_step("type echo", &vec![]).unwrap();
    assert_eq!(out.output.as_deref(), Some("echo is a shell builtin"));
    assert!(out.is_continue);
}

#[test]
fn type_of_a_resolved_name_prints_the_earliest_path() {
    let probes = vec![
        ExecutableCandidate::NotRunnable,
        ExecutableCandidate::Runnable("/usr/bin/x".to_string()),
        ExecutableCandidate::Runnable("/opt/bin/x".to_string()),
    ];
    let out = shell_step("type x", &probes).unwrap();
    assert_eq!(out.output.as_deref(), Some("x is /usr/bin/x"));
}

#[test]
fn type_of_an_unresolved_name_prints_not_found() {
    let probes = vec![ExecutableCandidate::NotFound, ExecutableCandidate::NotRunnable];
    let out = shell_step("type x", &probes).unwrap();
    assert_eq!(out.output.as_deref(), Some("x: not found"));
}

#[test]
fn unknown_command_prints_not_found_and_continues() {
    let out = shell_step("nonexistentcmd123", &vec![]).unwrap();
    assert_eq!(out.output.as_deref(), Some("nonexistentcmd123: command not found"));
    assert!(out.is_continue);
    assert!(out.spawn.is_none());
}

#[test]
fn external_command_asks_for_a_spawn_and_continues() {
    let probes = vec![ExecutableCandidate::Runnable("/bin/foo".to_string())];
    let out = shell_step("foo bar baz", &probes).unwrap();
    assert_eq!(out.output, None);
    assert!(out.is_continue);
    let spawn = out.spawn.expect("expected a spawn request");
    assert_eq!(spawn.name, "foo");
    assert_eq!(spawn.args, vec!["bar", "baz"]);
}

#[test]
fn echo_twice_prints_its_line_twice() {
    let mut transcript = String::new();
    for _ in 0..2 {
        let out = shell_step("echo X", &vec![]).unwrap();
        transcript.push_str(&out.output.unwrap());
        transcript.push('\n');
    }
    assert_eq!(transcript, "X\nX\n");
}

#[test]
fn probe_outcome_reads_the_permission_bits() {
    let p = || "/d/x".to_string();
    assert!(matches!(probe_outcome(false, false, 0, p()), ExecutableCandidate::NotFound));
    assert!(matches!(probe_outcome(true, false, 0o755, p()), ExecutableCandidate::NotFound));
    assert!(matches!(probe_outcome(true, true, 0o644, p()), ExecutableCandidate::NotRunnable));
    match probe_outcome(true, true, 0o100755, p()) {
        ExecutableCandidate::Runnable(path) => assert_eq!(path, "/d/x"),
        _ => panic!("expected a runnable candidate"),
    }
    match probe_outcome(true, true, 0o100010, p()) {
        ExecutableCandidate::Runnable(path) => assert_eq!(path, "/d/x"),
        _ => panic!("expected a runnable candidate"),
    }
}

#[test]
fn candidate_path_joins_directory_and_name() {
    assert_eq!(candidate_path("/usr/bin", "ls"), "/usr/bin/ls");
    assert_eq!(candidate_path("", "ls"), "/ls");
}

#[test]
fn candidate_is_runnable_tells_the_variants_apart() {
    assert!(candidate_is_runnable(&ExecutableCandidate::Runnable("/a".to_string())));
    assert!(!candidate_is_runnable(&ExecutableCandidate::NotRunnable));
    assert!(!candidate_is_runnable(&ExecutableCandidate::NotFound));
}

#[test]
fn resolve_first_returns_the_earliest_runnable() {
    let probes = vec![
        ExecutableCandidate::NotFound,
        ExecutableCandidate::NotRunnable,
        ExecutableCandidate::Runnable("/early/x".to_string()),
        ExecutableCandidate::Runnable("/late/x".to_string()),
    ];
    assert_eq!(resolve_first(&probes), Some("/early/x".to_string()));
}

#[test]
fn resolve_first_skips_non_runnable_entries_without_stopping() {
    let probes = vec![
        ExecutableCandidate::NotRunnable,
        ExecutableCandidate::NotFound,
        ExecutableCandidate::Runnable("/only/x".to_string()),
    ];
    assert_eq!(resolve_first(&probes), Some("/only/x".to_string()));
}

#[test]
fn resolve_first_fails_when_nothing_is_runnable() {
    assert_eq!(resolve_first(&vec![]), None);
    let probes = vec![ExecutableCandidate::NotFound, ExecutableCandidate::NotRunnable];
    assert_eq!(resolve_first(&probes), None);
}
