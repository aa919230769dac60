use minishell::apply_cd_result;
use minishell::builtin_handler;
use minishell::check_cmd_in_path;
use minishell::clean_error_message;
use minishell::dispatch_command;
use minishell::file_display_name;
use minishell::handle_pwd;
use minishell::handle_quotes;
use minishell::is_builtin;
use minishell::join_path;
use minishell::launch_failure_message;
use minishell::parse_redirection;
use minishell::plan_sink;
use minishell::resolve_cd_target;
use minishell::split_command;
use minishell::split_search_path;
use minishell::Builtin;
use minishell::CommandAction;
use minishell::SearchDir;
use minishell::ShellState;
use minishell::SinkPlan;

fn svec(items: &[&str]) -> Vec<String> {
    items.iter().map(|s| s.to_string()).collect()
}

#[test]
fn tokenize_single_quoted_group() {
    assert_eq!(handle_quotes("echo 'a b' c"), svec(&["echo", "a b", "c"]));
}

#[test]
fn tokenize_double_quote_escaped_quote() {
    assert_eq!(handle_quotes("echo \"a\\\"b\""), svec(&["echo", "a\"b"]));
}

#[test]
fn tokenize_double_quote_non_special_escape_keeps_backslash() {
    assert_eq!(handle_quotes("echo \"a\\nb\""), svec(&["echo", "a\\nb"]));
}

#[test]
fn tokenize_double_quote_escaped_backslash_and_dollar() {
    assert_eq!(handle_quotes("echo \"a\\\\b\""), svec(&["echo", "a\\b"]));
    assert_eq!(handle_quotes("echo \"a\\$b\""), svec(&["echo", "a$b"]));
}

#[test]
fn tokenize_escaped_space_outside_quotes() {
    assert_eq!(handle_quotes("a\\ b"), svec(&["a b"]));
}

#[test]
fn tokenize_unterminated_quote_is_lenient() {
    assert_eq!(handle_quotes("echo 'abc"), svec(&["echo", "abc"]));
    assert_eq!(handle_quotes("echo \"abc"), svec(&["echo", "abc"]));
}

#[test]
fn tokenize_blank_line_gives_no_tokens() {
    assert_eq!(handle_quotes("   \t  "), svec(&[]));
    assert_eq!(handle_quotes(""), svec(&[]));
}

#[test]
fn tokenize_adjacent_quoted_pieces_form_one_token() {
    assert_eq!(handle_quotes("a'b c'd"), svec(&["ab cd"]));
    assert_eq!(handle_quotes("x''y"), svec(&["xy"]));
}

#[test]
fn tokenize_collapses_unquoted_whitespace() {
    assert_eq!(handle_quotes("  echo   hi   there "), svec(&["echo", "hi", "there"]));
}

#[test]
fn tokenize_then_rejoin_matches_normalized_content() {
    // a concrete instance of the round-trip law: rejoining the
    // tokens with single spaces gives the whitespace-normalized,
    // quote-stripped content, quoted whitespace kept as it stands
    let tokens = handle_quotes("  echo   'a  b'  c ");
    assert_eq!(tokens.join(" "), "echo a  b c");
    let tokens = handle_quotes("one \"two  three\"");
    assert_eq!(tokens.join(" "), "one two  three");
}

#[test]
fn redirection_output_truncate() {
    let toks = svec(&["echo", "hi", ">", "out.txt"]);
    let (args, out, err, app_out, app_err) = parse_redirection(&toks);
    assert_eq!(args, svec(&["echo", "hi"]));
    assert_eq!(out, Some("out.txt".to_string()));
    assert_eq!(err, None);
    assert!(!app_out);
    assert!(!app_err);
}

#[test]
fn redirection_error_append() {
    let toks = svec(&["ls", "2>>", "err.log"]);
    let (args, out, err, app_out, app_err) = parse_redirection(&toks);
    assert_eq!(args, svec(&["ls"]));
    assert_eq!(out, None);
    assert_eq!(err, Some("err.log".to_string()));
    assert!(!app_out);
    assert!(app_err);
}

#[test]
fn redirection_one_prefix_operators() {
    let toks = svec(&["a", "1>", "x", "1>>", "y"]);
    let (args, out, _err, app_out, _app_err) = parse_redirection(&toks);
    assert_eq!(args, svec(&["a"]));
    assert_eq!(out, Some("y".to_string()));
    assert!(app_out);
}

#[test]
fn redirection_trailing_operator_is_ordinary_argument() {
    let toks = svec(&["echo", ">"]);
    let (args, out, err, _app_out, _app_err) = parse_redirection(&toks);
    assert_eq!(args, svec(&["echo", ">"]));
    assert_eq!(out, None);
    assert_eq!(err, None);
}

#[test]
fn redirection_last_target_wins() {
    let toks = svec(&["a", ">", "x", ">", "y"]);
    let (args, out, _err, app_out, _app_err) = parse_redirection(&toks);
    assert_eq!(args, svec(&["a"]));
    assert_eq!(out, Some("y".to_string()));
    assert!(!app_out);
}

#[test]
fn redirection_truncate_after_append_keeps_append_flag() {
    // a later truncating operator overwrites the target but does not
    // clear an append flag set earlier
    let toks = svec(&["a", ">>", "x", ">", "y"]);
    let (_args, out, _err, app_out, _app_err) = parse_redirection(&toks);
    assert_eq!(out, Some("y".to_string()));
    assert!(app_out);
}

#[test]
fn builtin_names_are_acknowledged() {
    assert_eq!(is_builtin("pwd"), Some("pwd is a shell builtin"));
    assert_eq!(is_builtin("cd"), Some("cd is a shell builtin"));
    assert_eq!(is_builtin("ls"), None);
    assert_eq!(is_builtin(""), None);
}

#[test]
fn builtin_handlers_are_registered() {
    assert_eq!(builtin_handler("cd"), Some(Builtin::ChangeDirectory));
    assert_eq!(builtin_handler("pwd"), Some(Builtin::PrintWorkingDirectory));
    assert_eq!(builtin_handler("echo"), None);
}

#[test]
fn pwd_reports_directory_set_by_last_cd() {
    let mut state = ShellState::default();
    assert_eq!(handle_pwd(&state), "/");
    let msg = apply_cd_result(&mut state, "/tmp", None);
    assert_eq!(msg, "Changed directory to: /tmp");
    assert_eq!(handle_pwd(&state), "/tmp");
}

#[test]
fn cd_without_arguments_goes_home() {
    let target = resolve_cd_target(&svec(&[]), "/home/u");
    assert_eq!(target, "/home/u");
    let mut state = ShellState::default();
    let msg = apply_cd_result(&mut state, &target, None);
    assert_eq!(state.cwd, "/home/u");
    assert!(msg.contains("/home/u"));
}

#[test]
fn cd_expands_leading_tilde() {
    assert_eq!(resolve_cd_target(&svec(&["~/docs"]), "/home/u"), "/home/u/docs");
    assert_eq!(resolve_cd_target(&svec(&["~"]), "/home/u"), "/home/u");
    assert_eq!(resolve_cd_target(&svec(&["/etc"]), "/home/u"), "/etc");
}

#[test]
fn cd_failure_reports_cleaned_error_and_keeps_state() {
    let mut state = ShellState::default();
    let msg = apply_cd_result(&mut state, "/nope", Some("chdir error: Permission denied"));
    assert_eq!(state.cwd, "/");
    assert_eq!(msg, "cd: /nope: Permission denied");
}

#[test]
fn cd_failure_falls_back_when_error_text_is_bare() {
    let mut state = ShellState::default();
    let msg = apply_cd_result(&mut state, "/nope", Some("some bare failure"));
    assert_eq!(msg, "cd: /nope: No such file or directory");
}

#[test]
fn error_text_is_stripped_of_its_prefix_and_trimmed() {
    assert_eq!(clean_error_message("os error: No such device"), "No such device");
    assert_eq!(clean_error_message("a: b : c"), "b : c");
    assert_eq!(clean_error_message("no colon here"), "No such file or directory");
    assert_eq!(clean_error_message("trailing:   "), "No such file or directory");
}

#[test]
fn path_search_returns_first_match_in_path_order() {
    let dirs = vec![
        SearchDir { dir: "/usr/bin".to_string(), entries: svec(&["cat", "ls"]) },
        SearchDir { dir: "/bin".to_string(), entries: svec(&["ls"]) },
    ];
    assert_eq!(check_cmd_in_path("ls", &dirs), Some("/usr/bin/ls".to_string()));
    assert_eq!(check_cmd_in_path("cat", &dirs), Some("/usr/bin/cat".to_string()));
    assert_eq!(check_cmd_in_path("nosuch", &dirs), None);
}

#[test]
fn path_search_with_no_directories_finds_nothing() {
    let dirs: Vec<SearchDir> = Vec::new();
    assert_eq!(check_cmd_in_path("ls", &dirs), None);
}

#[test]
fn search_path_splits_on_colons_keeping_empty_pieces() {
    assert_eq!(split_search_path("/usr/bin:/bin"), svec(&["/usr/bin", "/bin"]));
    assert_eq!(split_search_path("a:b::c"), svec(&["a", "b", "", "c"]));
    assert_eq!(split_search_path(""), svec(&[""]));
}

#[test]
fn joined_paths_use_a_single_separator() {
    assert_eq!(join_path("/usr/bin", "ls"), "/usr/bin/ls");
    assert_eq!(join_path("/usr/bin/", "ls"), "/usr/bin/ls");
    assert_eq!(join_path("", "ls"), "ls");
}

#[test]
fn dispatch_runs_the_two_builtins() {
    assert_eq!(dispatch_command("cd", None), CommandAction::RunBuiltin(Builtin::ChangeDirectory));
    assert_eq!(
        dispatch_command("pwd", None),
        CommandAction::RunBuiltin(Builtin::PrintWorkingDirectory)
    );
}

#[test]
fn dispatch_runs_external_match() {
    assert_eq!(
        dispatch_command("ls", Some("/bin/ls".to_string())),
        CommandAction::RunExternal("/bin/ls".to_string())
    );
}

#[test]
fn unknown_command_is_reported_not_found() {
    let dirs = vec![SearchDir { dir: "/bin".to_string(), entries: svec(&["ls"]) }];
    let resolved = check_cmd_in_path("nosuch", &dirs);
    assert_eq!(resolved, None);
    let action = dispatch_command("nosuch", resolved);
    assert_eq!(action, CommandAction::NotFound("nosuch: command not found".to_string()));
}

#[test]
fn split_command_takes_head_and_tail() {
    assert_eq!(split_command(svec(&[])), None);
    let (cmd, rest) = split_command(svec(&["echo", "a", "b"])).unwrap();
    assert_eq!(cmd, "echo");
    assert_eq!(rest, svec(&["a", "b"]));
}

#[test]
fn sink_plans_follow_target_and_append_flag() {
    assert_eq!(plan_sink(None, false), SinkPlan::Standard);
    assert_eq!(plan_sink(None, true), SinkPlan::Standard);
    assert_eq!(plan_sink(Some("f".to_string()), false), SinkPlan::Truncate("f".to_string()));
    assert_eq!(plan_sink(Some("f".to_string()), true), SinkPlan::Append("f".to_string()));
}

#[test]
fn display_name_is_final_path_component() {
    assert_eq!(file_display_name("/bin/ls"), "ls");
    assert_eq!(file_display_name("ls"), "ls");
    assert_eq!(file_display_name("/bin/"), "/bin/");
}

#[test]
fn launch_failure_names_command_and_error() {
    assert_eq!(launch_failure_message("ls", "exec failed"), "ls: exec failed");
}
