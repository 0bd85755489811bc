use mcp_git_tools::command::{CommandOutcome, Invocation};
use mcp_git_tools::contract::{FieldKind, FieldSpec};
use mcp_git_tools::execution::{count, finish, normalize, CallState, Execution, Parameters, Response};
use mcp_git_tools::tools::add::git_add;
use mcp_git_tools::tools::branch::git_branches;
use mcp_git_tools::tools::commit::git_commit;
use mcp_git_tools::tools::diff::git_diff;
use mcp_git_tools::tools::history::{parse_commit, parse_commits};
use mcp_git_tools::tools::log::git_log;
use mcp_git_tools::tools::parts::{message, output_at, remote_or_origin, status_arguments, status_listing};
use mcp_git_tools::tools::pull::git_pull;
use mcp_git_tools::tools::push::git_push;
use mcp_git_tools::tools::reset::git_reset;
use mcp_git_tools::tools::status::git_status;
use mcp_git_tools::tools::time_filtered_log::git_time_filtered_log;
use mcp_git_tools::tools::{
    GitAddTool, GitBranchesTool, GitCommitTool, GitDiffTool, GitLogTool, GitPullTool, GitPushTool, GitResetTool,
    GitStatusTool, GitTimeFilteredLogTool,
};
use mcp_git_tools::value::Value;

fn s(text: &str) -> String {
    text.to_string()
}

fn text(t: &str) -> Value {
    Value::Text(t.to_string())
}

fn object(fields: Vec<(&str, Value)>) -> Value {
    Value::Object(fields.into_iter().map(|(k, v)| (k.to_string(), v)).collect())
}

fn texts(list: &[&str]) -> Value {
    Value::Array(list.iter().map(|t| text(t)).collect())
}

fn ok(stdout: &str) -> CommandOutcome {
    CommandOutcome::Exited { success: true, stdout: stdout.to_string(), stderr: String::new() }
}

fn git(args: &[&str]) -> Invocation {
    Invocation { program: "git".to_string(), args: args.iter().map(|a| a.to_string()).collect() }
}

/// Runs an execution against the outputs given, and checks on the way that
/// it asks for the commands expected.
fn run(execution: Execution, script: Vec<(Vec<&str>, CommandOutcome)>) -> Response {
    let mut state = CallState::Validated(execution);
    for (expected, outcome) in script {
        state = match state {
            CallState::Validated(e) => {
                assert_eq!(e.invocation(), git(&expected));
                e.resume(outcome)
            }
            CallState::Responded(r) => panic!("the call is over too early: {:?}", r),
        };
    }
    match state {
        CallState::Responded(r) => r,
        CallState::Validated(e) => panic!("the call waits for {:?}", e.invocation()),
    }
}

const FORMAT: &str = "--pretty=format:%H|%an|%ad|%s";

#[test]
fn round_trip_of_one_history_line() {
    assert_eq!(
        parse_commit("abc123|Alice|2024-01-01|Fix bug"),
        object(vec![
            ("hash", text("abc123")),
            ("author", text("Alice")),
            ("date", text("2024-01-01")),
            ("message", text("Fix bug")),
        ])
    );
}

#[test]
fn history_line_with_too_few_fields_is_kept_raw() {
    assert_eq!(parse_commit("abc123|Alice|2024-01-01"), object(vec![("raw", text("abc123|Alice|2024-01-01"))]));
    assert_eq!(parse_commit("garbage"), object(vec![("raw", text("garbage"))]));
    assert_eq!(parse_commit(""), object(vec![("raw", text(""))]));
}

#[test]
fn history_line_with_more_fields_is_kept_raw() {
    assert_eq!(parse_commit("h1|Al|2024-01-01|fix a|b"), object(vec![("raw", text("h1|Al|2024-01-01|fix a|b"))]));
    assert_eq!(parse_commit("h|a|d|m|"), object(vec![("raw", text("h|a|d|m|"))]));
    assert_eq!(parse_commit("||||"), object(vec![("raw", text("||||"))]));
}

#[test]
fn history_line_of_four_empty_fields_is_a_record() {
    assert_eq!(
        parse_commit("|||"),
        object(vec![("hash", text("")), ("author", text("")), ("date", text("")), ("message", text(""))])
    );
}

#[test]
fn log_keeps_a_line_of_five_fields_whole() {
    let response = run(
        git_log(s("/repo"), None, None),
        vec![(vec!["-C", "/repo", "log", FORMAT], ok("h1|Al|2024-01-01|fix a|b"))],
    );
    assert_eq!(
        response,
        Response::Success(object(vec![(
            "commits",
            Value::Array(vec![object(vec![("raw", text("h1|Al|2024-01-01|fix a|b"))])])
        )]))
    );
}

#[test]
fn malformed_line_tolerance() {
    let records = parse_commits("abc123|Alice|2024-01-01|Fix bug\nnot a commit line\n");
    assert_eq!(
        records,
        vec![
            object(vec![
                ("hash", text("abc123")),
                ("author", text("Alice")),
                ("date", text("2024-01-01")),
                ("message", text("Fix bug")),
            ]),
            object(vec![("raw", text("not a commit line"))]),
        ]
    );
    let records = parse_commits("a|b\nh|x|d|m");
    assert_eq!(
        records,
        vec![
            object(vec![("raw", text("a|b"))]),
            object(vec![("hash", text("h")), ("author", text("x")), ("date", text("d")), ("message", text("m"))]),
        ]
    );
}

#[test]
fn history_skips_empty_lines() {
    assert_eq!(parse_commits(""), Vec::<Value>::new());
    assert_eq!(parse_commits("\n\n"), Vec::<Value>::new());
    assert_eq!(parse_commits("\nx\n\ny"), vec![object(vec![("raw", text("x"))]), object(vec![("raw", text("y"))])]);
}

#[test]
fn invocation_puts_the_repository_first() {
    assert_eq!(
        Invocation::git("/repo", vec![s("status"), s("--porcelain")]),
        git(&["-C", "/repo", "status", "--porcelain"])
    );
    assert_eq!(Invocation::git("", Vec::new()), git(&["-C", ""]));
}

#[test]
fn outcome_of_a_command_is_its_output_or_a_failure() {
    assert_eq!(ok("out").output(), Ok(s("out")));
    assert_eq!(
        CommandOutcome::Exited { success: true, stdout: s("out"), stderr: s("warning") }.output(),
        Ok(s("out"))
    );
    let failed = CommandOutcome::Exited { success: false, stdout: s("out"), stderr: s("fatal: bad") }.output();
    assert_eq!(failed, Err(mcp_git_tools::error::ToolError::command_failed("fatal: bad")));
    let unstarted = CommandOutcome::LaunchFailed { reason: s("not found") }.output();
    assert_eq!(unstarted, Err(mcp_git_tools::error::ToolError::launch_failed("not found")));
}

#[test]
fn status_of_a_clean_tree() {
    let response = run(git_status(s("/repo")), vec![(vec!["-C", "/repo", "status", "--porcelain"], ok(""))]);
    assert_eq!(
        response,
        Response::Success(object(vec![("status", texts(&[])), ("is_clean", Value::Bool(true))]))
    );
}

#[test]
fn status_of_a_tree_with_changes() {
    let response = run(
        git_status(s("/repo")),
        vec![(vec!["-C", "/repo", "status", "--porcelain"], ok(" M a.rs\n?? b.rs\n"))],
    );
    assert_eq!(
        response,
        Response::Success(object(vec![("status", texts(&[" M a.rs", "?? b.rs"])), ("is_clean", Value::Bool(false))]))
    );
}

#[test]
fn branches_are_listed_trimmed_with_the_current_one() {
    let response = run(
        git_branches(s("/repo")),
        vec![
            (vec!["-C", "/repo", "branch", "--list"], ok("  dev\n* main\n")),
            (vec!["-C", "/repo", "rev-parse", "--abbrev-ref", "HEAD"], ok("main\n")),
        ],
    );
    assert_eq!(
        response,
        Response::Success(object(vec![("branches", texts(&["dev", "* main"])), ("current", text("main"))]))
    );
}

#[test]
fn log_without_options() {
    let response = run(
        git_log(s("/repo"), None, None),
        vec![(vec!["-C", "/repo", "log", FORMAT], ok("abc123|Alice|2024-01-01|Fix bug"))],
    );
    assert_eq!(
        response,
        Response::Success(object(vec![(
            "commits",
            Value::Array(vec![object(vec![
                ("hash", text("abc123")),
                ("author", text("Alice")),
                ("date", text("2024-01-01")),
                ("message", text("Fix bug")),
            ])])
        )]))
    );
}

#[test]
fn log_with_limit_and_branch() {
    let e = git_log(s("/repo"), Some(25), Some(s("main")));
    assert_eq!(e.invocation(), git(&["-C", "/repo", "log", FORMAT, "-n", "25", "main"]));
    let e = git_log(s("/repo"), Some(0), None);
    assert_eq!(e.invocation(), git(&["-C", "/repo", "log", FORMAT, "-n", "0"]));
    let e = git_log(s("/repo"), None, Some(s("dev")));
    assert_eq!(e.invocation(), git(&["-C", "/repo", "log", FORMAT, "dev"]));
}

#[test]
fn log_passes_an_empty_branch_on_as_it_is_given() {
    let with_empty = git_log(s("/repo"), Some(3), Some(String::new()));
    assert_eq!(with_empty.invocation(), git(&["-C", "/repo", "log", FORMAT, "-n", "3", ""]));
    let without = git_log(s("/repo"), Some(3), None);
    assert_eq!(without.invocation(), git(&["-C", "/repo", "log", FORMAT, "-n", "3"]));
    let only_empty = git_log(s("/repo"), None, Some(String::new()));
    assert_eq!(only_empty.invocation(), git(&["-C", "/repo", "log", FORMAT, ""]));
}

#[test]
fn time_filtered_log_with_all_filters() {
    let response = run(
        git_time_filtered_log(s("/repo"), s("1 week ago"), Some(s("today")), Some(s("Alice")), Some(s("main"))),
        vec![(
            vec!["-C", "/repo", "log", FORMAT, "--since=1 week ago", "--until=today", "--author=Alice", "main"],
            ok("h|Alice|d|m\n"),
        )],
    );
    assert_eq!(
        response,
        Response::Success(object(vec![
            (
                "commits",
                Value::Array(vec![object(vec![
                    ("hash", text("h")),
                    ("author", text("Alice")),
                    ("date", text("d")),
                    ("message", text("m")),
                ])])
            ),
            (
                "filters",
                object(vec![
                    ("since", text("1 week ago")),
                    ("until", text("today")),
                    ("author", text("Alice")),
                    ("branch", text("main")),
                ])
            ),
        ]))
    );
}

#[test]
fn time_filtered_log_without_optional_filters() {
    let response = run(
        git_time_filtered_log(s("/repo"), s("2023-01-01"), None, None, None),
        vec![(vec!["-C", "/repo", "log", FORMAT, "--since=2023-01-01"], ok(""))],
    );
    assert_eq!(
        response,
        Response::Success(object(vec![
            ("commits", Value::Array(vec![])),
            (
                "filters",
                object(vec![
                    ("since", text("2023-01-01")),
                    ("until", Value::Null),
                    ("author", Value::Null),
                    ("branch", Value::Null),
                ])
            ),
        ]))
    );
}

#[test]
fn time_filtered_log_echoes_empty_filters_as_they_are_given() {
    let response = run(
        git_time_filtered_log(s("/repo"), s(""), Some(String::new()), Some(String::new()), Some(String::new())),
        vec![(vec!["-C", "/repo", "log", FORMAT, "--since=", "--until=", "--author=", ""], ok("h|a|d|m\nx\n"))],
    );
    assert_eq!(
        response,
        Response::Success(object(vec![
            (
                "commits",
                Value::Array(vec![
                    object(vec![("hash", text("h")), ("author", text("a")), ("date", text("d")), ("message", text("m"))]),
                    object(vec![("raw", text("x"))]),
                ])
            ),
            (
                "filters",
                object(vec![("since", text("")), ("until", text("")), ("author", text("")), ("branch", text(""))])
            ),
        ]))
    );
}

#[test]
fn time_filtered_log_parses_as_log_does() {
    let printed = "abc123|Alice|2024-01-01|Fix bug\n\nbroken\nh|a|d|m|more\n";
    let from_log = match git_log(s("/r"), None, None).resume(ok(printed)) {
        CallState::Responded(Response::Success(Value::Object(mut fields))) => fields.remove(0),
        other => panic!("unexpected state {:?}", other),
    };
    let from_filtered = match git_time_filtered_log(s("/r"), s("x"), None, None, None).resume(ok(printed)) {
        CallState::Responded(Response::Success(Value::Object(mut fields))) => fields.remove(0),
        other => panic!("unexpected state {:?}", other),
    };
    assert_eq!(from_log, from_filtered);
    assert_eq!(from_log.0, "commits");
    assert_eq!(from_log.1, Value::Array(parse_commits(printed)));
}

#[test]
fn commit_asks_for_the_hash_afterwards() {
    let response = run(
        git_commit(s("/repo"), s("Fix bug"), Some(true)),
        vec![
            (vec!["-C", "/repo", "commit", "-m", "Fix bug", "-a"], ok("[main abc123] Fix bug\n")),
            (vec!["-C", "/repo", "rev-parse", "HEAD"], ok("abc123def\n")),
        ],
    );
    assert_eq!(
        response,
        Response::Success(object(vec![
            ("success", Value::Bool(true)),
            ("hash", text("abc123def")),
            ("message", text("Fix bug")),
            ("output", text("[main abc123] Fix bug\n")),
        ]))
    );
}

#[test]
fn commit_without_all() {
    assert_eq!(git_commit(s("/r"), s("m"), None).invocation(), git(&["-C", "/r", "commit", "-m", "m"]));
    assert_eq!(git_commit(s("/r"), s("m"), Some(false)).invocation(), git(&["-C", "/r", "commit", "-m", "m"]));
    assert_eq!(git_commit(s("/r"), s(""), None).invocation(), git(&["-C", "/r", "commit", "-m", ""]));
}

#[test]
fn pull_goes_to_origin_by_default() {
    let response = run(
        git_pull(s("/repo"), None, None),
        vec![(vec!["-C", "/repo", "pull", "origin"], ok("Already up to date.\n"))],
    );
    assert_eq!(
        response,
        Response::Success(object(vec![
            ("success", Value::Bool(true)),
            ("remote", text("origin")),
            ("output", text("Already up to date.")),
        ]))
    );
}

#[test]
fn pull_from_a_remote_and_branch() {
    let response = run(
        git_pull(s("/repo"), Some(s("upstream")), Some(s("main"))),
        vec![(vec!["-C", "/repo", "pull", "upstream", "main"], ok(" done \n"))],
    );
    assert_eq!(
        response,
        Response::Success(object(vec![
            ("success", Value::Bool(true)),
            ("remote", text("upstream")),
            ("output", text("done")),
        ]))
    );
}

#[test]
fn pull_passes_empty_texts_on_as_they_are_given() {
    let response = run(
        git_pull(s("/repo"), Some(String::new()), Some(String::new())),
        vec![(vec!["-C", "/repo", "pull", "", ""], ok("ok"))],
    );
    assert_eq!(
        response,
        Response::Success(object(vec![("success", Value::Bool(true)), ("remote", text("")), ("output", text("ok"))]))
    );
}

#[test]
fn push_puts_the_flag_before_the_positional_arguments() {
    let response = run(
        git_push(s("/repo"), Some(s("upstream")), Some(s("main")), Some(true)),
        vec![(vec!["-C", "/repo", "push", "--force", "upstream", "main"], ok("\npushed\n"))],
    );
    assert_eq!(
        response,
        Response::Success(object(vec![
            ("success", Value::Bool(true)),
            ("remote", text("upstream")),
            ("output", text("pushed")),
        ]))
    );
}

#[test]
fn push_without_options() {
    assert_eq!(git_push(s("/r"), None, None, None).invocation(), git(&["-C", "/r", "push", "origin"]));
    assert_eq!(git_push(s("/r"), None, None, Some(false)).invocation(), git(&["-C", "/r", "push", "origin"]));
    assert_eq!(git_push(s("/r"), None, Some(s("dev")), None).invocation(), git(&["-C", "/r", "push", "origin", "dev"]));
}

#[test]
fn push_passes_empty_texts_on_as_they_are_given() {
    let response = run(
        git_push(s("/repo"), Some(String::new()), Some(String::new()), Some(true)),
        vec![(vec!["-C", "/repo", "push", "--force", "", ""], ok(" pushed "))],
    );
    assert_eq!(
        response,
        Response::Success(object(vec![
            ("success", Value::Bool(true)),
            ("remote", text("")),
            ("output", text("pushed")),
        ]))
    );
}

#[test]
fn diff_with_all_options() {
    let response = run(
        git_diff(s("/repo"), Some(s("src/lib.rs")), Some(true), Some(s("HEAD~1"))),
        vec![(vec!["-C", "/repo", "diff", "--staged", "HEAD~1", "--", "src/lib.rs"], ok("+line\n"))],
    );
    assert_eq!(response, Response::Success(object(vec![("changes", text("+line\n"))])));
}

#[test]
fn diff_without_options() {
    assert_eq!(git_diff(s("/r"), None, None, None).invocation(), git(&["-C", "/r", "diff"]));
    assert_eq!(git_diff(s("/r"), None, Some(false), None).invocation(), git(&["-C", "/r", "diff"]));
    assert_eq!(
        git_diff(s("/r"), Some(String::new()), Some(false), Some(String::new())).invocation(),
        git(&["-C", "/r", "diff", "", "--", ""])
    );
    assert_eq!(git_diff(s("/r"), Some(s("a")), None, None).invocation(), git(&["-C", "/r", "diff", "--", "a"]));
    assert_eq!(git_diff(s("/r"), None, None, Some(s("main"))).invocation(), git(&["-C", "/r", "diff", "main"]));
}

#[test]
fn add_lists_the_status_afterwards() {
    let response = run(
        git_add(s("/repo"), s("."), false, false),
        vec![(vec!["-C", "/repo", "add", "."], ok("")), (vec!["-C", "/repo", "status", "--porcelain"], ok("A  a.rs\n"))],
    );
    assert_eq!(
        response,
        Response::Success(object(vec![
            ("success", Value::Bool(true)),
            ("message", text("Files staged successfully")),
            ("status", texts(&["A  a.rs"])),
        ]))
    );
}

#[test]
fn add_reports_what_git_printed() {
    let response = run(
        git_add(s("/repo"), s("a.rs"), false, true),
        vec![
            (vec!["-C", "/repo", "add", "--all", "a.rs"], ok("add 'a.rs'\n")),
            (vec!["-C", "/repo", "status", "--porcelain"], ok("")),
        ],
    );
    assert_eq!(
        response,
        Response::Success(object(vec![
            ("success", Value::Bool(true)),
            ("message", text("add 'a.rs'\n")),
            ("status", texts(&[])),
        ]))
    );
}

#[test]
fn add_prefers_update_over_all() {
    assert_eq!(git_add(s("/r"), s("."), true, true).invocation(), git(&["-C", "/r", "add", "--update", "."]));
    assert_eq!(git_add(s("/r"), s("."), true, false).invocation(), git(&["-C", "/r", "add", "--update", "."]));
    assert_eq!(git_add(s("/r"), s(""), false, false).invocation(), git(&["-C", "/r", "add", ""]));
}

#[test]
fn reset_of_the_staging_area() {
    let response = run(
        git_reset(s("/repo"), s("a.rs"), false, None),
        vec![
            (vec!["-C", "/repo", "reset", "--", "a.rs"], ok("")),
            (vec!["-C", "/repo", "status", "--porcelain"], ok(" M a.rs\n")),
        ],
    );
    assert_eq!(
        response,
        Response::Success(object(vec![
            ("success", Value::Bool(true)),
            ("message", text("Files unstaged successfully")),
            ("status", texts(&[" M a.rs"])),
        ]))
    );
}

#[test]
fn hard_reset_to_a_target() {
    let response = run(
        git_reset(s("/repo"), s("."), true, Some(s("HEAD~1"))),
        vec![
            (vec!["-C", "/repo", "reset", "--hard", "HEAD~1"], ok("")),
            (vec!["-C", "/repo", "status", "--porcelain"], ok("")),
        ],
    );
    assert_eq!(
        response,
        Response::Success(object(vec![
            ("success", Value::Bool(true)),
            ("message", text("Hard reset performed successfully")),
            ("status", texts(&[])),
        ]))
    );
    let response = run(
        git_reset(s("/repo"), s(""), true, None),
        vec![
            (vec!["-C", "/repo", "reset", "--hard"], ok("HEAD is now at abc123\n")),
            (vec!["-C", "/repo", "status", "--porcelain"], ok("")),
        ],
    );
    assert_eq!(
        response,
        Response::Success(object(vec![
            ("success", Value::Bool(true)),
            ("message", text("HEAD is now at abc123\n")),
            ("status", texts(&[])),
        ]))
    );
}

#[test]
fn reset_passes_its_target_on_as_it_is_given() {
    assert_eq!(
        git_reset(s("/r"), s("a"), false, Some(String::new())).invocation(),
        git(&["-C", "/r", "reset", "", "--", "a"])
    );
    assert_eq!(git_reset(s("/r"), s("a"), false, None).invocation(), git(&["-C", "/r", "reset", "--", "a"]));
    assert_eq!(git_reset(s("/r"), s(""), false, None).invocation(), git(&["-C", "/r", "reset"]));
    assert_eq!(git_reset(s("/r"), s("."), false, None).invocation(), git(&["-C", "/r", "reset"]));
    assert_eq!(
        git_reset(s("/r"), s("a"), false, Some(s("main"))).invocation(),
        git(&["-C", "/r", "reset", "main", "--", "a"])
    );
}

#[test]
fn failed_command_ends_the_call_with_its_error_text() {
    let e = git_status(s("/nowhere"));
    let state = e.resume(CommandOutcome::Exited {
        success: false,
        stdout: s("partial"),
        stderr: s("fatal: not a git repository (or any of the parent directories): .git\n"),
    });
    match state {
        CallState::Responded(Response::Failure(failure)) => {
            assert_eq!(failure.kind, mcp_git_tools::error::ErrorKind::ExecutionFailure);
            assert_eq!(
                failure.message,
                "Git command failed: fatal: not a git repository (or any of the parent directories): .git\n"
            );
            assert!(failure.message.contains("fatal: not a git repository"));
        }
        other => panic!("unexpected state {:?}", other),
    }
}

#[test]
fn failed_first_command_keeps_the_second_from_running() {
    let e = git_commit(s("/repo"), s("m"), None);
    let state = e.resume(CommandOutcome::Exited { success: false, stdout: String::new(), stderr: s("nothing to commit") });
    assert_eq!(
        state,
        CallState::Responded(Response::Failure(mcp_git_tools::error::ToolError::command_failed("nothing to commit")))
    );
}

#[test]
fn failed_second_command_fails_the_call() {
    let e = git_add(s("/repo"), s("."), false, false);
    let state = match e.resume(ok("")) {
        CallState::Validated(e) => e.resume(CommandOutcome::LaunchFailed { reason: s("gone") }),
        other => panic!("unexpected state {:?}", other),
    };
    assert_eq!(
        state,
        CallState::Responded(Response::Failure(mcp_git_tools::error::ToolError::launch_failed("gone")))
    );
}

#[test]
fn execution_keeps_its_parameters() {
    let e = git_commit(s("/repo"), s("m"), Some(true));
    assert_eq!(e.parameters(), &Parameters::Commit { repo_path: s("/repo"), message: s("m"), all: true });
    let e = Execution::begin(Parameters::Status { repo_path: s("/r") });
    assert_eq!(e, git_status(s("/r")));
}

#[test]
fn count_and_finish_follow_the_tool() {
    assert_eq!(count(&Parameters::Status { repo_path: s("/r") }), 1);
    assert_eq!(count(&Parameters::Branches { repo_path: s("/r") }), 2);
    assert_eq!(count(&Parameters::Add { repo_path: s("/r"), path: s("."), update: false, all: false }), 2);
    assert_eq!(count(&Parameters::Log { repo_path: s("/r"), max_count: None, branch: None }), 1);
    assert_eq!(
        finish(&Parameters::Diff { repo_path: s("/r"), path: None, staged: false, commit: None }, &vec![s("d")]),
        object(vec![("changes", text("d"))])
    );
    assert_eq!(
        finish(&Parameters::Diff { repo_path: s("/r"), path: None, staged: false, commit: None }, &Vec::new()),
        object(vec![("changes", text(""))])
    );
}

#[test]
fn normalize_keeps_the_result_as_it_is() {
    let result = object(vec![("b", Value::Null), ("a", texts(&["x"]))]);
    assert_eq!(normalize(result), Response::Success(object(vec![("b", Value::Null), ("a", texts(&["x"]))])));
}

#[test]
fn parts_build_what_they_say() {
    assert_eq!(status_arguments(), vec![s("status"), s("--porcelain")]);
    assert_eq!(status_listing("a\nb"), texts(&["a", "b"]));
    assert_eq!(message("", "done"), text("done"));
    assert_eq!(message("printed", "done"), text("printed"));
    assert_eq!(output_at(&vec![s("a"), s("b")], 1), "b");
    assert_eq!(output_at(&vec![s("a")], 1), "");
    assert_eq!(remote_or_origin(&None), "origin");
    assert_eq!(remote_or_origin(&Some(String::new())), "");
    assert_eq!(remote_or_origin(&Some(s("fork"))), "fork");
}

#[test]
fn tools_have_their_names_and_descriptions() {
    assert_eq!(GitStatusTool.name(), "git_status");
    assert_eq!(GitBranchesTool.name(), "git_branches");
    assert_eq!(GitLogTool.name(), "git_log");
    assert_eq!(GitCommitTool.name(), "git_commit");
    assert_eq!(GitPullTool.name(), "git_pull");
    assert_eq!(GitPushTool.name(), "git_push");
    assert_eq!(GitDiffTool.name(), "git_diff");
    assert_eq!(GitTimeFilteredLogTool.name(), "git_time_filtered_log");
    assert_eq!(GitAddTool.name(), "git_add");
    assert_eq!(GitResetTool.name(), "git_reset");
    assert_eq!(GitStatusTool.description(), "Get the status of a git repository");
    assert_eq!(GitBranchesTool.description(), "List all branches in a git repository");
    assert_eq!(GitLogTool.description(), "Get the commit history of a git repository");
    assert_eq!(GitCommitTool.description(), "Create a commit with the staged changes");
    assert_eq!(GitPullTool.description(), "Pull changes from a remote repository");
    assert_eq!(GitPushTool.description(), "Push local commits to a remote repository");
    assert_eq!(GitDiffTool.description(), "Show changes between commits, commit and working tree, etc");
    assert_eq!(
        GitTimeFilteredLogTool.description(),
        "Get commits within a specified time range, optionally filtered by author and branch"
    );
    assert_eq!(GitAddTool.description(), "Add file contents to the git staging area");
    assert_eq!(GitResetTool.description(), "Reset the staging area or working tree to a specified state");
    assert_eq!(GitAddTool::default(), GitAddTool);
}

#[test]
fn tools_have_their_contracts() {
    let repo = FieldSpec::new("repo_path", "The path to the git repository", FieldKind::Text, true, false);
    assert_eq!(GitStatusTool.schema(), vec![repo.clone()]);
    assert_eq!(GitBranchesTool.schema(), vec![FieldSpec::new("repo_path", "", FieldKind::Text, true, false)]);
    assert_eq!(
        GitLogTool.schema(),
        vec![
            repo.clone(),
            FieldSpec::new("max_count", "The maximum number of commits to return", FieldKind::Count, false, true),
            FieldSpec::new("branch", "The branch to filter commits by", FieldKind::Text, false, true),
        ]
    );
    assert_eq!(
        GitCommitTool.schema(),
        vec![
            repo.clone(),
            FieldSpec::new("message", "The commit message", FieldKind::Text, true, false),
            FieldSpec::new("all", "Whether to add all changes", FieldKind::Flag, false, true),
        ]
    );
    assert_eq!(
        GitPullTool.schema(),
        vec![
            repo.clone(),
            FieldSpec::new("remote", "The remote to pull from", FieldKind::Text, false, true),
            FieldSpec::new("branch", "The branch to pull", FieldKind::Text, false, true),
        ]
    );
    assert_eq!(
        GitPushTool.schema(),
        vec![
            repo.clone(),
            FieldSpec::new("remote", "The remote to push to", FieldKind::Text, false, false),
            FieldSpec::new("branch", "The branch to push", FieldKind::Text, false, false),
            FieldSpec::new("force", "Whether to force push", FieldKind::Flag, false, false),
        ]
    );
    assert_eq!(
        GitDiffTool.schema(),
        vec![
            repo.clone(),
            FieldSpec::new("path", "The path to the file to diff", FieldKind::Text, true, false),
            FieldSpec::new("staged", "Whether to show staged changes", FieldKind::Flag, false, false),
            FieldSpec::new("commit", "The commit to diff against", FieldKind::Text, false, false),
        ]
    );
    assert_eq!(
        GitTimeFilteredLogTool.schema(),
        vec![
            repo.clone(),
            FieldSpec::new("since", "The start date", FieldKind::Text, true, false),
            FieldSpec::new("until", "The end date", FieldKind::Text, false, false),
            FieldSpec::new("author", "The author to filter by", FieldKind::Text, false, false),
            FieldSpec::new("branch", "The branch to filter by", FieldKind::Text, false, false),
        ]
    );
    assert_eq!(
        GitAddTool.schema(),
        vec![
            repo.clone(),
            FieldSpec::new(
                "path",
                "The path(s) to add, or patterns to match. Use '.' for all files.",
                FieldKind::Text,
                true,
                false
            ),
            FieldSpec::new("update", "Whether to update, rather than add", FieldKind::Flag, false, false),
            FieldSpec::new("all", "Whether to add all changes, including untracked files", FieldKind::Flag, false, false),
        ]
    );
    assert_eq!(
        GitResetTool.schema(),
        vec![
            repo,
            FieldSpec::new(
                "path",
                "The path(s) to reset, or patterns to match. Use '.' for all files.",
                FieldKind::Text,
                true,
                false
            ),
            FieldSpec::new(
                "hard",
                "Whether to perform a hard reset (WARNING: discards all local changes)",
                FieldKind::Flag,
                false,
                false
            ),
            FieldSpec::new("target", "The commit or branch to reset to (defaults to HEAD)", FieldKind::Text, false, true),
        ]
    );
}

#[test]
fn tool_calls_decode_their_parameters() {
    let args = object(vec![("repo_path", text("/repo")), ("path", text("")), ("staged", Value::Bool(true))]);
    assert_eq!(GitDiffTool.call(args), Ok(git_diff(s("/repo"), None, Some(true), None)));
    let args = object(vec![("repo_path", text("/repo")), ("path", text("a.rs")), ("commit", text(""))]);
    assert_eq!(GitDiffTool.call(args), Ok(git_diff(s("/repo"), Some(s("a.rs")), None, None)));
    let args = object(vec![("repo_path", text("/repo")), ("remote", text("")), ("branch", text("dev"))]);
    assert_eq!(GitPushTool.call(args), Ok(git_push(s("/repo"), None, Some(s("dev")), None)));
    let args = object(vec![("repo_path", text("/repo")), ("since", text("yesterday")), ("until", text(""))]);
    assert_eq!(
        GitTimeFilteredLogTool.call(args),
        Ok(git_time_filtered_log(s("/repo"), s("yesterday"), None, None, None))
    );
    let args = object(vec![("repo_path", text("/repo")), ("message", text("m")), ("all", Value::Bool(true))]);
    assert_eq!(GitCommitTool.call(args), Ok(git_commit(s("/repo"), s("m"), Some(true))));
    let args = object(vec![("repo_path", text("/repo")), ("path", text(".")), ("hard", Value::Bool(true))]);
    assert_eq!(GitResetTool.call(args), Ok(git_reset(s("/repo"), s("."), true, None)));
    let args = object(vec![("repo_path", text("/repo")), ("path", text("a")), ("update", Value::Bool(true))]);
    assert_eq!(GitAddTool.call(args), Ok(git_add(s("/repo"), s("a"), true, false)));
    let args = object(vec![("repo_path", text("/repo"))]);
    assert_eq!(GitBranchesTool.call(args), Ok(git_branches(s("/repo"))));
    let args = object(vec![("repo_path", text("/repo")), ("remote", text("up"))]);
    assert_eq!(GitPullTool.call(args), Ok(git_pull(s("/repo"), Some(s("up")), None)));
    let args = object(vec![("repo_path", text("/repo")), ("path", text("a"))]);
    assert_eq!(
        GitAddTool.call(object(vec![("repo_path", text("/repo"))])),
        Err(mcp_git_tools::error::ToolError::missing_field("path"))
    );
    assert_eq!(GitStatusTool.call(args), Ok(git_status(s("/repo"))));
}
