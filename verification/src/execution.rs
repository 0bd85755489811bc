//! What a tool does once its arguments are validated: the commands it has
//! run, one after the other, and the result it builds from their output.
//!
//! The library runs no command itself. An `Execution` names the command that
//! is to be run next; the caller runs it and hands the outcome to `resume`,
//! which answers with the next command, with the result, or with the failure.

use crate::command::{
    command_output, git_invocation, CommandOutcome, CommandOutcomeView, Invocation, InvocationView,
};
use crate::error::{ErrorKind, ToolError, ToolErrorView};
use crate::text::{lemma_texts_push, texts};
use crate::tools::add::{add_command, add_result, GitAddTool};
use crate::tools::branch::{
    branch_list_command, branches_result, current_branch_command, GitBranchesTool,
};
use crate::tools::commit::{commit_command, commit_result, head_command, GitCommitTool};
use crate::tools::diff::{diff_command, diff_result, GitDiffTool};
use crate::tools::log::{log_command, log_result, GitLogTool};
use crate::tools::parts::{output, output_at, status_arguments, status_command};
use crate::tools::pull::{pull_command, pull_result, GitPullTool};
use crate::tools::push::{push_command, push_result, GitPushTool};
use crate::tools::reset::{reset_command, reset_result, GitResetTool};
use crate::tools::status::{status_result, GitStatusTool};
use crate::tools::time_filtered_log::{
    time_filtered_log_command, time_filtered_log_result, GitTimeFilteredLogTool,
};
use crate::value::{Value, ValueView};
use vstd::prelude::*;

verus! {

/// The typed parameters of a call, for each tool.
#[derive(Clone, Debug, PartialEq, Eq)]
pub enum Parameters {
    Status { repo_path: String },
    Branches { repo_path: String },
    Log { repo_path: String, max_count: Option<u32>, branch: Option<String> },
    TimeFilteredLog {
        repo_path: String,
        since: String,
        until: Option<String>,
        author: Option<String>,
        branch: Option<String>,
    },
    Commit { repo_path: String, message: String, all: bool },
    Pull { repo_path: String, remote: Option<String>, branch: Option<String> },
    Push { repo_path: String, remote: Option<String>, branch: Option<String>, force: bool },
    Diff { repo_path: String, path: Option<String>, staged: bool, commit: Option<String> },
    Add { repo_path: String, path: String, update: bool, all: bool },
    Reset { repo_path: String, path: String, hard: bool, target: Option<String> },
}

/// What `Parameters` hold.
pub enum ParametersView {
    Status { repo_path: Seq<char> },
    Branches { repo_path: Seq<char> },
    Log { repo_path: Seq<char>, max_count: Option<u32>, branch: Option<Seq<char>> },
    TimeFilteredLog {
        repo_path: Seq<char>,
        since: Seq<char>,
        until: Option<Seq<char>>,
        author: Option<Seq<char>>,
        branch: Option<Seq<char>>,
    },
    Commit { repo_path: Seq<char>, message: Seq<char>, all: bool },
    Pull { repo_path: Seq<char>, remote: Option<Seq<char>>, branch: Option<Seq<char>> },
    Push {
        repo_path: Seq<char>,
        remote: Option<Seq<char>>,
        branch: Option<Seq<char>>,
        force: bool,
    },
    Diff {
        repo_path: Seq<char>,
        path: Option<Seq<char>>,
        staged: bool,
        commit: Option<Seq<char>>,
    },
    Add { repo_path: Seq<char>, path: Seq<char>, update: bool, all: bool },
    Reset { repo_path: Seq<char>, path: Seq<char>, hard: bool, target: Option<Seq<char>> },
}

impl View for Parameters {
    type V = ParametersView;

    open spec fn view(&self) -> ParametersView {
        match self {
            Parameters::Status { repo_path } => ParametersView::Status { repo_path: repo_path@ },
            Parameters::Branches { repo_path } => ParametersView::Branches {
                repo_path: repo_path@,
            },
            Parameters::Log { repo_path, max_count, branch } => ParametersView::Log {
                repo_path: repo_path@,
                max_count: *max_count,
                branch: branch.deep_view(),
            },
            Parameters::TimeFilteredLog {
                repo_path,
                since,
                until,
                author,
                branch,
            } => ParametersView::TimeFilteredLog {
                repo_path: repo_path@,
                since: since@,
                until: until.deep_view(),
                author: author.deep_view(),
                branch: branch.deep_view(),
            },
            Parameters::Commit { repo_path, message, all } => ParametersView::Commit {
                repo_path: repo_path@,
                message: message@,
                all: *all,
            },
            Parameters::Pull { repo_path, remote, branch } => ParametersView::Pull {
                repo_path: repo_path@,
                remote: remote.deep_view(),
                branch: branch.deep_view(),
            },
            Parameters::Push { repo_path, remote, branch, force } => ParametersView::Push {
                repo_path: repo_path@,
                remote: remote.deep_view(),
                branch: branch.deep_view(),
                force: *force,
            },
            Parameters::Diff { repo_path, path, staged, commit } => ParametersView::Diff {
                repo_path: repo_path@,
                path: path.deep_view(),
                staged: *staged,
                commit: commit.deep_view(),
            },
            Parameters::Add { repo_path, path, update, all } => ParametersView::Add {
                repo_path: repo_path@,
                path: path@,
                update: *update,
                all: *all,
            },
            Parameters::Reset { repo_path, path, hard, target } => ParametersView::Reset {
                repo_path: repo_path@,
                path: path@,
                hard: *hard,
                target: target.deep_view(),
            },
        }
    }
}

/// The repository that the parameters name.
pub open spec fn repository(p: ParametersView) -> Seq<char> {
    match p {
        ParametersView::Status { repo_path } => repo_path,
        ParametersView::Branches { repo_path } => repo_path,
        ParametersView::Log { repo_path, .. } => repo_path,
        ParametersView::TimeFilteredLog { repo_path, .. } => repo_path,
        ParametersView::Commit { repo_path, .. } => repo_path,
        ParametersView::Pull { repo_path, .. } => repo_path,
        ParametersView::Push { repo_path, .. } => repo_path,
        ParametersView::Diff { repo_path, .. } => repo_path,
        ParametersView::Add { repo_path, .. } => repo_path,
        ParametersView::Reset { repo_path, .. } => repo_path,
    }
}

/// The commands that a tool has run for the given parameters, in their order.
/// Each is a subcommand of git, followed by its flags in a fixed order and
/// then by its positional arguments.
pub open spec fn commands(p: ParametersView) -> Seq<Seq<Seq<char>>> {
    match p {
        ParametersView::Status { .. } => seq![status_command()],
        ParametersView::Branches { .. } => seq![branch_list_command(), current_branch_command()],
        ParametersView::Log { max_count, branch, .. } => seq![log_command(max_count, branch)],
        ParametersView::TimeFilteredLog { since, until, author, branch, .. } => seq![
            time_filtered_log_command(since, until, author, branch),
        ],
        ParametersView::Commit { message, all, .. } => seq![
            commit_command(message, all),
            head_command(),
        ],
        ParametersView::Pull { remote, branch, .. } => seq![pull_command(remote, branch)],
        ParametersView::Push { remote, branch, force, .. } => seq![
            push_command(remote, branch, force),
        ],
        ParametersView::Diff { path, staged, commit, .. } => seq![
            diff_command(path, staged, commit),
        ],
        ParametersView::Add { path, update, all, .. } => seq![
            add_command(path, update, all),
            status_command(),
        ],
        ParametersView::Reset { path, hard, target, .. } => seq![
            reset_command(path, hard, target),
            status_command(),
        ],
    }
}

/// The result that a tool builds for the given parameters from the outputs of
/// its commands, each command's output at the position of the command.
pub open spec fn result(p: ParametersView, outputs: Seq<Seq<char>>) -> ValueView {
    match p {
        ParametersView::Status { .. } => status_result(output(outputs, 0)),
        ParametersView::Branches { .. } => branches_result(output(outputs, 0), output(outputs, 1)),
        ParametersView::Log { .. } => log_result(output(outputs, 0)),
        ParametersView::TimeFilteredLog {
            since,
            until,
            author,
            branch,
            ..
        } => time_filtered_log_result(since, until, author, branch, output(outputs, 0)),
        ParametersView::Commit { message, .. } => commit_result(
            message,
            output(outputs, 0),
            output(outputs, 1),
        ),
        ParametersView::Pull { remote, .. } => pull_result(remote, output(outputs, 0)),
        ParametersView::Push { remote, .. } => push_result(remote, output(outputs, 0)),
        ParametersView::Diff { .. } => diff_result(output(outputs, 0)),
        ParametersView::Add { .. } => add_result(output(outputs, 0), output(outputs, 1)),
        ParametersView::Reset { hard, .. } => reset_result(
            hard,
            output(outputs, 0),
            output(outputs, 1),
        ),
    }
}

/// A call whose arguments are validated and whose commands are being run:
/// the typed parameters and the outputs of the commands that have run so far.
/// At least one command is still to be run.
#[derive(Debug, PartialEq, Eq)]
pub struct Execution {
    parameters: Parameters,
    outputs: Vec<String>,
}

/// What an `Execution` holds.
pub struct ExecutionView {
    pub parameters: ParametersView,
    pub outputs: Seq<Seq<char>>,
}

/// The response to a call: the result of the tool, unchanged, or the failure.
#[derive(Debug, PartialEq, Eq)]
pub enum Response {
    Success(Value),
    Failure(ToolError),
}

/// What a `Response` holds.
pub enum ResponseView {
    Success(ValueView),
    Failure(ToolErrorView),
}

impl View for Response {
    type V = ResponseView;

    open spec fn view(&self) -> ResponseView {
        match self {
            Response::Success(v) => ResponseView::Success(v@),
            Response::Failure(e) => ResponseView::Failure(e@),
        }
    }
}

/// How far a call has come.
#[derive(Debug, PartialEq, Eq)]
pub enum CallState {
    /// The arguments are validated; the command that the execution names is
    /// to be run, and its outcome handed to `Execution::resume`.
    Validated(Execution),
    /// The call is over, with this response.
    Responded(Response),
}

/// What a `CallState` holds.
pub enum CallStateView {
    Validated(ExecutionView),
    Responded(ResponseView),
}

impl View for CallState {
    type V = CallStateView;

    open spec fn view(&self) -> CallStateView {
        match self {
            CallState::Validated(e) => CallStateView::Validated(e@),
            CallState::Responded(r) => CallStateView::Responded(r@),
        }
    }
}

/// The state of a call that has just been validated: no command has run yet.
pub open spec fn started(parameters: ParametersView) -> ExecutionView {
    ExecutionView { parameters, outputs: Seq::empty() }
}

/// The command that an execution waits for.
pub open spec fn pending(e: ExecutionView) -> InvocationView {
    git_invocation(repository(e.parameters), commands(e.parameters)[e.outputs.len() as int])
}

/// The state of a call after the command that it waited for has come back
/// with `outcome`.
///
/// A command that could not be started, or that ended with a status other
/// than zero, ends the call with that failure. Else its output is kept; after
/// the tool's last command the call ends with the tool's result, and before
/// that it waits for the next command.
pub open spec fn step(e: ExecutionView, outcome: CommandOutcomeView) -> CallStateView {
    match command_output(outcome) {
        Err(failure) => CallStateView::Responded(ResponseView::Failure(failure)),
        Ok(text) => {
            let outputs = e.outputs.push(text);
            if outputs.len() < commands(e.parameters).len() {
                CallStateView::Validated(ExecutionView { parameters: e.parameters, outputs })
            } else {
                CallStateView::Responded(ResponseView::Success(result(e.parameters, outputs)))
            }
        },
    }
}

/// A command that ends with a status other than zero ends the call, whatever
/// the tool and however far it has come, with a failure of kind
/// `ExecutionFailure` whose message ends with what the command wrote to its
/// error stream. So does a command that could not be started, with the reason.
pub proof fn law_failed_command_fails_call(
    e: ExecutionView,
    stdout: Seq<char>,
    stderr: Seq<char>,
    reason: Seq<char>,
)
    ensures
        step(e, CommandOutcomeView::Exited { success: false, stdout, stderr })
            == CallStateView::Responded(
            ResponseView::Failure(
                ToolErrorView {
                    kind: ErrorKind::ExecutionFailure,
                    message: "Git command failed: "@ + stderr,
                },
            ),
        ),
        step(e, CommandOutcomeView::LaunchFailed { reason }) == CallStateView::Responded(
            ResponseView::Failure(
                ToolErrorView {
                    kind: ErrorKind::ExecutionFailure,
                    message: "Failed to execute git: "@ + reason,
                },
            ),
        ),
{
}

/// A call that went well ends after as many commands as its tool has, with
/// the tool's result for their outputs; before that it waits for its next
/// command, with the outputs so far.
pub proof fn law_call_ends_after_last_command(e: ExecutionView, stdout: Seq<char>, stderr: Seq<char>)
    requires
        e.outputs.len() < commands(e.parameters).len(),
    ensures
        e.outputs.len() + 1 == commands(e.parameters).len() ==> step(
            e,
            CommandOutcomeView::Exited { success: true, stdout, stderr },
        ) == CallStateView::Responded(
            ResponseView::Success(result(e.parameters, e.outputs.push(stdout))),
        ),
        e.outputs.len() + 1 < commands(e.parameters).len() ==> step(
            e,
            CommandOutcomeView::Exited { success: true, stdout, stderr },
        ) == CallStateView::Validated(
            ExecutionView { parameters: e.parameters, outputs: e.outputs.push(stdout) },
        ),
{
}

impl View for Execution {
    type V = ExecutionView;

    closed spec fn view(&self) -> ExecutionView {
        ExecutionView { parameters: self.parameters@, outputs: texts(self.outputs@) }
    }
}

impl Execution {
    #[verifier::type_invariant]
    spec fn waits_for_a_command(self) -> bool {
        self.outputs@.len() < commands(self.parameters@).len()
    }

    /// The execution of a tool on the given parameters, before its first
    /// command.
    pub fn begin(parameters: Parameters) -> (e: Execution)
        ensures
            e@ == started(parameters@),
    {
        let outputs: Vec<String> = Vec::new();
        assert(texts(outputs@) =~= Seq::<Seq<char>>::empty());
        Execution { parameters, outputs }
    }

    /// The typed parameters of the call.
    pub fn parameters(&self) -> (parameters: &Parameters)
        ensures
            parameters@ == self@.parameters,
    {
        &self.parameters
    }

    /// The command that is to be run next.
    pub fn invocation(&self) -> (invocation: Invocation)
        ensures
            invocation@ == pending(self@),
            self@.outputs.len() < commands(self@.parameters).len(),
    {
        proof {
            use_type_invariant(self);
        }
        let first = self.outputs.len() == 0;
        match &self.parameters {
            Parameters::Status { repo_path } => Invocation::git(
                repo_path.as_str(),
                status_arguments(),
            ),
            Parameters::Branches { repo_path } => Invocation::git(
                repo_path.as_str(),
                if first {
                    GitBranchesTool::list()
                } else {
                    GitBranchesTool::current()
                },
            ),
            Parameters::Log { repo_path, max_count, branch } => Invocation::git(
                repo_path.as_str(),
                GitLogTool::command(*max_count, branch),
            ),
            Parameters::TimeFilteredLog {
                repo_path,
                since,
                until,
                author,
                branch,
            } => Invocation::git(
                repo_path.as_str(),
                GitTimeFilteredLogTool::command(since.as_str(), until, author, branch),
            ),
            Parameters::Commit { repo_path, message, all } => Invocation::git(
                repo_path.as_str(),
                if first {
                    GitCommitTool::command(message.as_str(), *all)
                } else {
                    GitCommitTool::head()
                },
            ),
            Parameters::Pull { repo_path, remote, branch } => Invocation::git(
                repo_path.as_str(),
                GitPullTool::command(remote, branch),
            ),
            Parameters::Push { repo_path, remote, branch, force } => Invocation::git(
                repo_path.as_str(),
                GitPushTool::command(remote, branch, *force),
            ),
            Parameters::Diff { repo_path, path, staged, commit } => Invocation::git(
                repo_path.as_str(),
                GitDiffTool::command(path, *staged, commit),
            ),
            Parameters::Add { repo_path, path, update, all } => Invocation::git(
                repo_path.as_str(),
                if first {
                    GitAddTool::command(path.as_str(), *update, *all)
                } else {
                    status_arguments()
                },
            ),
            Parameters::Reset { repo_path, path, hard, target } => Invocation::git(
                repo_path.as_str(),
                if first {
                    GitResetTool::command(path.as_str(), *hard, target)
                } else {
                    status_arguments()
                },
            ),
        }
    }

    /// Takes the outcome of the command that was run, and says how the call
    /// goes on: see `step`.
    pub fn resume(self, outcome: CommandOutcome) -> (next: CallState)
        ensures
            next@ == step(self@, outcome@),
    {
        proof {
            use_type_invariant(&self);
        }
        match outcome.output() {
            Err(failure) => CallState::Responded(Response::Failure(failure)),
            Ok(text) => {
                let parameters = self.parameters;
                let mut outputs = self.outputs;
                proof {
                    lemma_texts_push(outputs@, text);
                }
                outputs.push(text);
                if outputs.len() < count(&parameters) {
                    CallState::Validated(Execution { parameters, outputs })
                } else {
                    CallState::Responded(normalize(finish(&parameters, &outputs)))
                }
            },
        }
    }
}

/// The number of commands that a tool has run for the given parameters.
pub fn count(parameters: &Parameters) -> (n: usize)
    ensures
        n == commands(parameters@).len(),
{
    match parameters {
        Parameters::Branches { .. } => 2,
        Parameters::Commit { .. } => 2,
        Parameters::Add { .. } => 2,
        Parameters::Reset { .. } => 2,
        _ => 1,
    }
}

/// The result of a tool: see `result`.
pub fn finish(parameters: &Parameters, outputs: &Vec<String>) -> (v: Value)
    ensures
        v@ == result(parameters@, texts(outputs@)),
{
    let first = output_at(outputs, 0);
    let second = output_at(outputs, 1);
    match parameters {
        Parameters::Status { .. } => GitStatusTool::result(first.as_str()),
        Parameters::Branches { .. } => GitBranchesTool::result(first.as_str(), second.as_str()),
        Parameters::Log { .. } => GitLogTool::result(first.as_str()),
        Parameters::TimeFilteredLog {
            since,
            until,
            author,
            branch,
            ..
        } => GitTimeFilteredLogTool::result(since.as_str(), until, author, branch, first.as_str()),
        Parameters::Commit { message, .. } => GitCommitTool::result(
            message.as_str(),
            first.as_str(),
            second.as_str(),
        ),
        Parameters::Pull { remote, .. } => GitPullTool::result(remote, first.as_str()),
        Parameters::Push { remote, .. } => GitPushTool::result(remote, first.as_str()),
        Parameters::Diff { .. } => GitDiffTool::result(first.as_str()),
        Parameters::Add { .. } => GitAddTool::result(first.as_str(), second.as_str()),
        Parameters::Reset { hard, .. } => GitResetTool::result(
            *hard,
            first.as_str(),
            second.as_str(),
        ),
    }
}

/// Wraps the result of a tool as the response to its call. The result is kept
/// as it is.
pub fn normalize(result: Value) -> (response: Response)
    ensures
        response@ == ResponseView::Success(result@),
{
    Response::Success(result)
}

} // verus!
