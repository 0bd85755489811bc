//! The tools as one type, so that a registry can hold any of them.

use crate::contract::{
    contract_view, decoded, law_empty_text_is_absent, law_missing_required_field_fails,
    law_validation_fails_as_decode_failure, well_formed, ArgumentView, FieldKind, FieldSpecView,
    InputContract,
};
use crate::error::{ErrorKind, ToolError, ToolErrorView};
use crate::execution::{
    started, CallStateView, Execution, ExecutionView, ParametersView, ResponseView,
};
use crate::tools::add::{add_contract, add_parameters, GitAddTool};
use crate::tools::branch::{branches_contract, branches_parameters, GitBranchesTool};
use crate::tools::commit::{commit_contract, commit_parameters, GitCommitTool};
use crate::tools::diff::{diff_contract, diff_parameters, GitDiffTool};
use crate::tools::log::{log_contract, log_parameters, GitLogTool};
use crate::tools::pull::{pull_contract, pull_parameters, GitPullTool};
use crate::tools::push::{push_contract, push_parameters, GitPushTool};
use crate::tools::reset::{reset_contract, reset_parameters, GitResetTool};
use crate::tools::status::{status_contract, status_parameters, GitStatusTool};
use crate::tools::time_filtered_log::{
    time_filtered_log_contract, time_filtered_log_parameters, GitTimeFilteredLogTool,
};
use crate::value::{field, Value, ValueView};
use vstd::prelude::*;

verus! {

/// One of the tools.
#[derive(Clone, Copy, Debug, PartialEq, Eq)]
pub enum ToolHandler {
    Status(GitStatusTool),
    Branches(GitBranchesTool),
    Log(GitLogTool),
    Commit(GitCommitTool),
    Pull(GitPullTool),
    Push(GitPushTool),
    Diff(GitDiffTool),
    TimeFilteredLog(GitTimeFilteredLogTool),
    Add(GitAddTool),
    Reset(GitResetTool),
}

/// The name that callers know a tool by.
pub open spec fn tool_name(tool: ToolHandler) -> Seq<char> {
    match tool {
        ToolHandler::Status(_) => "git_status"@,
        ToolHandler::Branches(_) => "git_branches"@,
        ToolHandler::Log(_) => "git_log"@,
        ToolHandler::Commit(_) => "git_commit"@,
        ToolHandler::Pull(_) => "git_pull"@,
        ToolHandler::Push(_) => "git_push"@,
        ToolHandler::Diff(_) => "git_diff"@,
        ToolHandler::TimeFilteredLog(_) => "git_time_filtered_log"@,
        ToolHandler::Add(_) => "git_add"@,
        ToolHandler::Reset(_) => "git_reset"@,
    }
}

/// What a tool does, for a reader.
pub open spec fn tool_description(tool: ToolHandler) -> Seq<char> {
    match tool {
        ToolHandler::Status(_) => "Get the status of a git repository"@,
        ToolHandler::Branches(_) => "List all branches in a git repository"@,
        ToolHandler::Log(_) => "Get the commit history of a git repository"@,
        ToolHandler::Commit(_) => "Create a commit with the staged changes"@,
        ToolHandler::Pull(_) => "Pull changes from a remote repository"@,
        ToolHandler::Push(_) => "Push local commits to a remote repository"@,
        ToolHandler::Diff(_) => "Show changes between commits, commit and working tree, etc"@,
        ToolHandler::TimeFilteredLog(
            _,
        ) => "Get commits within a specified time range, optionally filtered by author and branch"@,
        ToolHandler::Add(_) => "Add file contents to the git staging area"@,
        ToolHandler::Reset(_) => "Reset the staging area or working tree to a specified state"@,
    }
}

/// The input contract of a tool.
pub open spec fn tool_contract(tool: ToolHandler) -> Seq<FieldSpecView> {
    match tool {
        ToolHandler::Status(_) => status_contract(),
        ToolHandler::Branches(_) => branches_contract(),
        ToolHandler::Log(_) => log_contract(),
        ToolHandler::Commit(_) => commit_contract(),
        ToolHandler::Pull(_) => pull_contract(),
        ToolHandler::Push(_) => push_contract(),
        ToolHandler::Diff(_) => diff_contract(),
        ToolHandler::TimeFilteredLog(_) => time_filtered_log_contract(),
        ToolHandler::Add(_) => add_contract(),
        ToolHandler::Reset(_) => reset_contract(),
    }
}

/// The typed parameters of a tool that validated arguments stand for.
pub open spec fn tool_parameters(tool: ToolHandler, list: Seq<ArgumentView>) -> ParametersView {
    match tool {
        ToolHandler::Status(_) => status_parameters(list),
        ToolHandler::Branches(_) => branches_parameters(list),
        ToolHandler::Log(_) => log_parameters(list),
        ToolHandler::Commit(_) => commit_parameters(list),
        ToolHandler::Pull(_) => pull_parameters(list),
        ToolHandler::Push(_) => push_parameters(list),
        ToolHandler::Diff(_) => diff_parameters(list),
        ToolHandler::TimeFilteredLog(_) => time_filtered_log_parameters(list),
        ToolHandler::Add(_) => add_parameters(list),
        ToolHandler::Reset(_) => reset_parameters(list),
    }
}

/// What calling `tool` with `arguments` comes to: the failure of the
/// validation, or the execution of the tool on the typed parameters, before
/// its first command.
pub open spec fn begun(tool: ToolHandler, arguments: ValueView) -> Result<
    ExecutionView,
    ToolErrorView,
> {
    match decoded(tool_contract(tool), arguments) {
        Err(failure) => Err(failure),
        Ok(list) => Ok(started(tool_parameters(tool, list))),
    }
}

/// The state of a call after validation.
pub open spec fn begun_state(tool: ToolHandler, arguments: ValueView) -> CallStateView {
    match begun(tool, arguments) {
        Err(failure) => CallStateView::Responded(ResponseView::Failure(failure)),
        Ok(execution) => CallStateView::Validated(execution),
    }
}

/// A call whose arguments leave out a field that the tool requires, or hold
/// `null` for it, ends at once, with a failure of kind `DecodeFailure`: the
/// tool is not started, and no command is asked for.
pub proof fn law_missing_required_field_ends_call(tool: ToolHandler, arguments: ValueView, i: int)
    requires
        0 <= i < tool_contract(tool).len(),
        tool_contract(tool)[i].required,
        field(arguments, tool_contract(tool)[i].name) is None || field(
            arguments,
            tool_contract(tool)[i].name,
        ) == Some(ValueView::Null),
    ensures
        begun(tool, arguments) is Err,
        begun(tool, arguments)->Err_0.kind == ErrorKind::DecodeFailure,
        begun_state(tool, arguments) == CallStateView::Responded(
            ResponseView::Failure(begun(tool, arguments)->Err_0),
        ),
{
    law_missing_required_field_fails(tool_contract(tool), arguments, i);
}

/// Whatever the arguments, a call that fails before its tool is started
/// fails with a `DecodeFailure`.
pub proof fn law_call_fails_as_decode_failure(tool: ToolHandler, arguments: ValueView)
    ensures
        begun(tool, arguments) matches Err(failure) ==> failure.kind == ErrorKind::DecodeFailure,
{
    law_validation_fails_as_decode_failure(tool_contract(tool), arguments);
}

/// For every tool and every optional text field of its contract, the empty
/// text in the field means what leaving the field out means: two argument
/// objects of which one holds the empty text there and the other nothing, and
/// which agree in every other field of the contract, make the same call.
pub proof fn law_empty_text_makes_the_same_call(
    tool: ToolHandler,
    with_empty: ValueView,
    without: ValueView,
    i: int,
)
    requires
        0 <= i < tool_contract(tool).len(),
        tool_contract(tool)[i].kind == FieldKind::Text,
        !tool_contract(tool)[i].required,
        with_empty is Object,
        without is Object,
        field(with_empty, tool_contract(tool)[i].name) == Some(ValueView::Text(Seq::empty())),
        field(without, tool_contract(tool)[i].name) is None,
        forall|j: int|
            0 <= j < tool_contract(tool).len() && j != i ==> field(
                with_empty,
                (#[trigger] tool_contract(tool)[j]).name,
            ) == field(without, tool_contract(tool)[j].name),
    ensures
        begun(tool, with_empty) == begun(tool, without),
        begun_state(tool, with_empty) == begun_state(tool, without),
{
    law_empty_text_is_absent(tool_contract(tool), with_empty, without, i);
}

/// No tool has two fields of one name in its contract.
pub proof fn law_contracts_are_well_formed(tool: ToolHandler)
    ensures
        well_formed(tool_contract(tool)),
{
    reveal_strlit("repo_path");
    reveal_strlit("max_count");
    reveal_strlit("branch");
    reveal_strlit("message");
    reveal_strlit("all");
    reveal_strlit("remote");
    reveal_strlit("force");
    reveal_strlit("path");
    reveal_strlit("staged");
    reveal_strlit("commit");
    reveal_strlit("since");
    reveal_strlit("until");
    reveal_strlit("author");
    reveal_strlit("update");
    reveal_strlit("hard");
    reveal_strlit("target");
    let contract = tool_contract(tool);
    assert("repo_path"@.len() == 9 && "repo_path"@[0] == 'r');
    assert("max_count"@.len() == 9 && "max_count"@[0] == 'm');
    assert("branch"@.len() == 6 && "branch"@[0] == 'b');
    assert("message"@.len() == 7);
    assert("all"@.len() == 3);
    assert("remote"@.len() == 6 && "remote"@[0] == 'r');
    assert("force"@.len() == 5);
    assert("path"@.len() == 4 && "path"@[0] == 'p');
    assert("staged"@.len() == 6 && "staged"@[0] == 's');
    assert("commit"@.len() == 6 && "commit"@[0] == 'c');
    assert("since"@.len() == 5 && "since"@[0] == 's');
    assert("until"@.len() == 5 && "until"@[0] == 'u');
    assert("author"@.len() == 6 && "author"@[0] == 'a');
    assert("update"@.len() == 6);
    assert("hard"@.len() == 4 && "hard"@[0] == 'h');
    assert("target"@.len() == 6);
    assert forall|i: int, j: int| 0 <= i < j < contract.len() implies (#[trigger] contract[i]).name
        != (#[trigger] contract[j]).name by {
        let a = contract[i].name;
        let b = contract[j].name;
        assert(a.len() != b.len() || a[0] != b[0]);
    }
}

impl ToolHandler {
    /// The name that callers know the tool by.
    pub fn name(&self) -> (s: &'static str)
        ensures
            s@ == tool_name(*self),
    {
        match self {
            ToolHandler::Status(tool) => tool.name(),
            ToolHandler::Branches(tool) => tool.name(),
            ToolHandler::Log(tool) => tool.name(),
            ToolHandler::Commit(tool) => tool.name(),
            ToolHandler::Pull(tool) => tool.name(),
            ToolHandler::Push(tool) => tool.name(),
            ToolHandler::Diff(tool) => tool.name(),
            ToolHandler::TimeFilteredLog(tool) => tool.name(),
            ToolHandler::Add(tool) => tool.name(),
            ToolHandler::Reset(tool) => tool.name(),
        }
    }

    /// What the tool does, for a reader.
    pub fn description(&self) -> (s: &'static str)
        ensures
            s@ == tool_description(*self),
    {
        match self {
            ToolHandler::Status(tool) => tool.description(),
            ToolHandler::Branches(tool) => tool.description(),
            ToolHandler::Log(tool) => tool.description(),
            ToolHandler::Commit(tool) => tool.description(),
            ToolHandler::Pull(tool) => tool.description(),
            ToolHandler::Push(tool) => tool.description(),
            ToolHandler::Diff(tool) => tool.description(),
            ToolHandler::TimeFilteredLog(tool) => tool.description(),
            ToolHandler::Add(tool) => tool.description(),
            ToolHandler::Reset(tool) => tool.description(),
        }
    }

    /// The input contract of the tool.
    pub fn schema(&self) -> (contract: InputContract)
        ensures
            contract_view(contract@) == tool_contract(*self),
    {
        match self {
            ToolHandler::Status(tool) => tool.schema(),
            ToolHandler::Branches(tool) => tool.schema(),
            ToolHandler::Log(tool) => tool.schema(),
            ToolHandler::Commit(tool) => tool.schema(),
            ToolHandler::Pull(tool) => tool.schema(),
            ToolHandler::Push(tool) => tool.schema(),
            ToolHandler::Diff(tool) => tool.schema(),
            ToolHandler::TimeFilteredLog(tool) => tool.schema(),
            ToolHandler::Add(tool) => tool.schema(),
            ToolHandler::Reset(tool) => tool.schema(),
        }
    }

    /// Validates the arguments of a call against the tool's contract and
    /// starts the tool's execution: see `begun`.
    pub fn call(&self, params: Value) -> (r: Result<Execution, ToolError>)
        ensures
            match r {
                Ok(e) => begun(*self, params@) == Ok::<ExecutionView, ToolErrorView>(e@),
                Err(failure) => begun(*self, params@) == Err::<ExecutionView, ToolErrorView>(
                    failure@,
                ),
            },
    {
        match self {
            ToolHandler::Status(tool) => tool.call(params),
            ToolHandler::Branches(tool) => tool.call(params),
            ToolHandler::Log(tool) => tool.call(params),
            ToolHandler::Commit(tool) => tool.call(params),
            ToolHandler::Pull(tool) => tool.call(params),
            ToolHandler::Push(tool) => tool.call(params),
            ToolHandler::Diff(tool) => tool.call(params),
            ToolHandler::TimeFilteredLog(tool) => tool.call(params),
            ToolHandler::Add(tool) => tool.call(params),
            ToolHandler::Reset(tool) => tool.call(params),
        }
    }
}

} // verus!
