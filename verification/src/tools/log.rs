//! The tool that lists the commits of a repository.

use crate::contract::{
    arguments_view, contract_view, count_of, decoded, lemma_decoded_each, text_of, text_or_empty,
    validate, ArgumentView, FieldKind, FieldSpec, FieldSpecView, InputContract,
};
use crate::error::{ToolError, ToolErrorView};
use crate::execution::{started, Execution, Parameters, ParametersView};
use crate::text::{push_text, texts};
use crate::tools::history::{commit_records, history_format, parse_commits};
use crate::tools::parts::{arguments_of, entry, limit, optional, push_limit, push_optional};
use crate::value::{entries, Value, ValueView};
use vstd::prelude::*;

verus! {

/// Lists the commits of a repository, the latest first.
#[derive(Clone, Copy, Debug, PartialEq, Eq)]
pub struct GitLogTool;

/// The fields that the tool accepts.
pub open spec fn log_contract() -> Seq<FieldSpecView> {
    seq![
        FieldSpecView {
            name: "repo_path"@,
            description: "The path to the git repository"@,
            kind: FieldKind::Text,
            required: true,
            nullable: false,
        },
        FieldSpecView {
            name: "max_count"@,
            description: "The maximum number of commits to return"@,
            kind: FieldKind::Count,
            required: false,
            nullable: true,
        },
        FieldSpecView {
            name: "branch"@,
            description: "The branch to filter commits by"@,
            kind: FieldKind::Text,
            required: false,
            nullable: true,
        },
    ]
}

/// The typed parameters that validated arguments stand for.
pub open spec fn log_parameters(list: Seq<ArgumentView>) -> ParametersView {
    ParametersView::Log {
        repo_path: text_or_empty(list[0]),
        max_count: count_of(list[1]),
        branch: text_of(list[2]),
    }
}

/// The command of the tool: `log` with the format of the history, then the
/// limit where one is given, then the branch where one is given.
pub open spec fn log_command(max_count: Option<u32>, branch: Option<Seq<char>>) -> Seq<Seq<char>> {
    seq!["log"@, history_format()] + limit(max_count) + optional(branch)
}

/// The result of the tool: the records of the commits that git printed.
pub open spec fn log_result(printed: Seq<char>) -> ValueView {
    ValueView::Object(seq![("commits"@, ValueView::Array(commit_records(printed)))])
}

impl Default for GitLogTool {
    fn default() -> (tool: GitLogTool)
        ensures
            tool == GitLogTool,
    {
        GitLogTool
    }
}

impl GitLogTool {
    /// The name that callers know the tool by.
    pub fn name(&self) -> (s: &'static str)
        ensures
            s@ == "git_log"@,
    {
        "git_log"
    }

    /// What the tool does, for a reader.
    pub fn description(&self) -> (s: &'static str)
        ensures
            s@ == "Get the commit history of a git repository"@,
    {
        "Get the commit history of a git repository"
    }

    /// The input contract of the tool.
    pub fn schema(&self) -> (contract: InputContract)
        ensures
            contract_view(contract@) == log_contract(),
    {
        let contract = vec![
            FieldSpec::new("repo_path", "The path to the git repository", FieldKind::Text, true, false),
            FieldSpec::new(
                "max_count",
                "The maximum number of commits to return",
                FieldKind::Count,
                false,
                true,
            ),
            FieldSpec::new("branch", "The branch to filter commits by", FieldKind::Text, false, true),
        ];
        assert(contract_view(contract@) =~= log_contract());
        contract
    }

    /// Validates the arguments of a call and starts its execution.
    pub fn call(&self, params: Value) -> (r: Result<Execution, ToolError>)
        ensures
            match r {
                Ok(e) => decoded(log_contract(), params@) matches Ok(list) && e@ == started(
                    log_parameters(list),
                ),
                Err(failure) => decoded(log_contract(), params@) == Err::<
                    Seq<ArgumentView>,
                    ToolErrorView,
                >(failure@),
            },
    {
        let contract = self.schema();
        match validate(&contract, &params) {
            Err(failure) => Err(failure),
            Ok(list) => {
                proof {
                    lemma_decoded_each(log_contract(), params@);
                    assert(arguments_view(list@).len() == list@.len());
                }
                Ok(git_log(list[0].text_or_empty(), list[1].count(), list[2].text()))
            },
        }
    }

    /// See `log_command`.
    pub fn command(max_count: Option<u32>, branch: &Option<String>) -> (list: Vec<String>)
        ensures
            texts(list@) == log_command(max_count, branch.deep_view()),
    {
        let mut list = arguments_of("log");
        push_text(&mut list, "--pretty=format:%H|%an|%ad|%s");
        push_limit(&mut list, max_count);
        push_optional(&mut list, branch);
        list
    }

    /// See `log_result`.
    pub fn result(printed: &str) -> (v: Value)
        ensures
            v@ == log_result(printed@),
    {
        let fields = vec![entry("commits", Value::array(parse_commits(printed)))];
        assert(entries(fields@) =~= seq![("commits"@, ValueView::Array(commit_records(printed@)))]);
        Value::object(fields)
    }
}

/// Starts the listing of the commits of the repository at `repo_path`: at
/// most `max_count` of them where that is given, those of `branch` where that
/// is given. The branch is passed on as it is given.
pub fn git_log(repo_path: String, max_count: Option<u32>, branch: Option<String>) -> (e: Execution)
    ensures
        e@ == started(
            ParametersView::Log { repo_path: repo_path@, max_count, branch: branch.deep_view() },
        ),
{
    Execution::begin(Parameters::Log { repo_path, max_count, branch })
}

} // verus!
