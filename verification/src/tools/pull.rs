//! The tool that pulls changes from a remote repository.

use crate::contract::{
    arguments_view, contract_view, decoded, lemma_decoded_each, text_of, text_or_empty, validate,
    ArgumentView, FieldKind, FieldSpec, FieldSpecView, InputContract,
};
use crate::error::{ToolError, ToolErrorView};
use crate::execution::{started, Execution, Parameters, ParametersView};
use crate::text::{lemma_texts_push, texts, trim, trimmed};
use crate::tools::parts::{
    arguments_of, entry, optional, push_optional, remote_name, remote_or_origin,
};
use crate::value::{entries, Value, ValueView};
use vstd::prelude::*;

verus! {

/// Pulls the changes of a branch from a remote repository.
#[derive(Clone, Copy, Debug, PartialEq, Eq)]
pub struct GitPullTool;

/// The fields that the tool accepts.
pub open spec fn pull_contract() -> Seq<FieldSpecView> {
    seq![
        FieldSpecView {
            name: "repo_path"@,
            description: "The path to the git repository"@,
            kind: FieldKind::Text,
            required: true,
            nullable: false,
        },
        FieldSpecView {
            name: "remote"@,
            description: "The remote to pull from"@,
            kind: FieldKind::Text,
            required: false,
            nullable: true,
        },
        FieldSpecView {
            name: "branch"@,
            description: "The branch to pull"@,
            kind: FieldKind::Text,
            required: false,
            nullable: true,
        },
    ]
}

/// The typed parameters that validated arguments stand for.
pub open spec fn pull_parameters(list: Seq<ArgumentView>) -> ParametersView {
    ParametersView::Pull {
        repo_path: text_or_empty(list[0]),
        remote: text_of(list[1]),
        branch: text_of(list[2]),
    }
}

/// The command of the tool: `pull`, then the remote, then the branch where
/// one is given.
pub open spec fn pull_command(remote: Option<Seq<char>>, branch: Option<Seq<char>>) -> Seq<
    Seq<char>,
> {
    seq!["pull"@, remote_name(remote)] + optional(branch)
}

/// The result of the tool: the remote, and what git printed, trimmed.
pub open spec fn pull_result(remote: Option<Seq<char>>, printed: Seq<char>) -> ValueView {
    ValueView::Object(
        seq![
            ("success"@, ValueView::Bool(true)),
            ("remote"@, ValueView::Text(remote_name(remote))),
            ("output"@, ValueView::Text(trimmed(printed))),
        ],
    )
}

impl Default for GitPullTool {
    fn default() -> (tool: GitPullTool)
        ensures
            tool == GitPullTool,
    {
        GitPullTool
    }
}

impl GitPullTool {
    /// The name that callers know the tool by.
    pub fn name(&self) -> (s: &'static str)
        ensures
            s@ == "git_pull"@,
    {
        "git_pull"
    }

    /// What the tool does, for a reader.
    pub fn description(&self) -> (s: &'static str)
        ensures
            s@ == "Pull changes from a remote repository"@,
    {
        "Pull changes from a remote repository"
    }

    /// The input contract of the tool.
    pub fn schema(&self) -> (contract: InputContract)
        ensures
            contract_view(contract@) == pull_contract(),
    {
        let contract = vec![
            FieldSpec::new("repo_path", "The path to the git repository", FieldKind::Text, true, false),
            FieldSpec::new("remote", "The remote to pull from", FieldKind::Text, false, true),
            FieldSpec::new("branch", "The branch to pull", FieldKind::Text, false, true),
        ];
        assert(contract_view(contract@) =~= pull_contract());
        contract
    }

    /// Validates the arguments of a call and starts its execution.
    pub fn call(&self, params: Value) -> (r: Result<Execution, ToolError>)
        ensures
            match r {
                Ok(e) => decoded(pull_contract(), params@) matches Ok(list) && e@ == started(
                    pull_parameters(list),
                ),
                Err(failure) => decoded(pull_contract(), params@) == Err::<
                    Seq<ArgumentView>,
                    ToolErrorView,
                >(failure@),
            },
    {
        let contract = self.schema();
        match validate(&contract, &params) {
            Err(failure) => Err(failure),
            Ok(list) => {
                proof {
                    lemma_decoded_each(pull_contract(), params@);
                    assert(arguments_view(list@).len() == list@.len());
                }
                Ok(git_pull(list[0].text_or_empty(), list[1].text(), list[2].text()))
            },
        }
    }

    /// See `pull_command`.
    pub fn command(remote: &Option<String>, branch: &Option<String>) -> (list: Vec<String>)
        ensures
            texts(list@) == pull_command(remote.deep_view(), branch.deep_view()),
    {
        let mut list = arguments_of("pull");
        let from = remote_or_origin(remote);
        proof {
            lemma_texts_push(list@, from);
            assert(texts(list@).push(from@) =~= seq!["pull"@, from@]);
        }
        list.push(from);
        push_optional(&mut list, branch);
        list
    }

    /// See `pull_result`.
    pub fn result(remote: &Option<String>, printed: &str) -> (v: Value)
        ensures
            v@ == pull_result(remote.deep_view(), printed@),
    {
        let fields = vec![
            entry("success", Value::Bool(true)),
            entry("remote", Value::text(remote_or_origin(remote))),
            entry("output", Value::text(trim(printed))),
        ];
        assert(entries(fields@) =~= pull_result(remote.deep_view(), printed@)->Object_0);
        Value::object(fields)
    }
}

/// Starts the pull into the repository at `repo_path` from `remote`, or from
/// `origin` where none is given: of `branch` where one is given.
pub fn git_pull(repo_path: String, remote: Option<String>, branch: Option<String>) -> (e: Execution)
    ensures
        e@ == started(
            ParametersView::Pull {
                repo_path: repo_path@,
                remote: remote.deep_view(),
                branch: branch.deep_view(),
            },
        ),
{
    Execution::begin(Parameters::Pull { repo_path, remote, branch })
}

} // verus!
