//! The tool that pushes commits to a remote repository.

use crate::contract::{
    arguments_view, contract_view, decoded, flag_of, lemma_decoded_each, text_of, text_or_empty,
    validate, ArgumentView, FieldKind, FieldSpec, FieldSpecView, InputContract,
};
use crate::error::{ToolError, ToolErrorView};
use crate::execution::{started, Execution, Parameters, ParametersView};
use crate::text::{lemma_texts_push, texts, trim, trimmed};
use crate::tools::parts::{
    arguments_of, entry, optional, push_optional, push_switch, remote_name, remote_or_origin,
    switch,
};
use crate::value::{entries, Value, ValueView};
use vstd::prelude::*;

verus! {

/// Pushes the commits of a branch to a remote repository.
#[derive(Clone, Copy, Debug, PartialEq, Eq)]
pub struct GitPushTool;

/// The fields that the tool accepts.
pub open spec fn push_contract() -> Seq<FieldSpecView> {
    seq![
        FieldSpecView {
            name: "repo_path"@,
            description: "The path to the git repository"@,
            kind: FieldKind::Text,
            required: true,
            nullable: false,
        },
        FieldSpecView {
            name: "remote"@,
            description: "The remote to push to"@,
            kind: FieldKind::Text,
            required: false,
            nullable: false,
        },
        FieldSpecView {
            name: "branch"@,
            description: "The branch to push"@,
            kind: FieldKind::Text,
            required: false,
            nullable: false,
        },
        FieldSpecView {
            name: "force"@,
            description: "Whether to force push"@,
            kind: FieldKind::Flag,
            required: false,
            nullable: false,
        },
    ]
}

/// The typed parameters that validated arguments stand for.
pub open spec fn push_parameters(list: Seq<ArgumentView>) -> ParametersView {
    ParametersView::Push {
        repo_path: text_or_empty(list[0]),
        remote: text_of(list[1]),
        branch: text_of(list[2]),
        force: flag_of(list[3]),
    }
}

/// The command of the tool: `push`, with `--force` where that is asked for,
/// then the remote, then the branch where one is given.
pub open spec fn push_command(remote: Option<Seq<char>>, branch: Option<Seq<char>>, force: bool) -> Seq<
    Seq<char>,
> {
    seq!["push"@] + switch(force, "--force"@) + seq![remote_name(remote)] + optional(branch)
}

/// The result of the tool: the remote, and what git printed, trimmed.
pub open spec fn push_result(remote: Option<Seq<char>>, printed: Seq<char>) -> ValueView {
    ValueView::Object(
        seq![
            ("success"@, ValueView::Bool(true)),
            ("remote"@, ValueView::Text(remote_name(remote))),
            ("output"@, ValueView::Text(trimmed(printed))),
        ],
    )
}

impl Default for GitPushTool {
    fn default() -> (tool: GitPushTool)
        ensures
            tool == GitPushTool,
    {
        GitPushTool
    }
}

impl GitPushTool {
    /// The name that callers know the tool by.
    pub fn name(&self) -> (s: &'static str)
        ensures
            s@ == "git_push"@,
    {
        "git_push"
    }

    /// What the tool does, for a reader.
    pub fn description(&self) -> (s: &'static str)
        ensures
            s@ == "Push local commits to a remote repository"@,
    {
        "Push local commits to a remote repository"
    }

    /// The input contract of the tool.
    pub fn schema(&self) -> (contract: InputContract)
        ensures
            contract_view(contract@) == push_contract(),
    {
        let contract = vec![
            FieldSpec::new("repo_path", "The path to the git repository", FieldKind::Text, true, false),
            FieldSpec::new("remote", "The remote to push to", FieldKind::Text, false, false),
            FieldSpec::new("branch", "The branch to push", FieldKind::Text, false, false),
            FieldSpec::new("force", "Whether to force push", FieldKind::Flag, false, false),
        ];
        assert(contract_view(contract@) =~= push_contract());
        contract
    }

    /// Validates the arguments of a call and starts its execution. In the
    /// arguments an empty remote and an empty branch count as not given.
    pub fn call(&self, params: Value) -> (r: Result<Execution, ToolError>)
        ensures
            match r {
                Ok(e) => decoded(push_contract(), params@) matches Ok(list) && e@ == started(
                    push_parameters(list),
                ),
                Err(failure) => decoded(push_contract(), params@) == Err::<
                    Seq<ArgumentView>,
                    ToolErrorView,
                >(failure@),
            },
    {
        let contract = self.schema();
        match validate(&contract, &params) {
            Err(failure) => Err(failure),
            Ok(list) => {
                proof {
                    lemma_decoded_each(push_contract(), params@);
                    assert(arguments_view(list@).len() == list@.len());
                }
                let force = if list[3].flag() {
                    Some(true)
                } else {
                    None
                };
                Ok(git_push(list[0].text_or_empty(), list[1].text(), list[2].text(), force))
            },
        }
    }

    /// See `push_command`.
    pub fn command(remote: &Option<String>, branch: &Option<String>, force: bool) -> (list: Vec<
        String,
    >)
        ensures
            texts(list@) == push_command(remote.deep_view(), branch.deep_view(), force),
    {
        let mut list = arguments_of("push");
        push_switch(&mut list, force, "--force");
        let to = remote_or_origin(remote);
        proof {
            lemma_texts_push(list@, to);
            assert(texts(list@).push(to@) =~= texts(list@) + seq![to@]);
        }
        list.push(to);
        push_optional(&mut list, branch);
        list
    }

    /// See `push_result`.
    pub fn result(remote: &Option<String>, printed: &str) -> (v: Value)
        ensures
            v@ == push_result(remote.deep_view(), printed@),
    {
        let fields = vec![
            entry("success", Value::Bool(true)),
            entry("remote", Value::text(remote_or_origin(remote))),
            entry("output", Value::text(trim(printed))),
        ];
        assert(entries(fields@) =~= push_result(remote.deep_view(), printed@)->Object_0);
        Value::object(fields)
    }
}

/// Starts the push of the commits in the repository at `repo_path` to
/// `remote`, or to `origin` where none is given: those of `branch` where one
/// is given; forced where `force` is `Some(true)`.
pub fn git_push(
    repo_path: String,
    remote: Option<String>,
    branch: Option<String>,
    force: Option<bool>,
) -> (e: Execution)
    ensures
        e@ == started(
            ParametersView::Push {
                repo_path: repo_path@,
                remote: remote.deep_view(),
                branch: branch.deep_view(),
                force: force == Some(true),
            },
        ),
{
    let force = match force {
        Some(on) => on,
        None => false,
    };
    Execution::begin(Parameters::Push { repo_path, remote, branch, force })
}

} // verus!
