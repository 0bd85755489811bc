//! The tool that shows changes.

use crate::contract::{
    absent_if_empty, arguments_view, contract_view, decoded, flag_of, lemma_decoded_each, present,
    text_of, text_or_empty, validate, ArgumentView, FieldKind, FieldSpec, FieldSpecView,
    InputContract,
};
use crate::error::{ToolError, ToolErrorView};
use crate::execution::{started, Execution, Parameters, ParametersView};
use crate::text::texts;
use crate::tools::parts::{
    after_separator, arguments_of, entry, optional, push_after_separator, push_optional,
    push_switch, switch,
};
use crate::value::{entries, Value, ValueView};
use vstd::prelude::*;

verus! {

/// Shows the changes of the working tree, or with `staged` those of the
/// staging area, against a commit.
#[derive(Clone, Copy, Debug, PartialEq, Eq)]
pub struct GitDiffTool;

/// The fields that the tool accepts.
pub open spec fn diff_contract() -> Seq<FieldSpecView> {
    seq![
        FieldSpecView {
            name: "repo_path"@,
            description: "The path to the git repository"@,
            kind: FieldKind::Text,
            required: true,
            nullable: false,
        },
        FieldSpecView {
            name: "path"@,
            description: "The path to the file to diff"@,
            kind: FieldKind::Text,
            required: true,
            nullable: false,
        },
        FieldSpecView {
            name: "staged"@,
            description: "Whether to show staged changes"@,
            kind: FieldKind::Flag,
            required: false,
            nullable: false,
        },
        FieldSpecView {
            name: "commit"@,
            description: "The commit to diff against"@,
            kind: FieldKind::Text,
            required: false,
            nullable: false,
        },
    ]
}

/// The typed parameters that validated arguments stand for. The path must be
/// given, but an empty one stands for no path.
pub open spec fn diff_parameters(list: Seq<ArgumentView>) -> ParametersView {
    ParametersView::Diff {
        repo_path: text_or_empty(list[0]),
        path: present(text_of(list[1])),
        staged: flag_of(list[2]),
        commit: text_of(list[3]),
    }
}

/// The command of the tool: `diff`, with `--staged` where that is asked for,
/// then the commit where one is given, then the path behind `--` where one is
/// given.
pub open spec fn diff_command(path: Option<Seq<char>>, staged: bool, commit: Option<Seq<char>>) -> Seq<
    Seq<char>,
> {
    seq!["diff"@] + switch(staged, "--staged"@) + optional(commit) + after_separator(path)
}

/// The result of the tool: what git printed.
pub open spec fn diff_result(printed: Seq<char>) -> ValueView {
    ValueView::Object(seq![("changes"@, ValueView::Text(printed))])
}

impl Default for GitDiffTool {
    fn default() -> (tool: GitDiffTool)
        ensures
            tool == GitDiffTool,
    {
        GitDiffTool
    }
}

impl GitDiffTool {
    /// The name that callers know the tool by.
    pub fn name(&self) -> (s: &'static str)
        ensures
            s@ == "git_diff"@,
    {
        "git_diff"
    }

    /// What the tool does, for a reader.
    pub fn description(&self) -> (s: &'static str)
        ensures
            s@ == "Show changes between commits, commit and working tree, etc"@,
    {
        "Show changes between commits, commit and working tree, etc"
    }

    /// The input contract of the tool.
    pub fn schema(&self) -> (contract: InputContract)
        ensures
            contract_view(contract@) == diff_contract(),
    {
        let contract = vec![
            FieldSpec::new("repo_path", "The path to the git repository", FieldKind::Text, true, false),
            FieldSpec::new("path", "The path to the file to diff", FieldKind::Text, true, false),
            FieldSpec::new("staged", "Whether to show staged changes", FieldKind::Flag, false, false),
            FieldSpec::new("commit", "The commit to diff against", FieldKind::Text, false, false),
        ];
        assert(contract_view(contract@) =~= diff_contract());
        contract
    }

    /// Validates the arguments of a call and starts its execution. An empty
    /// path counts as not given, as an empty commit does.
    pub fn call(&self, params: Value) -> (r: Result<Execution, ToolError>)
        ensures
            match r {
                Ok(e) => decoded(diff_contract(), params@) matches Ok(list) && e@ == started(
                    diff_parameters(list),
                ),
                Err(failure) => decoded(diff_contract(), params@) == Err::<
                    Seq<ArgumentView>,
                    ToolErrorView,
                >(failure@),
            },
    {
        let contract = self.schema();
        match validate(&contract, &params) {
            Err(failure) => Err(failure),
            Ok(list) => {
                proof {
                    lemma_decoded_each(diff_contract(), params@);
                    assert(arguments_view(list@).len() == list@.len());
                }
                let staged = if list[2].flag() {
                    Some(true)
                } else {
                    None
                };
                let path = absent_if_empty(list[1].text());
                Ok(git_diff(list[0].text_or_empty(), path, staged, list[3].text()))
            },
        }
    }

    /// See `diff_command`.
    pub fn command(path: &Option<String>, staged: bool, commit: &Option<String>) -> (list: Vec<
        String,
    >)
        ensures
            texts(list@) == diff_command(path.deep_view(), staged, commit.deep_view()),
    {
        let mut list = arguments_of("diff");
        push_switch(&mut list, staged, "--staged");
        push_optional(&mut list, commit);
        push_after_separator(&mut list, path);
        list
    }

    /// See `diff_result`.
    pub fn result(printed: &str) -> (v: Value)
        ensures
            v@ == diff_result(printed@),
    {
        let fields = vec![entry("changes", Value::literal(printed))];
        assert(entries(fields@) =~= diff_result(printed@)->Object_0);
        Value::object(fields)
    }
}

/// Starts the showing of the changes in the repository at `repo_path`: those
/// of the staging area where `staged` is `Some(true)`, else those of the
/// working tree; against `commit` and of `path` only, where these are given.
/// Both are passed on as they are given.
pub fn git_diff(
    repo_path: String,
    path: Option<String>,
    staged: Option<bool>,
    commit: Option<String>,
) -> (e: Execution)
    ensures
        e@ == started(
            ParametersView::Diff {
                repo_path: repo_path@,
                path: path.deep_view(),
                staged: staged == Some(true),
                commit: commit.deep_view(),
            },
        ),
{
    let staged = match staged {
        Some(on) => on,
        None => false,
    };
    Execution::begin(Parameters::Diff { repo_path, path, staged, commit })
}

} // verus!
