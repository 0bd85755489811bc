//! The tool that makes a commit.

use crate::contract::{
    arguments_view, contract_view, decoded, flag_of, lemma_decoded_each, text_or_empty, validate,
    ArgumentView, FieldKind, FieldSpec, FieldSpecView, InputContract,
};
use crate::error::{ToolError, ToolErrorView};
use crate::execution::{started, Execution, Parameters, ParametersView};
use crate::text::{push_text, texts, trim, trimmed};
use crate::tools::parts::{arguments_of, entry, push_switch, switch};
use crate::value::{entries, Value, ValueView};
use vstd::prelude::*;

verus! {

/// Makes a commit of the staged changes.
#[derive(Clone, Copy, Debug, PartialEq, Eq)]
pub struct GitCommitTool;

/// The fields that the tool accepts.
pub open spec fn commit_contract() -> Seq<FieldSpecView> {
    seq![
        FieldSpecView {
            name: "repo_path"@,
            description: "The path to the git repository"@,
            kind: FieldKind::Text,
            required: true,
            nullable: false,
        },
        FieldSpecView {
            name: "message"@,
            description: "The commit message"@,
            kind: FieldKind::Text,
            required: true,
            nullable: false,
        },
        FieldSpecView {
            name: "all"@,
            description: "Whether to add all changes"@,
            kind: FieldKind::Flag,
            required: false,
            nullable: true,
        },
    ]
}

/// The typed parameters that validated arguments stand for.
pub open spec fn commit_parameters(list: Seq<ArgumentView>) -> ParametersView {
    ParametersView::Commit {
        repo_path: text_or_empty(list[0]),
        message: text_or_empty(list[1]),
        all: flag_of(list[2]),
    }
}

/// The first command of the tool: `commit` with the message, and with `-a`
/// where all changes are to be added.
pub open spec fn commit_command(message: Seq<char>, all: bool) -> Seq<Seq<char>> {
    seq!["commit"@, "-m"@, message] + switch(all, "-a"@)
}

/// The second command of the tool, which asks for the hash of the commit.
pub open spec fn head_command() -> Seq<Seq<char>> {
    seq!["rev-parse"@, "HEAD"@]
}

/// The result of the tool: the hash of the commit, its message, and what the
/// commit printed.
pub open spec fn commit_result(message: Seq<char>, printed: Seq<char>, head: Seq<char>) -> ValueView {
    ValueView::Object(
        seq![
            ("success"@, ValueView::Bool(true)),
            ("hash"@, ValueView::Text(trimmed(head))),
            ("message"@, ValueView::Text(message)),
            ("output"@, ValueView::Text(printed)),
        ],
    )
}

impl Default for GitCommitTool {
    fn default() -> (tool: GitCommitTool)
        ensures
            tool == GitCommitTool,
    {
        GitCommitTool
    }
}

impl GitCommitTool {
    /// The name that callers know the tool by.
    pub fn name(&self) -> (s: &'static str)
        ensures
            s@ == "git_commit"@,
    {
        "git_commit"
    }

    /// What the tool does, for a reader.
    pub fn description(&self) -> (s: &'static str)
        ensures
            s@ == "Create a commit with the staged changes"@,
    {
        "Create a commit with the staged changes"
    }

    /// The input contract of the tool.
    pub fn schema(&self) -> (contract: InputContract)
        ensures
            contract_view(contract@) == commit_contract(),
    {
        let contract = vec![
            FieldSpec::new("repo_path", "The path to the git repository", FieldKind::Text, true, false),
            FieldSpec::new("message", "The commit message", FieldKind::Text, true, false),
            FieldSpec::new("all", "Whether to add all changes", FieldKind::Flag, false, true),
        ];
        assert(contract_view(contract@) =~= commit_contract());
        contract
    }

    /// Validates the arguments of a call and starts its execution.
    pub fn call(&self, params: Value) -> (r: Result<Execution, ToolError>)
        ensures
            match r {
                Ok(e) => decoded(commit_contract(), params@) matches Ok(list) && e@ == started(
                    commit_parameters(list),
                ),
                Err(failure) => decoded(commit_contract(), params@) == Err::<
                    Seq<ArgumentView>,
                    ToolErrorView,
                >(failure@),
            },
    {
        let contract = self.schema();
        match validate(&contract, &params) {
            Err(failure) => Err(failure),
            Ok(list) => {
                proof {
                    lemma_decoded_each(commit_contract(), params@);
                    assert(arguments_view(list@).len() == list@.len());
                }
                Ok(
                    git_commit(
                        list[0].text_or_empty(),
                        list[1].text_or_empty(),
                        Some(list[2].flag()),
                    ),
                )
            },
        }
    }

    /// See `commit_command`.
    pub fn command(message: &str, all: bool) -> (list: Vec<String>)
        ensures
            texts(list@) == commit_command(message@, all),
    {
        let mut list = arguments_of("commit");
        push_text(&mut list, "-m");
        push_text(&mut list, message);
        assert(texts(list@) =~= seq!["commit"@, "-m"@, message@]);
        push_switch(&mut list, all, "-a");
        list
    }

    /// See `head_command`.
    pub fn head() -> (list: Vec<String>)
        ensures
            texts(list@) == head_command(),
    {
        let mut list = arguments_of("rev-parse");
        push_text(&mut list, "HEAD");
        list
    }

    /// See `commit_result`.
    pub fn result(message: &str, printed: &str, head: &str) -> (v: Value)
        ensures
            v@ == commit_result(message@, printed@, head@),
    {
        let fields = vec![
            entry("success", Value::Bool(true)),
            entry("hash", Value::text(trim(head))),
            entry("message", Value::literal(message)),
            entry("output", Value::literal(printed)),
        ];
        assert(entries(fields@) =~= commit_result(message@, printed@, head@)->Object_0);
        Value::object(fields)
    }
}

/// Starts a commit with the given message in the repository at `repo_path`:
/// of the staged changes, and where `all` is `Some(true)` of every change to
/// a file that git tracks.
pub fn git_commit(repo_path: String, message: String, all: Option<bool>) -> (e: Execution)
    ensures
        e@ == started(
            ParametersView::Commit {
                repo_path: repo_path@,
                message: message@,
                all: all == Some(true),
            },
        ),
{
    let all = match all {
        Some(on) => on,
        None => false,
    };
    Execution::begin(Parameters::Commit { repo_path, message, all })
}

} // verus!
