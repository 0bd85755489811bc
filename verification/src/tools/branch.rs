//! The tool that lists branches.

use crate::contract::{
    arguments_view, contract_view, decoded, lemma_decoded_each, text_or_empty, validate,
    ArgumentView, FieldKind, FieldSpec, FieldSpecView, InputContract,
};
use crate::error::{ToolError, ToolErrorView};
use crate::execution::{started, Execution, Parameters, ParametersView};
use crate::text::{lines, lines_of, push_text, texts, trim, trimmed};
use crate::tools::parts::{arguments_of, entry};
use crate::value::{entries, text_values, Value, ValueView};
use vstd::prelude::*;

verus! {

/// Lists the branches of a repository and names the current one.
#[derive(Clone, Copy, Debug, PartialEq, Eq)]
pub struct GitBranchesTool;

/// The fields that the tool accepts.
pub open spec fn branches_contract() -> Seq<FieldSpecView> {
    seq![
        FieldSpecView {
            name: "repo_path"@,
            description: ""@,
            kind: FieldKind::Text,
            required: true,
            nullable: false,
        },
    ]
}

/// The typed parameters that validated arguments stand for.
pub open spec fn branches_parameters(list: Seq<ArgumentView>) -> ParametersView {
    ParametersView::Branches { repo_path: text_or_empty(list[0]) }
}

/// The first command of the tool, which lists the branches, one per line.
pub open spec fn branch_list_command() -> Seq<Seq<char>> {
    seq!["branch"@, "--list"@]
}

/// The second command of the tool, which names the current branch.
pub open spec fn current_branch_command() -> Seq<Seq<char>> {
    seq!["rev-parse"@, "--abbrev-ref"@, "HEAD"@]
}

/// The lines of a listing, each trimmed.
pub open spec fn trimmed_lines(listing: Seq<char>) -> Seq<Seq<char>> {
    lines_of(listing).map_values(|line: Seq<char>| trimmed(line))
}

/// The result of the tool: the lines of the listing, each trimmed, and the
/// name of the current branch, trimmed.
pub open spec fn branches_result(listing: Seq<char>, current: Seq<char>) -> ValueView {
    ValueView::Object(
        seq![
            ("branches"@, ValueView::Array(text_values(trimmed_lines(listing)))),
            ("current"@, ValueView::Text(trimmed(current))),
        ],
    )
}

impl Default for GitBranchesTool {
    fn default() -> (tool: GitBranchesTool)
        ensures
            tool == GitBranchesTool,
    {
        GitBranchesTool
    }
}

impl GitBranchesTool {
    /// The name that callers know the tool by.
    pub fn name(&self) -> (s: &'static str)
        ensures
            s@ == "git_branches"@,
    {
        "git_branches"
    }

    /// What the tool does, for a reader.
    pub fn description(&self) -> (s: &'static str)
        ensures
            s@ == "List all branches in a git repository"@,
    {
        "List all branches in a git repository"
    }

    /// The input contract of the tool.
    pub fn schema(&self) -> (contract: InputContract)
        ensures
            contract_view(contract@) == branches_contract(),
    {
        let contract = vec![FieldSpec::new("repo_path", "", FieldKind::Text, true, false)];
        assert(contract_view(contract@) =~= branches_contract());
        contract
    }

    /// Validates the arguments of a call and starts its execution.
    pub fn call(&self, params: Value) -> (r: Result<Execution, ToolError>)
        ensures
            match r {
                Ok(e) => decoded(branches_contract(), params@) matches Ok(list) && e@ == started(
                    branches_parameters(list),
                ),
                Err(failure) => decoded(branches_contract(), params@) == Err::<
                    Seq<ArgumentView>,
                    ToolErrorView,
                >(failure@),
            },
    {
        let contract = self.schema();
        match validate(&contract, &params) {
            Err(failure) => Err(failure),
            Ok(list) => {
                proof {
                    lemma_decoded_each(branches_contract(), params@);
                    assert(arguments_view(list@).len() == list@.len());
                }
                Ok(git_branches(list[0].text_or_empty()))
            },
        }
    }

    /// See `branch_list_command`.
    pub fn list() -> (list: Vec<String>)
        ensures
            texts(list@) == branch_list_command(),
    {
        let mut list = arguments_of("branch");
        push_text(&mut list, "--list");
        list
    }

    /// See `current_branch_command`.
    pub fn current() -> (list: Vec<String>)
        ensures
            texts(list@) == current_branch_command(),
    {
        let mut list = arguments_of("rev-parse");
        push_text(&mut list, "--abbrev-ref");
        push_text(&mut list, "HEAD");
        list
    }

    /// See `trimmed_lines`.
    pub fn names(listing: &str) -> (names: Vec<String>)
        ensures
            texts(names@) == trimmed_lines(listing@),
    {
        let all = lines(listing);
        let mut names: Vec<String> = Vec::new();
        let mut i: usize = 0;
        assert(texts(all@).len() == all@.len());
        while i < all.len()
            invariant
                texts(all@) == lines_of(listing@),
                0 <= i <= all.len(),
                names@.len() == i,
                forall|j: int| 0 <= j < i ==> names@[j]@ == trimmed(all@[j]@),
            decreases all.len() - i,
        {
            names.push(trim(all[i].as_str()));
            i += 1;
        }
        assert(texts(names@) =~= trimmed_lines(listing@));
        names
    }

    /// See `branches_result`.
    pub fn result(listing: &str, current: &str) -> (v: Value)
        ensures
            v@ == branches_result(listing@, current@),
    {
        let fields = vec![
            entry("branches", Value::text_array(GitBranchesTool::names(listing))),
            entry("current", Value::text(trim(current))),
        ];
        assert(entries(fields@) =~= branches_result(listing@, current@)->Object_0);
        Value::object(fields)
    }
}

/// Starts the listing of the branches of the repository at `repo_path`.
pub fn git_branches(repo_path: String) -> (e: Execution)
    ensures
        e@ == started(ParametersView::Branches { repo_path: repo_path@ }),
{
    Execution::begin(Parameters::Branches { repo_path })
}

} // verus!
