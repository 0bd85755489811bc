//! The tool that tells the status of the working tree.

use crate::contract::{
    arguments_view, contract_view, decoded, lemma_decoded_each, text_or_empty, validate,
    ArgumentView, FieldKind, FieldSpec, FieldSpecView, InputContract,
};
use crate::error::{ToolError, ToolErrorView};
use crate::execution::{started, Execution, Parameters, ParametersView};
use crate::text::{lines, lines_of, texts};
use crate::tools::parts::{entry, status_lines};
use crate::value::{entries, Value, ValueView};
use vstd::prelude::*;

verus! {

/// Tells which files of the working tree have changes.
#[derive(Clone, Copy, Debug, PartialEq, Eq)]
pub struct GitStatusTool;

/// The fields that the tool accepts.
pub open spec fn status_contract() -> Seq<FieldSpecView> {
    seq![
        FieldSpecView {
            name: "repo_path"@,
            description: "The path to the git repository"@,
            kind: FieldKind::Text,
            required: true,
            nullable: false,
        },
    ]
}

/// The typed parameters that validated arguments stand for.
pub open spec fn status_parameters(list: Seq<ArgumentView>) -> ParametersView {
    ParametersView::Status { repo_path: text_or_empty(list[0]) }
}

/// The result of the tool: the lines of the listing, and whether there is
/// none, which means that the working tree is clean.
pub open spec fn status_result(listing: Seq<char>) -> ValueView {
    ValueView::Object(
        seq![
            ("status"@, status_lines(listing)),
            ("is_clean"@, ValueView::Bool(lines_of(listing).len() == 0)),
        ],
    )
}

impl Default for GitStatusTool {
    fn default() -> (tool: GitStatusTool)
        ensures
            tool == GitStatusTool,
    {
        GitStatusTool
    }
}

impl GitStatusTool {
    /// The name that callers know the tool by.
    pub fn name(&self) -> (s: &'static str)
        ensures
            s@ == "git_status"@,
    {
        "git_status"
    }

    /// What the tool does, for a reader.
    pub fn description(&self) -> (s: &'static str)
        ensures
            s@ == "Get the status of a git repository"@,
    {
        "Get the status of a git repository"
    }

    /// The input contract of the tool.
    pub fn schema(&self) -> (contract: InputContract)
        ensures
            contract_view(contract@) == status_contract(),
    {
        let contract = vec![
            FieldSpec::new("repo_path", "The path to the git repository", FieldKind::Text, true, false),
        ];
        assert(contract_view(contract@) =~= status_contract());
        contract
    }

    /// Validates the arguments of a call and starts its execution.
    pub fn call(&self, params: Value) -> (r: Result<Execution, ToolError>)
        ensures
            match r {
                Ok(e) => decoded(status_contract(), params@) matches Ok(list) && e@ == started(
                    status_parameters(list),
                ),
                Err(failure) => decoded(status_contract(), params@) == Err::<
                    Seq<ArgumentView>,
                    ToolErrorView,
                >(failure@),
            },
    {
        let contract = self.schema();
        match validate(&contract, &params) {
            Err(failure) => Err(failure),
            Ok(list) => {
                proof {
                    lemma_decoded_each(status_contract(), params@);
                    assert(arguments_view(list@).len() == list@.len());
                }
                Ok(git_status(list[0].text_or_empty()))
            },
        }
    }

    /// See `status_result`.
    pub fn result(listing: &str) -> (v: Value)
        ensures
            v@ == status_result(listing@),
    {
        let all = lines(listing);
        assert(texts(all@).len() == all@.len());
        let clean = all.is_empty();
        let fields = vec![
            entry("status", Value::text_array(all)),
            entry("is_clean", Value::Bool(clean)),
        ];
        assert(entries(fields@) =~= status_result(listing@)->Object_0);
        Value::object(fields)
    }
}

/// Starts the listing of the changes in the working tree of the repository
/// at `repo_path`.
pub fn git_status(repo_path: String) -> (e: Execution)
    ensures
        e@ == started(ParametersView::Status { repo_path: repo_path@ }),
{
    Execution::begin(Parameters::Status { repo_path })
}

} // verus!
