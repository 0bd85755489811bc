//! The tool that stages files.

use crate::contract::{
    arguments_view, contract_view, decoded, flag_of, lemma_decoded_each, text_or_empty, validate,
    ArgumentView, FieldKind, FieldSpec, FieldSpecView, InputContract,
};
use crate::error::{ToolError, ToolErrorView};
use crate::execution::{started, Execution, Parameters, ParametersView};
use crate::text::{push_text, texts};
use crate::tools::parts::{
    arguments_of, entry, message, message_or, push_switch, status_lines, status_listing, switch,
};
use crate::value::{entries, Value, ValueView};
use vstd::prelude::*;

verus! {

/// Adds the contents of files to the staging area.
#[derive(Clone, Copy, Debug, PartialEq, Eq)]
pub struct GitAddTool;

/// The fields that the tool accepts.
pub open spec fn add_contract() -> Seq<FieldSpecView> {
    seq![
        FieldSpecView {
            name: "repo_path"@,
            description: "The path to the git repository"@,
            kind: FieldKind::Text,
            required: true,
            nullable: false,
        },
        FieldSpecView {
            name: "path"@,
            description: "The path(s) to add, or patterns to match. Use '.' for all files."@,
            kind: FieldKind::Text,
            required: true,
            nullable: false,
        },
        FieldSpecView {
            name: "update"@,
            description: "Whether to update, rather than add"@,
            kind: FieldKind::Flag,
            required: false,
            nullable: false,
        },
        FieldSpecView {
            name: "all"@,
            description: "Whether to add all changes, including untracked files"@,
            kind: FieldKind::Flag,
            required: false,
            nullable: false,
        },
    ]
}

/// The typed parameters that validated arguments stand for.
pub open spec fn add_parameters(list: Seq<ArgumentView>) -> ParametersView {
    ParametersView::Add {
        repo_path: text_or_empty(list[0]),
        path: text_or_empty(list[1]),
        update: flag_of(list[2]),
        all: flag_of(list[3]),
    }
}

/// The first command of the tool: `add`, with `--update` where that is asked
/// for, else with `--all` where that is asked for, then the path.
pub open spec fn add_command(path: Seq<char>, update: bool, all: bool) -> Seq<Seq<char>> {
    seq!["add"@] + (if update {
        seq!["--update"@]
    } else {
        switch(all, "--all"@)
    }) + seq![path]
}

/// The result of the tool: what the staging printed, and the status of the
/// working tree after it, line by line.
pub open spec fn add_result(printed: Seq<char>, listing: Seq<char>) -> ValueView {
    ValueView::Object(
        seq![
            ("success"@, ValueView::Bool(true)),
            ("message"@, message_or(printed, "Files staged successfully"@)),
            ("status"@, status_lines(listing)),
        ],
    )
}

impl Default for GitAddTool {
    fn default() -> (tool: GitAddTool)
        ensures
            tool == GitAddTool,
    {
        GitAddTool
    }
}

impl GitAddTool {
    /// The name that callers know the tool by.
    pub fn name(&self) -> (s: &'static str)
        ensures
            s@ == "git_add"@,
    {
        "git_add"
    }

    /// What the tool does, for a reader.
    pub fn description(&self) -> (s: &'static str)
        ensures
            s@ == "Add file contents to the git staging area"@,
    {
        "Add file contents to the git staging area"
    }

    /// The input contract of the tool.
    pub fn schema(&self) -> (contract: InputContract)
        ensures
            contract_view(contract@) == add_contract(),
    {
        let contract = vec![
            FieldSpec::new("repo_path", "The path to the git repository", FieldKind::Text, true, false),
            FieldSpec::new(
                "path",
                "The path(s) to add, or patterns to match. Use '.' for all files.",
                FieldKind::Text,
                true,
                false,
            ),
            FieldSpec::new("update", "Whether to update, rather than add", FieldKind::Flag, false, false),
            FieldSpec::new(
                "all",
                "Whether to add all changes, including untracked files",
                FieldKind::Flag,
                false,
                false,
            ),
        ];
        assert(contract_view(contract@) =~= add_contract());
        contract
    }

    /// Validates the arguments of a call and starts its execution.
    pub fn call(&self, params: Value) -> (r: Result<Execution, ToolError>)
        ensures
            match r {
                Ok(e) => decoded(add_contract(), params@) matches Ok(list) && e@ == started(
                    add_parameters(list),
                ),
                Err(failure) => decoded(add_contract(), params@) == Err::<
                    Seq<ArgumentView>,
                    ToolErrorView,
                >(failure@),
            },
    {
        let contract = self.schema();
        match validate(&contract, &params) {
            Err(failure) => Err(failure),
            Ok(list) => {
                proof {
                    lemma_decoded_each(add_contract(), params@);
                    assert(arguments_view(list@).len() == list@.len());
                }
                Ok(
                    git_add(
                        list[0].text_or_empty(),
                        list[1].text_or_empty(),
                        list[2].flag(),
                        list[3].flag(),
                    ),
                )
            },
        }
    }

    /// See `add_command`.
    pub fn command(path: &str, update: bool, all: bool) -> (list: Vec<String>)
        ensures
            texts(list@) == add_command(path@, update, all),
    {
        let mut list = arguments_of("add");
        if update {
            push_text(&mut list, "--update");
            assert(texts(list@) =~= seq!["add"@] + seq!["--update"@]);
        } else {
            push_switch(&mut list, all, "--all");
        }
        let ghost flags = texts(list@);
        push_text(&mut list, path);
        assert(texts(list@) =~= flags + seq![path@]);
        list
    }

    /// See `add_result`.
    pub fn result(printed: &str, listing: &str) -> (v: Value)
        ensures
            v@ == add_result(printed@, listing@),
    {
        let fields = vec![
            entry("success", Value::Bool(true)),
            entry("message", message(printed, "Files staged successfully")),
            entry("status", status_listing(listing)),
        ];
        assert(entries(fields@) =~= add_result(printed@, listing@)->Object_0);
        Value::object(fields)
    }
}

/// Starts the staging of `path` in the repository at `repo_path`: with
/// `update`, of the files that git already tracks; else with `all`, of every
/// change.
pub fn git_add(repo_path: String, path: String, update: bool, all: bool) -> (e: Execution)
    ensures
        e@ == started(
            ParametersView::Add { repo_path: repo_path@, path: path@, update, all },
        ),
{
    Execution::begin(Parameters::Add { repo_path, path, update, all })
}

} // verus!
