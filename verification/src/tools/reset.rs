//! The tool that resets the staging area or the working tree.

use crate::contract::{
    arguments_view, contract_view, decoded, flag_of, lemma_decoded_each, text_of, text_or_empty,
    validate, ArgumentView, FieldKind, FieldSpec, FieldSpecView, InputContract,
};
use crate::error::{ToolError, ToolErrorView};
use crate::execution::{started, Execution, Parameters, ParametersView};
use crate::text::{equal, texts};
use crate::tools::parts::{
    after_separator, arguments_of, entry, message, message_or, optional, push_after_separator,
    push_optional, push_switch, status_lines, status_listing, switch,
};
use crate::value::{entries, Value, ValueView};
use vstd::prelude::*;

verus! {

/// Resets the staging area, or with `hard` the working tree too, to a commit.
#[derive(Clone, Copy, Debug, PartialEq, Eq)]
pub struct GitResetTool;

/// The fields that the tool accepts.
pub open spec fn reset_contract() -> Seq<FieldSpecView> {
    seq![
        FieldSpecView {
            name: "repo_path"@,
            description: "The path to the git repository"@,
            kind: FieldKind::Text,
            required: true,
            nullable: false,
        },
        FieldSpecView {
            name: "path"@,
            description: "The path(s) to reset, or patterns to match. Use '.' for all files."@,
            kind: FieldKind::Text,
            required: true,
            nullable: false,
        },
        FieldSpecView {
            name: "hard"@,
            description: "Whether to perform a hard reset (WARNING: discards all local changes)"@,
            kind: FieldKind::Flag,
            required: false,
            nullable: false,
        },
        FieldSpecView {
            name: "target"@,
            description: "The commit or branch to reset to (defaults to HEAD)"@,
            kind: FieldKind::Text,
            required: false,
            nullable: true,
        },
    ]
}

/// The typed parameters that validated arguments stand for.
pub open spec fn reset_parameters(list: Seq<ArgumentView>) -> ParametersView {
    ParametersView::Reset {
        repo_path: text_or_empty(list[0]),
        path: text_or_empty(list[1]),
        hard: flag_of(list[2]),
        target: text_of(list[3]),
    }
}

/// The first command of the tool: `reset`, with `--hard` where that is asked
/// for, then the target where one is given, then the path behind `--` unless
/// it is empty or `.`, which stands for all files.
pub open spec fn reset_command(path: Seq<char>, hard: bool, target: Option<Seq<char>>) -> Seq<
    Seq<char>,
> {
    seq!["reset"@] + switch(hard, "--hard"@) + optional(target) + (if path.len() == 0 || path
        == "."@ {
        Seq::empty()
    } else {
        after_separator(Some(path))
    })
}

/// What the tool reports where git printed nothing.
pub open spec fn reset_done(hard: bool) -> Seq<char> {
    if hard {
        "Hard reset performed successfully"@
    } else {
        "Files unstaged successfully"@
    }
}

/// The result of the tool: what the reset printed, and the status of the
/// working tree after it, line by line.
pub open spec fn reset_result(hard: bool, printed: Seq<char>, listing: Seq<char>) -> ValueView {
    ValueView::Object(
        seq![
            ("success"@, ValueView::Bool(true)),
            ("message"@, message_or(printed, reset_done(hard))),
            ("status"@, status_lines(listing)),
        ],
    )
}

impl Default for GitResetTool {
    fn default() -> (tool: GitResetTool)
        ensures
            tool == GitResetTool,
    {
        GitResetTool
    }
}

impl GitResetTool {
    /// The name that callers know the tool by.
    pub fn name(&self) -> (s: &'static str)
        ensures
            s@ == "git_reset"@,
    {
        "git_reset"
    }

    /// What the tool does, for a reader.
    pub fn description(&self) -> (s: &'static str)
        ensures
            s@ == "Reset the staging area or working tree to a specified state"@,
    {
        "Reset the staging area or working tree to a specified state"
    }

    /// The input contract of the tool.
    pub fn schema(&self) -> (contract: InputContract)
        ensures
            contract_view(contract@) == reset_contract(),
    {
        let contract = vec![
            FieldSpec::new("repo_path", "The path to the git repository", FieldKind::Text, true, false),
            FieldSpec::new(
                "path",
                "The path(s) to reset, or patterns to match. Use '.' for all files.",
                FieldKind::Text,
                true,
                false,
            ),
            FieldSpec::new(
                "hard",
                "Whether to perform a hard reset (WARNING: discards all local changes)",
                FieldKind::Flag,
                false,
                false,
            ),
            FieldSpec::new(
                "target",
                "The commit or branch to reset to (defaults to HEAD)",
                FieldKind::Text,
                false,
                true,
            ),
        ];
        assert(contract_view(contract@) =~= reset_contract());
        contract
    }

    /// Validates the arguments of a call and starts its execution.
    pub fn call(&self, params: Value) -> (r: Result<Execution, ToolError>)
        ensures
            match r {
                Ok(e) => decoded(reset_contract(), params@) matches Ok(list) && e@ == started(
                    reset_parameters(list),
                ),
                Err(failure) => decoded(reset_contract(), params@) == Err::<
                    Seq<ArgumentView>,
                    ToolErrorView,
                >(failure@),
            },
    {
        let contract = self.schema();
        match validate(&contract, &params) {
            Err(failure) => Err(failure),
            Ok(list) => {
                proof {
                    lemma_decoded_each(reset_contract(), params@);
                    assert(arguments_view(list@).len() == list@.len());
                }
                Ok(
                    git_reset(
                        list[0].text_or_empty(),
                        list[1].text_or_empty(),
                        list[2].flag(),
                        list[3].text(),
                    ),
                )
            },
        }
    }

    /// See `reset_command`.
    pub fn command(path: &str, hard: bool, target: &Option<String>) -> (list: Vec<String>)
        ensures
            texts(list@) == reset_command(path@, hard, target.deep_view()),
    {
        let mut list = arguments_of("reset");
        push_switch(&mut list, hard, "--hard");
        push_optional(&mut list, target);
        if !path.is_empty() && !equal(path, ".") {
            let given = Some(String::from_str(path));
            push_after_separator(&mut list, &given);
        } else {
            assert(texts(list@) + Seq::<Seq<char>>::empty() =~= texts(list@));
        }
        list
    }

    /// See `reset_result`.
    pub fn result(hard: bool, printed: &str, listing: &str) -> (v: Value)
        ensures
            v@ == reset_result(hard, printed@, listing@),
    {
        let done = if hard {
            "Hard reset performed successfully"
        } else {
            "Files unstaged successfully"
        };
        let fields = vec![
            entry("success", Value::Bool(true)),
            entry("message", message(printed, done)),
            entry("status", status_listing(listing)),
        ];
        assert(entries(fields@) =~= reset_result(hard, printed@, listing@)->Object_0);
        Value::object(fields)
    }
}

/// Starts the reset of the repository at `repo_path` to `target`, or to its
/// latest commit where no target is given: of the staging area, or with
/// `hard` of the working tree too; of `path` only, unless that is empty or
/// `.`.
pub fn git_reset(repo_path: String, path: String, hard: bool, target: Option<String>) -> (e:
    Execution)
    ensures
        e@ == started(
            ParametersView::Reset {
                repo_path: repo_path@,
                path: path@,
                hard,
                target: target.deep_view(),
            },
        ),
{
    Execution::begin(Parameters::Reset { repo_path, path, hard, target })
}

} // verus!
