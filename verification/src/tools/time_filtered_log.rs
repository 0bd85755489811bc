//! The tool that lists the commits of a span of time.

use crate::contract::{
    arguments_view, contract_view, decoded, lemma_decoded_each, text_of, text_or_empty, validate, ArgumentView, FieldKind, FieldSpec, FieldSpecView, InputContract,
};
use crate::error::{ToolError, ToolErrorView};
use crate::execution::{started, Execution, Parameters, ParametersView};
use crate::text::{lemma_texts_push, push_text, texts};
use crate::tools::history::{commit_records, history_format, parse_commits};
use crate::tools::parts::{
    arguments_of, entry, optional, optional_value, prefixed, push_optional, push_prefixed,
};
use crate::value::{entries, optional_text_value, Value, ValueView};
use vstd::prelude::*;

verus! {

/// Lists the commits made since a given date, and where asked before another
/// date, by one author, on one branch.
#[derive(Clone, Copy, Debug, PartialEq, Eq)]
pub struct GitTimeFilteredLogTool;

/// The fields that the tool accepts.
pub open spec fn time_filtered_log_contract() -> Seq<FieldSpecView> {
    seq![
        FieldSpecView {
            name: "repo_path"@,
            description: "The path to the git repository"@,
            kind: FieldKind::Text,
            required: true,
            nullable: false,
        },
        FieldSpecView {
            name: "since"@,
            description: "The start date"@,
            kind: FieldKind::Text,
            required: true,
            nullable: false,
        },
        FieldSpecView {
            name: "until"@,
            description: "The end date"@,
            kind: FieldKind::Text,
            required: false,
            nullable: false,
        },
        FieldSpecView {
            name: "author"@,
            description: "The author to filter by"@,
            kind: FieldKind::Text,
            required: false,
            nullable: false,
        },
        FieldSpecView {
            name: "branch"@,
            description: "The branch to filter by"@,
            kind: FieldKind::Text,
            required: false,
            nullable: false,
        },
    ]
}

/// The typed parameters that validated arguments stand for.
pub open spec fn time_filtered_log_parameters(list: Seq<ArgumentView>) -> ParametersView {
    ParametersView::TimeFilteredLog {
        repo_path: text_or_empty(list[0]),
        since: text_or_empty(list[1]),
        until: text_of(list[2]),
        author: text_of(list[3]),
        branch: text_of(list[4]),
    }
}

/// The command of the tool: `log` with the format of the history and the
/// start date, then the end date and the author where they are given, then
/// the branch where one is given.
pub open spec fn time_filtered_log_command(
    since: Seq<char>,
    until: Option<Seq<char>>,
    author: Option<Seq<char>>,
    branch: Option<Seq<char>>,
) -> Seq<Seq<char>> {
    seq!["log"@, history_format(), "--since="@ + since] + prefixed("--until="@, until) + prefixed(
        "--author="@,
        author,
    ) + optional(branch)
}

/// The filters of a call, as the result repeats them: each as it was given,
/// an absent one as `null`.
pub open spec fn filters(
    since: Seq<char>,
    until: Option<Seq<char>>,
    author: Option<Seq<char>>,
    branch: Option<Seq<char>>,
) -> ValueView {
    ValueView::Object(
        seq![
            ("since"@, ValueView::Text(since)),
            ("until"@, optional_text_value(until)),
            ("author"@, optional_text_value(author)),
            ("branch"@, optional_text_value(branch)),
        ],
    )
}

/// The result of the tool: the records of the commits that git printed, and
/// the filters of the call.
pub open spec fn time_filtered_log_result(
    since: Seq<char>,
    until: Option<Seq<char>>,
    author: Option<Seq<char>>,
    branch: Option<Seq<char>>,
    printed: Seq<char>,
) -> ValueView {
    ValueView::Object(
        seq![
            ("commits"@, ValueView::Array(commit_records(printed))),
            ("filters"@, filters(since, until, author, branch)),
        ],
    )
}

impl Default for GitTimeFilteredLogTool {
    fn default() -> (tool: GitTimeFilteredLogTool)
        ensures
            tool == GitTimeFilteredLogTool,
    {
        GitTimeFilteredLogTool
    }
}

impl GitTimeFilteredLogTool {
    /// The name that callers know the tool by.
    pub fn name(&self) -> (s: &'static str)
        ensures
            s@ == "git_time_filtered_log"@,
    {
        "git_time_filtered_log"
    }

    /// What the tool does, for a reader.
    pub fn description(&self) -> (s: &'static str)
        ensures
            s@
                == "Get commits within a specified time range, optionally filtered by author and branch"@,
    {
        "Get commits within a specified time range, optionally filtered by author and branch"
    }

    /// The input contract of the tool.
    pub fn schema(&self) -> (contract: InputContract)
        ensures
            contract_view(contract@) == time_filtered_log_contract(),
    {
        let contract = vec![
            FieldSpec::new("repo_path", "The path to the git repository", FieldKind::Text, true, false),
            FieldSpec::new("since", "The start date", FieldKind::Text, true, false),
            FieldSpec::new("until", "The end date", FieldKind::Text, false, false),
            FieldSpec::new("author", "The author to filter by", FieldKind::Text, false, false),
            FieldSpec::new("branch", "The branch to filter by", FieldKind::Text, false, false),
        ];
        assert(contract_view(contract@) =~= time_filtered_log_contract());
        contract
    }

    /// Validates the arguments of a call and starts its execution.
    pub fn call(&self, params: Value) -> (r: Result<Execution, ToolError>)
        ensures
            match r {
                Ok(e) => decoded(time_filtered_log_contract(), params@) matches Ok(list) && e@
                    == started(time_filtered_log_parameters(list)),
                Err(failure) => decoded(time_filtered_log_contract(), params@) == Err::<
                    Seq<ArgumentView>,
                    ToolErrorView,
                >(failure@),
            },
    {
        let contract = self.schema();
        match validate(&contract, &params) {
            Err(failure) => Err(failure),
            Ok(list) => {
                proof {
                    lemma_decoded_each(time_filtered_log_contract(), params@);
                    assert(arguments_view(list@).len() == list@.len());
                }
                Ok(
                    git_time_filtered_log(
                        list[0].text_or_empty(),
                        list[1].text_or_empty(),
                        list[2].text(),
                        list[3].text(),
                        list[4].text(),
                    ),
                )
            },
        }
    }

    /// See `time_filtered_log_command`.
    pub fn command(
        since: &str,
        until: &Option<String>,
        author: &Option<String>,
        branch: &Option<String>,
    ) -> (list: Vec<String>)
        ensures
            texts(list@) == time_filtered_log_command(
                since@,
                until.deep_view(),
                author.deep_view(),
                branch.deep_view(),
            ),
    {
        let mut list = arguments_of("log");
        push_text(&mut list, "--pretty=format:%H|%an|%ad|%s");
        let start = String::from_str("--since=").concat(since);
        proof {
            lemma_texts_push(list@, start);
        }
        list.push(start);
        assert(texts(list@) =~= seq!["log"@, history_format(), "--since="@ + since@]);
        push_prefixed(&mut list, "--until=", until);
        push_prefixed(&mut list, "--author=", author);
        push_optional(&mut list, branch);
        list
    }

    /// See `time_filtered_log_result`.
    pub fn result(
        since: &str,
        until: &Option<String>,
        author: &Option<String>,
        branch: &Option<String>,
        printed: &str,
    ) -> (v: Value)
        ensures
            v@ == time_filtered_log_result(
                since@,
                until.deep_view(),
                author.deep_view(),
                branch.deep_view(),
                printed@,
            ),
    {
        let chosen = vec![
            entry("since", Value::literal(since)),
            entry("until", optional_value(until)),
            entry("author", optional_value(author)),
            entry("branch", optional_value(branch)),
        ];
        assert(entries(chosen@) =~= filters(
            since@,
            until.deep_view(),
            author.deep_view(),
            branch.deep_view(),
        )->Object_0);
        let fields = vec![
            entry("commits", Value::array(parse_commits(printed))),
            entry("filters", Value::object(chosen)),
        ];
        assert(entries(fields@) =~= time_filtered_log_result(
            since@,
            until.deep_view(),
            author.deep_view(),
            branch.deep_view(),
            printed@,
        )->Object_0);
        Value::object(fields)
    }
}

/// Starts the listing of the commits that the repository at `repo_path` got
/// since `since`: those before `until`, by `author` and on `branch`, where
/// these are given. Each is passed on as it is given.
pub fn git_time_filtered_log(
    repo_path: String,
    since: String,
    until: Option<String>,
    author: Option<String>,
    branch: Option<String>,
) -> (e: Execution)
    ensures
        e@ == started(
            ParametersView::TimeFilteredLog {
                repo_path: repo_path@,
                since: since@,
                until: until.deep_view(),
                author: author.deep_view(),
                branch: branch.deep_view(),
            },
        ),
{
    Execution::begin(Parameters::TimeFilteredLog { repo_path, since, until, author, branch })
}

} // verus!
