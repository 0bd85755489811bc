//! The registry of tools and the dispatch of calls.
//!
//! A `McpServerBuilder` collects the tools of a server, each under a name of
//! its own. The `GitToolsRouter` built from it lists them in the order in
//! which they were added, and dispatches a call to the tool of the called
//! name.

use crate::contract::{contract_view, FieldSpecView, InputContract};
use crate::error::{not_found, prompt_not_found, resources_unsupported, ToolError};
use crate::execution::{CallState, CallStateView, Response, ResponseView};
use crate::handler::{begun_state, tool_contract, tool_description, tool_name, ToolHandler};
use crate::text::equal;
use crate::tools::{
    GitBranchesTool, GitCommitTool, GitDiffTool, GitLogTool, GitPullTool, GitPushTool,
    GitStatusTool, GitTimeFilteredLogTool,
};
use crate::value::{Value, ValueView};
use vstd::prelude::*;

verus! {

/// What a server tells its callers of one tool.
#[derive(Clone, Debug, PartialEq, Eq)]
pub struct ToolDescriptor {
    pub name: String,
    pub description: String,
    pub input_contract: InputContract,
}

/// What a `ToolDescriptor` holds.
pub struct ToolDescriptorView {
    pub name: Seq<char>,
    pub description: Seq<char>,
    pub input_contract: Seq<FieldSpecView>,
}

impl View for ToolDescriptor {
    type V = ToolDescriptorView;

    open spec fn view(&self) -> ToolDescriptorView {
        ToolDescriptorView {
            name: self.name@,
            description: self.description@,
            input_contract: contract_view(self.input_contract@),
        }
    }
}

/// What a list of descriptors holds.
pub open spec fn descriptors_view(list: Seq<ToolDescriptor>) -> Seq<ToolDescriptorView> {
    Seq::new(list.len(), |i: int| list[i]@)
}

/// The descriptor of a tool.
pub open spec fn descriptor(tool: ToolHandler) -> ToolDescriptorView {
    ToolDescriptorView {
        name: tool_name(tool),
        description: tool_description(tool),
        input_contract: tool_contract(tool),
    }
}

/// The names of the tools of a list, in its order.
pub open spec fn names(tools: Seq<ToolHandler>) -> Seq<Seq<char>> {
    Seq::new(tools.len(), |i: int| tool_name(tools[i]))
}

/// The descriptors of the tools of a list, in its order.
pub open spec fn listing(tools: Seq<ToolHandler>) -> Seq<ToolDescriptorView> {
    Seq::new(tools.len(), |i: int| descriptor(tools[i]))
}

/// The first tool of the list that has the given name. Names are compared
/// character by character.
pub open spec fn found(tools: Seq<ToolHandler>, name: Seq<char>) -> Option<ToolHandler>
    decreases tools.len(),
{
    if tools.len() == 0 {
        None
    } else if tool_name(tools[0]) == name {
        Some(tools[0])
    } else {
        found(tools.drop_first(), name)
    }
}

/// What a call of `name` with `arguments` comes to on a server with the given
/// tools. Without a tool of that name the call fails as `NotFound`. Else the
/// arguments are validated against the tool's contract: the call fails with
/// the failure of the validation, or waits for the tool's first command.
pub open spec fn dispatched(
    tools: Seq<ToolHandler>,
    name: Seq<char>,
    arguments: ValueView,
) -> CallStateView {
    match found(tools, name) {
        None => CallStateView::Responded(ResponseView::Failure(not_found(name))),
        Some(tool) => begun_state(tool, arguments),
    }
}

/// The tools that a server of git tools offers, in the order in which it
/// lists them.
pub open spec fn default_tools() -> Seq<ToolHandler> {
    seq![
        ToolHandler::Status(GitStatusTool),
        ToolHandler::Branches(GitBranchesTool),
        ToolHandler::Log(GitLogTool),
        ToolHandler::Commit(GitCommitTool),
        ToolHandler::Pull(GitPullTool),
        ToolHandler::Push(GitPushTool),
        ToolHandler::Diff(GitDiffTool),
        ToolHandler::TimeFilteredLog(GitTimeFilteredLogTool),
    ]
}

/// The names of a list with one more tool are the names of the list, then
/// the name of that tool.
pub proof fn lemma_names_push(tools: Seq<ToolHandler>, tool: ToolHandler)
    ensures
        names(tools.push(tool)) == names(tools).push(tool_name(tool)),
{
    assert(names(tools.push(tool)) =~= names(tools).push(tool_name(tool)));
}

/// A name is found exactly where a tool of the list has it, and the tool
/// found has the name.
pub proof fn lemma_found(tools: Seq<ToolHandler>, name: Seq<char>)
    ensures
        found(tools, name) is Some <==> names(tools).contains(name),
        found(tools, name) matches Some(tool) ==> tool_name(tool) == name && tools.contains(tool),
    decreases tools.len(),
{
    if tools.len() == 0 {
    } else if tool_name(tools[0]) == name {
        assert(names(tools)[0] == name);
        assert(tools.contains(tools[0]));
    } else {
        let rest = tools.drop_first();
        lemma_found(rest, name);
        assert(names(rest) =~= names(tools).drop_first());
        if names(tools).contains(name) {
            let i = choose|i: int| 0 <= i < names(tools).len() && names(tools)[i] == name;
            assert(names(rest)[i - 1] == name);
        }
        if names(rest).contains(name) {
            let i = choose|i: int| 0 <= i < names(rest).len() && names(rest)[i] == name;
            assert(names(tools)[i + 1] == name);
        }
        if found(rest, name) is Some {
            let tool = found(rest, name)->Some_0;
            let i = choose|i: int| 0 <= i < rest.len() && rest[i] == tool;
            assert(tools[i + 1] == tool);
        }
    }
}

/// A call of a name that no tool of the server has fails as `NotFound`, with
/// a message that holds the name. The call never reaches a tool: it is over
/// at once, and no command is asked for.
pub proof fn law_unknown_name_is_not_found(
    tools: Seq<ToolHandler>,
    name: Seq<char>,
    arguments: ValueView,
)
    requires
        !names(tools).contains(name),
    ensures
        dispatched(tools, name, arguments) == CallStateView::Responded(
            ResponseView::Failure(not_found(name)),
        ),
{
    lemma_found(tools, name);
}

/// On a server whose tools have names of their own, the listing holds one
/// descriptor for each tool, in the order of the tools, and no two
/// descriptors have the same name: a name that is registered is the name of
/// exactly one descriptor.
pub proof fn law_one_descriptor_for_each_name(tools: Seq<ToolHandler>)
    requires
        names(tools).no_duplicates(),
    ensures
        listing(tools).len() == tools.len(),
        forall|i: int| 0 <= i < tools.len() ==> (#[trigger] listing(tools)[i]) == descriptor(tools[i]),
        forall|i: int, j: int|
            0 <= i < tools.len() && 0 <= j < tools.len() && i != j ==> (#[trigger] listing(
                tools,
            )[i]).name != (#[trigger] listing(tools)[j]).name,
{
    assert forall|i: int, j: int| 0 <= i < tools.len() && 0 <= j < tools.len() && i != j implies (
    #[trigger] listing(tools)[i]).name != (#[trigger] listing(tools)[j]).name by {
        assert(names(tools)[i] != names(tools)[j]);
    }
}

/// A tool that is added is listed last, behind the tools that were there, and
/// these stay as they were.
pub proof fn law_listing_follows_registration(tools: Seq<ToolHandler>, tool: ToolHandler)
    ensures
        listing(tools.push(tool)) == listing(tools).push(descriptor(tool)),
{
    assert(listing(tools.push(tool)) =~= listing(tools).push(descriptor(tool)));
}

/// On a server whose tools have names of their own, a call of a tool's name
/// is dispatched to that tool.
pub proof fn law_registered_name_reaches_its_tool(
    tools: Seq<ToolHandler>,
    i: int,
    arguments: ValueView,
)
    requires
        names(tools).no_duplicates(),
        0 <= i < tools.len(),
    ensures
        dispatched(tools, tool_name(tools[i]), arguments) == begun_state(tools[i], arguments),
{
    let name = tool_name(tools[i]);
    lemma_found(tools, name);
    assert(names(tools)[i] == name);
    let tool = found(tools, name)->Some_0;
    let j = choose|j: int| 0 <= j < tools.len() && tools[j] == tool;
    assert(names(tools)[j] == name);
}

/// The names of the tools that a server of git tools offers differ from one
/// another.
pub proof fn lemma_default_names_differ()
    ensures
        names(default_tools()).no_duplicates(),
{
    reveal_strlit("git_status");
    reveal_strlit("git_branches");
    reveal_strlit("git_log");
    reveal_strlit("git_commit");
    reveal_strlit("git_pull");
    reveal_strlit("git_push");
    reveal_strlit("git_diff");
    reveal_strlit("git_time_filtered_log");
    let all = names(default_tools());
    assert(all[0].len() == 10 && all[1].len() == 12 && all[2].len() == 7 && all[3].len() == 10
        && all[4].len() == 8 && all[5].len() == 8 && all[6].len() == 8 && all[7].len() == 21);
    assert(all[0][4] == 's' && all[3][4] == 'c');
    assert(all[4][6] == 'l' && all[5][6] == 's' && all[6][6] == 'f');
}

/// Collects the tools of a server. No two of its tools have the same name.
#[derive(Debug)]
pub struct McpServerBuilder {
    name: String,
    version: String,
    tools: Vec<ToolHandler>,
}

/// Lists the tools of a server and dispatches calls to them. No two of its
/// tools have the same name.
#[derive(Debug)]
pub struct GitToolsRouter {
    name: String,
    version: String,
    tools: Vec<ToolHandler>,
}

impl McpServerBuilder {
    #[verifier::type_invariant]
    spec fn names_differ(self) -> bool {
        names(self.tools@).no_duplicates()
    }

    /// The tools collected so far, in the order in which they were added.
    pub closed spec fn tools(&self) -> Seq<ToolHandler> {
        self.tools@
    }

    /// The name of the server.
    pub closed spec fn server_name(&self) -> Seq<char> {
        self.name@
    }

    /// The version of the server.
    pub closed spec fn server_version(&self) -> Seq<char> {
        self.version@
    }

    /// A builder for a server of the given name and version, without tools.
    pub fn new(name: &str, version: &str) -> (builder: Self)
        ensures
            builder.tools() == Seq::<ToolHandler>::empty(),
            builder.server_name() == name@,
            builder.server_version() == version@,
    {
        let tools: Vec<ToolHandler> = Vec::new();
        assert(names(tools@) =~= Seq::<Seq<char>>::empty());
        McpServerBuilder { name: String::from_str(name), version: String::from_str(version), tools }
    }

    /// Whether a tool of the given name has been added.
    pub fn has_tool(&self, name: &str) -> (yes: bool)
        ensures
            yes == names(self.tools()).contains(name@),
            names(self.tools()).no_duplicates(),
    {
        proof {
            use_type_invariant(self);
            lemma_found(self.tools@, name@);
        }
        find_tool(&self.tools, name).is_some()
    }

    /// Adds a tool, behind those that were added before. No tool of its name
    /// may have been added yet.
    pub fn add_tool(&mut self, tool: ToolHandler) -> (builder: &mut Self)
        requires
            !names(old(self).tools()).contains(tool_name(tool)),
        ensures
            builder.tools() == old(self).tools().push(tool),
            builder.server_name() == old(self).server_name(),
            builder.server_version() == old(self).server_version(),
            *final(self) == *final(builder),
    {
        proof {
            use_type_invariant(&*self);
            lemma_names_push(self.tools@, tool);
        }
        let mut tools: Vec<ToolHandler> = Vec::new();
        assert(names(tools@) =~= Seq::<Seq<char>>::empty());
        core::mem::swap(&mut tools, &mut self.tools);
        tools.push(tool);
        core::mem::swap(&mut tools, &mut self.tools);
        self
    }

    /// The router for the tools that were added.
    pub fn build(self) -> (router: GitToolsRouter)
        ensures
            router.tools() == self.tools(),
            router.server_name() == self.server_name(),
            router.server_version() == self.server_version(),
    {
        proof {
            use_type_invariant(&self);
        }
        GitToolsRouter { name: self.name, version: self.version, tools: self.tools }
    }
}

/// The first tool of the list that has the given name: see `found`.
pub fn find_tool(tools: &Vec<ToolHandler>, name: &str) -> (tool: Option<ToolHandler>)
    ensures
        tool == found(tools@, name@),
{
    let mut i: usize = 0;
    assert(tools@.subrange(0, tools@.len() as int) =~= tools@);
    while i < tools.len()
        invariant
            0 <= i <= tools.len(),
            found(tools@, name@) == found(tools@.subrange(i as int, tools@.len() as int), name@),
        decreases tools.len() - i,
    {
        let tool = tools[i];
        proof {
            let rest = tools@.subrange(i as int, tools@.len() as int);
            assert(rest[0] == tool);
            assert(rest.drop_first() =~= tools@.subrange(i + 1, tools@.len() as int));
        }
        if equal(tool.name(), name) {
            return Some(tool);
        }
        i += 1;
    }
    None
}

impl GitToolsRouter {
    #[verifier::type_invariant]
    spec fn names_differ(self) -> bool {
        names(self.tools@).no_duplicates()
    }

    /// The tools of the server, in the order in which they were added.
    pub closed spec fn tools(&self) -> Seq<ToolHandler> {
        self.tools@
    }

    /// The name of the server.
    pub closed spec fn server_name(&self) -> Seq<char> {
        self.name@
    }

    /// The version of the server.
    pub closed spec fn server_version(&self) -> Seq<char> {
        self.version@
    }

    /// The name of the server.
    pub fn name(&self) -> (name: String)
        ensures
            name@ == self.server_name(),
    {
        self.name.clone()
    }

    /// The version of the server.
    pub fn version(&self) -> (version: String)
        ensures
            version@ == self.server_version(),
    {
        self.version.clone()
    }

    /// What the server is for, for a reader.
    pub fn instructions(&self) -> (text: String)
        ensures
            text@ == "Git tools for managing git repositories"@,
    {
        String::from_str("Git tools for managing git repositories")
    }

    /// The descriptors of the tools: one for each tool, in the order in which
    /// the tools were added. No two of them have the same name.
    pub fn list_tools(&self) -> (list: Vec<ToolDescriptor>)
        ensures
            descriptors_view(list@) == listing(self.tools()),
            names(self.tools()).no_duplicates(),
    {
        proof {
            use_type_invariant(self);
        }
        let mut list: Vec<ToolDescriptor> = Vec::new();
        let mut i: usize = 0;
        while i < self.tools.len()
            invariant
                0 <= i <= self.tools.len(),
                list@.len() == i,
                forall|j: int| 0 <= j < i ==> (#[trigger] list@[j])@ == descriptor(self.tools@[j]),
            decreases self.tools.len() - i,
        {
            let tool = self.tools[i];
            list.push(
                ToolDescriptor {
                    name: String::from_str(tool.name()),
                    description: String::from_str(tool.description()),
                    input_contract: tool.schema(),
                },
            );
            i += 1;
        }
        assert(descriptors_view(list@) =~= listing(self.tools@));
        list
    }

    /// The tools of the server, in the order in which they were added: the
    /// tool at each position is the one that `list_tools` describes there.
    pub fn handlers(&self) -> (list: Vec<ToolHandler>)
        ensures
            list@ == self.tools(),
    {
        let mut list: Vec<ToolHandler> = Vec::new();
        let mut i: usize = 0;
        while i < self.tools.len()
            invariant
                0 <= i <= self.tools.len(),
                list@ == self.tools@.take(i as int),
            decreases self.tools.len() - i,
        {
            list.push(self.tools[i]);
            assert(self.tools@.take(i + 1) =~= self.tools@.take(i as int).push(self.tools@[i as int]));
            i += 1;
        }
        assert(self.tools@.take(i as int) =~= self.tools@);
        list
    }

    /// The tool of the given name, if the server has one.
    pub fn find(&self, name: &str) -> (tool: Option<ToolHandler>)
        ensures
            tool == found(self.tools(), name@),
    {
        find_tool(&self.tools, name)
    }

    /// Takes a call: see `dispatched`.
    pub fn call_tool(&self, tool_name: &str, arguments: Value) -> (state: CallState)
        ensures
            state@ == dispatched(self.tools(), tool_name@, arguments@),
    {
        match self.find(tool_name) {
            None => CallState::Responded(Response::Failure(ToolError::not_found(tool_name))),
            Some(tool) => match tool.call(arguments) {
                Ok(execution) => CallState::Validated(execution),
                Err(failure) => CallState::Responded(Response::Failure(failure)),
            },
        }
    }

    /// Answers a request to read a resource: the server offers none.
    pub fn read_resource(&self, _uri: &str) -> (r: Result<String, ToolError>)
        ensures
            r matches Err(failure) && failure@ == resources_unsupported(),
    {
        Err(ToolError::resources_unsupported())
    }

    /// Answers a request for a prompt: the server offers none.
    pub fn get_prompt(&self, prompt_name: &str) -> (r: Result<String, ToolError>)
        ensures
            r matches Err(failure) && failure@ == prompt_not_found(prompt_name@),
    {
        Err(ToolError::prompt_not_found(prompt_name))
    }
}

/// The tools that a server of git tools offers: see `default_tools`.
pub fn get_all_git_tools() -> (tools: Vec<ToolHandler>)
    ensures
        tools@ == default_tools(),
{
    let tools = vec![
        ToolHandler::Status(GitStatusTool),
        ToolHandler::Branches(GitBranchesTool),
        ToolHandler::Log(GitLogTool),
        ToolHandler::Commit(GitCommitTool),
        ToolHandler::Pull(GitPullTool),
        ToolHandler::Push(GitPushTool),
        ToolHandler::Diff(GitDiffTool),
        ToolHandler::TimeFilteredLog(GitTimeFilteredLogTool),
    ];
    assert(tools@ =~= default_tools());
    tools
}

/// Adds the tools that a server of git tools offers, behind those that the
/// builder holds. None of their names may have been added yet.
pub fn register_git_tools(builder: &mut McpServerBuilder) -> (after: &mut McpServerBuilder)
    requires
        forall|i: int|
            0 <= i < default_tools().len() ==> !names(old(builder).tools()).contains(
                #[trigger] tool_name(default_tools()[i]),
            ),
    ensures
        after.tools() == old(builder).tools() + default_tools(),
        after.server_name() == old(builder).server_name(),
        after.server_version() == old(builder).server_version(),
        *final(builder) == *final(after),
{
    let tools = get_all_git_tools();
    let mut i: usize = 0;
    assert(old(builder).tools() + default_tools().take(0) =~= old(builder).tools());
    while i < tools.len()
        invariant
            tools@ == default_tools(),
            0 <= i <= tools.len(),
            builder.tools() == old(builder).tools() + default_tools().take(i as int),
            builder.server_name() == old(builder).server_name(),
            builder.server_version() == old(builder).server_version(),
            forall|k: int|
                0 <= k < default_tools().len() ==> !names(old(builder).tools()).contains(
                    #[trigger] tool_name(default_tools()[k]),
                ),
        decreases tools.len() - i,
    {
        let tool = tools[i];
        proof {
            lemma_default_names_differ();
            let before = old(builder).tools();
            let added = default_tools().take(i as int);
            let name = tool_name(tool);
            assert(tool == default_tools()[i as int]);
            if names(before + added).contains(name) {
                let k = choose|k: int|
                    0 <= k < names(before + added).len() && names(before + added)[k] == name;
                if k < before.len() {
                    assert(names(before)[k] == name);
                } else {
                    assert(names(default_tools())[k - before.len()] == name);
                    assert(names(default_tools())[i as int] == name);
                }
            }
            assert((before + added).push(tool) =~= before + default_tools().take(i + 1));
        }
        builder.add_tool(tool);
        i += 1;
    }
    assert(default_tools().take(i as int) =~= default_tools());
    builder
}

} // verus!
