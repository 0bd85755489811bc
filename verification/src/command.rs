//! The commands that the tools have run for them, and what comes back.
//!
//! The library runs nothing itself. It says which command is to be run, as an
//! `Invocation`, and takes what came of it as a `CommandOutcome`.

use crate::error::{command_failed, launch_failed, ToolError, ToolErrorView};
use crate::text::{lemma_texts_add, push_text, texts};
use vstd::prelude::*;

verus! {

/// A command to run: the program and its arguments.
#[derive(Clone, Debug, PartialEq, Eq)]
pub struct Invocation {
    pub program: String,
    pub args: Vec<String>,
}

/// What an `Invocation` holds.
pub struct InvocationView {
    pub program: Seq<char>,
    pub args: Seq<Seq<char>>,
}

impl View for Invocation {
    type V = InvocationView;

    open spec fn view(&self) -> InvocationView {
        InvocationView { program: self.program@, args: texts(self.args@) }
    }
}

/// What came of running a command.
#[derive(Clone, Debug, PartialEq, Eq)]
pub enum CommandOutcome {
    /// The program could not be started.
    LaunchFailed { reason: String },
    /// The program ran and ended; `success` says whether its exit status was
    /// zero, `stdout` and `stderr` hold what it wrote.
    Exited { success: bool, stdout: String, stderr: String },
}

/// What a `CommandOutcome` holds.
pub enum CommandOutcomeView {
    LaunchFailed { reason: Seq<char> },
    Exited { success: bool, stdout: Seq<char>, stderr: Seq<char> },
}

impl View for CommandOutcome {
    type V = CommandOutcomeView;

    open spec fn view(&self) -> CommandOutcomeView {
        match self {
            CommandOutcome::LaunchFailed { reason } => CommandOutcomeView::LaunchFailed {
                reason: reason@,
            },
            CommandOutcome::Exited { success, stdout, stderr } => CommandOutcomeView::Exited {
                success: *success,
                stdout: stdout@,
                stderr: stderr@,
            },
        }
    }
}

/// The invocation of git on the repository at `repo_path`: the repository
/// comes first, behind `-C`, then the subcommand with its flags and its
/// positional arguments.
pub open spec fn git_invocation(repo_path: Seq<char>, arguments: Seq<Seq<char>>) -> InvocationView {
    InvocationView { program: "git"@, args: seq!["-C"@, repo_path] + arguments }
}

/// What a command's outcome means for the tool that asked for it: the text of
/// its output stream where it ended with status zero, else a failure of kind
/// `ExecutionFailure` that carries the reason, or the text of its error stream.
pub open spec fn command_output(outcome: CommandOutcomeView) -> Result<Seq<char>, ToolErrorView> {
    match outcome {
        CommandOutcomeView::LaunchFailed { reason } => Err(launch_failed(reason)),
        CommandOutcomeView::Exited { success, stdout, stderr } => if success {
            Ok(stdout)
        } else {
            Err(command_failed(stderr))
        },
    }
}

impl Invocation {
    /// See `git_invocation`.
    pub fn git(repo_path: &str, arguments: Vec<String>) -> (invocation: Invocation)
        ensures
            invocation@ == git_invocation(repo_path@, texts(arguments@)),
    {
        let mut args: Vec<String> = Vec::new();
        assert(texts(args@) =~= Seq::<Seq<char>>::empty());
        push_text(&mut args, "-C");
        push_text(&mut args, repo_path);
        let mut arguments = arguments;
        proof {
            lemma_texts_add(args@, arguments@);
            assert(texts(args@) =~= seq!["-C"@, repo_path@]);
        }
        args.append(&mut arguments);
        Invocation { program: String::from_str("git"), args }
    }
}

impl CommandOutcome {
    /// See `command_output`.
    pub fn output(self) -> (r: Result<String, ToolError>)
        ensures
            match r {
                Ok(text) => command_output(self@) == Ok::<Seq<char>, ToolErrorView>(text@),
                Err(e) => command_output(self@) == Err::<Seq<char>, ToolErrorView>(e@),
            },
    {
        match self {
            CommandOutcome::LaunchFailed { reason } => Err(ToolError::launch_failed(reason.as_str())),
            CommandOutcome::Exited { success, stdout, stderr } => {
                if success {
                    Ok(stdout)
                } else {
                    Err(ToolError::command_failed(stderr.as_str()))
                }
            },
        }
    }
}

} // verus!
