//! The failures of a call.

use vstd::prelude::*;
use vstd::string::*;

verus! {

/// Why a call failed.
#[derive(Clone, Copy, Debug, PartialEq, Eq)]
pub enum ErrorKind {
    /// No tool of the requested name is registered.
    NotFound,
    /// The arguments do not meet the tool's input contract.
    DecodeFailure,
    /// The tool's work could not be completed.
    ExecutionFailure,
}

/// A failed call: its kind and a message for the caller.
#[derive(Clone, Debug, PartialEq, Eq)]
pub struct ToolError {
    pub kind: ErrorKind,
    pub message: String,
}

/// What a `ToolError` holds.
pub struct ToolErrorView {
    pub kind: ErrorKind,
    pub message: Seq<char>,
}

impl View for ToolError {
    type V = ToolErrorView;

    open spec fn view(&self) -> ToolErrorView {
        ToolErrorView { kind: self.kind, message: self.message@ }
    }
}

/// The failure for a tool name that is not registered.
pub open spec fn not_found(name: Seq<char>) -> ToolErrorView {
    ToolErrorView { kind: ErrorKind::NotFound, message: "Tool '"@ + name + "' not found"@ }
}

/// The failure for arguments that leave out the required field `name`.
pub open spec fn missing_field(name: Seq<char>) -> ToolErrorView {
    ToolErrorView { kind: ErrorKind::DecodeFailure, message: "missing field `"@ + name + "`"@ }
}

/// The failure for arguments whose field `name` holds a value of another type
/// than the `expected` one.
pub open spec fn invalid_field(name: Seq<char>, expected: Seq<char>) -> ToolErrorView {
    ToolErrorView {
        kind: ErrorKind::DecodeFailure,
        message: "invalid type for field `"@ + name + "`: expected "@ + expected,
    }
}

/// The failure for arguments that are no object.
pub open spec fn not_an_object() -> ToolErrorView {
    ToolErrorView { kind: ErrorKind::DecodeFailure, message: "invalid type: expected an object"@ }
}

/// The failure for a command that could not be started.
pub open spec fn launch_failed(reason: Seq<char>) -> ToolErrorView {
    ToolErrorView {
        kind: ErrorKind::ExecutionFailure,
        message: "Failed to execute git: "@ + reason,
    }
}

/// The failure for a command that ended with a status other than zero; the
/// message ends with what the command wrote to its error stream.
pub open spec fn command_failed(stderr: Seq<char>) -> ToolErrorView {
    ToolErrorView { kind: ErrorKind::ExecutionFailure, message: "Git command failed: "@ + stderr }
}

/// The failure for a request to read a resource: the server offers none.
pub open spec fn resources_unsupported() -> ToolErrorView {
    ToolErrorView { kind: ErrorKind::NotFound, message: "Resources not supported"@ }
}

/// The failure for a request for a prompt: the server offers none.
pub open spec fn prompt_not_found(name: Seq<char>) -> ToolErrorView {
    ToolErrorView { kind: ErrorKind::NotFound, message: "Prompt '"@ + name + "' not found"@ }
}

impl ToolError {
    /// See `resources_unsupported`.
    pub fn resources_unsupported() -> (e: ToolError)
        ensures
            e@ == resources_unsupported(),
    {
        ToolError { kind: ErrorKind::NotFound, message: String::from_str("Resources not supported") }
    }

    /// See `prompt_not_found`.
    pub fn prompt_not_found(name: &str) -> (e: ToolError)
        ensures
            e@ == prompt_not_found(name@),
    {
        let message = String::from_str("Prompt '").concat(name).concat("' not found");
        ToolError { kind: ErrorKind::NotFound, message }
    }

    /// See `not_found`.
    pub fn not_found(name: &str) -> (e: ToolError)
        ensures
            e@ == not_found(name@),
    {
        let message = String::from_str("Tool '").concat(name).concat("' not found");
        ToolError { kind: ErrorKind::NotFound, message }
    }

    /// See `missing_field`.
    pub fn missing_field(name: &str) -> (e: ToolError)
        ensures
            e@ == missing_field(name@),
    {
        let message = String::from_str("missing field `").concat(name).concat("`");
        ToolError { kind: ErrorKind::DecodeFailure, message }
    }

    /// See `invalid_field`.
    pub fn invalid_field(name: &str, expected: &str) -> (e: ToolError)
        ensures
            e@ == invalid_field(name@, expected@),
    {
        let message = String::from_str("invalid type for field `").concat(name).concat(
            "`: expected ",
        ).concat(expected);
        ToolError { kind: ErrorKind::DecodeFailure, message }
    }

    /// See `not_an_object`.
    pub fn not_an_object() -> (e: ToolError)
        ensures
            e@ == not_an_object(),
    {
        ToolError {
            kind: ErrorKind::DecodeFailure,
            message: String::from_str("invalid type: expected an object"),
        }
    }

    /// See `launch_failed`.
    pub fn launch_failed(reason: &str) -> (e: ToolError)
        ensures
            e@ == launch_failed(reason@),
    {
        let message = String::from_str("Failed to execute git: ").concat(reason);
        ToolError { kind: ErrorKind::ExecutionFailure, message }
    }

    /// See `command_failed`.
    pub fn command_failed(stderr: &str) -> (e: ToolError)
        ensures
            e@ == command_failed(stderr@),
    {
        let message = String::from_str("Git command failed: ").concat(stderr);
        ToolError { kind: ErrorKind::ExecutionFailure, message }
    }
}

} // verus!
