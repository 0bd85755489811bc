//! Git operations offered as named tools: a registry of tools, the validation
//! of a call's arguments, the commands each tool runs and the results it
//! builds from their output.

pub mod command;
pub mod contract;
pub mod error;
pub mod execution;
pub mod handler;
pub mod server;
pub mod text;
pub mod tools;
pub mod value;

pub use server::{get_all_git_tools, register_git_tools, GitToolsRouter, McpServerBuilder};
