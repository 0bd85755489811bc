//! The tools, one module each, and what they share.

pub mod add;
pub mod branch;
pub mod commit;
pub mod diff;
pub mod history;
pub mod log;
pub mod parts;
pub mod pull;
pub mod push;
pub mod reset;
pub mod status;
pub mod time_filtered_log;

pub use add::GitAddTool;
pub use branch::GitBranchesTool;
pub use commit::GitCommitTool;
pub use diff::GitDiffTool;
pub use log::GitLogTool;
pub use pull::GitPullTool;
pub use push::GitPushTool;
pub use reset::GitResetTool;
pub use status::GitStatusTool;
pub use time_filtered_log::GitTimeFilteredLogTool;
