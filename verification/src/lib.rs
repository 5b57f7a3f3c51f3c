//! Repository-root bookkeeping for a terminal: which directories are git
//! repositories, how a working directory resolves to the repository that
//! contains it, and the pure decisions behind git detection, git command
//! results and the code-editor settings.

pub mod path;
pub mod repositories;
pub mod detection;
pub mod text;
pub mod git_command;
pub mod settings;
