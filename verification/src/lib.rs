//! Context handles for the directory a command runs in: the git repository that
//! contains it, how a finished lookup is read, and how the recorded working
//! directory is chosen.

pub mod app_ctx;
pub mod git_ctx;
pub mod workspace;
