# atuin_ctx

Context handles for the directory a shell-history command runs in, with their
contracts proved by Verus.

- `src/git_ctx.rs`: finding the git repository that contains a directory
  (`GitRepoCtx::new`), reading "no repository here" as `Ok(None)` rather than an
  error, and the repository of the main worktree (`GitRepoCtx::main_repo`). The
  calls into `gix` stand behind small trusted wrappers that read values out of gix
  (an error's variant, a repository's git and common directories); which errors
  mean "no repository", when a repository is its own main worktree, and what is
  built from each outcome are decided in verified code.
- `src/workspace.rs`: how a finished git lookup is read by callers.
- `src/app_ctx.rs`: how the recorded working directory is chosen.
- `app/`: the asynchronous side: the eager background cells built on tokio, the
  workspace that runs the git lookup in the background, and the application
  context that reads the environment. The application context has no hostname or
  username accessors: those forward to the `atuin_domain` crate of atuin's own
  workspace, which this crate does not depend on.
- `tests/`: tests of the library, including repositories created under `/tmp`.
