use std::path::{Path, PathBuf};
use std::time::{SystemTime, UNIX_EPOCH};

use atuin_ctx::app_ctx::recorded_cwd;
use atuin_ctx::git_ctx::{
    classify_discover_error, shares_common_dir, DiscoverErrorKind, DiscoverFailure, GitRepoCtx,
    NewGitRepoCtxError, ProbeStep,
};
use atuin_ctx::workspace::git_ctx_ref;

/// A directory under /tmp that no earlier run has used.
fn fresh_dir(tag: &str) -> PathBuf {
    let nanos = SystemTime::now().duration_since(UNIX_EPOCH).unwrap().as_nanos();
    PathBuf::from(format!("/tmp/atuin-ctx-test-{}-{}", tag, nanos))
}

fn fresh_repo(tag: &str) -> (PathBuf, gix::Repository) {
    let dir = fresh_dir(tag);
    let repo = gix::init(&dir).expect("init a repository under /tmp");
    (dir, repo)
}

#[test]
fn new_outside_any_repository_is_ok_none() {
    // /proc is no repository, and neither is any parent it can reach.
    let r = GitRepoCtx::new(Path::new("/proc"));
    assert!(matches!(r, Ok(None)));
}

#[test]
fn new_on_missing_directory_is_discover_error() {
    let r = GitRepoCtx::new(Path::new("/nonexistent/atuin-ctx/deeper"));
    assert!(matches!(r, Err(NewGitRepoCtxError::DiscoverGitRepo(_))));
}

#[test]
fn new_in_main_worktree_reuses_the_repo() {
    let (dir, _) = fresh_repo("main");
    let ctx = GitRepoCtx::new(&dir).unwrap().expect("a repository is found");
    // Not a linked worktree: no second handle was opened.
    assert!(std::ptr::eq(ctx.main_repo(), &ctx.repo));
    assert_eq!(ctx.main_repo().git_dir(), ctx.repo.git_dir());
    assert!(ctx.repo.git_dir().starts_with(&dir));
}

#[test]
fn for_main_worktree_main_repo_is_repo() {
    let (_, repo) = fresh_repo("formain");
    let git_dir = repo.git_dir().to_path_buf();
    let ctx = GitRepoCtx::for_main_worktree(repo);
    assert!(std::ptr::eq(ctx.main_repo(), &ctx.repo));
    assert_eq!(ctx.repo.git_dir(), git_dir.as_path());
}

#[test]
fn for_linked_worktree_keeps_opened_main() {
    let (_, worktree) = fresh_repo("linked");
    let (main_dir, _) = fresh_repo("linkedmain");
    let main = gix::open(&main_dir).expect("open the other repository");
    let main_git_dir = main.git_dir().to_path_buf();
    let worktree_git_dir = worktree.git_dir().to_path_buf();
    let ctx = GitRepoCtx::for_linked_worktree(worktree, Ok(main)).unwrap().expect("a context");
    assert!(!std::ptr::eq(ctx.main_repo(), &ctx.repo));
    assert_eq!(ctx.main_repo().git_dir(), main_git_dir.as_path());
    assert_eq!(ctx.repo.git_dir(), worktree_git_dir.as_path());
}

#[test]
fn for_linked_worktree_open_failure_is_open_main_repo_error() {
    let (_, worktree) = fresh_repo("linkedfail");
    let opened = gix::open("/nonexistent/atuin-ctx/main");
    assert!(opened.is_err());
    let r = GitRepoCtx::for_linked_worktree(worktree, opened);
    assert!(matches!(r, Err(NewGitRepoCtxError::OpenMainRepo(_))));
}

#[test]
fn not_a_repository_is_not_an_error() {
    let r = GitRepoCtx::from_discover_failure(DiscoverFailure::NotARepository);
    assert!(matches!(r, Ok(None)));
}

#[test]
fn other_discover_failure_is_an_error() {
    let e = gix::discover("/nonexistent/atuin-ctx/other").unwrap_err();
    let r = GitRepoCtx::from_discover_failure(DiscoverFailure::Failed(e));
    assert!(matches!(r, Err(NewGitRepoCtxError::DiscoverGitRepo(_))));
}

#[test]
fn git_ctx_ref_reads_each_outcome() {
    let none: Result<Option<GitRepoCtx>, NewGitRepoCtxError> = Ok(None);
    assert!(matches!(git_ctx_ref(&none), Ok(None)));

    let (_, repo) = fresh_repo("ref");
    let some: Result<Option<GitRepoCtx>, NewGitRepoCtxError> =
        Ok(Some(GitRepoCtx::for_main_worktree(repo)));
    match (&some, git_ctx_ref(&some)) {
        (Ok(Some(owned)), Ok(Some(borrowed))) => assert!(std::ptr::eq(owned, borrowed)),
        _ => panic!("expected a borrowed context"),
    }

    let e = gix::discover("/nonexistent/atuin-ctx/ref").unwrap_err();
    let err: Result<Option<GitRepoCtx>, NewGitRepoCtxError> =
        Err(NewGitRepoCtxError::DiscoverGitRepo(e));
    assert!(matches!(git_ctx_ref(&err), Err(NewGitRepoCtxError::DiscoverGitRepo(_))));
}

#[test]
fn recorded_cwd_prefers_pwd() {
    let r = recorded_cwd(Some("/home/u/link".to_string()), Some("/home/u/real".to_string()));
    assert_eq!(r, "/home/u/link");
}

#[test]
fn recorded_cwd_falls_back_to_physical() {
    let r = recorded_cwd(None, Some("/home/u/real".to_string()));
    assert_eq!(r, "/home/u/real");
}

#[test]
fn recorded_cwd_empty_when_nothing_is_known() {
    assert_eq!(recorded_cwd(None, None), "");
}

#[test]
fn from_probe_failure_is_settled() {
    match GitRepoCtx::from_probe(Err(DiscoverFailure::NotARepository), true) {
        ProbeStep::Done(Ok(None)) => {}
        _ => panic!("not a repository is Ok(None)"),
    }
    let e = gix::discover("/nonexistent/atuin-ctx/probe").unwrap_err();
    match GitRepoCtx::from_probe(Err(DiscoverFailure::Failed(e)), false) {
        ProbeStep::Done(Err(NewGitRepoCtxError::DiscoverGitRepo(_))) => {}
        _ => panic!("another failure is an error"),
    }
}

#[test]
fn from_probe_main_worktree_is_done_without_second_handle() {
    let (_, repo) = fresh_repo("probemain");
    let git_dir = repo.git_dir().to_path_buf();
    match GitRepoCtx::from_probe(Ok(repo), true) {
        ProbeStep::Done(Ok(Some(ctx))) => {
            assert!(std::ptr::eq(ctx.main_repo(), &ctx.repo));
            assert_eq!(ctx.repo.git_dir(), git_dir.as_path());
        }
        _ => panic!("a main worktree is settled"),
    }
}

#[test]
fn from_probe_linked_worktree_asks_to_open_main() {
    let (_, repo) = fresh_repo("probelinked");
    let git_dir = repo.git_dir().to_path_buf();
    match GitRepoCtx::from_probe(Ok(repo), false) {
        ProbeStep::OpenMainRepo(r) => assert_eq!(r.git_dir(), git_dir.as_path()),
        _ => panic!("a linked worktree asks for its main repository"),
    }
}

#[test]
fn only_the_three_not_found_kinds_mean_no_repository() {
    assert!(DiscoverErrorKind::NoGitRepository.is_no_repository());
    assert!(DiscoverErrorKind::NoGitRepositoryWithinCeiling.is_no_repository());
    assert!(DiscoverErrorKind::NoGitRepositoryWithinFs.is_no_repository());
    for kind in [
        DiscoverErrorKind::CurrentDir,
        DiscoverErrorKind::InvalidInput,
        DiscoverErrorKind::InaccessibleDirectory,
        DiscoverErrorKind::NoMatchingCeilingDir,
        DiscoverErrorKind::NoTrustedGitRepository,
        DiscoverErrorKind::CheckTrust,
        DiscoverErrorKind::Open,
    ] {
        assert!(!kind.is_no_repository());
    }
}

#[test]
fn classify_by_kind() {
    let e = gix::discover("/nonexistent/atuin-ctx/classify").unwrap_err();
    assert!(matches!(
        classify_discover_error(e, DiscoverErrorKind::NoGitRepositoryWithinFs),
        DiscoverFailure::NotARepository
    ));
    let e = gix::discover("/nonexistent/atuin-ctx/classify").unwrap_err();
    assert!(matches!(
        classify_discover_error(e, DiscoverErrorKind::InaccessibleDirectory),
        DiscoverFailure::Failed(_)
    ));
}

#[test]
fn fresh_repository_shares_its_common_dir() {
    let (_, repo) = fresh_repo("shares");
    assert!(shares_common_dir(&repo));
}

#[test]
fn clone_of_main_worktree_context_holds_no_second_handle() {
    let (dir, _) = fresh_repo("clonemain");
    let ctx = GitRepoCtx::new(&dir).unwrap().expect("a repository is found");
    let copy = ctx.clone();
    assert!(std::ptr::eq(copy.main_repo(), &copy.repo));
    assert_eq!(copy.repo.git_dir(), ctx.repo.git_dir());
    assert_eq!(copy.repo.common_dir(), ctx.repo.common_dir());
}

#[test]
fn clone_of_linked_context_keeps_its_main_repo() {
    let (_, worktree) = fresh_repo("clonelinked");
    let (main_dir, _) = fresh_repo("clonelinkedmain");
    let main = gix::open(&main_dir).unwrap();
    let ctx = GitRepoCtx::for_linked_worktree(worktree, Ok(main)).unwrap().unwrap();
    let copy = ctx.clone();
    assert!(!std::ptr::eq(copy.main_repo(), &copy.repo));
    assert_eq!(copy.main_repo().git_dir(), ctx.main_repo().git_dir());
    assert_eq!(copy.repo.git_dir(), ctx.repo.git_dir());
}
