//! The git repository that contains a directory, and the repository that owns
//! its main worktree.
use vstd::prelude::*;
use std::path::{Path, PathBuf};
use gix::discover::upwards::Error as Up;

verus! {

#[verifier::external_type_specification]
#[verifier::external_body]
pub struct ExPath(Path);

#[verifier::external_type_specification]
#[verifier::external_body]
pub struct ExPathBuf(PathBuf);

#[verifier::external_type_specification]
#[verifier::external_body]
pub struct ExRepository(gix::Repository);

#[verifier::external_type_specification]
#[verifier::external_body]
pub struct ExDiscoverError(gix::discover::Error);

#[verifier::external_type_specification]
#[verifier::external_body]
pub struct ExOpenError(gix::open::Error);

/// The path that `Repository::git_dir()` returns: the repository's own git directory,
/// held in its reference store.
pub uninterp spec fn git_dir_of(repo: gix::Repository) -> PathBuf;

/// The path that `Repository::common_dir()` returns: the common directory held in the
/// handle, or the git directory when none is held.
pub uninterp spec fn common_dir_of(repo: gix::Repository) -> PathBuf;

/// What `==` on two paths (`<PathBuf as PartialEq>::eq`) returns.
pub uninterp spec fn paths_equal(a: PathBuf, b: PathBuf) -> bool;

/// The variant of a `gix::discover::Error`, one kind per variant of
/// `gix::discover::upwards::Error` (wrapped in `Discover`) and one for `Open`.
pub uninterp spec fn discover_error_kind_of(e: gix::discover::Error) -> DiscoverErrorKind;

/// A repository handle is its own main worktree when its git directory and its
/// common directory are the same path; they differ for a linked worktree.
pub open spec fn is_main_worktree(repo: gix::Repository) -> bool {
    paths_equal(git_dir_of(repo), common_dir_of(repo))
}

/// `Clone` of `gix::Repository`: a new handle on the same repository. Its source
/// clones the reference store (which holds the git directory) and the common
/// directory field, so both paths are kept.
pub assume_specification [<gix::Repository as std::clone::Clone>::clone](repo: &gix::Repository) -> (r: gix::Repository)
    ensures
        git_dir_of(r) == git_dir_of(*repo),
        common_dir_of(r) == common_dir_of(*repo),
;

/// Calls `gix::discover`, which looks for a repository in `path` and then in each of
/// its parents. What comes back depends on what is on disk, so nothing is stated of it.
#[verifier::external_body]
fn discover_repo(path: &Path) -> (r: Result<gix::Repository, gix::discover::Error>) {
    gix::discover(path)
}

/// Reads which variant a `gix::discover::Error` is, one arm per variant.
#[verifier::external_body]
fn discover_error_kind(e: &gix::discover::Error) -> (k: DiscoverErrorKind)
    ensures
        k == discover_error_kind_of(*e),
{
    match e {
        gix::discover::Error::Discover(Up::CurrentDir(_)) => DiscoverErrorKind::CurrentDir,
        gix::discover::Error::Discover(Up::InvalidInput { .. }) => DiscoverErrorKind::InvalidInput,
        gix::discover::Error::Discover(Up::InaccessibleDirectory { .. }) => DiscoverErrorKind::InaccessibleDirectory,
        gix::discover::Error::Discover(Up::NoGitRepository { .. }) => DiscoverErrorKind::NoGitRepository,
        gix::discover::Error::Discover(Up::NoGitRepositoryWithinCeiling { .. }) => DiscoverErrorKind::NoGitRepositoryWithinCeiling,
        gix::discover::Error::Discover(Up::NoGitRepositoryWithinFs { .. }) => DiscoverErrorKind::NoGitRepositoryWithinFs,
        gix::discover::Error::Discover(Up::NoMatchingCeilingDir) => DiscoverErrorKind::NoMatchingCeilingDir,
        gix::discover::Error::Discover(Up::NoTrustedGitRepository { .. }) => DiscoverErrorKind::NoTrustedGitRepository,
        gix::discover::Error::Discover(Up::CheckTrust { .. }) => DiscoverErrorKind::CheckTrust,
        gix::discover::Error::Open(_) => DiscoverErrorKind::Open,
    }
}

/// Calls `Repository::git_dir()` and takes the path it returns as an owned value.
#[verifier::external_body]
fn git_dir(repo: &gix::Repository) -> (p: PathBuf)
    ensures
        p == git_dir_of(*repo),
{
    repo.git_dir().to_path_buf()
}

/// Calls `Repository::common_dir()` and takes the path it returns as an owned value.
#[verifier::external_body]
fn common_dir(repo: &gix::Repository) -> (p: PathBuf)
    ensures
        p == common_dir_of(*repo),
{
    repo.common_dir().to_path_buf()
}

/// Compares two paths with `==`.
#[verifier::external_body]
fn same_path(a: &PathBuf, b: &PathBuf) -> (r: bool)
    ensures
        r == paths_equal(*a, *b),
{
    a == b
}

/// Calls `Repository::main_repo()`, which opens the repository at the common
/// directory. It reads from disk, so nothing is stated of what it returns.
#[verifier::external_body]
fn open_main_repo(repo: &gix::Repository) -> (r: Result<gix::Repository, gix::open::Error>) {
    repo.main_repo()
}

/// Why building a [`GitRepoCtx`] failed.
#[derive(Debug)]
pub enum NewGitRepoCtxError {
    /// Probing for the repository failed for a reason other than there being none.
    DiscoverGitRepo(gix::discover::Error),
    /// The repository is a linked worktree and its main repository could not be opened.
    OpenMainRepo(gix::open::Error),
}

/// Which way a discovery failed, one kind per variant of the error gix returns.
#[derive(Debug, Clone, Copy, PartialEq, Eq)]
pub enum DiscoverErrorKind {
    CurrentDir,
    InvalidInput,
    InaccessibleDirectory,
    NoGitRepository,
    NoGitRepositoryWithinCeiling,
    NoGitRepositoryWithinFs,
    NoMatchingCeilingDir,
    NoTrustedGitRepository,
    CheckTrust,
    Open,
}

impl DiscoverErrorKind {
    /// The kinds that say no repository was found, as opposed to discovery failing.
    pub open spec fn means_no_repository(self) -> bool {
        ||| self is NoGitRepository
        ||| self is NoGitRepositoryWithinCeiling
        ||| self is NoGitRepositoryWithinFs
    }

    /// Whether this kind says that no repository was found.
    pub fn is_no_repository(&self) -> (b: bool)
        ensures
            b == self.means_no_repository(),
    {
        match self {
            DiscoverErrorKind::NoGitRepository => true,
            DiscoverErrorKind::NoGitRepositoryWithinCeiling => true,
            DiscoverErrorKind::NoGitRepositoryWithinFs => true,
            _ => false,
        }
    }
}

/// Reads a discovery error of the given kind: not being inside a repository is a
/// normal state, any other failure is kept as the error.
pub fn classify_discover_error(e: gix::discover::Error, kind: DiscoverErrorKind) -> (r: DiscoverFailure)
    ensures
        (r is NotARepository) == kind.means_no_repository(),
        !kind.means_no_repository() ==> r == DiscoverFailure::Failed(e),
{
    if kind.is_no_repository() {
        DiscoverFailure::NotARepository
    } else {
        DiscoverFailure::Failed(e)
    }
}

/// Whether `repo` is its own main worktree, by comparing its git directory with its
/// common directory.
pub fn shares_common_dir(repo: &gix::Repository) -> (r: bool)
    ensures
        r == is_main_worktree(*repo),
        r == paths_equal(git_dir_of(*repo), common_dir_of(*repo)),
{
    let g = git_dir(repo);
    let c = common_dir(repo);
    same_path(&g, &c)
}

/// A failed discovery, read the way this crate reads it: not being inside a git
/// repository is a normal state, not an error.
#[derive(Debug)]
pub enum DiscoverFailure {
    NotARepository,
    Failed(gix::discover::Error),
}

/// What follows a discovery: either the outcome is settled, or the found repository
/// is a linked worktree whose main repository must be opened next.
#[derive(Debug)]
pub enum ProbeStep {
    Done(Result<Option<GitRepoCtx>, NewGitRepoCtxError>),
    OpenMainRepo(gix::Repository),
}

/// A context handle for a particular git repository.
#[derive(Debug)]
pub struct GitRepoCtx {
    /// The repository found for the probed path.
    pub repo: gix::Repository,
    /// The main worktree's repository: `None` when it is `repo` itself, `Some` only
    /// for a linked worktree, where it holds the distinct main repository.
    main_repo: Option<gix::Repository>,
}

/// What a discovery that found nothing turns into.
pub open spec fn failure_outcome(f: DiscoverFailure) -> Result<Option<GitRepoCtx>, NewGitRepoCtxError> {
    match f {
        DiscoverFailure::NotARepository => Ok(None),
        DiscoverFailure::Failed(e) => Err(NewGitRepoCtxError::DiscoverGitRepo(e)),
    }
}

impl GitRepoCtx {
    /// The repository that was found.
    pub closed spec fn found(self) -> gix::Repository {
        self.repo
    }

    /// The separately opened main repository, present only for a linked worktree.
    pub closed spec fn linked_main(self) -> Option<gix::Repository> {
        self.main_repo
    }

    /// A separate main repository is held exactly when the found repository is not
    /// its own main worktree, that is, when it is a linked worktree.
    pub open spec fn splits_by_worktree(self) -> bool {
        self.linked_main() is None <==> is_main_worktree(self.found())
    }

    /// The repository that owns the main worktree.
    pub open spec fn main_of(self) -> gix::Repository {
        match self.linked_main() {
            Some(m) => m,
            None => self.found(),
        }
    }

    /// A context for a repository that is its own main worktree.
    pub fn for_main_worktree(repo: gix::Repository) -> (r: GitRepoCtx)
        ensures
            r.found() == repo,
            r.linked_main() == None::<gix::Repository>,
    {
        GitRepoCtx { repo, main_repo: None }
    }

    /// A context for a linked worktree `repo`, given what opening its main repository gave.
    pub fn for_linked_worktree(
        repo: gix::Repository,
        opened: Result<gix::Repository, gix::open::Error>,
    ) -> (r: Result<Option<GitRepoCtx>, NewGitRepoCtxError>)
        ensures
            match opened {
                Ok(m) => r matches Ok(Some(ctx)) && ctx.found() == repo && ctx.linked_main()
                    == Some(m),
                Err(e) => r == Err::<Option<GitRepoCtx>, NewGitRepoCtxError>(
                    NewGitRepoCtxError::OpenMainRepo(e),
                ),
            },
    {
        match opened {
            Ok(m) => Ok(Some(GitRepoCtx { repo, main_repo: Some(m) })),
            Err(e) => Err(NewGitRepoCtxError::OpenMainRepo(e)),
        }
    }

    /// What a discovery that found no repository means: `Ok(None)` when there is
    /// none, the error otherwise.
    pub fn from_discover_failure(f: DiscoverFailure) -> (r: Result<Option<GitRepoCtx>, NewGitRepoCtxError>)
        ensures
            r == failure_outcome(f),
    {
        match f {
            DiscoverFailure::NotARepository => Ok(None),
            DiscoverFailure::Failed(e) => Err(NewGitRepoCtxError::DiscoverGitRepo(e)),
        }
    }

    /// Decides what follows a discovery, given its classified outcome and, for a found
    /// repository, whether it is its own main worktree: a failure is settled by
    /// [`Self::from_discover_failure`], a main worktree becomes a context without a
    /// second handle, and a linked worktree asks for its main repository to be opened.
    pub fn from_probe(found: Result<gix::Repository, DiscoverFailure>, is_main: bool) -> (r: ProbeStep)
        ensures
            match found {
                Err(f) => r == ProbeStep::Done(failure_outcome(f)),
                Ok(repo) => if is_main {
                    r matches ProbeStep::Done(Ok(Some(ctx))) && ctx.found() == repo
                        && ctx.linked_main() is None
                } else {
                    r == ProbeStep::OpenMainRepo(repo)
                },
            },
    {
        match found {
            Err(f) => ProbeStep::Done(GitRepoCtx::from_discover_failure(f)),
            Ok(repo) => if is_main {
                ProbeStep::Done(Ok(Some(GitRepoCtx::for_main_worktree(repo))))
            } else {
                ProbeStep::OpenMainRepo(repo)
            },
        }
    }

    /// Probes `path` for a git repository.
    ///
    /// Not being inside a repository gives `Ok(None)`: a discovery error is reported
    /// only when it is not one of the no-repository kinds. A found repository that is
    /// its own main worktree is not re-opened; for a linked worktree the main
    /// repository is opened as well, and a failure to open it is reported.
    ///
    /// Which repository is found, and which error discovery gives, depend on the file
    /// system and have no name here. So the first clause below only says that an
    /// `Ok(None)` comes from some no-repository error; it does not tie that error to
    /// this `path`. Likewise nothing states which repository is opened as the main
    /// one; [`Self::from_probe`] and [`Self::for_linked_worktree`] state the rest exactly.
    pub fn new(path: &Path) -> (r: Result<Option<GitRepoCtx>, NewGitRepoCtxError>)
        ensures
            r is Ok && r->Ok_0 is None ==> exists|e: gix::discover::Error| #[trigger]
                discover_error_kind_of(e).means_no_repository(),
            r matches Err(NewGitRepoCtxError::DiscoverGitRepo(e)) ==> !discover_error_kind_of(
                e,
            ).means_no_repository(),
            r matches Ok(Some(ctx)) ==> ctx.splits_by_worktree(),
            r matches Ok(Some(ctx)) ==> (ctx.linked_main() is None <==> paths_equal(
                git_dir_of(ctx.found()),
                common_dir_of(ctx.found()),
            )),
    {
        let found = match discover_repo(path) {
            Ok(repo) => Ok(repo),
            Err(e) => {
                let kind = discover_error_kind(&e);
                Err(classify_discover_error(e, kind))
            },
        };
        let is_main = match &found {
            Ok(repo) => shares_common_dir(repo),
            Err(_) => true,
        };
        match GitRepoCtx::from_probe(found, is_main) {
            ProbeStep::Done(r) => r,
            ProbeStep::OpenMainRepo(repo) => {
                let opened = open_main_repo(&repo);
                GitRepoCtx::for_linked_worktree(repo, opened)
            },
        }
    }

    /// The repository of the main worktree: for a linked worktree the separately
    /// opened main repository, otherwise [`Self::repo`] itself.
    pub fn main_repo(&self) -> (r: &gix::Repository)
        ensures
            *r == self.main_of(),
    {
        match &self.main_repo {
            Some(m) => m,
            None => &self.repo,
        }
    }
}

impl Clone for GitRepoCtx {
    /// A new context with new handles on the same repositories. The handles keep
    /// their git and common directories, so a clone holds a separate main
    /// repository exactly when the original does, and for the same reason.
    fn clone(&self) -> (r: Self)
        ensures
            git_dir_of(r.found()) == git_dir_of(self.found()),
            common_dir_of(r.found()) == common_dir_of(self.found()),
            r.linked_main() is None <==> self.linked_main() is None,
            self.linked_main() matches Some(m1) ==> (r.linked_main() matches Some(m2)
                && git_dir_of(m2) == git_dir_of(m1) && common_dir_of(m2) == common_dir_of(m1)),
            self.splits_by_worktree() ==> r.splits_by_worktree(),
    {
        let main_repo = match &self.main_repo {
            Some(m) => Some(m.clone()),
            None => None,
        };
        GitRepoCtx { repo: self.repo.clone(), main_repo }
    }
}

/// A repository that is its own main worktree is its own main repository.
pub proof fn lemma_main_worktree_is_own_main(repo: gix::Repository, ctx: GitRepoCtx)
    requires
        ctx.found() == repo,
        ctx.linked_main() is None,
    ensures
        ctx.main_of() == repo,
{
}

/// A repository is its own main worktree exactly when its git directory and its
/// common directory are equal paths; in particular a repository whose two
/// directories differ (a linked worktree) is not its own main worktree.
pub proof fn lemma_main_worktree_iff_dirs_equal(repo: gix::Repository)
    ensures
        is_main_worktree(repo) <==> paths_equal(git_dir_of(repo), common_dir_of(repo)),
        !paths_equal(git_dir_of(repo), common_dir_of(repo)) ==> !is_main_worktree(repo),
{
}

/// A context holds a separate main repository exactly when the found repository's
/// git directory differs from its common directory, and a clone of it keeps that.
pub proof fn lemma_split_follows_dirs(ctx: GitRepoCtx)
    requires
        ctx.splits_by_worktree(),
    ensures
        ctx.linked_main() is Some <==> !paths_equal(
            git_dir_of(ctx.found()),
            common_dir_of(ctx.found()),
        ),
{
}

/// In a linked worktree the main repository is the one opened for it.
pub proof fn lemma_linked_worktree_main(ctx: GitRepoCtx, main: gix::Repository)
    requires
        ctx.linked_main() == Some(main),
    ensures
        ctx.main_of() == main,
{
}

} // verus!
