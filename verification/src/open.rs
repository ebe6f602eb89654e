//! How a repository is opened, given what the environment says.
use vstd::prelude::*;

verus! {

/// The variable that names the git directory.
pub const GIT_DIR: &'static str = "GIT_DIR";

/// The variable that names the work tree.
pub const GIT_WORK_TREE: &'static str = "GIT_WORK_TREE";

/// Which of the variables that point git at a repository away from the usual
/// `<worktree>/.git` are set.
#[derive(Clone, Copy, Debug, PartialEq, Eq, Structural)]
pub struct GitEnv {
    /// [`GIT_DIR`] is set.
    pub git_dir: bool,
    /// [`GIT_WORK_TREE`] is set.
    pub work_tree: bool,
}

/// The ways to open a repository. `P` is the type of paths.
#[derive(Debug, PartialEq)]
pub enum OpenMode<P> {
    /// Open the repository that `GIT_DIR` names.
    FromEnv,
    /// Find the git directory by searching upwards from the path, then apply the
    /// work tree and the related overrides of the environment.
    DiscoverThenEnv(P),
    /// Open the repository at the path itself.
    Path(P),
}

/// Whether the environment points git at a specific repository or work tree.
pub fn git_env_active(env: GitEnv) -> (active: bool)
    ensures
        active == (env.git_dir || env.work_tree),
{
    env.git_dir || env.work_tree
}

/// How to open the repository at `path`: `GIT_DIR` wins over everything,
/// `GIT_WORK_TREE` alone leaves the git directory to be discovered, and without
/// either the path is taken as it is.
pub fn open_repo<P>(path: P, env: GitEnv) -> (mode: OpenMode<P>)
    ensures
        mode == (if env.git_dir {
            OpenMode::FromEnv
        } else if env.work_tree {
            OpenMode::DiscoverThenEnv(path)
        } else {
            OpenMode::Path(path)
        }),
{
    if env.git_dir {
        return OpenMode::FromEnv;
    }
    if git_env_active(env) {
        return OpenMode::DiscoverThenEnv(path);
    }
    OpenMode::Path(path)
}

} // verus!
