use guitar::open::{git_env_active, open_repo, GitEnv, OpenMode, GIT_DIR, GIT_WORK_TREE};

const UNSET: GitEnv = GitEnv { git_dir: false, work_tree: false };

#[test]
fn open_repo_without_env_opens_the_given_path() {
    assert!(!git_env_active(UNSET));
    assert_eq!(open_repo("work", UNSET), OpenMode::Path("work"));
}

#[test]
fn open_repo_honors_git_dir_and_work_tree_env() {
    let env = GitEnv { git_dir: true, work_tree: true };
    assert!(git_env_active(env));
    // The path that is given is no repository, and plays no part.
    assert_eq!(open_repo("elsewhere", env), OpenMode::FromEnv);
}

#[test]
fn open_repo_honors_work_tree_env_without_git_dir() {
    // Only GIT_WORK_TREE is set; GIT_DIR is discovered from the start path.
    let env = GitEnv { work_tree: true, ..UNSET };
    assert!(git_env_active(env));
    assert_eq!(open_repo("work/src/app", env), OpenMode::DiscoverThenEnv("work/src/app"));
}

#[test]
fn git_dir_alone_is_enough() {
    let env = GitEnv { git_dir: true, ..UNSET };
    assert!(git_env_active(env));
    assert_eq!(open_repo("anywhere".to_string(), env), OpenMode::FromEnv);
}

#[test]
fn location_variables_have_the_names_git_gives_them() {
    assert_eq!(GIT_DIR, "GIT_DIR");
    assert_eq!(GIT_WORK_TREE, "GIT_WORK_TREE");
}
