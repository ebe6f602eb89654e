use guitar::scan::{
    compute_signature, hash_path, hash_tree, scan_plan, ByteOrder, Observation, PathMeta,
    PathRecord, Probe, ProbeKind,
};
use guitar::watcher::{
    watched_dirs, GitWatcher, DEFAULT_DEBOUNCE, DEFAULT_POLL_INTERVAL,
};
use std::collections::hash_map::DefaultHasher;
use std::collections::BTreeMap;
use std::hash::{Hash, Hasher};
use std::time::Duration;

const ROOT: &str = "/repo/.git";
const START: Duration = Duration::from_secs(1_000);
const DEBOUNCE: Duration = Duration::from_secs(3);

fn byte_order() -> ByteOrder {
    if 1u16.to_ne_bytes() == [1, 0] {
        ByteOrder::Little
    } else {
        ByteOrder::Big
    }
}

// A git directory held in memory: the size and modification time of each path.
struct TestDir {
    paths: BTreeMap<String, PathMeta>,
    clock: u128,
}

impl TestDir {
    fn new() -> Self {
        let mut dir = TestDir { paths: BTreeMap::new(), clock: 1_700_000_000_000_000_000 };
        dir.write("logs", "");
        dir.write("refs", "");
        dir.write("refs/heads", "");
        dir.write("HEAD", "ref: refs/heads/main\n");
        dir.write("refs/heads/main", "0000000000000000000000000000000000000000\n");
        dir
    }

    fn write(&mut self, rel: &str, contents: &str) {
        self.clock += 1;
        let meta = PathMeta { len: contents.len() as u64, modified: Some(self.clock) };
        self.paths.insert(rel.to_string(), meta);
    }

    fn remove(&mut self, rel: &str) {
        self.paths.remove(rel);
    }

    fn record(&self, rel: &str) -> PathRecord {
        PathRecord { path: format!("{ROOT}/{rel}"), meta: self.paths.get(rel).copied() }
    }

    fn scan(&self, dirs: usize) -> Vec<Observation> {
        let mut scan = Vec::new();
        for probe in scan_plan(dirs) {
            let root = self.record(probe.name);
            scan.push(match probe.kind {
                ProbeKind::File => Observation::File(root),
                ProbeKind::Tree => {
                    let below = format!("{}/", probe.name);
                    let entries = self
                        .paths
                        .keys()
                        .filter(|rel| rel.as_str() == probe.name || rel.starts_with(&below))
                        .map(|rel| self.record(rel))
                        .collect();
                    Observation::Tree { exists: root.meta.is_some(), root, entries }
                },
            });
        }
        scan
    }

    fn watcher(&self) -> GitWatcher {
        GitWatcher::new(ROOT.to_string(), ROOT.to_string(), byte_order(), &self.scan(1))
    }

    fn poll(&self, watcher: &mut GitWatcher, now: Duration) -> bool {
        let now = START + now;
        watcher.poll(now.as_nanos() as u64, &self.scan(watcher.dir_count()))
    }
}

#[test]
fn quiet_directory_never_asks_for_reload() {
    let dir = TestDir::new();
    let mut watcher = dir.watcher();

    for seconds in 0..20 {
        assert!(!dir.poll(&mut watcher, Duration::from_secs(seconds)));
    }
}

#[test]
fn first_change_triggers_reload_immediately() {
    let mut dir = TestDir::new();
    let mut watcher = dir.watcher();

    // Baseline scan, nothing pending yet.
    assert!(!dir.poll(&mut watcher, Duration::ZERO));

    dir.write("refs/heads/main", "1111111111111111111111111111111111111111\n");

    // The first observed change fires on the leading edge, without waiting.
    assert!(dir.poll(&mut watcher, Duration::from_millis(600)));

    // A lone change owes no trailing reload; the quiet window stays silent.
    assert!(!dir.poll(&mut watcher, Duration::from_secs(2)));
    assert!(!dir.poll(&mut watcher, Duration::from_millis(600) + DEBOUNCE));
    assert!(!dir.poll(&mut watcher, Duration::from_secs(30)));
}

#[test]
fn burst_fires_once_up_front_and_once_after_it_settles() {
    let mut dir = TestDir::new();
    let mut watcher = dir.watcher();
    assert!(!dir.poll(&mut watcher, Duration::ZERO));

    // First write of the burst reloads straight away.
    dir.write("refs/heads/main", &format!("{:040}\n", 1));
    assert!(dir.poll(&mut watcher, Duration::from_secs(1)));

    // More writes every second: collapsed, each one sliding the quiet window.
    for seconds in 2..=5 {
        dir.write("refs/heads/main", &format!("{seconds:040}\n"));
        assert!(!dir.poll(&mut watcher, Duration::from_secs(seconds)));
    }

    // Still within the quiet window after the last change.
    assert!(!dir.poll(&mut watcher, Duration::from_secs(5) + Duration::from_secs(2)));
    // Quiet for the full debounce: one trailing reload for the settled state.
    assert!(dir.poll(&mut watcher, Duration::from_secs(5) + DEBOUNCE));
    // ...and only one.
    assert!(!dir.poll(&mut watcher, Duration::from_secs(60)));
}

#[test]
fn new_and_removed_paths_are_detected() {
    let mut dir = TestDir::new();
    let mut watcher = dir.watcher();
    assert!(!dir.poll(&mut watcher, Duration::ZERO));

    dir.write("ORIG_HEAD", "2222222222222222222222222222222222222222\n");
    assert!(dir.poll(&mut watcher, Duration::from_secs(1)));

    // Quiet window closes with nothing owed.
    assert!(!dir.poll(&mut watcher, Duration::from_secs(1) + DEBOUNCE));

    dir.remove("ORIG_HEAD");
    assert!(dir.poll(&mut watcher, Duration::from_secs(10)));
}

#[test]
fn scans_are_throttled_between_polls() {
    let mut dir = TestDir::new();
    let mut watcher = dir.watcher();
    assert!(!dir.poll(&mut watcher, Duration::ZERO));

    dir.write("refs/heads/main", "3333333333333333333333333333333333333333\n");

    // A poll inside the poll interval does not re-scan, so the change is not seen yet.
    assert!(!dir.poll(&mut watcher, Duration::from_millis(100)));
    // The first scan that observes the change fires immediately.
    assert!(dir.poll(&mut watcher, Duration::from_secs(1)));
}

#[test]
fn scan_is_due_at_first_and_then_once_per_interval() {
    let dir = TestDir::new();
    let mut watcher = dir.watcher();
    let start = START.as_nanos() as u64;
    assert!(watcher.scan_due(0));
    assert!(watcher.scan_due(start));
    assert!(!dir.poll(&mut watcher, Duration::ZERO));
    assert!(!watcher.scan_due(start));
    assert!(!watcher.scan_due(start + DEFAULT_POLL_INTERVAL - 1));
    assert!(watcher.scan_due(start + DEFAULT_POLL_INTERVAL));
    // A clock that runs backwards counts as no time having passed.
    assert!(!watcher.scan_due(start - 1));
}

#[test]
fn default_times_are_three_seconds_and_half_a_second() {
    assert_eq!(DEFAULT_DEBOUNCE, 3_000_000_000);
    assert_eq!(DEFAULT_POLL_INTERVAL, 500_000_000);
}

#[test]
fn burst_over_is_noticed_between_scans() {
    let mut dir = TestDir::new();
    let mut watcher = dir.watcher();
    assert!(!dir.poll(&mut watcher, Duration::ZERO));
    dir.write("HEAD", "a");
    assert!(dir.poll(&mut watcher, Duration::from_secs(1)));
    dir.write("HEAD", "b");
    assert!(!dir.poll(&mut watcher, Duration::from_secs(2)));
    // This poll scans; the next comes too soon to, but the debounce time is over.
    assert!(!dir.poll(&mut watcher, Duration::from_millis(4_900)));
    assert!(dir.poll(&mut watcher, Duration::from_secs(5)));
    assert!(!dir.poll(&mut watcher, Duration::from_secs(9)));
}

#[test]
fn two_bursts_are_answered_one_by_one() {
    let mut dir = TestDir::new();
    let mut watcher = dir.watcher();
    let mut reloads = 0;
    let mut changes = 0;
    for half_seconds in 0..60 {
        // Two changes from second 5 on, one at second 20.
        if half_seconds == 10 || half_seconds == 12 || half_seconds == 40 {
            dir.write("index", &format!("{half_seconds}"));
            changes += 1;
        }
        if dir.poll(&mut watcher, Duration::from_millis(500 * half_seconds)) {
            reloads += 1;
        }
    }
    assert_eq!(changes, 3);
    assert_eq!(reloads, 3);
}

#[test]
fn change_that_is_undone_within_a_burst_is_still_answered() {
    let mut dir = TestDir::new();
    let mut watcher = dir.watcher();
    assert!(!dir.poll(&mut watcher, Duration::ZERO));
    dir.write("MERGE_HEAD", "x");
    assert!(dir.poll(&mut watcher, Duration::from_secs(1)));
    dir.remove("MERGE_HEAD");
    assert!(!dir.poll(&mut watcher, Duration::from_secs(2)));
    assert!(dir.poll(&mut watcher, Duration::from_secs(5)));
}

#[test]
fn same_directory_is_watched_once() {
    let once = watched_dirs("/repo/.git/".to_string(), "/repo//./.git".to_string());
    assert_eq!(once, vec!["/repo/.git/".to_string()]);
    let scan = TestDir::new().scan(1);
    let common = "/repo/.git".to_string();
    let watcher = GitWatcher::new("/repo/.git/".to_string(), common, byte_order(), &scan);
    assert_eq!(watcher.dir_count(), 1);
}

#[test]
fn linked_worktree_watches_both_directories() {
    let own = "/repo/.git/worktrees/fix".to_string();
    let common = "/repo/.git".to_string();
    assert_eq!(watched_dirs(own.clone(), common.clone()), vec![own.clone(), common.clone()]);
    let watcher = GitWatcher::new(own, common, byte_order(), &Vec::new());
    assert_eq!(watcher.dir_count(), 2);
}

#[test]
fn scan_plan_lists_files_and_then_trees() {
    let names: Vec<&str> = scan_plan(1).iter().map(|probe| probe.name).collect();
    assert_eq!(
        names,
        vec![
            "HEAD",
            "index",
            "packed-refs",
            "ORIG_HEAD",
            "MERGE_HEAD",
            "FETCH_HEAD",
            "CHERRY_PICK_HEAD",
            "REVERT_HEAD",
            "REBASE_HEAD",
            "BISECT_LOG",
            "COMMIT_EDITMSG",
            "refs",
            "logs",
            "worktrees",
        ]
    );
}

#[test]
fn scan_plan_goes_directory_by_directory() {
    assert_eq!(scan_plan(0), Vec::new());
    let plan = scan_plan(2);
    assert_eq!(plan.len(), 28);
    assert_eq!(plan[0], Probe { dir: 0, kind: ProbeKind::File, name: "HEAD" });
    assert_eq!(plan[10], Probe { dir: 0, kind: ProbeKind::File, name: "COMMIT_EDITMSG" });
    assert_eq!(plan[11], Probe { dir: 0, kind: ProbeKind::Tree, name: "refs" });
    assert_eq!(plan[13], Probe { dir: 0, kind: ProbeKind::Tree, name: "worktrees" });
    assert_eq!(plan[14], Probe { dir: 1, kind: ProbeKind::File, name: "HEAD" });
    assert_eq!(plan[27], Probe { dir: 1, kind: ProbeKind::Tree, name: "worktrees" });
}

fn signature(scan: &Vec<Observation>) -> u64 {
    compute_signature(byte_order(), scan)
}

fn file(path: &str, meta: Option<PathMeta>) -> Observation {
    Observation::File(PathRecord { path: path.to_string(), meta })
}

#[test]
fn signature_depends_on_everything_that_is_recorded() {
    let meta = PathMeta { len: 3, modified: Some(7) };
    let scans = vec![
        vec![],
        vec![file("a", None)],
        vec![file("a", Some(meta))],
        vec![file("b", Some(meta))],
        vec![file("a", Some(PathMeta { len: 4, ..meta }))],
        vec![file("a", Some(PathMeta { modified: Some(8), ..meta }))],
        vec![file("a", Some(PathMeta { modified: None, ..meta }))],
        vec![file("a", Some(meta)), file("a", Some(meta))],
        vec![file("a", None), file("b", None)],
        vec![file("b", None), file("a", None)],
    ];
    for (i, one) in scans.iter().enumerate() {
        assert_eq!(signature(one), signature(one));
        for other in &scans[i + 1..] {
            assert_ne!(signature(one), signature(other));
        }
    }
}

#[test]
fn absent_path_adds_to_the_hash_and_differs_from_a_present_one() {
    let hashed = |meta: Option<PathMeta>| {
        let mut hasher = DefaultHasher::new();
        hash_path(&mut hasher, byte_order(), &PathRecord { path: "ORIG_HEAD".to_string(), meta });
        hasher.finish()
    };
    assert_ne!(hashed(None), DefaultHasher::new().finish());
    for len in [0, 41, u64::MAX] {
        for modified in [None, Some(0), Some(u128::MAX)] {
            assert_ne!(hashed(None), hashed(Some(PathMeta { len, modified })));
        }
    }
}

#[test]
fn tree_adds_what_its_paths_add() {
    let record = |path: &str| PathRecord { path: path.to_string(), meta: None };
    let mut by_tree = DefaultHasher::new();
    hash_tree(&mut by_tree, byte_order(), &record("r"), true, &vec![record("r"), record("r/x")]);
    let mut by_path = DefaultHasher::new();
    hash_path(&mut by_path, byte_order(), &record("r"));
    hash_path(&mut by_path, byte_order(), &record("r/x"));
    assert_eq!(by_tree.finish(), by_path.finish());
    let mut missing = DefaultHasher::new();
    hash_tree(&mut missing, byte_order(), &record("r"), false, &vec![record("r/x")]);
    let mut root = DefaultHasher::new();
    hash_path(&mut root, byte_order(), &record("r"));
    assert_eq!(missing.finish(), root.finish());
}

#[test]
fn missing_tree_counts_as_its_root() {
    let root = || PathRecord { path: "r".to_string(), meta: None };
    let entries = || vec![PathRecord { path: "r/x".to_string(), meta: None }];
    let gone = vec![Observation::Tree { root: root(), exists: false, entries: entries() }];
    assert_eq!(signature(&gone), signature(&vec![Observation::File(root())]));
    let there = vec![Observation::Tree { root: root(), exists: true, entries: entries() }];
    assert_eq!(signature(&there), signature(&vec![file("r/x", None)]));
    let empty = vec![Observation::Tree { root: root(), exists: true, entries: Vec::new() }];
    assert_eq!(signature(&empty), signature(&Vec::new()));
}

#[test]
fn signature_is_the_one_of_the_standard_hasher() {
    let mut hasher = DefaultHasher::new();
    "refs/heads/main".hash(&mut hasher);
    41u64.hash(&mut hasher);
    1_700_000_000_123_456_789u128.hash(&mut hasher);
    "HEAD".hash(&mut hasher);
    u8::MAX.hash(&mut hasher);
    let scan = vec![
        file(
            "refs/heads/main",
            Some(PathMeta { len: 41, modified: Some(1_700_000_000_123_456_789) }),
        ),
        file("HEAD", None),
    ];
    assert_eq!(signature(&scan), hasher.finish());
}

#[test]
fn numbers_are_hashed_in_the_given_byte_order() {
    let meta = Some(PathMeta { len: 0x0102, modified: Some(0x0304) });
    let scan = vec![file("a", meta)];
    let mut little = DefaultHasher::new();
    "a".hash(&mut little);
    little.write(&0x0102u64.to_le_bytes());
    little.write(&0x0304u128.to_le_bytes());
    assert_eq!(compute_signature(ByteOrder::Little, &scan), little.finish());
    let mut big = DefaultHasher::new();
    "a".hash(&mut big);
    big.write(&0x0102u64.to_be_bytes());
    big.write(&0x0304u128.to_be_bytes());
    assert_eq!(compute_signature(ByteOrder::Big, &scan), big.finish());
    assert_ne!(little.finish(), big.finish());
}
