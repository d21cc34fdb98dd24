use git_status::fingerprint::git_status_fingerprint;
use git_status::path::{GitFile, GitPath, PathComponent};
use git_status::reads::{Answer, ProcessOutput, Progress, Reads, Request};
use git_status::status::{
    git_status_cache_key, git_status_cache_key_for_space, git_status_snapshot_for_cwd,
    git_status_snapshot_for_cwd_with_demand, GitStatusRefreshDemand, RETRY_NANOS,
};
use git_status::types::{
    ConfigCtx, FileDep, GitHeadIdentity, GitSpaceMetadata, GitStatusCacheEntry,
    GitStatusFingerprint, GitUpstreamIdentity, GitWorktreeInfo, Moment, UpstreamConfig,
    WorkspaceGitStatusSnapshot,
};
use std::collections::BTreeMap;

type Refreshed = (WorkspaceGitStatusSnapshot, Option<GitStatusCacheEntry>);

/// An absolute path with plain separators.
fn path_of(bytes: &[u8]) -> GitPath {
    let mut components = vec![PathComponent::RootDir];
    for name in bytes.split(|b| *b == b'/').filter(|name| !name.is_empty()) {
        components.push(PathComponent::Normal(name.to_vec()));
    }
    GitPath { spelling: bytes.to_vec(), components }
}

fn path(text: &str) -> GitPath {
    path_of(text.as_bytes())
}

fn joined(dir: &GitPath, name: &str) -> GitPath {
    let mut bytes = dir.spelling.clone();
    bytes.push(b'/');
    bytes.extend_from_slice(name.as_bytes());
    path_of(&bytes)
}

fn file(file: &GitFile) -> GitPath {
    joined(&file.dir, &file.name)
}

/// A little world of files, a clock and a Git, which answers questions and notes them down.
struct World {
    files: BTreeMap<Vec<u8>, String>,
    now: u64,
    reftable_refs: Option<BTreeMap<String, String>>,
    symbolic_head: Option<String>,
    status: Option<ProcessOutput>,
    questions: Vec<Request>,
}

impl World {
    fn new() -> World {
        World {
            files: BTreeMap::new(),
            now: 1_000_000_000,
            reftable_refs: None,
            symbolic_head: None,
            status: Some(ProcessOutput { success: true, stdout: Vec::new() }),
            questions: Vec::new(),
        }
    }

    fn write(&mut self, name: &str, text: &str) {
        self.files.insert(name.as_bytes().to_vec(), text.to_string());
    }

    fn tracked_repo_at(&mut self, root: &[u8]) {
        let files = [
            ("/.git/HEAD", "ref: refs/heads/main\n"),
            ("/.git/refs/heads/main", "1111111111111111111111111111111111111111\n"),
            ("/.git/refs/remotes/origin/main", "1111111111111111111111111111111111111111\n"),
            ("/.git/config", "[branch \"main\"]\n\tremote = origin\n\tmerge = refs/heads/main\n"),
        ];
        for (name, text) in files {
            let mut at = root.to_vec();
            at.extend_from_slice(name.as_bytes());
            self.files.insert(at, text.to_string());
        }
    }

    fn at(&self, dir: &GitPath, name: &str) -> Option<&String> {
        self.files.get(&joined(dir, name).spelling)
    }

    fn worktree(&self, cwd: &GitPath) -> Option<GitWorktreeInfo> {
        let mut bytes = cwd.spelling.clone();
        while !bytes.is_empty() {
            let root = path_of(&bytes);
            if let Some(link) = self.at(&root, ".git") {
                let git_dir = path(link.trim().strip_prefix("gitdir: ").unwrap());
                let git_common_dir = match self.at(&git_dir, "commondir") {
                    Some(common) => path(common.trim()),
                    None => git_dir.clone(),
                };
                return Some(GitWorktreeInfo { repo_root: root, git_dir, git_common_dir });
            }
            let git_dir = joined(&root, ".git");
            if self.at(&git_dir, "HEAD").is_some() {
                let git_common_dir = git_dir.clone();
                return Some(GitWorktreeInfo { repo_root: root, git_dir, git_common_dir });
            }
            while let Some(last) = bytes.pop() {
                if last == b'/' {
                    break;
                }
            }
        }
        None
    }

    fn stamp(&self, at: &GitPath) -> FileDep {
        let stamp = match self.files.get(&at.spelling) {
            Some(text) => text.as_bytes().to_vec(),
            None => Vec::new(),
        };
        FileDep { path: at.clone(), stamp, stable: true }
    }

    fn label(&self, dir: &GitPath) -> String {
        let bytes = dir.spelling.rsplit(|b| *b == b'/').next().unwrap().to_vec();
        String::from_utf8(bytes).unwrap()
    }

    fn ref_oid(&self, common: &GitPath, full_ref: &str) -> Option<String> {
        if let Some(text) = self.at(common, full_ref) {
            return Some(text.trim().to_string());
        }
        let packed = self.at(common, "packed-refs")?;
        packed.lines().find_map(|line| {
            let (oid, name) = line.split_once(' ')?;
            if name == full_ref {
                Some(oid.to_string())
            } else {
                None
            }
        })
    }

    fn config(&self, info: &GitWorktreeInfo, branch: &str) -> ConfigCtx {
        let at = joined(&info.git_common_dir, "config");
        let text = self.files.get(&at.spelling).cloned().unwrap_or_default();
        let section = text.split_once(&format!("[branch \"{}\"]", branch)).map(|(_, rest)| rest);
        let value = |key: &str| -> Option<String> {
            section?.lines().find_map(|line| {
                line.trim().strip_prefix(&format!("{} = ", key)).map(|v| v.to_string())
            })
        };
        let upstream = match (value("remote"), value("merge")) {
            (Some(remote), Some(merge_ref)) => Some(UpstreamConfig { remote, merge_ref }),
            _ => None,
        };
        ConfigCtx { branch: branch.to_string(), upstream, deps: vec![self.stamp(&at)] }
    }

    fn answer(&self, request: &Request) -> Answer {
        match request {
            Request::Clock => Answer::Time(Moment { nanos: self.now }),
            Request::DepsCurrent { deps } => Answer::Flag(
                deps.iter().all(|dep| dep.stable && dep.stamp == self.stamp(&dep.path).stamp),
            ),
            Request::WorktreeInfo { cwd } => Answer::Worktree(self.worktree(cwd)),
            Request::RefStorageIsReftable { .. } => Answer::Flag(self.reftable_refs.is_some()),
            Request::Stamp { file: at } => Answer::Stamp(self.stamp(&file(at))),
            Request::FallbackLabel { cwd } => Answer::Label(self.label(cwd)),
            Request::AutomaticLabel { repo_root, .. } => Answer::Label(self.label(repo_root)),
            Request::SpaceMetadata { info } => {
                Answer::Space(GitSpaceMetadata { repo_root: info.repo_root.clone() })
            }
            Request::SymbolicHead { .. } => Answer::Text(self.symbolic_head.clone()),
            Request::RevParse { revision, .. } => Answer::Text(self.rev_parse(revision)),
            Request::ReadText { file: at } => {
                Answer::Text(self.files.get(&file(at).spelling).cloned())
            },
            Request::RefOid { git_common_dir, full_ref } => {
                Answer::Text(self.ref_oid(git_common_dir, full_ref))
            }
            Request::RunGit { .. } => Answer::Output(match &self.status {
                Some(output) => Some(ProcessOutput {
                    success: output.success,
                    stdout: output.stdout.clone(),
                }),
                None => None,
            }),
            Request::ReadConfig { info, branch } => Answer::Config(self.config(info, branch)),
            Request::UpstreamFullRef { config } => Answer::Text(
                config
                    .merge_ref
                    .strip_prefix("refs/heads/")
                    .map(|name| format!("refs/remotes/{}/{}", config.remote, name)),
            ),
            Request::Canonicalize { path } => Answer::Path(path.clone()),
        }
    }

    fn rev_parse(&self, revision: &str) -> Option<String> {
        let refs = self.reftable_refs.as_ref()?;
        if revision == "HEAD" {
            if let Some(full_ref) = &self.symbolic_head {
                return refs.get(full_ref).cloned();
            }
        }
        refs.get(revision).cloned()
    }

    fn drive<T>(&mut self, operation: impl Fn(&Reads) -> Progress<T>) -> T {
        let mut reads = Reads::new();
        self.questions = Vec::new();
        loop {
            match operation(&reads) {
                Progress::Done(value) => return value,
                Progress::Ask(slot, request) => {
                    let answer = self.answer(&request);
                    self.questions.push(request);
                    assert!(reads.record(slot, answer));
                    assert!(self.questions.len() <= 20);
                }
            }
        }
    }

    fn refresh(&mut self, cwd: &GitPath, cached: Option<&GitStatusCacheEntry>) -> Refreshed {
        self.drive(|reads| git_status_snapshot_for_cwd(cwd, cached, reads))
    }

    fn refresh_with(
        &mut self,
        cwd: &GitPath,
        cached: Option<&GitStatusCacheEntry>,
        demand: GitStatusRefreshDemand,
    ) -> Refreshed {
        self.drive(|reads| git_status_snapshot_for_cwd_with_demand(cwd, cached, demand, reads))
    }

    fn fingerprint(&mut self, cwd: &GitPath) -> Option<GitStatusFingerprint> {
        self.drive(|reads| git_status_fingerprint(cwd, reads))
    }

    fn cache_key(&mut self, cwd: &GitPath) -> Option<GitPath> {
        self.drive(|reads| git_status_cache_key(cwd, reads))
    }
}

#[test]
fn cache_key_from_space_preserves_non_utf8_checkout_path() {
    let mut world = World::new();
    let mut root = b"/non-utf8-key/".to_vec();
    root.extend_from_slice(&[b'r', b'e', b'p', b'o', 0x80]);
    world.tracked_repo_at(&root);
    let info = world.worktree(&path_of(&root)).expect("Git metadata");
    let space = GitSpaceMetadata { repo_root: info.repo_root };

    let key = world.drive(|reads| git_status_cache_key_for_space(&space, reads));

    assert_eq!(key.spelling, root);
}

#[test]
fn git_status_cache_key_ignores_invalid_git_marker() {
    let mut world = World::new();
    world.write("/invalid-git-root/.git/description", "");
    let cwd = path("/invalid-git-root/workspace");

    assert_eq!(world.cache_key(&cwd), None);
}

#[test]
fn non_git_refresh_reuses_cached_miss_without_rechecking_filesystem() {
    let mut world = World::new();
    let cwd = path("/cached-miss/deep/nested");

    let (initial, cache_entry) = world.refresh(&cwd, None);
    let cache_entry = cache_entry.expect("non-Git result should be cached");
    assert_eq!(initial.auto_label, "nested");
    assert_eq!(cache_entry.retry_after, Some(Moment { nanos: 1_000_000_000 + RETRY_NANOS }));

    world.now += RETRY_NANOS - 1;
    let (cached, update) = world.refresh(&cwd, Some(&cache_entry));

    assert_eq!(cached, initial);
    assert_eq!(update, Some(cache_entry));
    assert_eq!(world.questions, vec![Request::Clock]);
}

#[test]
fn expired_non_git_cache_detects_repository_created_in_place() {
    let mut world = World::new();
    let root = path("/expired-miss");
    let (_, cache_entry) = world.refresh(&root, None);
    let mut cache_entry = cache_entry.expect("non-Git result should be cached");
    cache_entry.retry_after = Some(Moment { nanos: world.now - 1 });
    world.tracked_repo_at(&root.spelling);

    let (snapshot, update) = world.refresh(&root, Some(&cache_entry));

    assert_eq!(snapshot.branch.as_deref(), Some("main"));
    assert!(update.is_some_and(|entry| entry.fingerprint.is_some()));
}

#[test]
fn cached_repo_identity_clears_when_head_disappears() {
    let mut world = World::new();
    let root = path("/missing-head");
    world.tracked_repo_at(&root.spelling);
    let (_, cached) = world.refresh(&root, None);
    world.files.remove(b"/missing-head/.git/HEAD".as_slice());

    let (snapshot, _) = world.refresh(&root, cached.as_ref());

    assert_eq!(snapshot.space, None);
}

#[test]
fn branch_only_refresh_skips_dirty_work() {
    let mut world = World::new();
    let root = path("/branch-only");
    world.tracked_repo_at(&root.spelling);

    let (snapshot, update) = world.refresh_with(
        &root,
        None,
        GitStatusRefreshDemand { branch: true, dirty: false },
    );

    assert_eq!(snapshot.branch.as_deref(), Some("main"));
    assert_eq!(snapshot.dirty, None);
    assert!(update.is_some_and(|entry| entry.fingerprint.is_some()));
    assert!(!world.questions.iter().any(|q| matches!(q, Request::RunGit { .. })));
}

#[test]
fn dirty_only_refresh_skips_branch_work() {
    let mut world = World::new();
    let root = path("/dirty-only");
    world.tracked_repo_at(&root.spelling);

    let (snapshot, _) = world.refresh_with(
        &root,
        None,
        GitStatusRefreshDemand { branch: false, dirty: true },
    );

    assert_eq!(snapshot.branch, None);
    assert_eq!(snapshot.dirty, Some(0));
}

#[test]
fn dirty_is_recomputed_even_when_the_cached_fingerprint_matches() {
    let mut world = World::new();
    let root = path("/dirty-recompute");
    world.tracked_repo_at(&root.spelling);

    let (_, cached) = world.refresh(&root, None);
    let cached = cached.expect("tracked repo yields a cache entry");
    assert!(cached.fingerprint.is_some());
    let stale = GitStatusCacheEntry {
        snapshot: WorkspaceGitStatusSnapshot { dirty: Some(999), ..cached.snapshot.clone() },
        ..cached
    };
    world.status =
        Some(ProcessOutput { success: true, stdout: b"?? untracked.txt\n".to_vec() });

    let (snapshot, _) = world.refresh(&root, Some(&stale));

    assert_eq!(snapshot.dirty, Some(1));
}

#[test]
fn git_status_updates_branch_when_head_switches_at_same_oid() {
    let mut world = World::new();
    let root = path("/branch-switch");
    world.tracked_repo_at(&root.spelling);
    let fingerprint = world.fingerprint(&root).unwrap();
    let cached = GitStatusCacheEntry {
        fingerprint: Some(fingerprint),
        retry_after: None,
        snapshot: WorkspaceGitStatusSnapshot {
            auto_label: "repo".into(),
            branch: Some("main".into()),
            space: Some(GitSpaceMetadata { repo_root: root.clone() }),
            dirty: None,
        },
    };
    world.write("/branch-switch/.git/HEAD", "ref: refs/heads/feature\n");
    world.write(
        "/branch-switch/.git/refs/heads/feature",
        "1111111111111111111111111111111111111111\n",
    );
    world.write(
        "/branch-switch/.git/config",
        "[branch \"feature\"]\n\tremote = origin\n\tmerge = refs/heads/main\n",
    );

    let (snapshot, _) = world.refresh(&root, Some(&cached));

    assert_eq!(snapshot.branch.as_deref(), Some("feature"));
}

#[test]
fn git_status_fingerprint_reads_packed_refs() {
    let mut world = World::new();
    let root = path("/packed-refs");
    world.tracked_repo_at(&root.spelling);
    world.files.remove(b"/packed-refs/.git/refs/remotes/origin/main".as_slice());
    world.write(
        "/packed-refs/.git/packed-refs",
        "# pack-refs with: peeled fully-peeled sorted\n2222222222222222222222222222222222222222 refs/remotes/origin/main\n",
    );

    let fingerprint = world.fingerprint(&root).unwrap();

    assert_eq!(
        fingerprint.upstream.unwrap().oid.as_deref(),
        Some("2222222222222222222222222222222222222222")
    );
}

#[test]
fn linked_worktree_refresh_keeps_checkout_name_as_auto_label() {
    let mut world = World::new();
    world.tracked_repo_at(b"/linked-refresh-label/repo");
    world.write(
        "/linked-refresh-label/checkout/.git",
        "gitdir: /linked-refresh-label/repo/.git/worktrees/checkout\n",
    );
    world.write(
        "/linked-refresh-label/repo/.git/worktrees/checkout/HEAD",
        "ref: refs/heads/linked\n",
    );
    world.write(
        "/linked-refresh-label/repo/.git/worktrees/checkout/commondir",
        "/linked-refresh-label/repo/.git\n",
    );
    let checkout = path("/linked-refresh-label/checkout");

    let (snapshot, _) = world.refresh(&checkout, None);

    assert_eq!(snapshot.auto_label, "checkout");
    assert_eq!(snapshot.branch.as_deref(), Some("linked"));
    let stamped = world.questions.iter().filter(|q| matches!(q, Request::Stamp { .. })).count();
    assert_eq!(stamped, 5);
}

#[test]
fn git_status_cache_key_is_per_linked_worktree_checkout() {
    let mut world = World::new();
    for name in ["one", "two"] {
        world.write(
            &format!("/linked-worktree-keys/{}/.git", name),
            &format!("gitdir: /linked-worktree-keys/repo/.git/worktrees/{}\n", name),
        );
        world.write(
            &format!("/linked-worktree-keys/repo/.git/worktrees/{}/HEAD", name),
            &format!("ref: refs/heads/{}\n", name),
        );
    }

    let one = world.cache_key(&path("/linked-worktree-keys/one"));
    let two = world.cache_key(&path("/linked-worktree-keys/two"));

    assert!(one.is_some());
    assert_ne!(one, two);
}

#[test]
fn git_status_fingerprint_reads_reftable_branch_identity() {
    let mut world = World::new();
    let root = path("/reftable-fingerprint");
    world.write("/reftable-fingerprint/.git/HEAD", "ref: refs/heads/.invalid\n");
    let mut refs = BTreeMap::new();
    refs.insert(
        "refs/heads/main".to_string(),
        "3333333333333333333333333333333333333333".to_string(),
    );
    world.reftable_refs = Some(refs);
    world.symbolic_head = Some("refs/heads/main".to_string());

    let fingerprint = world.fingerprint(&root).unwrap();

    assert_eq!(
        fingerprint.head,
        GitHeadIdentity::Branch {
            full_ref: "refs/heads/main".into(),
            short_name: "main".into(),
            oid: world.rev_parse("HEAD"),
        }
    );
}

#[test]
fn git_status_tracks_branch_across_commits() {
    let mut world = World::new();
    let repo = path("/head-moves/repo");
    world.tracked_repo_at(&repo.spelling);

    let (initial, cache_entry) = world.refresh(&repo, None);
    assert_eq!(initial.branch.as_deref(), Some("main"));
    world.write(
        "/head-moves/repo/.git/refs/heads/main",
        "4444444444444444444444444444444444444444\n",
    );

    let (updated, entry) = world.refresh(&repo, cache_entry.as_ref());

    assert_eq!(updated.branch.as_deref(), Some("main"));
    assert_eq!(
        entry.unwrap().fingerprint.unwrap().head,
        GitHeadIdentity::Branch {
            full_ref: "refs/heads/main".into(),
            short_name: "main".into(),
            oid: Some("4444444444444444444444444444444444444444".into()),
        }
    );
}

#[test]
fn unchanged_files_spare_discovery() {
    let mut world = World::new();
    let root = path("/warm");
    world.tracked_repo_at(&root.spelling);
    let (first, cached) = world.refresh(&root, None);
    assert_eq!(world.questions.len(), 14);

    let (second, again) = world.refresh(&root, cached.as_ref());

    assert_eq!(second, first);
    assert_eq!(again, cached);
    assert_eq!(world.questions.len(), 6);
    assert!(matches!(world.questions[0], Request::DepsCurrent { .. }));
    assert!(!world.questions.iter().any(|q| matches!(
        q,
        Request::WorktreeInfo { .. } | Request::Stamp { .. } | Request::RefStorageIsReftable { .. }
    )));
}

#[test]
fn a_miss_holds_until_its_deadline_and_not_at_it() {
    let mut world = World::new();
    let cwd = path("/plain");
    let (_, entry) = world.refresh(&cwd, None);
    world.now += RETRY_NANOS;

    let (_, renewed) = world.refresh(&cwd, entry.as_ref());

    assert!(world.questions.len() > 1);
    assert_eq!(renewed.unwrap().retry_after, Some(Moment { nanos: world.now + RETRY_NANOS }));
}

#[test]
fn refresh_leaves_no_entry_when_head_names_no_branch() {
    let mut world = World::new();
    let root = path("/tagged");
    world.tracked_repo_at(&root.spelling);
    world.write("/tagged/.git/HEAD", "ref: refs/tags/v1\n");

    let (snapshot, entry) = world.refresh(&root, None);

    assert_eq!(entry, None);
    assert_eq!(snapshot.branch, None);
    assert_eq!(snapshot.dirty, Some(0));
    assert_eq!(snapshot.space, Some(GitSpaceMetadata { repo_root: root }));
}

#[test]
fn refresh_entry_holds_its_snapshot_and_no_upstream() {
    let mut world = World::new();
    let root = path("/tracked");
    world.tracked_repo_at(&root.spelling);

    let (snapshot, entry) = world.refresh(&root, None);
    let entry = entry.unwrap();

    assert_eq!(entry.snapshot, snapshot);
    assert_eq!(entry.retry_after, None);
    assert_eq!(entry.fingerprint.unwrap().upstream, None);
    assert!(!world.questions.iter().any(|q| matches!(
        q,
        Request::ReadConfig { .. } | Request::UpstreamFullRef { .. }
    )));
}

#[test]
fn fingerprint_names_the_upstream_in_full() {
    let mut world = World::new();
    let root = path("/upstream");
    world.tracked_repo_at(&root.spelling);

    let fingerprint = world.fingerprint(&root).unwrap();

    assert_eq!(fingerprint.branch_name(), Some("main"));
    assert_eq!(
        fingerprint.upstream,
        Some(GitUpstreamIdentity {
            remote: "origin".into(),
            merge_ref: "refs/heads/main".into(),
            full_ref: "refs/remotes/origin/main".into(),
            oid: Some("1111111111111111111111111111111111111111".into()),
        })
    );
    assert_eq!(fingerprint.repository_context.config.unwrap().branch, "main");
}

#[test]
fn fingerprint_outside_a_repository_is_missing() {
    let mut world = World::new();

    assert_eq!(world.fingerprint(&path("/nowhere")), None);
    assert_eq!(world.questions, vec![Request::WorktreeInfo { cwd: path("/nowhere") }]);
}

#[test]
fn detached_head_through_git_and_through_its_file() {
    let oid = "5555555555555555555555555555555555555555";
    let mut world = World::new();
    let root = path("/detached");
    world.tracked_repo_at(&root.spelling);
    world.write("/detached/.git/HEAD", &format!("{}\n", oid));
    let from_file = world.fingerprint(&root).unwrap();
    let mut refs = BTreeMap::new();
    refs.insert("HEAD".to_string(), oid.to_string());
    world.reftable_refs = Some(refs);
    let from_git = world.fingerprint(&root).unwrap();

    assert_eq!(from_file.head, GitHeadIdentity::Detached { oid: oid.into() });
    assert_eq!(from_git.head, from_file.head);
    assert_eq!(from_file.branch_name(), None);
    assert_eq!(from_file.upstream, None);
}

#[test]
fn both_ways_to_head_give_the_same_branch() {
    let oid = "1111111111111111111111111111111111111111";
    let mut world = World::new();
    let root = path("/both");
    world.tracked_repo_at(&root.spelling);
    let from_files = world.fingerprint(&root).unwrap();
    let mut refs = BTreeMap::new();
    refs.insert("refs/heads/main".to_string(), oid.to_string());
    refs.insert("refs/remotes/origin/main".to_string(), oid.to_string());
    world.reftable_refs = Some(refs);
    world.symbolic_head = Some("refs/heads/main".to_string());
    let from_git = world.fingerprint(&root).unwrap();

    assert_eq!(from_git.head, from_files.head);
    assert_eq!(from_git.upstream, from_files.upstream);
}

#[test]
fn failed_git_status_shows_no_count() {
    let mut world = World::new();
    let root = path("/failing");
    world.tracked_repo_at(&root.spelling);
    world.status = Some(ProcessOutput { success: false, stdout: b" M a\n".to_vec() });
    assert_eq!(world.refresh(&root, None).0.dirty, None);
    world.status = None;
    assert_eq!(world.refresh(&root, None).0.dirty, None);
    world.status = Some(ProcessOutput { success: true, stdout: b" M a\n?? b\n".to_vec() });
    assert_eq!(world.refresh(&root, None).0.dirty, Some(2));

    let asked: Vec<&Request> =
        world.questions.iter().filter(|q| matches!(q, Request::RunGit { .. })).collect();
    assert_eq!(
        asked,
        vec![&Request::RunGit {
            dir: root.clone(),
            args: vec!["--no-optional-locks".into(), "status".into(), "--porcelain".into()],
        }]
    );
}

#[test]
fn cache_keys_of_directory_and_space_agree() {
    let mut world = World::new();
    world.tracked_repo_at(b"/keys/repo");
    let space = GitSpaceMetadata { repo_root: path("/keys/repo") };

    let of_directory = world.cache_key(&path("/keys/repo/src/deep")).unwrap();
    let of_space = world.drive(|reads| git_status_cache_key_for_space(&space, reads));

    assert_eq!(of_directory, of_space);
    assert_eq!(of_space.spelling, b"/keys/repo".to_vec());
}

#[test]
fn branch_demand_changes_only_the_branch() {
    let mut world = World::new();
    let root = path("/demand");
    world.tracked_repo_at(&root.spelling);
    let (with, _) =
        world.refresh_with(&root, None, GitStatusRefreshDemand { branch: true, dirty: true });
    let asked = std::mem::take(&mut world.questions);
    let (without, entry) =
        world.refresh_with(&root, None, GitStatusRefreshDemand { branch: false, dirty: true });

    assert_eq!(world.questions, asked);
    assert_eq!(without, WorkspaceGitStatusSnapshot { branch: None, ..with });
    assert!(entry.is_some_and(|entry| entry.fingerprint.is_some()));
}

#[test]
fn changed_files_forget_the_cached_context() {
    let mut world = World::new();
    let root = path("/changed");
    world.tracked_repo_at(&root.spelling);
    let (_, cached) = world.refresh(&root, None);
    world.write("/changed/.git/config", "");
    let fresh = world.refresh(&root, None);
    let asked = std::mem::take(&mut world.questions);

    assert_eq!(world.refresh(&root, cached.as_ref()), fresh);
    assert!(matches!(world.questions[0], Request::DepsCurrent { .. }));
    assert_eq!(world.questions[1..], asked[..]);
}

#[test]
fn dirty_demand_changes_only_the_count() {
    let mut world = World::new();
    let root = path("/count");
    world.tracked_repo_at(&root.spelling);
    world.status = Some(ProcessOutput { success: true, stdout: b"?? a\n".to_vec() });
    let (with, with_entry) =
        world.refresh_with(&root, None, GitStatusRefreshDemand { branch: true, dirty: true });
    let asked = std::mem::take(&mut world.questions);
    let (without, entry) =
        world.refresh_with(&root, None, GitStatusRefreshDemand { branch: true, dirty: false });

    assert_eq!(with.dirty, Some(1));
    assert_eq!(world.questions[..], asked[..asked.len() - 1]);
    assert_eq!(without, WorkspaceGitStatusSnapshot { dirty: None, ..with });
    assert_eq!(entry.unwrap().fingerprint, with_entry.unwrap().fingerprint);
}

#[test]
fn each_file_of_a_context_is_stamped_once() {
    let mut world = World::new();
    let root = path("/stamps");
    world.tracked_repo_at(&root.spelling);

    let (_, entry) = world.refresh(&root, None);

    let context = entry.unwrap().fingerprint.unwrap().repository_context;
    let paths: Vec<GitPath> = context.deps.into_iter().map(|dep| dep.path).collect();
    assert_eq!(
        paths,
        vec![
            path("/stamps/.git"),
            path("/stamps/.git/commondir"),
            path("/stamps/.git/HEAD"),
            path("/stamps/.git/config"),
        ]
    );
}

#[test]
fn an_old_head_and_a_stray_retry_time_have_no_influence() {
    let mut world = World::new();
    let root = path("/influence");
    world.tracked_repo_at(&root.spelling);
    let (_, cached) = world.refresh(&root, None);
    let cached = cached.unwrap();
    let mut odd = cached.clone();
    odd.retry_after = Some(Moment { nanos: u64::MAX });
    odd.snapshot.dirty = Some(999);
    if let Some(fingerprint) = &mut odd.fingerprint {
        fingerprint.head = GitHeadIdentity::Detached { oid: "old".into() };
    }

    let expected = world.refresh(&root, Some(&cached));
    let refreshed = world.refresh(&root, Some(&odd));

    assert_eq!(refreshed, expected);
    assert_eq!(refreshed.1.unwrap().retry_after, None);
}
