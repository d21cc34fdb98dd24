use git_status::bytes::{bytes_equal, count_lines};
use git_status::context::{list_dependencies, repo_context};
use git_status::fingerprint::{fingerprint, read_upstream};
use git_status::head::{
    read_head_identity, read_head_identity_from_files, read_head_identity_from_git,
};
use git_status::path::{GitFile, GitPath, PathComponent};
use git_status::reads::{Answer, ProcessOutput, Progress, Reads, Request, Slot};
use git_status::status::{git_dirty_count, GitStatusRefreshDemand, RETRY_NANOS};
use git_status::text::{branch_name_in, parse_head, HeadTarget};
use git_status::types::{
    ConfigCtx, FileDep, GitHeadIdentity, GitWorktreeInfo, Moment, RepoContext, UpstreamConfig,
};

fn path(text: &str) -> GitPath {
    let components = std::path::Path::new(text)
        .components()
        .map(|component| match component {
            std::path::Component::Prefix(prefix) => {
                PathComponent::Prefix(prefix.as_os_str().as_encoded_bytes().to_vec())
            }
            std::path::Component::RootDir => PathComponent::RootDir,
            std::path::Component::CurDir => PathComponent::CurDir,
            std::path::Component::ParentDir => PathComponent::ParentDir,
            std::path::Component::Normal(name) => {
                PathComponent::Normal(name.as_encoded_bytes().to_vec())
            }
        })
        .collect();
    GitPath { spelling: text.as_bytes().to_vec(), components }
}

fn file(dir: &str, name: &str) -> GitFile {
    GitFile { dir: path(dir), name: name.to_string() }
}

fn plain_info() -> GitWorktreeInfo {
    GitWorktreeInfo {
        repo_root: path("/r"),
        git_dir: path("/r/.git"),
        git_common_dir: path("/r/.git"),
    }
}

fn linked_info() -> GitWorktreeInfo {
    GitWorktreeInfo {
        repo_root: path("/w"),
        git_dir: path("/r/.git/worktrees/w"),
        git_common_dir: path("/r/.git"),
    }
}

fn dep(at: &str) -> FileDep {
    FileDep { path: path(at), stamp: vec![1, 2, 3], stable: true }
}

fn context_of(info: GitWorktreeInfo, reftable: bool) -> RepoContext {
    RepoContext { info, reftable, deps: vec![dep("/r/.git")], config: None }
}

#[test]
fn demand_is_empty_only_when_nothing_is_wanted() {
    assert!(GitStatusRefreshDemand::default().is_empty());
    assert!(!GitStatusRefreshDemand { branch: true, dirty: false }.is_empty());
    assert!(!GitStatusRefreshDemand { branch: false, dirty: true }.is_empty());
    assert!(!GitStatusRefreshDemand::all().is_empty());
    assert_eq!(GitStatusRefreshDemand::all(), GitStatusRefreshDemand { branch: true, dirty: true });
}

#[test]
fn retry_time_is_thirty_seconds() {
    assert_eq!(RETRY_NANOS, 30 * 1_000_000_000);
}

#[test]
fn lines_are_counted_without_blank_ones() {
    assert_eq!(count_lines(b""), 0);
    assert_eq!(count_lines(b"\n\n"), 0);
    assert_eq!(count_lines(b" M a"), 1);
    assert_eq!(count_lines(b" M a\n"), 1);
    assert_eq!(count_lines(b" M a\n\n?? b\n"), 2);
    assert_eq!(count_lines(b"a\nb\nc"), 3);
}

#[test]
fn one_more_entry_counts_once_more() {
    let before = b" M a\n?? b\n".to_vec();
    let mut after = before.clone();
    after.extend_from_slice(b"?? c d\n");
    assert_eq!(count_lines(&after), count_lines(&before) + 1);
}

#[test]
fn byte_strings_are_compared_in_full() {
    assert!(bytes_equal(b"ab", b"ab"));
    assert!(!bytes_equal(b"ab", b"ac"));
    assert!(!bytes_equal(b"ab", b"abc"));
}

#[test]
fn nonempty_lines_are_no_more_than_bytes() {
    for text in ["", "a", "a\n", "\n\n", "a\nb\nc\n"] {
        assert!(count_lines(text.as_bytes()) <= text.len());
    }
}

#[test]
fn path_equality_agrees_with_the_standard_library() {
    let all = [
        "", ".", "./", "..", "/", "//", "/.", "a", "a/", "a//", "./a", "a/.", "a/./b", "a/b",
        "a//b", "a/b/", "/a", "//a", "/./a", "/a/b", "a/../b", "b", "./.", ".a", "a.", "/a/.b",
    ];
    for one in all {
        for other in all {
            let expected = std::path::Path::new(one) == std::path::Path::new(other);
            assert_eq!(path(one) == path(other), expected, "{:?} {:?}", one, other);
        }
    }
}

#[test]
fn components_of_different_kinds_differ() {
    let all = || {
        vec![
            PathComponent::Prefix(b"x".to_vec()),
            PathComponent::Prefix(b"y".to_vec()),
            PathComponent::RootDir,
            PathComponent::CurDir,
            PathComponent::ParentDir,
            PathComponent::Normal(b"x".to_vec()),
            PathComponent::Normal(b"y".to_vec()),
        ]
    };
    for (i, one) in all().into_iter().enumerate() {
        for (j, other) in all().into_iter().enumerate() {
            let a = GitPath { spelling: b"one".to_vec(), components: vec![one.clone()] };
            let b = GitPath { spelling: b"other".to_vec(), components: vec![other] };
            assert_eq!(a == b, i == j);
        }
    }
}

#[test]
fn names_need_not_be_text_and_spelling_is_kept() {
    let odd = GitPath {
        spelling: vec![b'/', 0x80, b'/'],
        components: vec![PathComponent::RootDir, PathComponent::Normal(vec![0x80])],
    };
    let copy = odd.clone();
    assert_eq!(copy, odd);
    assert_eq!(copy.spelling, vec![b'/', 0x80, b'/']);
    let inside = odd.file("x");
    assert_eq!(inside.dir.spelling, odd.spelling);
    assert_eq!(inside.name, "x");
}

#[test]
fn head_text_is_trimmed_and_told_apart() {
    assert_eq!(
        parse_head(" \tref: refs/heads/feature/x\r\n"),
        HeadTarget::Branch {
            full_ref: "refs/heads/feature/x".into(),
            short_name: "feature/x".into(),
        }
    );
    assert_eq!(parse_head("ref: refs/tags/v1\n"), HeadTarget::OtherRef);
    assert_eq!(parse_head("abc123\n"), HeadTarget::Commit { oid: "abc123".into() });
    assert_eq!(parse_head("\u{2003}abc\u{3000}\n"), HeadTarget::Commit { oid: "abc".into() });
    assert_eq!(parse_head("\u{200b}"), HeadTarget::Commit { oid: "\u{200b}".into() });
    assert_eq!(parse_head(" \n\t\u{a0}"), HeadTarget::Nothing);
    assert_eq!(parse_head("ref: \n"), HeadTarget::Commit { oid: "ref:".into() });
    assert_eq!(
        parse_head("ref: refs/heads/\n"),
        HeadTarget::Branch { full_ref: "refs/heads/".into(), short_name: "".into() }
    );
}

#[test]
fn white_space_is_what_unicode_says() {
    for code in 0..=0x10ffffu32 {
        if let Some(c) = char::from_u32(code) {
            let expected = match code {
                0x09..=0x0d | 0x20 | 0x85 | 0xa0 | 0x1680 | 0x2000..=0x200a => true,
                0x2028 | 0x2029 | 0x202f | 0x205f | 0x3000 => true,
                _ => false,
            };
            assert_eq!(c.is_whitespace(), expected, "{:x}", code);
            let blank = parse_head(&c.to_string()) == HeadTarget::Nothing;
            assert_eq!(blank, expected, "{:x}", code);
        }
    }
}

#[test]
fn head_text_is_trimmed_as_the_standard_library_does() {
    let texts = ["", " ", "a", " a", "a ", " a b ", "\t\n x\u{85}y \u{2029}", "\u{3000}\u{3000}", "é "];
    for text in texts {
        let expected = text.trim();
        match parse_head(text) {
            HeadTarget::Nothing => assert_eq!(expected, ""),
            HeadTarget::Commit { oid } => assert_eq!(oid, expected),
            other => panic!("{:?}", other),
        }
    }
}

#[test]
fn branch_names_are_cut_from_full_refs() {
    assert_eq!(branch_name_in("refs/heads/a/b"), Some("a/b".to_string()));
    assert_eq!(branch_name_in("refs/remotes/origin/a"), None);
    assert_eq!(branch_name_in("refs/head"), None);
}

#[test]
fn records_take_only_fitting_answers() {
    let mut reads = Reads::new();
    assert!(!reads.record(Slot::Clock, Answer::Flag(true)));
    assert_eq!(reads, Reads::new());
    assert!(reads.record(Slot::Clock, Answer::Time(Moment { nanos: 7 })));
    assert_eq!(reads.clock, Some(Moment { nanos: 7 }));
    assert!(reads.record(Slot::Stamp, Answer::Stamp(dep("/a"))));
    assert!(reads.record(Slot::Stamp, Answer::Stamp(dep("/b"))));
    assert_eq!(reads.deps, vec![dep("/a"), dep("/b")]);
    assert!(reads.record(Slot::WorktreeAgain, Answer::Worktree(Some(plain_info()))));
    assert_eq!(reads.worktree, None);
    assert_eq!(reads.worktree_again, Some(Some(plain_info())));
}

#[test]
fn dependencies_of_plain_and_linked_checkouts() {
    assert_eq!(
        list_dependencies(&plain_info()),
        vec![
            file("/r", ".git"),
            file("/r/.git", "commondir"),
            file("/r/.git", "HEAD"),
            file("/r/.git", "config"),
        ]
    );
    assert_eq!(
        list_dependencies(&linked_info()),
        vec![
            file("/w", ".git"),
            file("/r/.git/worktrees/w", "commondir"),
            file("/r/.git/worktrees/w", "HEAD"),
            file("/r/.git", "config"),
            file("/r/.git/worktrees/w", "config"),
        ]
    );
    let spelled = GitWorktreeInfo { git_common_dir: path("/r//.git/"), ..plain_info() };
    assert_eq!(list_dependencies(&spelled).len(), 4);
}

fn stamped_reads(again: Option<GitWorktreeInfo>, reftable_again: bool, current: bool) -> Reads {
    let mut reads = Reads::new();
    reads.record(Slot::Worktree, Answer::Worktree(Some(plain_info())));
    reads.record(Slot::RefStorage, Answer::Flag(false));
    for at in ["/r/.git", "/r/.git/commondir", "/r/.git/HEAD", "/r/.git/config"] {
        reads.record(Slot::Stamp, Answer::Stamp(dep(at)));
    }
    reads.record(Slot::WorktreeAgain, Answer::Worktree(again));
    reads.record(Slot::RefStorageAgain, Answer::Flag(reftable_again));
    reads.record(Slot::FreshDeps, Answer::Flag(current));
    reads
}

fn stability(reads: &Reads) -> Vec<bool> {
    match repo_context(&path("/r"), reads) {
        Progress::Done(Some(context)) => context.deps.iter().map(|dep| dep.stable).collect(),
        _ => panic!("the context should be there"),
    }
}

#[test]
fn a_disturbed_context_is_marked() {
    let calm = stamped_reads(Some(plain_info()), false, true);
    assert_eq!(stability(&calm), vec![true, true, true, true]);
    let marked = vec![false, true, true, true];
    assert_eq!(stability(&stamped_reads(Some(linked_info()), false, true)), marked);
    assert_eq!(stability(&stamped_reads(None, false, true)), marked);
    assert_eq!(stability(&stamped_reads(Some(plain_info()), true, true)), marked);
    assert_eq!(stability(&stamped_reads(Some(plain_info()), false, false)), marked);
    let spelled = GitWorktreeInfo { git_dir: path("/r/.git/"), ..plain_info() };
    assert_eq!(stability(&stamped_reads(Some(spelled), false, true)), vec![true, true, true, true]);
}

#[test]
fn a_context_stops_asking_once_something_moved() {
    let mut reads = stamped_reads(None, false, true);
    reads.reftable_again = None;
    reads.deps_current = None;
    assert!(matches!(repo_context(&path("/r"), &reads), Progress::Done(Some(_))));
    let mut reads = stamped_reads(Some(plain_info()), true, true);
    reads.deps_current = None;
    assert!(matches!(repo_context(&path("/r"), &reads), Progress::Done(Some(_))));
    let mut reads = stamped_reads(Some(plain_info()), false, true);
    reads.deps_current = None;
    assert!(matches!(
        repo_context(&path("/r"), &reads),
        Progress::Ask(Slot::FreshDeps, Request::DepsCurrent { .. })
    ));
}

#[test]
fn head_in_files_asks_for_text_and_ref() {
    let info = linked_info();
    let mut reads = Reads::new();
    assert_eq!(
        read_head_identity(&info, false, &reads),
        Progress::Ask(
            Slot::HeadText,
            Request::ReadText { file: file("/r/.git/worktrees/w", "HEAD") }
        )
    );
    reads.record(Slot::HeadText, Answer::Text(Some("ref: refs/heads/x\n".into())));
    assert_eq!(
        read_head_identity_from_files(&info, &reads),
        Progress::Ask(
            Slot::HeadOid,
            Request::RefOid { git_common_dir: path("/r/.git"), full_ref: "refs/heads/x".into() }
        )
    );
    reads.record(Slot::HeadOid, Answer::Text(None));
    assert_eq!(
        read_head_identity(&info, false, &reads),
        Progress::Done(Some(GitHeadIdentity::Branch {
            full_ref: "refs/heads/x".into(),
            short_name: "x".into(),
            oid: None,
        }))
    );
    reads.head_text = Some(None);
    assert_eq!(read_head_identity(&info, false, &reads), Progress::Done(None));
    reads.head_text = Some(Some(" \n".into()));
    assert_eq!(read_head_identity(&info, false, &reads), Progress::Done(None));
}

#[test]
fn head_in_a_reftable_asks_git() {
    let info = linked_info();
    let mut reads = Reads::new();
    assert_eq!(
        read_head_identity(&info, true, &reads),
        Progress::Ask(Slot::SymbolicHead, Request::SymbolicHead { repo_root: path("/w") })
    );
    reads.record(Slot::SymbolicHead, Answer::Text(Some("refs/heads/x".into())));
    assert_eq!(
        read_head_identity_from_git(&info, &reads),
        Progress::Ask(
            Slot::HeadOid,
            Request::RevParse { repo_root: path("/w"), revision: "refs/heads/x".into() }
        )
    );
    reads.symbolic_head = Some(Some("refs/bisect/x".into()));
    assert_eq!(read_head_identity_from_git(&info, &reads), Progress::Done(None));
    reads.symbolic_head = Some(None);
    assert_eq!(
        read_head_identity_from_git(&info, &reads),
        Progress::Ask(
            Slot::HeadOid,
            Request::RevParse { repo_root: path("/w"), revision: "HEAD".into() }
        )
    );
    reads.record(Slot::HeadOid, Answer::Text(None));
    assert_eq!(read_head_identity_from_git(&info, &reads), Progress::Done(None));
}

#[test]
fn upstream_rereads_the_configuration_of_another_branch() {
    let mut repo = context_of(plain_info(), false);
    repo.config = Some(ConfigCtx {
        branch: "main".into(),
        upstream: None,
        deps: vec![dep("/r/.git/config")],
    });
    let mut reads = Reads::new();
    assert_eq!(
        read_upstream(&mut repo, "main", &reads),
        Progress::Ask(
            Slot::ConfigDeps,
            Request::DepsCurrent { deps: vec![dep("/r/.git/config")] }
        )
    );
    assert_eq!(
        read_upstream(&mut repo, "feature", &reads),
        Progress::Ask(
            Slot::Config,
            Request::ReadConfig { info: plain_info(), branch: "feature".into() }
        )
    );
    reads.record(
        Slot::Config,
        Answer::Config(ConfigCtx {
            branch: "feature".into(),
            upstream: Some(UpstreamConfig {
                remote: "origin".into(),
                merge_ref: "refs/heads/main".into(),
            }),
            deps: Vec::new(),
        }),
    );
    assert!(matches!(
        read_upstream(&mut repo, "feature", &reads),
        Progress::Ask(Slot::UpstreamRef, Request::UpstreamFullRef { .. })
    ));
    assert_eq!(repo.config.as_ref().unwrap().branch, "main");
    reads.record(Slot::UpstreamRef, Answer::Text(Some("refs/remotes/origin/main".into())));
    assert_eq!(
        read_upstream(&mut repo, "feature", &reads),
        Progress::Ask(
            Slot::UpstreamOid,
            Request::RefOid {
                git_common_dir: path("/r/.git"),
                full_ref: "refs/remotes/origin/main".into(),
            }
        )
    );
    reads.record(Slot::UpstreamOid, Answer::Text(Some("abc".into())));
    match read_upstream(&mut repo, "feature", &reads) {
        Progress::Done(Some(upstream)) => {
            assert_eq!(upstream.remote, "origin");
            assert_eq!(upstream.merge_ref, "refs/heads/main");
            assert_eq!(upstream.full_ref, "refs/remotes/origin/main");
            assert_eq!(upstream.oid.as_deref(), Some("abc"));
        }
        other => panic!("{:?}", other),
    }
    assert_eq!(repo.config.as_ref().unwrap().branch, "feature");
}

#[test]
fn upstream_of_a_reftable_asks_git_for_the_commit() {
    let mut repo = context_of(plain_info(), true);
    let mut reads = Reads::new();
    reads.record(
        Slot::Config,
        Answer::Config(ConfigCtx {
            branch: "main".into(),
            upstream: Some(UpstreamConfig {
                remote: "origin".into(),
                merge_ref: "refs/heads/main".into(),
            }),
            deps: Vec::new(),
        }),
    );
    reads.record(Slot::UpstreamRef, Answer::Text(Some("refs/remotes/origin/main".into())));
    assert_eq!(
        read_upstream(&mut repo, "main", &reads),
        Progress::Ask(
            Slot::UpstreamOid,
            Request::RevParse {
                repo_root: path("/r"),
                revision: "refs/remotes/origin/main".into(),
            }
        )
    );
    reads.upstream_ref = Some(None);
    assert_eq!(read_upstream(&mut repo, "main", &reads), Progress::Done(None));
}

#[test]
fn fingerprint_reads_the_upstream_only_when_told() {
    let mut reads = Reads::new();
    reads.record(Slot::HeadText, Answer::Text(Some("ref: refs/heads/main\n".into())));
    reads.record(Slot::HeadOid, Answer::Text(Some("abc".into())));
    match fingerprint(context_of(plain_info(), false), false, &reads) {
        Progress::Done(Some(taken)) => {
            assert_eq!(taken.upstream, None);
            assert_eq!(taken.repository_context, context_of(plain_info(), false));
        }
        other => panic!("{:?}", other),
    }
    assert!(matches!(
        fingerprint(context_of(plain_info(), false), true, &reads),
        Progress::Ask(Slot::Config, Request::ReadConfig { .. })
    ));
}

#[test]
fn dirty_count_needs_a_successful_run() {
    let cwd = path("/r");
    let mut reads = Reads::new();
    assert!(matches!(
        git_dirty_count(&cwd, &reads),
        Progress::Ask(Slot::Dirty, Request::RunGit { .. })
    ));
    reads.record(Slot::Dirty, Answer::Output(None));
    assert_eq!(git_dirty_count(&cwd, &reads), Progress::Done(None));
    reads.record(
        Slot::Dirty,
        Answer::Output(Some(ProcessOutput { success: false, stdout: b"x\n".to_vec() })),
    );
    assert_eq!(git_dirty_count(&cwd, &reads), Progress::Done(None));
    reads.record(
        Slot::Dirty,
        Answer::Output(Some(ProcessOutput { success: true, stdout: b"x\n".to_vec() })),
    );
    assert_eq!(git_dirty_count(&cwd, &reads), Progress::Done(Some(1)));
}

#[test]
fn held_configuration_is_reused_while_unchanged() {
    let held = || ConfigCtx {
        branch: "main".into(),
        upstream: None,
        deps: vec![dep("/r/.git/config")],
    };
    let mut repo = context_of(plain_info(), false);
    repo.config = Some(held());
    let mut reads = Reads::new();
    reads.record(Slot::ConfigDeps, Answer::Flag(true));
    assert_eq!(read_upstream(&mut repo, "main", &reads), Progress::Done(None));
    assert_eq!(repo.config, Some(held()));

    reads.record(Slot::ConfigDeps, Answer::Flag(false));
    let mut bare = context_of(plain_info(), false);
    assert_eq!(
        read_upstream(&mut repo, "main", &reads),
        read_upstream(&mut bare, "main", &reads)
    );
    assert!(matches!(
        read_upstream(&mut bare, "main", &reads),
        Progress::Ask(Slot::Config, Request::ReadConfig { .. })
    ));
}

#[test]
fn white_space_around_head_text_makes_no_difference() {
    for core in ["ref: refs/heads/main", "ref: refs/tags/v1", "abc123", ""] {
        for before in ["", " ", "\n\t", "\u{3000}"] {
            for after in ["", "\n", "\r\n", " \n\n", "\u{2029}\t"] {
                let text = format!("{}{}{}", before, core, after);
                assert_eq!(parse_head(&text), parse_head(core));
            }
        }
    }
}
