//! The questions that a refresh asks of the world outside it, and the answers so far.
//!
//! Nothing here touches files, programs or clocks. An operation looks at the answers it has
//! been given: it either names the next question, or it is done. Whoever drives it puts the
//! answer into its slot and asks the operation again.

use crate::path::FileView;
use crate::path::GitFile;
use crate::path::GitPath;
use crate::path::PathView;
use crate::types::ConfigCtx;
use crate::types::ConfigView;
use crate::types::FileDep;
use crate::types::FileDepView;
use crate::types::GitSpaceMetadata;
use crate::types::GitWorktreeInfo;
use crate::types::Moment;
use crate::types::UpstreamConfig;
use crate::types::UpstreamConfigView;
use crate::types::WorktreeView;
use vstd::prelude::*;

verus! {

/// What became of a program that ran to its end.
#[derive(Debug, PartialEq, Eq)]
pub struct ProcessOutput {
    pub success: bool,
    pub stdout: Vec<u8>,
}

/// [`ProcessOutput`] over byte sequences.
pub struct OutputView {
    pub success: bool,
    pub stdout: Seq<u8>,
}

impl DeepView for ProcessOutput {
    type V = OutputView;

    open spec fn deep_view(&self) -> OutputView {
        OutputView { success: self.success, stdout: self.stdout@ }
    }
}

/// The place of an answer among the answers to one operation.
#[derive(Debug, Clone, Copy, PartialEq, Eq, Structural)]
pub enum Slot {
    Clock,
    CachedDeps,
    Worktree,
    RefStorage,
    Stamp,
    WorktreeAgain,
    RefStorageAgain,
    FreshDeps,
    FallbackLabel,
    MissClock,
    AutoLabel,
    Space,
    SymbolicHead,
    HeadText,
    HeadOid,
    Dirty,
    ConfigDeps,
    Config,
    UpstreamRef,
    UpstreamOid,
    Canonical,
}

/// A question to the world outside.
#[derive(Debug, PartialEq, Eq)]
pub enum Request {
    /// Read the clock.
    Clock,
    /// Check that the files still look as they did when they were stamped.
    DepsCurrent { deps: Vec<FileDep> },
    /// Find the checkout that a directory lies in.
    WorktreeInfo { cwd: GitPath },
    /// Find out whether a repository keeps its refs in a reftable.
    RefStorageIsReftable { git_common_dir: GitPath },
    /// Note what a file looks like.
    Stamp { file: GitFile },
    /// Label a directory outside any repository.
    FallbackLabel { cwd: GitPath },
    /// Label a directory in a checkout.
    AutomaticLabel { cwd: GitPath, repo_root: GitPath },
    /// Describe the repository that a checkout belongs to.
    SpaceMetadata { info: GitWorktreeInfo },
    /// Ask Git for the full name of the ref that `HEAD` points at.
    SymbolicHead { repo_root: GitPath },
    /// Ask Git for the commit that a revision names.
    RevParse { repo_root: GitPath, revision: String },
    /// Read a file as text.
    ReadText { file: GitFile },
    /// Look a ref up in the ref files of a repository.
    RefOid { git_common_dir: GitPath, full_ref: String },
    /// Run Git in a directory with these arguments.
    RunGit { dir: GitPath, args: Vec<String> },
    /// Look a branch up in the configuration files.
    ReadConfig { info: GitWorktreeInfo, branch: String },
    /// Find the ref that follows a configured upstream.
    UpstreamFullRef { config: UpstreamConfig },
    /// Resolve the links in a path, as far as that can be done.
    Canonicalize { path: GitPath },
}

/// [`Request`] over sequences.
pub enum RequestView {
    Clock,
    DepsCurrent { deps: Seq<FileDepView> },
    WorktreeInfo { cwd: PathView },
    RefStorageIsReftable { git_common_dir: PathView },
    Stamp { file: FileView },
    FallbackLabel { cwd: PathView },
    AutomaticLabel { cwd: PathView, repo_root: PathView },
    SpaceMetadata { info: WorktreeView },
    SymbolicHead { repo_root: PathView },
    RevParse { repo_root: PathView, revision: Seq<char> },
    ReadText { file: FileView },
    RefOid { git_common_dir: PathView, full_ref: Seq<char> },
    RunGit { dir: PathView, args: Seq<Seq<char>> },
    ReadConfig { info: WorktreeView, branch: Seq<char> },
    UpstreamFullRef { config: UpstreamConfigView },
    Canonicalize { path: PathView },
}

impl DeepView for Request {
    type V = RequestView;

    open spec fn deep_view(&self) -> RequestView {
        match self {
            Request::Clock => RequestView::Clock,
            Request::DepsCurrent { deps } => RequestView::DepsCurrent {
                deps: deps.deep_view(),
            },
            Request::WorktreeInfo { cwd } => RequestView::WorktreeInfo {
                cwd: cwd.deep_view(),
            },
            Request::RefStorageIsReftable { git_common_dir } => RequestView::RefStorageIsReftable {
                git_common_dir: git_common_dir.deep_view(),
            },
            Request::Stamp { file } => RequestView::Stamp {
                file: file.deep_view(),
            },
            Request::FallbackLabel { cwd } => RequestView::FallbackLabel {
                cwd: cwd.deep_view(),
            },
            Request::AutomaticLabel { cwd, repo_root } => RequestView::AutomaticLabel {
                cwd: cwd.deep_view(),
                repo_root: repo_root.deep_view(),
            },
            Request::SpaceMetadata { info } => RequestView::SpaceMetadata {
                info: info.deep_view(),
            },
            Request::SymbolicHead { repo_root } => RequestView::SymbolicHead {
                repo_root: repo_root.deep_view(),
            },
            Request::RevParse { repo_root, revision } => RequestView::RevParse {
                repo_root: repo_root.deep_view(),
                revision: revision.deep_view(),
            },
            Request::ReadText { file } => RequestView::ReadText {
                file: file.deep_view(),
            },
            Request::RefOid { git_common_dir, full_ref } => RequestView::RefOid {
                git_common_dir: git_common_dir.deep_view(),
                full_ref: full_ref.deep_view(),
            },
            Request::RunGit { dir, args } => RequestView::RunGit {
                dir: dir.deep_view(),
                args: args.deep_view(),
            },
            Request::ReadConfig { info, branch } => RequestView::ReadConfig {
                info: info.deep_view(),
                branch: branch.deep_view(),
            },
            Request::UpstreamFullRef { config } => RequestView::UpstreamFullRef {
                config: config.deep_view(),
            },
            Request::Canonicalize { path } => RequestView::Canonicalize {
                path: path.deep_view(),
            },
        }
    }
}

/// The answer to a question.
#[derive(Debug, PartialEq, Eq)]
pub enum Answer {
    /// A time.
    Time(Moment),
    /// Yes or no.
    Flag(bool),
    /// A checkout, if there is one.
    Worktree(Option<GitWorktreeInfo>),
    /// A stamped file.
    Stamp(FileDep),
    /// A label.
    Label(String),
    /// A repository.
    Space(GitSpaceMetadata),
    /// Text, if there is any.
    Text(Option<String>),
    /// What a program printed, if it could be started.
    Output(Option<ProcessOutput>),
    /// What the configuration says.
    Config(ConfigCtx),
    /// A path.
    Path(GitPath),
}

/// [`Answer`] over sequences.
pub enum AnswerView {
    Time(nat),
    Flag(bool),
    Worktree(Option<WorktreeView>),
    Stamp(FileDepView),
    Label(Seq<char>),
    Space(PathView),
    Text(Option<Seq<char>>),
    Output(Option<OutputView>),
    Config(ConfigView),
    Path(PathView),
}

impl DeepView for Answer {
    type V = AnswerView;

    open spec fn deep_view(&self) -> AnswerView {
        match self {
            Answer::Time(a) => AnswerView::Time(a.deep_view()),
            Answer::Flag(a) => AnswerView::Flag(a.deep_view()),
            Answer::Worktree(a) => AnswerView::Worktree(a.deep_view()),
            Answer::Stamp(a) => AnswerView::Stamp(a.deep_view()),
            Answer::Label(a) => AnswerView::Label(a.deep_view()),
            Answer::Space(a) => AnswerView::Space(a.deep_view()),
            Answer::Text(a) => AnswerView::Text(a.deep_view()),
            Answer::Output(a) => AnswerView::Output(a.deep_view()),
            Answer::Config(a) => AnswerView::Config(a.deep_view()),
            Answer::Path(a) => AnswerView::Path(a.deep_view()),
        }
    }
}

/// The answers that an operation has been given so far, each in its slot.
#[derive(Debug, PartialEq, Eq)]
pub struct Reads {
    /// The time at which a cached miss is judged.
    pub clock: Option<Moment>,
    /// Whether the files behind the cached context are unchanged.
    pub cached_deps_current: Option<bool>,
    /// Where the checkout lies.
    pub worktree: Option<Option<GitWorktreeInfo>>,
    /// Whether the refs are kept in a reftable.
    pub reftable: Option<bool>,
    /// The files that a new context depends on, as far as they are stamped.
    pub deps: Vec<FileDep>,
    /// Where the checkout lies, once the files are stamped.
    pub worktree_again: Option<Option<GitWorktreeInfo>>,
    /// Whether the refs are kept in a reftable, once the files are stamped.
    pub reftable_again: Option<bool>,
    /// Whether the stamped files are unchanged.
    pub deps_current: Option<bool>,
    /// The label of a directory outside any repository.
    pub fallback_label: Option<String>,
    /// The time at which no repository was found.
    pub miss_clock: Option<Moment>,
    /// The label of a directory in a repository.
    pub auto_label: Option<String>,
    /// The repository that the checkout belongs to.
    pub space: Option<GitSpaceMetadata>,
    /// The ref that Git says `HEAD` points at.
    pub symbolic_head: Option<Option<String>>,
    /// The text of the `HEAD` file.
    pub head_text: Option<Option<String>>,
    /// The commit that `HEAD`, or its branch, points at.
    pub head_oid: Option<Option<String>>,
    /// What `git status` printed.
    pub dirty: Option<Option<ProcessOutput>>,
    /// Whether the configuration files that were read are unchanged.
    pub config_deps_current: Option<bool>,
    /// What the configuration files say about the branch.
    pub config: Option<ConfigCtx>,
    /// The ref that follows the upstream.
    pub upstream_ref: Option<Option<String>>,
    /// The commit that the upstream points at.
    pub upstream_oid: Option<Option<String>>,
    /// The checkout's path with links resolved.
    pub canonical: Option<GitPath>,
}

/// [`Reads`] over sequences.
pub struct ReadsView {
    pub clock: Option<nat>,
    pub cached_deps_current: Option<bool>,
    pub worktree: Option<Option<WorktreeView>>,
    pub reftable: Option<bool>,
    pub deps: Seq<FileDepView>,
    pub worktree_again: Option<Option<WorktreeView>>,
    pub reftable_again: Option<bool>,
    pub deps_current: Option<bool>,
    pub fallback_label: Option<Seq<char>>,
    pub miss_clock: Option<nat>,
    pub auto_label: Option<Seq<char>>,
    pub space: Option<PathView>,
    pub symbolic_head: Option<Option<Seq<char>>>,
    pub head_text: Option<Option<Seq<char>>>,
    pub head_oid: Option<Option<Seq<char>>>,
    pub dirty: Option<Option<OutputView>>,
    pub config_deps_current: Option<bool>,
    pub config: Option<ConfigView>,
    pub upstream_ref: Option<Option<Seq<char>>>,
    pub upstream_oid: Option<Option<Seq<char>>>,
    pub canonical: Option<PathView>,
}

impl DeepView for Reads {
    type V = ReadsView;

    open spec fn deep_view(&self) -> ReadsView {
        ReadsView {
            clock: self.clock.deep_view(),
            cached_deps_current: self.cached_deps_current.deep_view(),
            worktree: self.worktree.deep_view(),
            reftable: self.reftable.deep_view(),
            deps: self.deps.deep_view(),
            worktree_again: self.worktree_again.deep_view(),
            reftable_again: self.reftable_again.deep_view(),
            deps_current: self.deps_current.deep_view(),
            fallback_label: self.fallback_label.deep_view(),
            miss_clock: self.miss_clock.deep_view(),
            auto_label: self.auto_label.deep_view(),
            space: self.space.deep_view(),
            symbolic_head: self.symbolic_head.deep_view(),
            head_text: self.head_text.deep_view(),
            head_oid: self.head_oid.deep_view(),
            dirty: self.dirty.deep_view(),
            config_deps_current: self.config_deps_current.deep_view(),
            config: self.config.deep_view(),
            upstream_ref: self.upstream_ref.deep_view(),
            upstream_oid: self.upstream_oid.deep_view(),
            canonical: self.canonical.deep_view(),
        }
    }
}

/// No answers at all.
pub open spec fn no_reads() -> ReadsView {
    ReadsView {
        clock: None,
        cached_deps_current: None,
        worktree: None,
        reftable: None,
        deps: Seq::empty(),
        worktree_again: None,
        reftable_again: None,
        deps_current: None,
        fallback_label: None,
        miss_clock: None,
        auto_label: None,
        space: None,
        symbolic_head: None,
        head_text: None,
        head_oid: None,
        dirty: None,
        config_deps_current: None,
        config: None,
        upstream_ref: None,
        upstream_oid: None,
        canonical: None,
    }
}

/// Whether an answer is of the kind that a slot takes.
pub open spec fn fits(slot: Slot, answer: AnswerView) -> bool {
    match slot {
        Slot::Clock => answer is Time,
        Slot::CachedDeps => answer is Flag,
        Slot::Worktree => answer is Worktree,
        Slot::RefStorage => answer is Flag,
        Slot::Stamp => answer is Stamp,
        Slot::WorktreeAgain => answer is Worktree,
        Slot::RefStorageAgain => answer is Flag,
        Slot::FreshDeps => answer is Flag,
        Slot::FallbackLabel => answer is Label,
        Slot::MissClock => answer is Time,
        Slot::AutoLabel => answer is Label,
        Slot::Space => answer is Space,
        Slot::SymbolicHead => answer is Text,
        Slot::HeadText => answer is Text,
        Slot::HeadOid => answer is Text,
        Slot::Dirty => answer is Output,
        Slot::ConfigDeps => answer is Flag,
        Slot::Config => answer is Config,
        Slot::UpstreamRef => answer is Text,
        Slot::UpstreamOid => answer is Text,
        Slot::Canonical => answer is Path,
    }
}

/// Whether an answer is of the kind that a question calls for.
pub open spec fn answers(request: RequestView, answer: AnswerView) -> bool {
    match request {
        RequestView::Clock => answer is Time,
        RequestView::DepsCurrent { .. } => answer is Flag,
        RequestView::WorktreeInfo { .. } => answer is Worktree,
        RequestView::RefStorageIsReftable { .. } => answer is Flag,
        RequestView::Stamp { .. } => answer is Stamp,
        RequestView::FallbackLabel { .. } => answer is Label,
        RequestView::AutomaticLabel { .. } => answer is Label,
        RequestView::SpaceMetadata { .. } => answer is Space,
        RequestView::SymbolicHead { .. } => answer is Text,
        RequestView::RevParse { .. } => answer is Text,
        RequestView::ReadText { .. } => answer is Text,
        RequestView::RefOid { .. } => answer is Text,
        RequestView::RunGit { .. } => answer is Output,
        RequestView::ReadConfig { .. } => answer is Config,
        RequestView::UpstreamFullRef { .. } => answer is Text,
        RequestView::Canonicalize { .. } => answer is Path,
    }
}

/// The answers with one more in its slot. An answer of the wrong kind changes nothing.
pub open spec fn recorded(reads: ReadsView, slot: Slot, answer: AnswerView) -> ReadsView {
    match (slot, answer) {
        (Slot::Clock, AnswerView::Time(a)) => ReadsView { clock: Some(a), ..reads },
        (Slot::CachedDeps, AnswerView::Flag(a)) => ReadsView { cached_deps_current: Some(a), ..reads },
        (Slot::Worktree, AnswerView::Worktree(a)) => ReadsView { worktree: Some(a), ..reads },
        (Slot::RefStorage, AnswerView::Flag(a)) => ReadsView { reftable: Some(a), ..reads },
        (Slot::Stamp, AnswerView::Stamp(a)) => ReadsView { deps: reads.deps.push(a), ..reads },
        (Slot::WorktreeAgain, AnswerView::Worktree(a)) => ReadsView { worktree_again: Some(a), ..reads },
        (Slot::RefStorageAgain, AnswerView::Flag(a)) => ReadsView { reftable_again: Some(a), ..reads },
        (Slot::FreshDeps, AnswerView::Flag(a)) => ReadsView { deps_current: Some(a), ..reads },
        (Slot::FallbackLabel, AnswerView::Label(a)) => ReadsView { fallback_label: Some(a), ..reads },
        (Slot::MissClock, AnswerView::Time(a)) => ReadsView { miss_clock: Some(a), ..reads },
        (Slot::AutoLabel, AnswerView::Label(a)) => ReadsView { auto_label: Some(a), ..reads },
        (Slot::Space, AnswerView::Space(a)) => ReadsView { space: Some(a), ..reads },
        (Slot::SymbolicHead, AnswerView::Text(a)) => ReadsView { symbolic_head: Some(a), ..reads },
        (Slot::HeadText, AnswerView::Text(a)) => ReadsView { head_text: Some(a), ..reads },
        (Slot::HeadOid, AnswerView::Text(a)) => ReadsView { head_oid: Some(a), ..reads },
        (Slot::Dirty, AnswerView::Output(a)) => ReadsView { dirty: Some(a), ..reads },
        (Slot::ConfigDeps, AnswerView::Flag(a)) => ReadsView { config_deps_current: Some(a), ..reads },
        (Slot::Config, AnswerView::Config(a)) => ReadsView { config: Some(a), ..reads },
        (Slot::UpstreamRef, AnswerView::Text(a)) => ReadsView { upstream_ref: Some(a), ..reads },
        (Slot::UpstreamOid, AnswerView::Text(a)) => ReadsView { upstream_oid: Some(a), ..reads },
        (Slot::Canonical, AnswerView::Path(a)) => ReadsView { canonical: Some(a), ..reads },
        _ => reads,
    }
}

impl Reads {
    /// Starts with no answers.
    pub fn new() -> (reads: Reads)
        ensures
            reads.deep_view() == no_reads(),
    {
        let reads = Reads {
            clock: None,
            cached_deps_current: None,
            worktree: None,
            reftable: None,
            deps: Vec::new(),
            worktree_again: None,
            reftable_again: None,
            deps_current: None,
            fallback_label: None,
            miss_clock: None,
            auto_label: None,
            space: None,
            symbolic_head: None,
            head_text: None,
            head_oid: None,
            dirty: None,
            config_deps_current: None,
            config: None,
            upstream_ref: None,
            upstream_oid: None,
            canonical: None,
        };
        assert(reads.deps.deep_view() =~= Seq::empty());
        reads
    }

    /// Puts an answer into a slot, and says whether it was of the right kind.
    pub fn record(&mut self, slot: Slot, answer: Answer) -> (taken: bool)
        ensures
            taken == fits(slot, answer.deep_view()),
            final(self).deep_view() == recorded(old(self).deep_view(), slot, answer.deep_view()),
    {
        match (slot, answer) {
            (Slot::Clock, Answer::Time(a)) => {
                self.clock = Some(a);
                true
            },
            (Slot::CachedDeps, Answer::Flag(a)) => {
                self.cached_deps_current = Some(a);
                true
            },
            (Slot::Worktree, Answer::Worktree(a)) => {
                self.worktree = Some(a);
                true
            },
            (Slot::RefStorage, Answer::Flag(a)) => {
                self.reftable = Some(a);
                true
            },
            (Slot::Stamp, Answer::Stamp(a)) => {
                self.deps.push(a);
                assert(self.deps.deep_view() =~= old(self).deps.deep_view().push(a.deep_view()));
                true
            },
            (Slot::WorktreeAgain, Answer::Worktree(a)) => {
                self.worktree_again = Some(a);
                true
            },
            (Slot::RefStorageAgain, Answer::Flag(a)) => {
                self.reftable_again = Some(a);
                true
            },
            (Slot::FreshDeps, Answer::Flag(a)) => {
                self.deps_current = Some(a);
                true
            },
            (Slot::FallbackLabel, Answer::Label(a)) => {
                self.fallback_label = Some(a);
                true
            },
            (Slot::MissClock, Answer::Time(a)) => {
                self.miss_clock = Some(a);
                true
            },
            (Slot::AutoLabel, Answer::Label(a)) => {
                self.auto_label = Some(a);
                true
            },
            (Slot::Space, Answer::Space(a)) => {
                self.space = Some(a);
                true
            },
            (Slot::SymbolicHead, Answer::Text(a)) => {
                self.symbolic_head = Some(a);
                true
            },
            (Slot::HeadText, Answer::Text(a)) => {
                self.head_text = Some(a);
                true
            },
            (Slot::HeadOid, Answer::Text(a)) => {
                self.head_oid = Some(a);
                true
            },
            (Slot::Dirty, Answer::Output(a)) => {
                self.dirty = Some(a);
                true
            },
            (Slot::ConfigDeps, Answer::Flag(a)) => {
                self.config_deps_current = Some(a);
                true
            },
            (Slot::Config, Answer::Config(a)) => {
                self.config = Some(a);
                true
            },
            (Slot::UpstreamRef, Answer::Text(a)) => {
                self.upstream_ref = Some(a);
                true
            },
            (Slot::UpstreamOid, Answer::Text(a)) => {
                self.upstream_oid = Some(a);
                true
            },
            (Slot::Canonical, Answer::Path(a)) => {
                self.canonical = Some(a);
                true
            },
            _ => false,
        }
    }
}

/// How far an operation has come.
#[derive(Debug, PartialEq, Eq)]
pub enum Progress<T> {
    /// The answer to this question is needed next, in this slot.
    Ask(Slot, Request),
    /// Nothing more is needed.
    Done(T),
}

/// Whether `progress` asks exactly the question `ask`, and where there is none is done with
/// `value`.
pub open spec fn settles<T: DeepView>(
    progress: Progress<T>,
    ask: Option<(Slot, RequestView)>,
    value: T::V,
) -> bool {
    match progress {
        Progress::Ask(slot, request) => ask == Some((slot, request.deep_view())),
        Progress::Done(result) => ask is None && result.deep_view() == value,
    }
}

} // verus!
