//! The resolution step machine.
//!
//! A [`Resolver`] decides, step by step, how to locate the tool: it
//! hands the caller an [`Action`] (a lookup, a copy, a download), the
//! caller performs it and answers with an [`Event`], and the machine
//! moves on until the action is [`Action::Finish`].  Strategies are
//! tried in order: search path, process cache, project-local copy,
//! versioned download with pruning of stale version directories.
//!
//! Every transition is pinned by [`step_spec`], a function over the
//! abstract views of the machine, the event and the action.
use vstd::prelude::*;
use crate::assets::{
    asset_name, asset_name_spec, find_asset, find_asset_spec, join_path, joined_path_spec,
    stale_entries, stale_of, version_dir_name, version_dir_spec,
};
use crate::model::{
    abs_command_for, AbsCommand, AbsError, AbsRelease, Arch, Command, Os, Release, ResolveError,
};
use crate::paths::{
    env_lookup, project_bin_path, project_bin_path_spec, state_bin_path, state_bin_path_spec,
};

verus! {

/// What the resolver waits for between steps.
pub enum Phase {
    /// Nothing asked yet.
    Idle,
    /// Awaiting the search-path lookup result.
    AwaitPath,
    /// Awaiting the existence check of the cached path.
    AwaitCacheProbe { cached: String },
    /// Awaiting the existence check of the project-local binary.
    AwaitSourceProbe { source: String, dest: String },
    /// Awaiting the result of the copy into the user state directory.
    AwaitCopy { dest: String },
    /// Awaiting acknowledgement of the checking-for-update notice.
    AwaitUpdateNotice,
    /// Awaiting the latest release of the upstream repository.
    AwaitRelease,
    /// Awaiting the host's operating system and architecture.
    AwaitPlatform { release: Release },
    /// Awaiting creation of the versioned install directory.
    AwaitDir { version_dir: String, binary_path: String, url: String },
    /// Awaiting the existence check of the installed binary.
    AwaitInstallProbe { version_dir: String, binary_path: String, url: String },
    /// Awaiting acknowledgement of the downloading notice.
    AwaitDownloadNotice { version_dir: String, binary_path: String, url: String },
    /// Awaiting the download result.
    AwaitDownload { version_dir: String, binary_path: String },
    /// Awaiting the executable-bit change on the downloaded binary.
    AwaitExecBit { version_dir: String, binary_path: String },
    /// Awaiting the listing of the install working directory.
    AwaitListing { version_dir: String, binary_path: String },
    /// Awaiting completion of the best-effort pruning.
    AwaitCleanup { binary_path: String },
    /// Resolution is over; the result has been returned.
    Finished,
}

/// Abstract view of a [`Phase`].
#[verifier::ext_equal]
pub enum AbsPhase {
    Idle,
    AwaitPath,
    AwaitCacheProbe { cached: Seq<char> },
    AwaitSourceProbe { source: Seq<char>, dest: Seq<char> },
    AwaitCopy { dest: Seq<char> },
    AwaitUpdateNotice,
    AwaitRelease,
    AwaitPlatform { release: AbsRelease },
    AwaitDir { version_dir: Seq<char>, binary_path: Seq<char>, url: Seq<char> },
    AwaitInstallProbe { version_dir: Seq<char>, binary_path: Seq<char>, url: Seq<char> },
    AwaitDownloadNotice { version_dir: Seq<char>, binary_path: Seq<char>, url: Seq<char> },
    AwaitDownload { version_dir: Seq<char>, binary_path: Seq<char> },
    AwaitExecBit { version_dir: Seq<char>, binary_path: Seq<char> },
    AwaitListing { version_dir: Seq<char>, binary_path: Seq<char> },
    AwaitCleanup { binary_path: Seq<char> },
    Finished,
}

impl View for Phase {
    type V = AbsPhase;

    open spec fn view(&self) -> AbsPhase {
        match self {
            Phase::Idle => AbsPhase::Idle,
            Phase::AwaitPath => AbsPhase::AwaitPath,
            Phase::AwaitCacheProbe { cached } => AbsPhase::AwaitCacheProbe { cached: cached@ },
            Phase::AwaitSourceProbe { source, dest } => AbsPhase::AwaitSourceProbe {
                source: source@,
                dest: dest@,
            },
            Phase::AwaitCopy { dest } => AbsPhase::AwaitCopy { dest: dest@ },
            Phase::AwaitUpdateNotice => AbsPhase::AwaitUpdateNotice,
            Phase::AwaitRelease => AbsPhase::AwaitRelease,
            Phase::AwaitPlatform { release } => AbsPhase::AwaitPlatform { release: release@ },
            Phase::AwaitDir { version_dir, binary_path, url } => AbsPhase::AwaitDir {
                version_dir: version_dir@,
                binary_path: binary_path@,
                url: url@,
            },
            Phase::AwaitInstallProbe { version_dir, binary_path, url } => AbsPhase::AwaitInstallProbe {
                version_dir: version_dir@,
                binary_path: binary_path@,
                url: url@,
            },
            Phase::AwaitDownloadNotice { version_dir, binary_path, url } => AbsPhase::AwaitDownloadNotice {
                version_dir: version_dir@,
                binary_path: binary_path@,
                url: url@,
            },
            Phase::AwaitDownload { version_dir, binary_path } => AbsPhase::AwaitDownload {
                version_dir: version_dir@,
                binary_path: binary_path@,
            },
            Phase::AwaitExecBit { version_dir, binary_path } => AbsPhase::AwaitExecBit {
                version_dir: version_dir@,
                binary_path: binary_path@,
            },
            Phase::AwaitListing { version_dir, binary_path } => AbsPhase::AwaitListing {
                version_dir: version_dir@,
                binary_path: binary_path@,
            },
            Phase::AwaitCleanup { binary_path } => AbsPhase::AwaitCleanup {
                binary_path: binary_path@,
            },
            Phase::Finished => AbsPhase::Finished,
        }
    }
}

/// The outcome of an action, reported back to the resolver.
pub enum Event {
    /// Begins a resolution.
    Start,
    /// The search-path lookup result.
    PathFound(Option<String>),
    /// Whether the probed path names an existing file.
    FileProbe(bool),
    /// The result of the copy into the user state directory.
    Copied(Result<(), String>),
    /// Acknowledges a notice or the best-effort pruning.
    Ack,
    /// The latest release, or why it could not be fetched.
    ReleaseFetched(Result<Release, String>),
    /// The machine's operating system and architecture.
    Platform(Os, Arch),
    /// The result of creating the versioned install directory.
    DirMade(Result<(), String>),
    /// The download result.
    Downloaded(Result<(), String>),
    /// The result of marking the binary executable.
    ExecBitSet(Result<(), String>),
    /// The entries of the install working directory.
    Listed(Result<Vec<String>, String>),
}

/// Abstract view of an [`Event`].
#[verifier::ext_equal]
pub enum AbsEvent {
    Start,
    PathFound(Option<Seq<char>>),
    FileProbe(bool),
    Copied(Result<(), Seq<char>>),
    Ack,
    ReleaseFetched(Result<AbsRelease, Seq<char>>),
    Platform(Os, Arch),
    DirMade(Result<(), Seq<char>>),
    Downloaded(Result<(), Seq<char>>),
    ExecBitSet(Result<(), Seq<char>>),
    Listed(Result<Seq<Seq<char>>, Seq<char>>),
}

impl View for Event {
    type V = AbsEvent;

    open spec fn view(&self) -> AbsEvent {
        match self {
            Event::Start => AbsEvent::Start,
            Event::PathFound(p) => AbsEvent::PathFound(p.deep_view()),
            Event::FileProbe(found) => AbsEvent::FileProbe(*found),
            Event::Copied(r) => AbsEvent::Copied(
                match r {
                    Ok(u) => Ok(*u),
                    Err(m) => Err(m@),
                },
            ),
            Event::Ack => AbsEvent::Ack,
            Event::ReleaseFetched(r) => AbsEvent::ReleaseFetched(
                match r {
                    Ok(rel) => Ok(rel@),
                    Err(m) => Err(m@),
                },
            ),
            Event::Platform(os, arch) => AbsEvent::Platform(*os, *arch),
            Event::DirMade(r) => AbsEvent::DirMade(
                match r {
                    Ok(u) => Ok(*u),
                    Err(m) => Err(m@),
                },
            ),
            Event::Downloaded(r) => AbsEvent::Downloaded(
                match r {
                    Ok(u) => Ok(*u),
                    Err(m) => Err(m@),
                },
            ),
            Event::ExecBitSet(r) => AbsEvent::ExecBitSet(
                match r {
                    Ok(u) => Ok(*u),
                    Err(m) => Err(m@),
                },
            ),
            Event::Listed(r) => AbsEvent::Listed(
                match r {
                    Ok(entries) => Ok(entries.deep_view()),
                    Err(m) => Err(m@),
                },
            ),
        }
    }
}

/// What the caller must do next on the resolver's behalf.
pub enum Action {
    /// Search the shell path for the tool.
    QueryPath,
    /// Check whether the path names an existing file.
    ProbeFile(String),
    /// Copy `source` to `dest`.
    CopyTo { source: String, dest: String },
    /// Tell the host an update check has begun.
    AnnounceCheckingForUpdate,
    /// Fetch the latest release of the upstream repository.
    FetchRelease,
    /// Report the machine's operating system and architecture.
    QueryPlatform,
    /// Create the directory, parents included.
    EnsureDir(String),
    /// Tell the host a download has begun.
    AnnounceDownloading,
    /// Download `url` to `dest`.
    Download { url: String, dest: String },
    /// Mark the file executable.
    MakeExecutable(String),
    /// List the entries of the install working directory.
    ListInstallRoot,
    /// Remove the named directories, ignoring failures.
    RemoveStale(Vec<String>),
    /// Resolution is over with this result.
    Finish(Result<Command, ResolveError>),
}

/// Abstract view of an [`Action`].
#[verifier::ext_equal]
pub enum AbsAction {
    QueryPath,
    ProbeFile(Seq<char>),
    CopyTo { source: Seq<char>, dest: Seq<char> },
    AnnounceCheckingForUpdate,
    FetchRelease,
    QueryPlatform,
    EnsureDir(Seq<char>),
    AnnounceDownloading,
    Download { url: Seq<char>, dest: Seq<char> },
    MakeExecutable(Seq<char>),
    ListInstallRoot,
    RemoveStale(Seq<Seq<char>>),
    Finish(Result<AbsCommand, AbsError>),
}

impl View for Action {
    type V = AbsAction;

    open spec fn view(&self) -> AbsAction {
        match self {
            Action::QueryPath => AbsAction::QueryPath,
            Action::ProbeFile(p) => AbsAction::ProbeFile(p@),
            Action::CopyTo { source, dest } => AbsAction::CopyTo {
                source: source@,
                dest: dest@,
            },
            Action::AnnounceCheckingForUpdate => AbsAction::AnnounceCheckingForUpdate,
            Action::FetchRelease => AbsAction::FetchRelease,
            Action::QueryPlatform => AbsAction::QueryPlatform,
            Action::EnsureDir(d) => AbsAction::EnsureDir(d@),
            Action::AnnounceDownloading => AbsAction::AnnounceDownloading,
            Action::Download { url, dest } => AbsAction::Download { url: url@, dest: dest@ },
            Action::MakeExecutable(p) => AbsAction::MakeExecutable(p@),
            Action::ListInstallRoot => AbsAction::ListInstallRoot,
            Action::RemoveStale(dirs) => AbsAction::RemoveStale(dirs.deep_view()),
            Action::Finish(r) => AbsAction::Finish(
                match r {
                    Ok(c) => Ok(c@),
                    Err(e) => Err(e@),
                },
            ),
        }
    }
}

/// An action that writes to the filesystem.
pub open spec fn is_write_action(a: AbsAction) -> bool {
    match a {
        AbsAction::CopyTo { .. } => true,
        AbsAction::EnsureDir(_) => true,
        AbsAction::Download { .. } => true,
        AbsAction::MakeExecutable(_) => true,
        AbsAction::RemoveStale(_) => true,
        _ => false,
    }
}

/// An action that touches the network.
pub open spec fn is_network_action(a: AbsAction) -> bool {
    a is FetchRelease || a is Download
}

/// The resolution machine: the fixed inputs of one resolution, the
/// cached path carried between resolutions, and the current phase.
pub struct Resolver {
    /// Name of the executable being resolved.
    pub tool: String,
    /// Snapshot of the worktree's shell environment.
    pub env: Vec<(String, String)>,
    /// Root path of the worktree.
    pub root: String,
    /// Path resolved earlier in this process, if any.
    pub cache: Option<String>,
    /// What the machine waits for.
    pub phase: Phase,
}

/// Abstract view of a [`Resolver`].
#[verifier::ext_equal]
pub struct AbsResolver {
    pub tool: Seq<char>,
    pub env: Seq<(Seq<char>, Seq<char>)>,
    pub root: Seq<char>,
    pub cache: Option<Seq<char>>,
    pub phase: AbsPhase,
}

impl View for Resolver {
    type V = AbsResolver;

    open spec fn view(&self) -> AbsResolver {
        AbsResolver {
            tool: self.tool@,
            env: self.env.deep_view(),
            root: self.root@,
            cache: self.cache.deep_view(),
            phase: self.phase@,
        }
    }
}

/// One step's outcome: the machine afterwards, and the action asked of
/// the caller.
#[verifier::ext_equal]
pub struct StepOut {
    pub next: AbsResolver,
    pub action: AbsAction,
}

/// The step that ends a resolution with `result`, leaving the cache as
/// it stands.
pub open spec fn finish_spec(s: AbsResolver, result: Result<AbsCommand, AbsError>) -> StepOut {
    StepOut {
        next: AbsResolver {
            tool: s.tool,
            env: s.env,
            root: s.root,
            cache: s.cache,
            phase: AbsPhase::Finished,
        },
        action: AbsAction::Finish(result),
    }
}

/// The step that ends a resolution successfully at `path`, caching it
/// for later resolutions in the same process.
pub open spec fn finish_cached_spec(s: AbsResolver, path: Seq<char>) -> StepOut {
    StepOut {
        next: AbsResolver {
            tool: s.tool,
            env: s.env,
            root: s.root,
            cache: Some(path),
            phase: AbsPhase::Finished,
        },
        action: AbsAction::Finish(Ok(abs_command_for(path))),
    }
}

/// Entry into the project-local copy strategy: derive the state-
/// directory destination (fatal when `HOME` is missing), then probe
/// the project-local source.  The machine's phase on entry plays no
/// part, so only the carried fields are taken.
pub open spec fn local_stage_spec(
    tool: Seq<char>,
    env: Seq<(Seq<char>, Seq<char>)>,
    root: Seq<char>,
    cache: Option<Seq<char>>,
) -> StepOut {
    match state_bin_path_spec(env, tool) {
        None => StepOut {
            next: AbsResolver { tool, env, root, cache, phase: AbsPhase::Finished },
            action: AbsAction::Finish(Err(AbsError::MissingHome)),
        },
        Some(dest) => StepOut {
            next: AbsResolver {
                tool,
                env,
                root,
                cache,
                phase: AbsPhase::AwaitSourceProbe {
                    source: project_bin_path_spec(root, tool),
                    dest,
                },
            },
            action: AbsAction::ProbeFile(project_bin_path_spec(root, tool)),
        },
    }
}

/// Reaction to the platform report: name the expected asset, find it
/// in the release, and start the versioned install.  The machine's
/// phase on entry plays no part, so only the carried fields are taken.
pub open spec fn platform_stage_spec(
    tool: Seq<char>,
    env: Seq<(Seq<char>, Seq<char>)>,
    root: Seq<char>,
    cache: Option<Seq<char>>,
    release: AbsRelease,
    os: Os,
    arch: Arch,
) -> StepOut {
    match asset_name_spec(os, arch) {
        None => StepOut {
            next: AbsResolver { tool, env, root, cache, phase: AbsPhase::Finished },
            action: AbsAction::Finish(Err(AbsError::UnsupportedPlatform)),
        },
        Some(name) => match find_asset_spec(release.assets, name) {
            None => StepOut {
                next: AbsResolver { tool, env, root, cache, phase: AbsPhase::Finished },
                action: AbsAction::Finish(Err(AbsError::AssetNotFound { asset_name: name })),
            },
            Some(asset) => {
                let version_dir = version_dir_spec(release.version);
                StepOut {
                    next: AbsResolver {
                        tool,
                        env,
                        root,
                        cache,
                        phase: AbsPhase::AwaitDir {
                            version_dir,
                            binary_path: joined_path_spec(version_dir, name),
                            url: asset.url,
                        },
                    },
                    action: AbsAction::EnsureDir(version_dir),
                }
            },
        },
    }
}

/// A machine `s` answered with event `e`: the machine afterwards and
/// the action it asks for.  The strategies run in order: search path,
/// process cache, project-local copy, versioned download; an event the
/// current phase did not ask for ends the resolution with an error.
pub open spec fn step_spec(s: AbsResolver, e: AbsEvent) -> StepOut {
    match (s.phase, e) {
        (AbsPhase::Idle, AbsEvent::Start) => StepOut {
            next: AbsResolver {
                tool: s.tool,
                env: s.env,
                root: s.root,
                cache: s.cache,
                phase: AbsPhase::AwaitPath,
            },
            action: AbsAction::QueryPath,
        },
        (AbsPhase::AwaitPath, AbsEvent::PathFound(Some(p))) => finish_spec(
            s,
            Ok(abs_command_for(p)),
        ),
        (AbsPhase::AwaitPath, AbsEvent::PathFound(None)) => match s.cache {
            Some(c) => StepOut {
                next: AbsResolver {
                    tool: s.tool,
                    env: s.env,
                    root: s.root,
                    cache: s.cache,
                    phase: AbsPhase::AwaitCacheProbe { cached: c },
                },
                action: AbsAction::ProbeFile(c),
            },
            None => local_stage_spec(s.tool, s.env, s.root, s.cache),
        },
        (AbsPhase::AwaitCacheProbe { cached }, AbsEvent::FileProbe(true)) => finish_spec(
            s,
            Ok(abs_command_for(cached)),
        ),
        (AbsPhase::AwaitCacheProbe { .. }, AbsEvent::FileProbe(false)) => local_stage_spec(
            s.tool,
            s.env,
            s.root,
            s.cache,
        ),
        (AbsPhase::AwaitSourceProbe { source, dest }, AbsEvent::FileProbe(true)) => StepOut {
            next: AbsResolver {
                tool: s.tool,
                env: s.env,
                root: s.root,
                cache: s.cache,
                phase: AbsPhase::AwaitCopy { dest },
            },
            action: AbsAction::CopyTo { source, dest },
        },
        (AbsPhase::AwaitSourceProbe { .. }, AbsEvent::FileProbe(false)) => StepOut {
            next: AbsResolver {
                tool: s.tool,
                env: s.env,
                root: s.root,
                cache: s.cache,
                phase: AbsPhase::AwaitUpdateNotice,
            },
            action: AbsAction::AnnounceCheckingForUpdate,
        },
        (AbsPhase::AwaitCopy { dest }, AbsEvent::Copied(Ok(_))) => finish_cached_spec(s, dest),
        (AbsPhase::AwaitCopy { .. }, AbsEvent::Copied(Err(m))) => finish_spec(
            s,
            Err(AbsError::Io { message: m }),
        ),
        (AbsPhase::AwaitUpdateNotice, AbsEvent::Ack) => StepOut {
            next: AbsResolver {
                tool: s.tool,
                env: s.env,
                root: s.root,
                cache: s.cache,
                phase: AbsPhase::AwaitRelease,
            },
            action: AbsAction::FetchRelease,
        },
        (AbsPhase::AwaitRelease, AbsEvent::ReleaseFetched(Ok(release))) => StepOut {
            next: AbsResolver {
                tool: s.tool,
                env: s.env,
                root: s.root,
                cache: s.cache,
                phase: AbsPhase::AwaitPlatform { release },
            },
            action: AbsAction::QueryPlatform,
        },
        (AbsPhase::AwaitRelease, AbsEvent::ReleaseFetched(Err(m))) => finish_spec(
            s,
            Err(AbsError::Io { message: m }),
        ),
        (AbsPhase::AwaitPlatform { release }, AbsEvent::Platform(os, arch)) => platform_stage_spec(
            s.tool,
            s.env,
            s.root,
            s.cache,
            release,
            os,
            arch,
        ),
        (AbsPhase::AwaitDir { version_dir, binary_path, url }, AbsEvent::DirMade(Ok(_))) => StepOut {
            next: AbsResolver {
                tool: s.tool,
                env: s.env,
                root: s.root,
                cache: s.cache,
                phase: AbsPhase::AwaitInstallProbe { version_dir, binary_path, url },
            },
            action: AbsAction::ProbeFile(binary_path),
        },
        (AbsPhase::AwaitDir { .. }, AbsEvent::DirMade(Err(m))) => finish_spec(
            s,
            Err(AbsError::Io { message: m }),
        ),
        (
            AbsPhase::AwaitInstallProbe { binary_path, .. },
            AbsEvent::FileProbe(true),
        ) => finish_cached_spec(s, binary_path),
        (
            AbsPhase::AwaitInstallProbe { version_dir, binary_path, url },
            AbsEvent::FileProbe(false),
        ) => StepOut {
            next: AbsResolver {
                tool: s.tool,
                env: s.env,
                root: s.root,
                cache: s.cache,
                phase: AbsPhase::AwaitDownloadNotice { version_dir, binary_path, url },
            },
            action: AbsAction::AnnounceDownloading,
        },
        (AbsPhase::AwaitDownloadNotice { version_dir, binary_path, url }, AbsEvent::Ack) => StepOut {
            next: AbsResolver {
                tool: s.tool,
                env: s.env,
                root: s.root,
                cache: s.cache,
                phase: AbsPhase::AwaitDownload { version_dir, binary_path },
            },
            action: AbsAction::Download { url, dest: binary_path },
        },
        (
            AbsPhase::AwaitDownload { version_dir, binary_path },
            AbsEvent::Downloaded(Ok(_)),
        ) => StepOut {
            next: AbsResolver {
                tool: s.tool,
                env: s.env,
                root: s.root,
                cache: s.cache,
                phase: AbsPhase::AwaitExecBit { version_dir, binary_path },
            },
            action: AbsAction::MakeExecutable(binary_path),
        },
        (AbsPhase::AwaitDownload { .. }, AbsEvent::Downloaded(Err(m))) => finish_spec(
            s,
            Err(AbsError::Io { message: m }),
        ),
        (
            AbsPhase::AwaitExecBit { version_dir, binary_path },
            AbsEvent::ExecBitSet(Ok(_)),
        ) => StepOut {
            next: AbsResolver {
                tool: s.tool,
                env: s.env,
                root: s.root,
                cache: s.cache,
                phase: AbsPhase::AwaitListing { version_dir, binary_path },
            },
            action: AbsAction::ListInstallRoot,
        },
        (AbsPhase::AwaitExecBit { .. }, AbsEvent::ExecBitSet(Err(m))) => finish_spec(
            s,
            Err(AbsError::Io { message: m }),
        ),
        (
            AbsPhase::AwaitListing { version_dir, binary_path },
            AbsEvent::Listed(Ok(entries)),
        ) => StepOut {
            next: AbsResolver {
                tool: s.tool,
                env: s.env,
                root: s.root,
                cache: s.cache,
                phase: AbsPhase::AwaitCleanup { binary_path },
            },
            action: AbsAction::RemoveStale(stale_of(entries, version_dir)),
        },
        (AbsPhase::AwaitListing { .. }, AbsEvent::Listed(Err(m))) => finish_spec(
            s,
            Err(AbsError::Io { message: m }),
        ),
        (AbsPhase::AwaitCleanup { binary_path }, AbsEvent::Ack) => finish_cached_spec(
            s,
            binary_path,
        ),
        _ => finish_spec(s, Err(AbsError::UnexpectedEvent)),
    }
}

impl Resolver {
    /// A machine ready to resolve `tool` for the worktree at `root`
    /// with environment snapshot `env`, carrying the path cached by an
    /// earlier resolution in this process, if any.
    pub fn new(tool: String, env: Vec<(String, String)>, root: String, cache: Option<String>) -> (r:
        Resolver)
        ensures
            r@ == (AbsResolver {
                tool: tool@,
                env: env.deep_view(),
                root: root@,
                cache: cache.deep_view(),
                phase: AbsPhase::Idle,
            }),
    {
        Resolver { tool, env, root, cache, phase: Phase::Idle }
    }

    /// Feeds one event to the machine; returns the machine afterwards
    /// and the next action, exactly as [`step_spec`] prescribes.
    pub fn step(self, event: Event) -> (r: (Resolver, Action))
        ensures
            r.0@ == step_spec(self@, event@).next,
            r.1@ == step_spec(self@, event@).action,
    {
        let Resolver { tool, env, root, cache, phase } = self;
        match (phase, event) {
            (Phase::Idle, Event::Start) => (
                Resolver { tool, env, root, cache, phase: Phase::AwaitPath },
                Action::QueryPath,
            ),
            (Phase::AwaitPath, Event::PathFound(Some(p))) => (
                Resolver { tool, env, root, cache, phase: Phase::Finished },
                Action::Finish(Ok(Command::for_binary(p))),
            ),
            (Phase::AwaitPath, Event::PathFound(None)) => {
                if let Some(c) = &cache {
                    let probe = c.clone();
                    (
                        Resolver {
                            tool,
                            env,
                            root,
                            cache,
                            phase: Phase::AwaitCacheProbe { cached: probe.clone() },
                        },
                        Action::ProbeFile(probe),
                    )
                } else {
                    enter_local_stage(tool, env, root, cache)
                }
            },
            (Phase::AwaitCacheProbe { cached }, Event::FileProbe(true)) => (
                Resolver { tool, env, root, cache, phase: Phase::Finished },
                Action::Finish(Ok(Command::for_binary(cached))),
            ),
            (Phase::AwaitCacheProbe { .. }, Event::FileProbe(false)) => enter_local_stage(
                tool,
                env,
                root,
                cache,
            ),
            (Phase::AwaitSourceProbe { source, dest }, Event::FileProbe(true)) => (
                Resolver {
                    tool,
                    env,
                    root,
                    cache,
                    phase: Phase::AwaitCopy { dest: dest.clone() },
                },
                Action::CopyTo { source, dest },
            ),
            (Phase::AwaitSourceProbe { .. }, Event::FileProbe(false)) => (
                Resolver { tool, env, root, cache, phase: Phase::AwaitUpdateNotice },
                Action::AnnounceCheckingForUpdate,
            ),
            (Phase::AwaitCopy { dest }, Event::Copied(Ok(_))) => (
                Resolver {
                    tool,
                    env,
                    root,
                    cache: Some(dest.clone()),
                    phase: Phase::Finished,
                },
                Action::Finish(Ok(Command::for_binary(dest))),
            ),
            (Phase::AwaitCopy { .. }, Event::Copied(Err(m))) => (
                Resolver { tool, env, root, cache, phase: Phase::Finished },
                Action::Finish(Err(ResolveError::Io { message: m })),
            ),
            (Phase::AwaitUpdateNotice, Event::Ack) => (
                Resolver { tool, env, root, cache, phase: Phase::AwaitRelease },
                Action::FetchRelease,
            ),
            (Phase::AwaitRelease, Event::ReleaseFetched(Ok(release))) => (
                Resolver {
                    tool,
                    env,
                    root,
                    cache,
                    phase: Phase::AwaitPlatform { release },
                },
                Action::QueryPlatform,
            ),
            (Phase::AwaitRelease, Event::ReleaseFetched(Err(m))) => (
                Resolver { tool, env, root, cache, phase: Phase::Finished },
                Action::Finish(Err(ResolveError::Io { message: m })),
            ),
            (Phase::AwaitPlatform { release }, Event::Platform(os, arch)) => enter_install_stage(
                tool,
                env,
                root,
                cache,
                release,
                os,
                arch,
            ),
            (Phase::AwaitDir { version_dir, binary_path, url }, Event::DirMade(Ok(_))) => {
                let probe = binary_path.clone();
                (
                    Resolver {
                        tool,
                        env,
                        root,
                        cache,
                        phase: Phase::AwaitInstallProbe { version_dir, binary_path, url },
                    },
                    Action::ProbeFile(probe),
                )
            },
            (Phase::AwaitDir { .. }, Event::DirMade(Err(m))) => (
                Resolver { tool, env, root, cache, phase: Phase::Finished },
                Action::Finish(Err(ResolveError::Io { message: m })),
            ),
            (Phase::AwaitInstallProbe { binary_path, .. }, Event::FileProbe(true)) => (
                Resolver {
                    tool,
                    env,
                    root,
                    cache: Some(binary_path.clone()),
                    phase: Phase::Finished,
                },
                Action::Finish(Ok(Command::for_binary(binary_path))),
            ),
            (
                Phase::AwaitInstallProbe { version_dir, binary_path, url },
                Event::FileProbe(false),
            ) => (
                Resolver {
                    tool,
                    env,
                    root,
                    cache,
                    phase: Phase::AwaitDownloadNotice { version_dir, binary_path, url },
                },
                Action::AnnounceDownloading,
            ),
            (Phase::AwaitDownloadNotice { version_dir, binary_path, url }, Event::Ack) => {
                let dest = binary_path.clone();
                (
                    Resolver {
                        tool,
                        env,
                        root,
                        cache,
                        phase: Phase::AwaitDownload { version_dir, binary_path },
                    },
                    Action::Download { url, dest },
                )
            },
            (Phase::AwaitDownload { version_dir, binary_path }, Event::Downloaded(Ok(_))) => {
                let target = binary_path.clone();
                (
                    Resolver {
                        tool,
                        env,
                        root,
                        cache,
                        phase: Phase::AwaitExecBit { version_dir, binary_path },
                    },
                    Action::MakeExecutable(target),
                )
            },
            (Phase::AwaitDownload { .. }, Event::Downloaded(Err(m))) => (
                Resolver { tool, env, root, cache, phase: Phase::Finished },
                Action::Finish(Err(ResolveError::Io { message: m })),
            ),
            (Phase::AwaitExecBit { version_dir, binary_path }, Event::ExecBitSet(Ok(_))) => (
                Resolver {
                    tool,
                    env,
                    root,
                    cache,
                    phase: Phase::AwaitListing { version_dir, binary_path },
                },
                Action::ListInstallRoot,
            ),
            (Phase::AwaitExecBit { .. }, Event::ExecBitSet(Err(m))) => (
                Resolver { tool, env, root, cache, phase: Phase::Finished },
                Action::Finish(Err(ResolveError::Io { message: m })),
            ),
            (Phase::AwaitListing { version_dir, binary_path }, Event::Listed(Ok(entries))) => {
                let stale = stale_entries(&entries, &version_dir);
                (
                    Resolver {
                        tool,
                        env,
                        root,
                        cache,
                        phase: Phase::AwaitCleanup { binary_path },
                    },
                    Action::RemoveStale(stale),
                )
            },
            (Phase::AwaitListing { .. }, Event::Listed(Err(m))) => (
                Resolver { tool, env, root, cache, phase: Phase::Finished },
                Action::Finish(Err(ResolveError::Io { message: m })),
            ),
            (Phase::AwaitCleanup { binary_path }, Event::Ack) => (
                Resolver {
                    tool,
                    env,
                    root,
                    cache: Some(binary_path.clone()),
                    phase: Phase::Finished,
                },
                Action::Finish(Ok(Command::for_binary(binary_path))),
            ),
            _ => (
                Resolver { tool, env, root, cache, phase: Phase::Finished },
                Action::Finish(Err(ResolveError::UnexpectedEvent)),
            ),
        }
    }
}

/// A resolution that finds the tool on the search path returns that
/// path, and the whole exchange asks for no network access and no
/// filesystem write: only the path query and the final report.
pub proof fn lemma_path_hit_resolves_quietly(s: AbsResolver, p: Seq<char>)
    requires
        s.phase is Idle,
    ensures
        ({
            let o1 = step_spec(s, AbsEvent::Start);
            let o2 = step_spec(o1.next, AbsEvent::PathFound(Some(p)));
            &&& o1.action == AbsAction::QueryPath
            &&& o2.action == AbsAction::Finish(Ok(abs_command_for(p)))
            &&& o2.next.phase is Finished
            &&& !is_write_action(o1.action) && !is_network_action(o1.action)
            &&& !is_write_action(o2.action) && !is_network_action(o2.action)
        }),
{
}

/// A resolution after an earlier success returns the identical cached
/// path when the file still exists, without asking for any download,
/// network access or filesystem write.
pub proof fn lemma_cache_hit_returns_cached_path(s: AbsResolver, c: Seq<char>)
    requires
        s.phase is Idle,
        s.cache == Some(c),
    ensures
        ({
            let o1 = step_spec(s, AbsEvent::Start);
            let o2 = step_spec(o1.next, AbsEvent::PathFound(None));
            let o3 = step_spec(o2.next, AbsEvent::FileProbe(true));
            &&& o1.action == AbsAction::QueryPath
            &&& o2.action == AbsAction::ProbeFile(c)
            &&& o3.action == AbsAction::Finish(Ok(abs_command_for(c)))
            &&& o3.next.phase is Finished
            &&& o3.next.cache == Some(c)
            &&& !is_write_action(o1.action) && !is_network_action(o1.action)
            &&& !is_write_action(o2.action) && !is_network_action(o2.action)
            &&& !is_write_action(o3.action) && !is_network_action(o3.action)
        }),
{
}

/// When the release lacks the asset named for this platform, the
/// resolution reports the missing name and is over; together with
/// [`lemma_finished_never_acts`], no download is ever asked for.
pub proof fn lemma_missing_asset_fails_without_download(
    s: AbsResolver,
    release: AbsRelease,
    os: Os,
    arch: Arch,
    name: Seq<char>,
)
    requires
        s.phase == (AbsPhase::AwaitPlatform { release }),
        asset_name_spec(os, arch) == Some(name),
        find_asset_spec(release.assets, name) is None,
    ensures
        step_spec(s, AbsEvent::Platform(os, arch)).action == AbsAction::Finish(
            Err(AbsError::AssetNotFound { asset_name: name }),
        ),
        step_spec(s, AbsEvent::Platform(os, arch)).next.phase is Finished,
{
}

/// The pruning asked for after an install names every listed sibling
/// of the new version directory and never that directory itself.
pub proof fn lemma_cleanup_spares_current(
    s: AbsResolver,
    version_dir: Seq<char>,
    binary_path: Seq<char>,
    entries: Seq<Seq<char>>,
)
    requires
        s.phase == (AbsPhase::AwaitListing { version_dir, binary_path }),
    ensures
        ({
            let o = step_spec(s, AbsEvent::Listed(Ok(entries)));
            &&& o.action == AbsAction::RemoveStale(stale_of(entries, version_dir))
            &&& !stale_of(entries, version_dir).contains(version_dir)
            &&& forall|i: int|
                0 <= i < entries.len() && entries[i] != version_dir ==> stale_of(
                    entries,
                    version_dir,
                ).contains(entries[i])
        }),
{
    crate::assets::lemma_stale_spares_only_current(entries, version_dir);
}

/// A resolution with no cached path and no `HOME` in the environment
/// fails deterministically once the search path misses, instead of
/// resolving to any path.
pub proof fn lemma_missing_home_fails(s: AbsResolver)
    requires
        s.phase is Idle,
        s.cache is None,
        env_lookup(s.env, "HOME"@) is None,
    ensures
        ({
            let o1 = step_spec(s, AbsEvent::Start);
            let o2 = step_spec(o1.next, AbsEvent::PathFound(None));
            &&& o2.action == AbsAction::Finish(Err(AbsError::MissingHome))
            &&& o2.next.phase is Finished
        }),
{
}

/// An action that acquires a binary: the copy into the state
/// directory, or the release download.
pub open spec fn is_acquisition(a: AbsAction) -> bool {
    a is CopyTo || a is Download
}

/// Holds of the phases from which no acquisition can ever be asked
/// for again.
pub open spec fn acquisition_settled(p: AbsPhase) -> bool {
    match p {
        AbsPhase::AwaitCopy { .. } => true,
        AbsPhase::AwaitDownload { .. } => true,
        AbsPhase::AwaitExecBit { .. } => true,
        AbsPhase::AwaitListing { .. } => true,
        AbsPhase::AwaitCleanup { .. } => true,
        AbsPhase::Finished => true,
        _ => false,
    }
}

/// How many acquisition actions the machine asks for when fed
/// `events`, one after the other.
pub open spec fn acquisitions_in_run(s: AbsResolver, events: Seq<AbsEvent>) -> nat
    decreases events.len(),
{
    if events.len() == 0 {
        0
    } else {
        let o = step_spec(s, events[0]);
        (if is_acquisition(o.action) {
            1nat
        } else {
            0nat
        }) + acquisitions_in_run(o.next, events.drop_first())
    }
}

/// Once the machine passes the point of acquisition, no run of any
/// length asks for another copy or download.
pub proof fn lemma_no_acquisition_after_settled(s: AbsResolver, events: Seq<AbsEvent>)
    requires
        acquisition_settled(s.phase),
    ensures
        acquisitions_in_run(s, events) == 0,
    decreases events.len(),
{
    if events.len() > 0 {
        let o = step_spec(s, events[0]);
        assert(!is_acquisition(o.action));
        assert(acquisition_settled(o.next.phase));
        lemma_no_acquisition_after_settled(o.next, events.drop_first());
    }
}

/// At most one binary acquisition — one copy or one download — is
/// asked for in a resolution, however the exchange goes.
pub proof fn lemma_at_most_one_acquisition(s: AbsResolver, events: Seq<AbsEvent>)
    ensures
        acquisitions_in_run(s, events) <= 1,
    decreases events.len(),
{
    if events.len() > 0 {
        let o = step_spec(s, events[0]);
        if is_acquisition(o.action) {
            assert(acquisition_settled(o.next.phase));
            lemma_no_acquisition_after_settled(o.next, events.drop_first());
        } else {
            lemma_at_most_one_acquisition(o.next, events.drop_first());
        }
    }
}

/// A finished machine asks for nothing further: every later step only
/// reports an error and stays finished, so no write, download or other
/// work follows a resolution's end.
pub proof fn lemma_finished_never_acts(s: AbsResolver, e: AbsEvent)
    requires
        s.phase is Finished,
    ensures
        step_spec(s, e).next.phase is Finished,
        step_spec(s, e).action == AbsAction::Finish(Err(AbsError::UnexpectedEvent)),
        !is_write_action(step_spec(s, e).action),
        !is_network_action(step_spec(s, e).action),
{
}

/// Performs the entry into the project-local copy strategy, exactly as
/// [`local_stage_spec`] prescribes.
fn enter_local_stage(tool: String, env: Vec<(String, String)>, root: String, cache: Option<
    String,
>) -> (r: (Resolver, Action))
    ensures
        r.0@ == local_stage_spec(tool@, env.deep_view(), root@, cache.deep_view()).next,
        r.1@ == local_stage_spec(tool@, env.deep_view(), root@, cache.deep_view()).action,
{
    match state_bin_path(&env, &tool) {
        Err(_) => (
            Resolver { tool, env, root, cache, phase: Phase::Finished },
            Action::Finish(Err(ResolveError::MissingHome)),
        ),
        Ok(dest) => {
            let source = project_bin_path(&root, &tool);
            (
                Resolver {
                    tool,
                    env,
                    root,
                    cache,
                    phase: Phase::AwaitSourceProbe { source: source.clone(), dest },
                },
                Action::ProbeFile(source),
            )
        },
    }
}

/// Performs the reaction to the platform report, exactly as
/// [`platform_stage_spec`] prescribes.
fn enter_install_stage(
    tool: String,
    env: Vec<(String, String)>,
    root: String,
    cache: Option<String>,
    release: Release,
    os: Os,
    arch: Arch,
) -> (r: (Resolver, Action))
    ensures
        r.0@ == platform_stage_spec(
            tool@,
            env.deep_view(),
            root@,
            cache.deep_view(),
            release@,
            os,
            arch,
        ).next,
        r.1@ == platform_stage_spec(
            tool@,
            env.deep_view(),
            root@,
            cache.deep_view(),
            release@,
            os,
            arch,
        ).action,
{
    match asset_name(os, arch) {
        Err(_) => (
            Resolver { tool, env, root, cache, phase: Phase::Finished },
            Action::Finish(Err(ResolveError::UnsupportedPlatform)),
        ),
        Ok(name) => match find_asset(&release.assets, &name) {
            None => (
                Resolver { tool, env, root, cache, phase: Phase::Finished },
                Action::Finish(Err(ResolveError::AssetNotFound { asset_name: name })),
            ),
            Some(i) => {
                let url = release.assets[i].download_url.clone();
                let version_dir = version_dir_name(&release.version);
                let binary_path = join_path(&version_dir, &name);
                (
                    Resolver {
                        tool,
                        env,
                        root,
                        cache,
                        phase: Phase::AwaitDir {
                            version_dir: version_dir.clone(),
                            binary_path,
                            url,
                        },
                    },
                    Action::EnsureDir(version_dir),
                )
            },
        },
    }
}

} // verus!
