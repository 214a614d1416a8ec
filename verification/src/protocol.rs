//! The conversation between the provisioner and its host.
//!
//! The provisioner never touches the network or the file system itself. In
//! each [`Phase`] it has one [`Request`] outstanding; the host carries the
//! request out and answers with an [`Event`].

use crate::binary::{ResolvedBinary, ResolvedBinaryView};
use crate::error::{InstallError, InstallErrorView};
use crate::plan::{InstallPlan, InstallPlanView};
use crate::platform::{Architecture, ArchiveKind, Os};
use crate::release::{Release, ReleaseView};
use vstd::prelude::*;

verus! {

/// What the host tells the user while an installation is under way.
#[derive(Clone, Copy, Debug, PartialEq, Eq, Structural)]
pub enum InstallStatus {
    CheckingForUpdate,
    Downloading,
}

/// How a binary came to be resolved.
#[derive(Clone, Copy, Debug, PartialEq, Eq, Structural)]
pub enum Origin {
    /// It is on the command path of the project.
    LocalFound,
    /// It was installed earlier in the life of this process and is still
    /// there.
    CacheHit,
    /// The latest release was found on disk.
    AlreadyInstalled,
    /// The latest release was downloaded now.
    Installed,
}

/// Where a resolution stands.
#[derive(Clone, Debug, PartialEq, Eq)]
pub enum Phase {
    /// Asking whether the tool is on the command path of the project.
    LocatingLocal,
    /// The tool is on the command path; asking for the shell environment of
    /// the project.
    LocalFound { path: String },
    /// Asking whether the binary remembered from an earlier installation is
    /// still on disk.
    CheckingCache { path: String },
    /// Asking the release index for the latest release.
    CheckingForUpdate,
    /// The latest release is known; asking for the platform.
    DetectingPlatform { release: Release },
    /// An asset is chosen; asking whether its version is on disk already.
    AssetSelected { plan: InstallPlan },
    /// Fetching and unpacking the asset.
    Downloading { plan: InstallPlan },
    /// Marking the unpacked binary executable.
    MakingExecutable { plan: InstallPlan },
    /// The installation failed; removing what it left behind.
    Discarding { directory: String, error: InstallError },
    /// The installation succeeded; asking what else is in the working
    /// directory.
    Installed { plan: InstallPlan },
    /// Removing the versions that the new one replaces.
    Pruning { installed: String, stale: Vec<String> },
    /// Done: the binary is at hand.
    Resolved { binary: ResolvedBinary, origin: Origin },
    /// Done: there is no binary.
    Failed { error: InstallError },
}

/// The mathematical value of a [`Phase`].
pub enum PhaseView {
    LocatingLocal,
    LocalFound { path: Seq<char> },
    CheckingCache { path: Seq<char> },
    CheckingForUpdate,
    DetectingPlatform { release: ReleaseView },
    AssetSelected { plan: InstallPlanView },
    Downloading { plan: InstallPlanView },
    MakingExecutable { plan: InstallPlanView },
    Discarding { directory: Seq<char>, error: InstallErrorView },
    Installed { plan: InstallPlanView },
    Pruning { installed: Seq<char>, stale: Seq<Seq<char>> },
    Resolved { binary: ResolvedBinaryView, origin: Origin },
    Failed { error: InstallErrorView },
}

impl View for Phase {
    type V = PhaseView;

    open spec fn view(&self) -> PhaseView {
        match *self {
            Phase::LocatingLocal => PhaseView::LocatingLocal,
            Phase::LocalFound { path } => PhaseView::LocalFound { path: path@ },
            Phase::CheckingCache { path } => PhaseView::CheckingCache { path: path@ },
            Phase::CheckingForUpdate => PhaseView::CheckingForUpdate,
            Phase::DetectingPlatform { release } => PhaseView::DetectingPlatform {
                release: release@,
            },
            Phase::AssetSelected { plan } => PhaseView::AssetSelected { plan: plan@ },
            Phase::Downloading { plan } => PhaseView::Downloading { plan: plan@ },
            Phase::MakingExecutable { plan } => PhaseView::MakingExecutable { plan: plan@ },
            Phase::Discarding { directory, error } => PhaseView::Discarding {
                directory: directory@,
                error: error@,
            },
            Phase::Installed { plan } => PhaseView::Installed { plan: plan@ },
            Phase::Pruning { installed, stale } => PhaseView::Pruning {
                installed: installed@,
                stale: stale.deep_view(),
            },
            Phase::Resolved { binary, origin } => PhaseView::Resolved { binary: binary@, origin },
            Phase::Failed { error } => PhaseView::Failed { error: error@ },
        }
    }
}

impl PhaseView {
    /// Nothing more is asked of the host in this phase.
    pub open spec fn is_terminal(self) -> bool {
        self is Resolved || self is Failed
    }
}

/// What the host reports back.
#[derive(Debug, PartialEq, Eq)]
pub enum Event {
    /// The path of the command on the command path of the project, if it is
    /// there.
    CommandLookup { found: Option<String> },
    /// The shell environment of the project.
    ShellEnvironment { variables: Vec<(String, String)> },
    /// Whether the path asked about exists.
    Existence { exists: bool },
    /// The latest release, or why it could not be had.
    LatestRelease { release: Result<Release, String> },
    /// The platform the editor runs on.
    Platform { os: Os, architecture: Architecture },
    /// How fetching and unpacking went.
    Downloaded { outcome: Result<(), String> },
    /// How marking the binary executable went.
    MadeExecutable { outcome: Result<(), String> },
    /// The names of the entries of the working directory; none where it
    /// could not be read.
    DirectoryListing { entries: Vec<String> },
    /// A removal was attempted. Whether it succeeded is of no consequence.
    Removed,
}

/// The mathematical value of an [`Event`].
pub enum EventView {
    CommandLookup { found: Option<Seq<char>> },
    ShellEnvironment { variables: Seq<(Seq<char>, Seq<char>)> },
    Existence { exists: bool },
    LatestRelease { release: Result<ReleaseView, Seq<char>> },
    Platform { os: Os, architecture: Architecture },
    Downloaded { outcome: Result<(), Seq<char>> },
    MadeExecutable { outcome: Result<(), Seq<char>> },
    DirectoryListing { entries: Seq<Seq<char>> },
    Removed,
}

/// The value of the outcome of a release lookup.
pub open spec fn lookup_view(outcome: Result<Release, String>) -> Result<ReleaseView, Seq<char>> {
    match outcome {
        Ok(release) => Ok(release@),
        Err(reason) => Err(reason@),
    }
}

/// The value of the outcome of an action that yields nothing.
pub open spec fn completion_view(outcome: Result<(), String>) -> Result<(), Seq<char>> {
    match outcome {
        Ok(done) => Ok(done),
        Err(reason) => Err(reason@),
    }
}

impl View for Event {
    type V = EventView;

    open spec fn view(&self) -> EventView {
        match *self {
            Event::CommandLookup { found } => EventView::CommandLookup {
                found: found.deep_view(),
            },
            Event::ShellEnvironment { variables } => EventView::ShellEnvironment {
                variables: variables.deep_view(),
            },
            Event::Existence { exists } => EventView::Existence { exists },
            Event::LatestRelease { release } => EventView::LatestRelease {
                release: lookup_view(release),
            },
            Event::Platform { os, architecture } => EventView::Platform { os, architecture },
            Event::Downloaded { outcome } => EventView::Downloaded {
                outcome: completion_view(outcome),
            },
            Event::MadeExecutable { outcome } => EventView::MadeExecutable {
                outcome: completion_view(outcome),
            },
            Event::DirectoryListing { entries } => EventView::DirectoryListing {
                entries: entries.deep_view(),
            },
            Event::Removed => EventView::Removed,
        }
    }
}

/// What the host is asked to do.
#[derive(Debug, PartialEq, Eq)]
pub enum Request<'a> {
    /// Look the command up on the command path of the project. Answered by
    /// [`Event::CommandLookup`].
    LookUpCommand { name: &'a str },
    /// Read the shell environment of the project. Answered by
    /// [`Event::ShellEnvironment`].
    ReadShellEnvironment,
    /// Tell whether the path exists. Answered by [`Event::Existence`].
    CheckExistence { path: &'a str },
    /// Announce the status, then ask the release index for the latest
    /// release of the repository. Answered by [`Event::LatestRelease`].
    FetchLatestRelease {
        announce: InstallStatus,
        repository: &'a str,
        require_assets: bool,
        pre_release: bool,
    },
    /// Tell which platform the editor runs on. Answered by
    /// [`Event::Platform`].
    DetectPlatform,
    /// Announce the status, then fetch the archive and unpack it into the
    /// directory. Answered by [`Event::Downloaded`].
    Download { announce: InstallStatus, url: &'a str, directory: &'a str, archive: ArchiveKind },
    /// Mark the file executable. Answered by [`Event::MadeExecutable`].
    MakeExecutable { path: &'a str },
    /// Remove the directory and all it holds, as far as that is possible.
    /// Answered by [`Event::Removed`].
    RemoveDirectory { name: &'a str },
    /// List the entries of the working directory. Answered by
    /// [`Event::DirectoryListing`].
    ListWorkingDirectory,
    /// Remove each of the directories and all they hold, as far as that is
    /// possible, going on after a failure. Answered by [`Event::Removed`].
    RemoveDirectories { names: &'a Vec<String> },
    /// Nothing: the resolution is over, with this outcome.
    Return { outcome: Result<&'a ResolvedBinary, &'a InstallError> },
}

/// The mathematical value of a [`Request`].
pub enum RequestView {
    LookUpCommand { name: Seq<char> },
    ReadShellEnvironment,
    CheckExistence { path: Seq<char> },
    FetchLatestRelease {
        announce: InstallStatus,
        repository: Seq<char>,
        require_assets: bool,
        pre_release: bool,
    },
    DetectPlatform,
    Download {
        announce: InstallStatus,
        url: Seq<char>,
        directory: Seq<char>,
        archive: ArchiveKind,
    },
    MakeExecutable { path: Seq<char> },
    RemoveDirectory { name: Seq<char> },
    ListWorkingDirectory,
    RemoveDirectories { names: Seq<Seq<char>> },
    Return { outcome: Result<ResolvedBinaryView, InstallErrorView> },
}

/// The value of the outcome of a resolution.
pub open spec fn outcome_view(outcome: Result<&ResolvedBinary, &InstallError>) -> Result<
    ResolvedBinaryView,
    InstallErrorView,
> {
    match outcome {
        Ok(binary) => Ok(binary@),
        Err(error) => Err(error@),
    }
}

impl<'a> View for Request<'a> {
    type V = RequestView;

    open spec fn view(&self) -> RequestView {
        match *self {
            Request::LookUpCommand { name } => RequestView::LookUpCommand { name: name@ },
            Request::ReadShellEnvironment => RequestView::ReadShellEnvironment,
            Request::CheckExistence { path } => RequestView::CheckExistence { path: path@ },
            Request::FetchLatestRelease { announce, repository, require_assets, pre_release } => {
                RequestView::FetchLatestRelease {
                    announce,
                    repository: repository@,
                    require_assets,
                    pre_release,
                }
            },
            Request::DetectPlatform => RequestView::DetectPlatform,
            Request::Download { announce, url, directory, archive } => RequestView::Download {
                announce,
                url: url@,
                directory: directory@,
                archive,
            },
            Request::MakeExecutable { path } => RequestView::MakeExecutable { path: path@ },
            Request::RemoveDirectory { name } => RequestView::RemoveDirectory { name: name@ },
            Request::ListWorkingDirectory => RequestView::ListWorkingDirectory,
            Request::RemoveDirectories { names } => RequestView::RemoveDirectories {
                names: names.deep_view(),
            },
            Request::Return { outcome } => RequestView::Return { outcome: outcome_view(outcome) },
        }
    }
}

impl EventView {
    /// The event is the kind of answer that `request` asks for.
    pub open spec fn answers(self, request: RequestView) -> bool {
        match request {
            RequestView::LookUpCommand { .. } => self is CommandLookup,
            RequestView::ReadShellEnvironment => self is ShellEnvironment,
            RequestView::CheckExistence { .. } => self is Existence,
            RequestView::FetchLatestRelease { .. } => self is LatestRelease,
            RequestView::DetectPlatform => self is Platform,
            RequestView::Download { .. } => self is Downloaded,
            RequestView::MakeExecutable { .. } => self is MadeExecutable,
            RequestView::RemoveDirectory { .. } => self is Removed,
            RequestView::ListWorkingDirectory => self is DirectoryListing,
            RequestView::RemoveDirectories { .. } => self is Removed,
            RequestView::Return { .. } => false,
        }
    }
}

impl RequestView {
    /// The request reaches for the release index, fetches, or changes the
    /// file system.
    pub open spec fn is_installation(self) -> bool {
        self is FetchLatestRelease || self is DetectPlatform || self is Download
            || self is MakeExecutable || self is RemoveDirectory || self is ListWorkingDirectory
            || self is RemoveDirectories
    }
}

} // verus!
