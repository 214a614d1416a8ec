//! The provisioner: the decisions that lead from "the editor wants the
//! language server" to a binary on disk.
//!
//! A resolution is a walk through the [`Phase`]s. In every phase one
//! [`Request`] is outstanding; the host performs it and hands back an
//! [`Event`], on which [`Rumdl::advance`] decides the next phase. The only
//! state that outlives a resolution is the path of the binary that the last
//! installation left.

use crate::binary::{ResolvedBinary, ResolvedBinaryView};
use crate::error::{InstallError, InstallErrorView};
use crate::layout::{spec_stale_versions, stale_versions, TOOL_NAME};
use crate::plan::{plan_install, spec_plan_install};
use crate::protocol::{
    Event, EventView, InstallStatus, Origin, Phase, PhaseView, Request, RequestView,
};
use vstd::prelude::*;

verus! {

/// The repository whose releases are installed.
pub const REPOSITORY: &'static str = "rvben/rumdl";

/// The provisioner of the binary.
pub struct Rumdl {
    binary_cache: Option<String>,
}

impl View for Rumdl {
    type V = Option<Seq<char>>;

    /// The path of the binary that the last installation left, if there was
    /// one.
    closed spec fn view(&self) -> Option<Seq<char>> {
        self.binary_cache.deep_view()
    }
}

/// The phase that follows `phase` on `event`, with what is remembered
/// afterwards. An event that does not answer the request of the phase
/// changes nothing.
pub open spec fn spec_advance(cache: Option<Seq<char>>, phase: PhaseView, event: EventView) -> (
    Option<Seq<char>>,
    PhaseView,
) {
    match (phase, event) {
        (PhaseView::LocatingLocal, EventView::CommandLookup { found: Some(path) }) => (
            cache,
            PhaseView::LocalFound { path },
        ),
        (PhaseView::LocatingLocal, EventView::CommandLookup { found: None }) => match cache {
            Some(path) => (cache, PhaseView::CheckingCache { path }),
            None => (cache, PhaseView::CheckingForUpdate),
        },
        (PhaseView::LocalFound { path }, EventView::ShellEnvironment { variables }) => (
            cache,
            PhaseView::Resolved {
                binary: ResolvedBinaryView { path, env: Some(variables) },
                origin: Origin::LocalFound,
            },
        ),
        (PhaseView::CheckingCache { path }, EventView::Existence { exists }) => if exists {
            (
                cache,
                PhaseView::Resolved {
                    binary: ResolvedBinaryView { path, env: None },
                    origin: Origin::CacheHit,
                },
            )
        } else {
            (cache, PhaseView::CheckingForUpdate)
        },
        (PhaseView::CheckingForUpdate, EventView::LatestRelease { release }) => match release {
            Ok(release) => (cache, PhaseView::DetectingPlatform { release }),
            Err(reason) => (
                cache,
                PhaseView::Failed { error: InstallErrorView::ReleaseLookupFailure { reason } },
            ),
        },
        (PhaseView::DetectingPlatform { release }, EventView::Platform { os, architecture }) => {
            match spec_plan_install(release, os, architecture) {
                Ok(plan) => (cache, PhaseView::AssetSelected { plan }),
                Err(error) => (cache, PhaseView::Failed { error }),
            }
        },
        (PhaseView::AssetSelected { plan }, EventView::Existence { exists }) => if exists {
            (
                Some(plan.path.binary),
                PhaseView::Resolved {
                    binary: ResolvedBinaryView { path: plan.path.binary, env: None },
                    origin: Origin::AlreadyInstalled,
                },
            )
        } else {
            (cache, PhaseView::Downloading { plan })
        },
        (PhaseView::Downloading { plan }, EventView::Downloaded { outcome }) => match outcome {
            Ok(_) => (cache, PhaseView::MakingExecutable { plan }),
            Err(reason) => (
                cache,
                PhaseView::Discarding {
                    directory: plan.path.directory,
                    error: InstallErrorView::DownloadFailure { reason },
                },
            ),
        },
        (PhaseView::MakingExecutable { plan }, EventView::MadeExecutable { outcome }) => {
            match outcome {
                Ok(_) => (cache, PhaseView::Installed { plan }),
                Err(reason) => (
                    cache,
                    PhaseView::Discarding {
                        directory: plan.path.directory,
                        error: InstallErrorView::PermissionSetFailure { reason },
                    },
                ),
            }
        },
        (PhaseView::Discarding { directory, error }, EventView::Removed) => (
            cache,
            PhaseView::Failed { error },
        ),
        (PhaseView::Installed { plan }, EventView::DirectoryListing { entries }) => (
            cache,
            PhaseView::Pruning {
                installed: plan.path.binary,
                stale: spec_stale_versions(entries, plan.path.directory),
            },
        ),
        (PhaseView::Pruning { installed, stale }, EventView::Removed) => (
            Some(installed),
            PhaseView::Resolved {
                binary: ResolvedBinaryView { path: installed, env: None },
                origin: Origin::Installed,
            },
        ),
        _ => (cache, phase),
    }
}

/// What the host is asked to do in `phase`.
pub open spec fn spec_request(phase: PhaseView) -> RequestView {
    match phase {
        PhaseView::LocatingLocal => RequestView::LookUpCommand { name: TOOL_NAME@ },
        PhaseView::LocalFound { path } => RequestView::ReadShellEnvironment,
        PhaseView::CheckingCache { path } => RequestView::CheckExistence { path },
        PhaseView::CheckingForUpdate => RequestView::FetchLatestRelease {
            announce: InstallStatus::CheckingForUpdate,
            repository: REPOSITORY@,
            require_assets: true,
            pre_release: false,
        },
        PhaseView::DetectingPlatform { release } => RequestView::DetectPlatform,
        PhaseView::AssetSelected { plan } => RequestView::CheckExistence {
            path: plan.path.binary,
        },
        PhaseView::Downloading { plan } => RequestView::Download {
            announce: InstallStatus::Downloading,
            url: plan.download_url,
            directory: plan.path.directory,
            archive: plan.archive,
        },
        PhaseView::MakingExecutable { plan } => RequestView::MakeExecutable {
            path: plan.path.binary,
        },
        PhaseView::Discarding { directory, error } => RequestView::RemoveDirectory {
            name: directory,
        },
        PhaseView::Installed { plan } => RequestView::ListWorkingDirectory,
        PhaseView::Pruning { installed, stale } => RequestView::RemoveDirectories { names: stale },
        PhaseView::Resolved { binary, origin } => RequestView::Return { outcome: Ok(binary) },
        PhaseView::Failed { error } => RequestView::Return { outcome: Err(error) },
    }
}

/// Where a resolution stands after the host has answered with `events`, one
/// after the other.
pub open spec fn spec_run(cache: Option<Seq<char>>, phase: PhaseView, events: Seq<EventView>) -> (
    Option<Seq<char>>,
    PhaseView,
)
    decreases events.len(),
{
    if events.len() == 0 {
        (cache, phase)
    } else {
        let (cache, phase) = spec_advance(cache, phase, events.first());
        spec_run(cache, phase, events.drop_first())
    }
}

impl Phase {
    /// The phase in which every resolution begins.
    pub fn start() -> (phase: Phase)
        ensures
            phase@ == PhaseView::LocatingLocal,
    {
        Phase::LocatingLocal
    }

    /// What the host is asked to do in this phase.
    pub fn request<'a>(&'a self) -> (request: Request<'a>)
        ensures
            request@ == spec_request(self@),
    {
        match self {
            Phase::LocatingLocal => Request::LookUpCommand { name: TOOL_NAME },
            Phase::LocalFound { path } => Request::ReadShellEnvironment,
            Phase::CheckingCache { path } => Request::CheckExistence { path: path.as_str() },
            Phase::CheckingForUpdate => Request::FetchLatestRelease {
                announce: InstallStatus::CheckingForUpdate,
                repository: REPOSITORY,
                require_assets: true,
                pre_release: false,
            },
            Phase::DetectingPlatform { release } => Request::DetectPlatform,
            Phase::AssetSelected { plan } => Request::CheckExistence {
                path: plan.path.binary.as_str(),
            },
            Phase::Downloading { plan } => Request::Download {
                announce: InstallStatus::Downloading,
                url: plan.download_url.as_str(),
                directory: plan.path.directory.as_str(),
                archive: plan.archive,
            },
            Phase::MakingExecutable { plan } => Request::MakeExecutable {
                path: plan.path.binary.as_str(),
            },
            Phase::Discarding { directory, error } => Request::RemoveDirectory {
                name: directory.as_str(),
            },
            Phase::Installed { plan } => Request::ListWorkingDirectory,
            Phase::Pruning { installed, stale } => Request::RemoveDirectories { names: stale },
            Phase::Resolved { binary, origin } => Request::Return { outcome: Ok(binary) },
            Phase::Failed { error } => Request::Return { outcome: Err(error) },
        }
    }

    /// Whether the resolution is over.
    pub fn is_terminal(&self) -> (terminal: bool)
        ensures
            terminal == self@.is_terminal(),
    {
        match self {
            Phase::Resolved { .. } | Phase::Failed { .. } => true,
            _ => false,
        }
    }
}

impl Rumdl {
    /// A provisioner that remembers no installation.
    pub fn new() -> (rumdl: Rumdl)
        ensures
            rumdl@ is None,
    {
        Rumdl { binary_cache: None }
    }

    /// The path of the binary that the last installation left, if there was
    /// one.
    pub fn cached_binary(&self) -> (path: Option<&String>)
        ensures
            path.deep_view() == self@,
    {
        self.binary_cache.as_ref()
    }

    /// Decides the phase that follows `phase` when the host answers with
    /// `event`.
    ///
    /// A binary on the command path of the project is used as it is, in the
    /// shell environment of the project. Failing that, the binary of the
    /// last installation is used if it is still on disk. Failing that, the
    /// latest release is installed, unless it is on disk already, and the
    /// versions that it replaces are removed; its binary is remembered. When
    /// the download or the permission change fails, what was unpacked is
    /// removed again and the failure is reported. An event that does not
    /// answer the request of the phase changes nothing.
    pub fn advance(&mut self, phase: Phase, event: Event) -> (next: Phase)
        ensures
            (final(self)@, next@) == spec_advance(old(self)@, phase@, event@),
    {
        match (phase, event) {
            (Phase::LocatingLocal, Event::CommandLookup { found: Some(path) }) => {
                Phase::LocalFound { path }
            },
            (Phase::LocatingLocal, Event::CommandLookup { found: None }) => {
                match &self.binary_cache {
                    Some(path) => Phase::CheckingCache { path: path.clone() },
                    None => Phase::CheckingForUpdate,
                }
            },
            (Phase::LocalFound { path }, Event::ShellEnvironment { variables }) => {
                Phase::Resolved {
                    binary: ResolvedBinary { path, env: Some(variables) },
                    origin: Origin::LocalFound,
                }
            },
            (Phase::CheckingCache { path }, Event::Existence { exists }) => {
                if exists {
                    Phase::Resolved {
                        binary: ResolvedBinary { path, env: None },
                        origin: Origin::CacheHit,
                    }
                } else {
                    Phase::CheckingForUpdate
                }
            },
            (Phase::CheckingForUpdate, Event::LatestRelease { release }) => {
                match release {
                    Ok(release) => Phase::DetectingPlatform { release },
                    Err(reason) => Phase::Failed {
                        error: InstallError::ReleaseLookupFailure { reason },
                    },
                }
            },
            (Phase::DetectingPlatform { release }, Event::Platform { os, architecture }) => {
                match plan_install(&release, os, architecture) {
                    Ok(plan) => Phase::AssetSelected { plan },
                    Err(error) => Phase::Failed { error },
                }
            },
            (Phase::AssetSelected { plan }, Event::Existence { exists }) => {
                if exists {
                    self.binary_cache = Some(plan.path.binary.clone());
                    Phase::Resolved {
                        binary: ResolvedBinary { path: plan.path.binary, env: None },
                        origin: Origin::AlreadyInstalled,
                    }
                } else {
                    Phase::Downloading { plan }
                }
            },
            (Phase::Downloading { plan }, Event::Downloaded { outcome }) => {
                match outcome {
                    Ok(_) => Phase::MakingExecutable { plan },
                    Err(reason) => Phase::Discarding {
                        directory: plan.path.directory,
                        error: InstallError::DownloadFailure { reason },
                    },
                }
            },
            (Phase::MakingExecutable { plan }, Event::MadeExecutable { outcome }) => {
                match outcome {
                    Ok(_) => Phase::Installed { plan },
                    Err(reason) => Phase::Discarding {
                        directory: plan.path.directory,
                        error: InstallError::PermissionSetFailure { reason },
                    },
                }
            },
            (Phase::Discarding { directory, error }, Event::Removed) => Phase::Failed { error },
            (Phase::Installed { plan }, Event::DirectoryListing { entries }) => {
                let stale = stale_versions(&entries, plan.path.directory.as_str());
                Phase::Pruning { installed: plan.path.binary, stale }
            },
            (Phase::Pruning { installed, stale }, Event::Removed) => {
                self.binary_cache = Some(installed.clone());
                Phase::Resolved {
                    binary: ResolvedBinary { path: installed, env: None },
                    origin: Origin::Installed,
                }
            },
            (phase, _) => phase,
        }
    }
}

} // verus!
