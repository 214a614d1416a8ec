//! What holds of every resolution, whatever the host answers.

use crate::binary::ResolvedBinaryView;
use crate::error::InstallErrorView;
use crate::layout::{
    is_stale, lemma_prune_leaves_only_current, lemma_version_directory_is_contained,
    spec_directory_prefix, spec_install_path, spec_stale_versions,
};
use crate::plan::{spec_plan_install, InstallPlanView};
use crate::platform::{Architecture, Os};
use crate::protocol::{EventView, Origin, PhaseView, RequestView};
use crate::provision::{spec_advance, spec_request, spec_run};
use crate::release::ReleaseView;
use crate::text::has_path_separator;
use vstd::prelude::*;

verus! {

/// The most answers that the host can still be asked for from `phase` on.
pub open spec fn answers_left(phase: PhaseView) -> nat {
    match phase {
        PhaseView::LocatingLocal => 9,
        PhaseView::CheckingCache { .. } => 8,
        PhaseView::CheckingForUpdate => 7,
        PhaseView::DetectingPlatform { .. } => 6,
        PhaseView::AssetSelected { .. } => 5,
        PhaseView::Downloading { .. } => 4,
        PhaseView::MakingExecutable { .. } => 3,
        PhaseView::Installed { .. } => 2,
        PhaseView::Pruning { .. } => 1,
        PhaseView::Discarding { .. } => 1,
        PhaseView::LocalFound { .. } => 1,
        PhaseView::Resolved { .. } => 0,
        PhaseView::Failed { .. } => 0,
    }
}

/// Nothing is tried twice and nothing is waited for in vain: an answer to
/// the outstanding request brings the resolution closer to its end, any
/// other event is ignored, and the end is reached when nothing is left to
/// ask.
pub proof fn lemma_every_answer_brings_the_end_closer(
    cache: Option<Seq<char>>,
    phase: PhaseView,
    event: EventView,
)
    ensures
        answers_left(phase) == 0 <==> phase.is_terminal(),
        phase.is_terminal() <==> spec_request(phase) is Return,
        ({
            let (remembered, next) = spec_advance(cache, phase, event);
            if event.answers(spec_request(phase)) {
                answers_left(next) < answers_left(phase)
            } else {
                next == phase && remembered == cache
            }
        }),
{
}

/// Once a resolution is over, no answer of the host changes its outcome or
/// what is remembered.
pub proof fn lemma_terminal_phase_is_final(
    cache: Option<Seq<char>>,
    phase: PhaseView,
    events: Seq<EventView>,
)
    requires
        phase.is_terminal(),
    ensures
        spec_run(cache, phase, events) == (cache, phase),
    decreases events.len(),
{
    if events.len() > 0 {
        lemma_terminal_phase_is_final(cache, phase, events.drop_first());
    }
}

/// The tool was found on the command path at `path`, and the resolution has
/// not left that track.
spec fn on_local_track(phase: PhaseView, path: Seq<char>) -> bool {
    match phase {
        PhaseView::LocalFound { path: found } => found == path,
        PhaseView::Resolved { binary, origin } => binary.path == path && binary.env is Some
            && origin == Origin::LocalFound,
        _ => false,
    }
}

proof fn lemma_local_track_is_kept(
    cache: Option<Seq<char>>,
    phase: PhaseView,
    path: Seq<char>,
    events: Seq<EventView>,
)
    requires
        on_local_track(phase, path),
    ensures
        spec_run(cache, phase, events).0 == cache,
        on_local_track(spec_run(cache, phase, events).1, path),
    decreases events.len(),
{
    if events.len() > 0 {
        let (next_cache, next) = spec_advance(cache, phase, events.first());
        lemma_local_track_is_kept(next_cache, next, path, events.drop_first());
    }
}

/// When the tool is on the command path of the project, nothing is ever
/// installed: however the host goes on answering, the provisioner asks for
/// the shell environment and then returns that path with it. It never asks
/// for a release, a download or any change on disk, nor whether a path
/// exists, and what it remembers stays as it was.
pub proof fn lemma_local_binary_skips_installation(
    cache: Option<Seq<char>>,
    path: Seq<char>,
    events: Seq<EventView>,
)
    requires
        events.len() > 0,
        events.first() == (EventView::CommandLookup { found: Some(path) }),
    ensures
        ({
            let (remembered, phase) = spec_run(cache, PhaseView::LocatingLocal, events);
            &&& remembered == cache
            &&& !spec_request(phase).is_installation()
            &&& spec_request(phase) is ReadShellEnvironment || (spec_request(
                phase,
            ) matches RequestView::Return { outcome: Ok(binary) } && binary.path == path
                && binary.env is Some)
        }),
{
    let (next_cache, next) = spec_advance(cache, PhaseView::LocatingLocal, events.first());
    lemma_local_track_is_kept(next_cache, next, path, events.drop_first());
}

/// The binary that the last installation left is used only after the host
/// has confirmed that it is still on disk: the provisioner asks exactly
/// that, returns the remembered path on a yes, and turns to the release
/// index on a no.
pub proof fn lemma_cache_is_checked_before_use(path: Seq<char>, exists: bool)
    ensures
        ({
            let (remembered, phase) = spec_advance(
                Some(path),
                PhaseView::LocatingLocal,
                EventView::CommandLookup { found: None },
            );
            let (kept, next) = spec_advance(remembered, phase, EventView::Existence { exists });
            &&& spec_request(phase) == (RequestView::CheckExistence { path })
            &&& exists ==> spec_request(next) == (RequestView::Return {
                outcome: Ok(ResolvedBinaryView { path, env: None }),
            })
            &&& !exists ==> next is CheckingForUpdate
            &&& kept == Some(path)
        }),
{
}

/// A release whose version holds a path separator is given up as soon as the
/// platform is known: the resolution fails at once, and nothing is asked of
/// the host after that, so nothing is fetched and nothing on disk is
/// touched.
pub proof fn lemma_unsafe_version_fails_before_any_transfer(
    cache: Option<Seq<char>>,
    release: ReleaseView,
    os: Os,
    architecture: Architecture,
    events: Seq<EventView>,
)
    requires
        has_path_separator(release.version),
        events.len() > 0,
        events.first() == (EventView::Platform { os, architecture }),
    ensures
        spec_plan_install(release, os, architecture) is Err,
        ({
            let (remembered, phase) = spec_run(
                cache,
                PhaseView::DetectingPlatform { release },
                events,
            );
            &&& remembered == cache
            &&& phase == (PhaseView::Failed {
                error: spec_plan_install(release, os, architecture)->Err_0,
            })
            &&& spec_request(phase) matches RequestView::Return { outcome: Err(_) }
        }),
{
    let start = PhaseView::DetectingPlatform { release };
    let (next_cache, next) = spec_advance(cache, start, events.first());
    lemma_terminal_phase_is_final(next_cache, next, events.drop_first());
}

/// When the binary of the chosen release is on disk already, nothing is
/// downloaded: however the host goes on answering, the provisioner returns
/// that binary, and remembers it.
pub proof fn lemma_installed_version_is_not_downloaded(
    cache: Option<Seq<char>>,
    plan: InstallPlanView,
    events: Seq<EventView>,
)
    requires
        events.len() > 0,
        events.first() == (EventView::Existence { exists: true }),
    ensures
        ({
            let (remembered, phase) = spec_run(cache, PhaseView::AssetSelected { plan }, events);
            &&& remembered == Some(plan.path.binary)
            &&& !spec_request(phase).is_installation()
            &&& spec_request(phase) == (RequestView::Return {
                outcome: Ok(ResolvedBinaryView { path: plan.path.binary, env: None }),
            })
        }),
{
    let start = PhaseView::AssetSelected { plan };
    let (next_cache, next) = spec_advance(cache, start, events.first());
    lemma_terminal_phase_is_final(next_cache, next, events.drop_first());
}

/// After a version is installed, the provisioner asks for the removal of
/// exactly the other versions found in the working directory: every entry
/// under the tool's directory prefix except the directory of the new
/// version, which is never among them. When that is done it returns the new
/// binary and remembers it.
pub proof fn lemma_installation_prunes_other_versions(
    cache: Option<Seq<char>>,
    plan: InstallPlanView,
    entries: Seq<Seq<char>>,
)
    ensures
        ({
            let (remembered, listed) = spec_advance(
                cache,
                PhaseView::Installed { plan },
                EventView::DirectoryListing { entries },
            );
            let (finally, done) = spec_advance(remembered, listed, EventView::Removed);
            let stale = spec_stale_versions(entries, plan.path.directory);
            &&& spec_request(listed) == (RequestView::RemoveDirectories { names: stale })
            &&& !stale.contains(plan.path.directory)
            &&& forall|name: Seq<char>| #[trigger]
                entries.contains(name) && is_stale(name, plan.path.directory) ==> stale.contains(
                    name,
                )
            &&& forall|name: Seq<char>| #[trigger]
                stale.contains(name) ==> entries.contains(name) && is_stale(
                    name,
                    plan.path.directory,
                )
            &&& spec_request(done) == (RequestView::Return {
                outcome: Ok(ResolvedBinaryView { path: plan.path.binary, env: None }),
            })
            &&& finally == Some(plan.path.binary)
        }),
{
    lemma_prune_leaves_only_current(entries, plan.path.directory);
}

/// A failed download or a failed permission change leaves nothing behind
/// that the provisioner does not ask to have removed: the directory of the
/// new version is discarded before the failure is returned, and the failure
/// returned is the one that occurred, whether or not the removal worked.
pub proof fn lemma_failed_installation_is_discarded(
    cache: Option<Seq<char>>,
    plan: InstallPlanView,
    reason: Seq<char>,
)
    ensures
        ({
            let (remembered, failed) = spec_advance(
                cache,
                PhaseView::Downloading { plan },
                EventView::Downloaded { outcome: Err(reason) },
            );
            let (finally, done) = spec_advance(remembered, failed, EventView::Removed);
            &&& spec_request(failed) == (RequestView::RemoveDirectory {
                name: plan.path.directory,
            })
            &&& spec_request(done) == (RequestView::Return {
                outcome: Err(InstallErrorView::DownloadFailure { reason }),
            })
            &&& finally == cache
        }),
        ({
            let (remembered, failed) = spec_advance(
                cache,
                PhaseView::MakingExecutable { plan },
                EventView::MadeExecutable { outcome: Err(reason) },
            );
            let (finally, done) = spec_advance(remembered, failed, EventView::Removed);
            &&& spec_request(failed) == (RequestView::RemoveDirectory {
                name: plan.path.directory,
            })
            &&& spec_request(done) == (RequestView::Return {
                outcome: Err(InstallErrorView::PermissionSetFailure { reason }),
            })
            &&& finally == cache
        }),
{
}

/// What is remembered is what was remembered at the start, unless the
/// resolution has ended with the binary of an installation, which is then
/// what is remembered.
spec fn remembers_only_installations(
    before: Option<Seq<char>>,
    remembered: Option<Seq<char>>,
    phase: PhaseView,
) -> bool {
    remembered == before || (phase matches PhaseView::Resolved { binary, origin } && (origin
        == Origin::AlreadyInstalled || origin == Origin::Installed) && remembered == Some(
        binary.path,
    ))
}

proof fn lemma_memory_is_kept(
    before: Option<Seq<char>>,
    cache: Option<Seq<char>>,
    phase: PhaseView,
    events: Seq<EventView>,
)
    requires
        remembers_only_installations(before, cache, phase),
    ensures
        remembers_only_installations(
            before,
            spec_run(cache, phase, events).0,
            spec_run(cache, phase, events).1,
        ),
    decreases events.len(),
{
    if events.len() > 0 {
        let (next_cache, next) = spec_advance(cache, phase, events.first());
        lemma_memory_is_kept(before, next_cache, next, events.drop_first());
    }
}

/// No failure is remembered, and no lookup changes what is: at every point
/// of every resolution the provisioner remembers what it remembered at the
/// start, unless the resolution has ended with the binary of the latest
/// release, found on disk or installed now, which is then what it remembers.
pub proof fn lemma_only_installations_are_remembered(
    cache: Option<Seq<char>>,
    events: Seq<EventView>,
)
    ensures
        ({
            let (remembered, phase) = spec_run(cache, PhaseView::LocatingLocal, events);
            &&& phase is Failed ==> remembered == cache
            &&& remembered != cache ==> (phase matches PhaseView::Resolved { binary, origin }
                && (origin == Origin::AlreadyInstalled || origin == Origin::Installed)
                && remembered == Some(binary.path))
        }),
{
    lemma_memory_is_kept(cache, cache, PhaseView::LocatingLocal, events);
}

/// `name` is the name of a version directory, and of nothing outside the
/// working directory.
pub open spec fn is_contained(name: Seq<char>) -> bool {
    spec_directory_prefix().is_prefix_of(name) && !has_path_separator(name)
}

/// Every directory that the phase will create or discard is a version
/// directory inside the working directory.
spec fn creates_only_contained(phase: PhaseView) -> bool {
    match phase {
        PhaseView::AssetSelected { plan } => is_contained(plan.path.directory),
        PhaseView::Downloading { plan } => is_contained(plan.path.directory),
        PhaseView::MakingExecutable { plan } => is_contained(plan.path.directory),
        PhaseView::Discarding { directory, error } => is_contained(directory),
        _ => true,
    }
}

proof fn lemma_containment_is_kept(
    cache: Option<Seq<char>>,
    phase: PhaseView,
    events: Seq<EventView>,
)
    requires
        creates_only_contained(phase),
    ensures
        creates_only_contained(spec_run(cache, phase, events).1),
    decreases events.len(),
{
    if events.len() > 0 {
        let (next_cache, next) = spec_advance(cache, phase, events.first());
        if let PhaseView::DetectingPlatform { release } = phase {
            if let EventView::Platform { os, architecture } = events.first() {
                if spec_install_path(release.version, os) is Ok {
                    lemma_version_directory_is_contained(release.version);
                }
            }
        }
        lemma_containment_is_kept(next_cache, next, events.drop_first());
    }
}

/// At every point of every resolution, a directory that the host is asked
/// to unpack a download into, or to discard after a failure, is a version
/// directory of the tool whose name holds no path separator: no release tag
/// makes the provisioner reach outside the working directory.
pub proof fn lemma_downloads_stay_in_working_directory(
    cache: Option<Seq<char>>,
    events: Seq<EventView>,
)
    ensures
        ({
            let (remembered, phase) = spec_run(cache, PhaseView::LocatingLocal, events);
            match spec_request(phase) {
                RequestView::Download { directory, .. } => is_contained(directory),
                RequestView::RemoveDirectory { name } => is_contained(name),
                _ => true,
            }
        }),
{
    lemma_containment_is_kept(cache, PhaseView::LocatingLocal, events);
}

} // verus!
