//! What installing a release on a platform amounts to.

use crate::error::{InstallError, InstallErrorView};
use crate::layout::{build_install_path, spec_install_path, InstallPath, InstallPathView};
use crate::platform::{Architecture, ArchiveKind, Os};
use crate::release::{is_served, select_asset, spec_select_asset, Release, ReleaseView};
use crate::text::has_path_separator;
use vstd::prelude::*;

verus! {

/// Everything needed to install one release: what to fetch, how it is
/// packed, and where it goes.
#[derive(Clone, Debug, PartialEq, Eq)]
pub struct InstallPlan {
    /// Where the chosen asset can be fetched from.
    pub download_url: String,
    /// How the chosen asset is packed.
    pub archive: ArchiveKind,
    /// Where the release is installed.
    pub path: InstallPath,
}

/// The mathematical value of an [`InstallPlan`].
pub struct InstallPlanView {
    pub download_url: Seq<char>,
    pub archive: ArchiveKind,
    pub path: InstallPathView,
}

impl View for InstallPlan {
    type V = InstallPlanView;

    open spec fn view(&self) -> InstallPlanView {
        InstallPlanView {
            download_url: self.download_url@,
            archive: self.archive,
            path: self.path@,
        }
    }
}

/// The plan for installing `release` on a platform: its asset for that
/// platform, unpacked into the directory of its version. The asset is chosen
/// first, so a release without a fitting asset is reported as such whatever
/// its version looks like.
pub open spec fn spec_plan_install(
    release: ReleaseView,
    os: Os,
    architecture: Architecture,
) -> Result<InstallPlanView, InstallErrorView> {
    match spec_select_asset(release, os, architecture) {
        Err(error) => Err(error),
        Ok(asset) => match spec_install_path(release.version, os) {
            Err(error) => Err(error),
            Ok(path) => Ok(
                InstallPlanView {
                    download_url: asset.download_url,
                    archive: os.spec_archive_kind(),
                    path,
                },
            ),
        },
    }
}

/// The value of the outcome of planning an installation.
pub open spec fn plan_view(planned: Result<InstallPlan, InstallError>) -> Result<
    InstallPlanView,
    InstallErrorView,
> {
    match planned {
        Ok(plan) => Ok(plan@),
        Err(error) => Err(error@),
    }
}

/// Plans the installation of `release` on a platform: chooses its asset for
/// that platform and derives the directory of its version.
pub fn plan_install(release: &Release, os: Os, architecture: Architecture) -> (planned: Result<
    InstallPlan,
    InstallError,
>)
    ensures
        plan_view(planned) == spec_plan_install(release@, os, architecture),
        planned is Ok <==> is_served(release@, os, architecture) && !has_path_separator(
            release@.version,
        ),
{
    let asset = match select_asset(release, os, architecture) {
        Ok(asset) => asset,
        Err(error) => {
            return Err(error);
        },
    };
    let path = match build_install_path(release.version.as_str(), os) {
        Ok(path) => path,
        Err(error) => {
            return Err(error);
        },
    };
    Ok(InstallPlan { download_url: asset.download_url.clone(), archive: os.archive_kind(), path })
}

} // verus!
