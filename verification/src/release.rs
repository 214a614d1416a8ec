//! Releases of the tool, and the choice of the asset that fits a platform.

use crate::error::{missing_asset_reason, InstallError, InstallErrorView};
use crate::platform::{
    asset_suffix, spec_asset_suffix, spec_triple, triple, Architecture, ArchiveKind, Os, Target,
};
use crate::text::{ends_with, lemma_occurs_in_concat, occurs_in};
use vstd::prelude::*;

verus! {

/// One downloadable file attached to a release.
#[derive(Clone, Debug, PartialEq, Eq)]
pub struct ReleaseAsset {
    /// The file name, which carries the target triple it was built for.
    pub name: String,
    /// Where the file can be fetched from.
    pub download_url: String,
}

/// The mathematical value of a [`ReleaseAsset`].
pub struct ReleaseAssetView {
    pub name: Seq<char>,
    pub download_url: Seq<char>,
}

impl View for ReleaseAsset {
    type V = ReleaseAssetView;

    open spec fn view(&self) -> ReleaseAssetView {
        ReleaseAssetView { name: self.name@, download_url: self.download_url@ }
    }
}

/// A published version of the tool with its assets.
#[derive(Clone, Debug, PartialEq, Eq)]
pub struct Release {
    /// The version, as tagged upstream.
    pub version: String,
    /// The files attached to the release, in the order the index lists them.
    pub assets: Vec<ReleaseAsset>,
}

/// The mathematical value of a [`Release`].
pub struct ReleaseView {
    pub version: Seq<char>,
    pub assets: Seq<ReleaseAssetView>,
}

/// The values of a list of assets, in the same order.
pub open spec fn asset_views(assets: Seq<ReleaseAsset>) -> Seq<ReleaseAssetView> {
    assets.map_values(|asset: ReleaseAsset| asset@)
}

impl View for Release {
    type V = ReleaseView;

    open spec fn view(&self) -> ReleaseView {
        ReleaseView { version: self.version@, assets: asset_views(self.assets@) }
    }
}

/// The asset's file name ends with `suffix`.
pub open spec fn is_built_for(asset: ReleaseAssetView, suffix: Seq<char>) -> bool {
    suffix.is_suffix_of(asset.name)
}

/// Some asset in the list has a file name that ends with `suffix`.
pub open spec fn has_match(assets: Seq<ReleaseAssetView>, suffix: Seq<char>) -> bool {
    exists|i: int| 0 <= i < assets.len() && is_built_for(#[trigger] assets[i], suffix)
}

/// The asset at `index` is the first in the list whose file name ends with
/// `suffix`.
pub open spec fn is_first_match(
    assets: Seq<ReleaseAssetView>,
    suffix: Seq<char>,
    index: int,
) -> bool {
    &&& 0 <= index < assets.len()
    &&& is_built_for(assets[index], suffix)
    &&& forall|j: int| 0 <= j < index ==> !is_built_for(#[trigger] assets[j], suffix)
}

/// The position of the first asset whose file name ends with `suffix`, if
/// there is one.
pub open spec fn first_match(assets: Seq<ReleaseAssetView>, suffix: Seq<char>) -> Option<int> {
    if exists|i: int| is_first_match(assets, suffix, i) {
        Some(choose|i: int| is_first_match(assets, suffix, i))
    } else {
        None
    }
}

/// At most one position is that of the first match.
pub proof fn lemma_first_match_unique(
    assets: Seq<ReleaseAssetView>,
    suffix: Seq<char>,
    index: int,
)
    requires
        is_first_match(assets, suffix, index),
    ensures
        first_match(assets, suffix) == Some(index),
{
    let chosen = choose|i: int| is_first_match(assets, suffix, i);
    assert(is_first_match(assets, suffix, chosen));
    if chosen < index {
        assert(!is_built_for(assets[chosen], suffix));
    } else if index < chosen {
        assert(!is_built_for(assets[index], suffix));
    }
}

/// Among the first `upto` assets either none matches, or one of them is the
/// first match of the whole list.
proof fn lemma_scan(assets: Seq<ReleaseAssetView>, suffix: Seq<char>, upto: int)
    requires
        0 <= upto <= assets.len(),
    ensures
        (forall|j: int| 0 <= j < upto ==> !is_built_for(#[trigger] assets[j], suffix)) || (
        exists|i: int| 0 <= i < upto && is_first_match(assets, suffix, i)),
    decreases upto,
{
    if upto > 0 {
        lemma_scan(assets, suffix, upto - 1);
        if forall|j: int| 0 <= j < upto - 1 ==> !is_built_for(#[trigger] assets[j], suffix) {
            if is_built_for(assets[upto - 1], suffix) {
                assert(is_first_match(assets, suffix, upto - 1));
            }
        } else {
            let i = choose|i: int| 0 <= i < upto - 1 && is_first_match(assets, suffix, i);
            assert(0 <= i < upto && is_first_match(assets, suffix, i));
        }
    }
}

/// A first match exists exactly when some asset matches, and it is what
/// [`first_match`] gives.
pub proof fn lemma_first_match(assets: Seq<ReleaseAssetView>, suffix: Seq<char>)
    ensures
        first_match(assets, suffix) is Some <==> has_match(assets, suffix),
        first_match(assets, suffix) matches Some(index) ==> is_first_match(assets, suffix, index),
{
    lemma_scan(assets, suffix, assets.len() as int);
    if has_match(assets, suffix) {
        let j = choose|j: int| 0 <= j < assets.len() && is_built_for(#[trigger] assets[j], suffix);
        assert(is_built_for(assets[j], suffix));
        let i = choose|i: int| 0 <= i < assets.len() && is_first_match(assets, suffix, i);
        assert(is_first_match(assets, suffix, i));
    }
    if first_match(assets, suffix) is Some {
        let index = first_match(assets, suffix)->0;
        assert(is_first_match(assets, suffix, index));
        assert(is_built_for(assets[index], suffix));
    }
}

/// The position of the first asset whose file name ends with `suffix`, if
/// any asset has such a name.
pub fn find_asset(assets: &Vec<ReleaseAsset>, suffix: &str) -> (found: Option<usize>)
    ensures
        found is Some <==> has_match(asset_views(assets@), suffix@),
        found matches Some(index) ==> is_first_match(asset_views(assets@), suffix@, index as int),
        match found {
            Some(index) => first_match(asset_views(assets@), suffix@) == Some(index as int),
            None => first_match(asset_views(assets@), suffix@) is None,
        },
{
    let ghost views = asset_views(assets@);
    let mut i: usize = 0;
    while i < assets.len()
        invariant
            i <= assets.len(),
            views == asset_views(assets@),
            forall|j: int| 0 <= j < i ==> !is_built_for(#[trigger] views[j], suffix@),
        decreases assets.len() - i,
    {
        if ends_with(assets[i].name.as_str(), suffix) {
            proof {
                assert(views[i as int] == assets@[i as int]@);
                assert(is_first_match(views, suffix@, i as int));
                lemma_first_match_unique(views, suffix@, i as int);
                lemma_first_match(views, suffix@);
            }
            return Some(i);
        }
        assert(views[i as int] == assets@[i as int]@);
        i += 1;
    }
    proof {
        lemma_first_match(views, suffix@);
    }
    None
}

/// The outcome of choosing an asset when the architecture goes by
/// `architecture` in target triples: the first asset for the preferred target
/// of the system; failing that, the first one for its fallback target, where
/// it has one.
pub open spec fn spec_select_for(
    assets: Seq<ReleaseAssetView>,
    os: Os,
    architecture: Seq<char>,
) -> Result<ReleaseAssetView, InstallErrorView> {
    let kind = os.spec_archive_kind();
    let primary = os.spec_primary_target();
    match first_match(assets, spec_asset_suffix(architecture, primary, kind)) {
        Some(index) => Ok(assets[index]),
        None => match os.spec_fallback_target() {
            Some(fallback) => match first_match(
                assets,
                spec_asset_suffix(architecture, fallback, kind),
            ) {
                Some(index) => Ok(assets[index]),
                None => Err(
                    InstallErrorView::NoCompatibleAsset {
                        triple: spec_triple(architecture, primary),
                        fallback: Some(spec_triple(architecture, fallback)),
                    },
                ),
            },
            None => Err(
                InstallErrorView::NoCompatibleAsset {
                    triple: spec_triple(architecture, primary),
                    fallback: None,
                },
            ),
        },
    }
}

/// The outcome of choosing the asset of `release` for a platform.
pub open spec fn spec_select_asset(
    release: ReleaseView,
    os: Os,
    architecture: Architecture,
) -> Result<ReleaseAssetView, InstallErrorView> {
    match architecture.spec_triple_name() {
        None => Err(InstallErrorView::UnsupportedArchitecture { architecture }),
        Some(name) => spec_select_for(release.assets, os, name),
    }
}

/// The release has an asset for the platform: the architecture is a
/// supported one, and some asset is built for the preferred target of the
/// system or, where it has one, for its fallback target.
pub open spec fn is_served(release: ReleaseView, os: Os, architecture: Architecture) -> bool {
    architecture.spec_triple_name() matches Some(name) && {
        let kind = os.spec_archive_kind();
        ||| has_match(release.assets, spec_asset_suffix(name, os.spec_primary_target(), kind))
        ||| (os.spec_fallback_target() matches Some(fallback) && has_match(
            release.assets,
            spec_asset_suffix(name, fallback, kind),
        ))
    }
}

/// An asset is selected exactly for the platforms that the release serves,
/// and it is one of the assets of the release.
pub proof fn lemma_selection(release: ReleaseView, os: Os, architecture: Architecture)
    ensures
        spec_select_asset(release, os, architecture) is Ok <==> is_served(
            release,
            os,
            architecture,
        ),
        spec_select_asset(release, os, architecture) matches Ok(asset) ==> release.assets.contains(
            asset,
        ),
{
    if let Some(name) = architecture.spec_triple_name() {
        let kind = os.spec_archive_kind();
        lemma_first_match(release.assets, spec_asset_suffix(name, os.spec_primary_target(), kind));
        if let Some(fallback) = os.spec_fallback_target() {
            lemma_first_match(release.assets, spec_asset_suffix(name, fallback, kind));
        }
    }
}

/// The value of the outcome of an asset selection.
pub open spec fn selection_view(
    selected: Result<&ReleaseAsset, InstallError>,
) -> Result<ReleaseAssetView, InstallErrorView> {
    match selected {
        Ok(asset) => Ok(asset@),
        Err(error) => Err(error@),
    }
}

/// Chooses the asset of `release` that fits the platform.
///
/// Binaries exist for 64-bit x86 and 64-bit ARM only; any other architecture
/// is refused. An asset fits when its file name ends with
/// `{architecture}-{target}.{extension}`, and the first such asset is taken.
/// On Linux the glibc build is preferred and the musl build is the fallback;
/// the other systems have a single target. When nothing fits, the error names
/// every triple that was looked for.
pub fn select_asset<'a>(release: &'a Release, os: Os, architecture: Architecture) -> (selected:
    Result<&'a ReleaseAsset, InstallError>)
    ensures
        selection_view(selected) == spec_select_asset(release@, os, architecture),
        selected is Ok <==> is_served(release@, os, architecture),
        selected matches Ok(asset) ==> release@.assets.contains(asset@),
{
    proof {
        lemma_selection(release@, os, architecture);
    }
    let name = match architecture.triple_name() {
        Some(name) => name,
        None => {
            return Err(InstallError::UnsupportedArchitecture { architecture });
        },
    };
    let kind = os.archive_kind();
    let primary = os.primary_target();
    let suffix = asset_suffix(name, primary, kind);
    if let Some(index) = find_asset(&release.assets, suffix.as_str()) {
        return Ok(&release.assets[index]);
    }
    match os.fallback_target() {
        Some(fallback) => {
            let suffix = asset_suffix(name, fallback, kind);
            match find_asset(&release.assets, suffix.as_str()) {
                Some(index) => Ok(&release.assets[index]),
                None => Err(
                    InstallError::NoCompatibleAsset {
                        triple: triple(name, primary),
                        fallback: Some(triple(name, fallback)),
                    },
                ),
            }
        },
        None => Err(
            InstallError::NoCompatibleAsset { triple: triple(name, primary), fallback: None },
        ),
    }
}

/// An architecture for which no binary is published is refused on every
/// system and whatever the release holds, and the message names it.
pub proof fn lemma_unsupported_architecture_is_refused(
    release: ReleaseView,
    os: Os,
    architecture: Architecture,
)
    requires
        !architecture.spec_is_supported(),
    ensures
        spec_select_asset(release, os, architecture) == Err::<ReleaseAssetView, InstallErrorView>(
            InstallErrorView::UnsupportedArchitecture { architecture },
        ),
        occurs_in(
            architecture.spec_label(),
            InstallErrorView::UnsupportedArchitecture { architecture }.message(),
        ),
{
    lemma_occurs_in_concat("Unsupported architecture: "@, architecture.spec_label(), Seq::empty());
    assert("Unsupported architecture: "@ + architecture.spec_label() + Seq::<char>::empty()
        =~= "Unsupported architecture: "@ + architecture.spec_label());
}

/// On Linux, when no asset is a glibc build but some asset is a musl build,
/// the selection succeeds with the first musl build.
pub proof fn lemma_musl_fallback_is_taken(
    release: ReleaseView,
    architecture: Architecture,
    name: Seq<char>,
)
    requires
        architecture.spec_triple_name() == Some(name),
        !has_match(
            release.assets,
            spec_asset_suffix(name, Target::UnknownLinuxGnu, ArchiveKind::GzipTar),
        ),
        has_match(
            release.assets,
            spec_asset_suffix(name, Target::UnknownLinuxMusl, ArchiveKind::GzipTar),
        ),
    ensures
        spec_select_asset(release, Os::Linux, architecture) matches Ok(asset) && exists|index: int|
            is_first_match(
                release.assets,
                spec_asset_suffix(name, Target::UnknownLinuxMusl, ArchiveKind::GzipTar),
                index,
            ) && asset == release.assets[index],
{
    let glibc = spec_asset_suffix(name, Target::UnknownLinuxGnu, ArchiveKind::GzipTar);
    let musl = spec_asset_suffix(name, Target::UnknownLinuxMusl, ArchiveKind::GzipTar);
    lemma_first_match(release.assets, glibc);
    lemma_first_match(release.assets, musl);
    let index = first_match(release.assets, musl)->0;
    assert(is_first_match(release.assets, musl, index));
}

/// On Linux, when no asset is a glibc build and none is a musl build, the
/// selection fails, and the message holds the reason for each of the two
/// attempts.
pub proof fn lemma_double_failure_reports_both(
    release: ReleaseView,
    architecture: Architecture,
    name: Seq<char>,
)
    requires
        architecture.spec_triple_name() == Some(name),
        !has_match(
            release.assets,
            spec_asset_suffix(name, Target::UnknownLinuxGnu, ArchiveKind::GzipTar),
        ),
        !has_match(
            release.assets,
            spec_asset_suffix(name, Target::UnknownLinuxMusl, ArchiveKind::GzipTar),
        ),
    ensures
        spec_select_asset(release, Os::Linux, architecture) matches Err(error) && occurs_in(
            missing_asset_reason(spec_triple(name, Target::UnknownLinuxGnu)),
            error.message(),
        ) && occurs_in(
            missing_asset_reason(spec_triple(name, Target::UnknownLinuxMusl)),
            error.message(),
        ),
{
    let glibc = spec_asset_suffix(name, Target::UnknownLinuxGnu, ArchiveKind::GzipTar);
    let musl = spec_asset_suffix(name, Target::UnknownLinuxMusl, ArchiveKind::GzipTar);
    lemma_first_match(release.assets, glibc);
    lemma_first_match(release.assets, musl);
    let first = missing_asset_reason(spec_triple(name, Target::UnknownLinuxGnu));
    let second = missing_asset_reason(spec_triple(name, Target::UnknownLinuxMusl));
    let between = "; fallback also failed: "@;
    let message = first + between + second;
    lemma_occurs_in_concat(Seq::empty(), first, between + second);
    assert(Seq::<char>::empty() + first + (between + second) =~= message);
    lemma_occurs_in_concat(first + between, second, Seq::empty());
    assert(first + between + second + Seq::<char>::empty() =~= message);
}

} // verus!
