//! Where a version of the tool is installed, and which installed versions
//! are out of date.

use crate::error::{InstallError, InstallErrorView};
use crate::platform::Os;
use crate::text::{
    contains_path_separator, has_path_separator, is_path_separator, join, same_text, starts_with,
};
use vstd::prelude::*;

verus! {

/// The name of the tool: of its binary, and of the command by which it is
/// looked up.
pub const TOOL_NAME: &'static str = "rumdl";

/// What the name of every version directory begins with.
pub open spec fn spec_directory_prefix() -> Seq<char> {
    TOOL_NAME@ + "-"@
}

/// What the name of every version directory begins with.
pub fn directory_prefix() -> (prefix: String)
    ensures
        prefix@ == spec_directory_prefix(),
{
    join(TOOL_NAME, "-")
}

/// The directory that holds one installed version, with the binary in it.
#[derive(Clone, Debug, PartialEq, Eq)]
pub struct InstallPath {
    /// The name of the version directory, relative to the working directory.
    pub directory: String,
    /// The path of the binary inside the version directory.
    pub binary: String,
}

/// The mathematical value of an [`InstallPath`].
pub struct InstallPathView {
    pub directory: Seq<char>,
    pub binary: Seq<char>,
}

impl View for InstallPath {
    type V = InstallPathView;

    open spec fn view(&self) -> InstallPathView {
        InstallPathView { directory: self.directory@, binary: self.binary@ }
    }
}

/// The name of the directory of `version`: `{tool}-{version}`.
pub open spec fn spec_version_directory(version: Seq<char>) -> Seq<char> {
    spec_directory_prefix() + version
}

/// The file name of the binary on the given system.
pub open spec fn spec_binary_name(os: Os) -> Seq<char> {
    match os {
        Os::Windows => TOOL_NAME@ + ".exe"@,
        _ => TOOL_NAME@,
    }
}

/// Where `version` is installed on the given system, unless the version
/// cannot stand in a directory name.
pub open spec fn spec_install_path(version: Seq<char>, os: Os) -> Result<
    InstallPathView,
    InstallErrorView,
> {
    if has_path_separator(version) {
        Err(InstallErrorView::InvalidVersionString { version })
    } else {
        Ok(
            InstallPathView {
                directory: spec_version_directory(version),
                binary: spec_version_directory(version) + "/"@ + spec_binary_name(os),
            },
        )
    }
}

/// The value of the outcome of a path construction.
pub open spec fn install_path_view(built: Result<InstallPath, InstallError>) -> Result<
    InstallPathView,
    InstallErrorView,
> {
    match built {
        Ok(path) => Ok(path@),
        Err(error) => Err(error@),
    }
}

/// Derives the version directory and the path of the binary in it.
///
/// The directory is named `{tool}-{version}` and the binary is the file named
/// after the tool inside it, with `.exe` appended on Windows. A version that
/// holds a forward slash or a backslash is refused, so that no release tag
/// can point outside the working directory; nothing is stripped or replaced.
pub fn build_install_path(version: &str, os: Os) -> (built: Result<InstallPath, InstallError>)
    ensures
        install_path_view(built) == spec_install_path(version@, os),
        built is Err <==> has_path_separator(version@),
{
    if contains_path_separator(version) {
        return Err(InstallError::InvalidVersionString { version: String::from_str(version) });
    }
    let mut directory = directory_prefix();
    directory.append(version);
    let mut binary = directory.clone();
    binary.append("/");
    binary.append(TOOL_NAME);
    match os {
        Os::Windows => {
            binary.append(".exe");
        },
        _ => {},
    }
    assert(binary@ =~= spec_version_directory(version@) + "/"@ + spec_binary_name(os));
    Ok(InstallPath { directory, binary })
}

/// The directory of a version without a path separator has none in its own
/// name.
pub proof fn lemma_version_directory_is_contained(version: Seq<char>)
    requires
        !has_path_separator(version),
    ensures
        spec_directory_prefix().is_prefix_of(spec_version_directory(version)),
        !has_path_separator(spec_version_directory(version)),
{
    reveal_strlit("rumdl");
    reveal_strlit("-");
    let prefix = spec_directory_prefix();
    let name = spec_version_directory(version);
    assert(name.subrange(0, prefix.len() as int) =~= prefix);
    assert forall|i: int| 0 <= i < name.len() implies !is_path_separator(#[trigger] name[i]) by {
        if i >= prefix.len() {
            assert(name[i] == version[i - prefix.len()]);
        }
    }
}

/// `name` is the directory of a version other than the one in `current`.
pub open spec fn is_stale(name: Seq<char>, current: Seq<char>) -> bool {
    spec_directory_prefix().is_prefix_of(name) && name != current
}

/// The entries of a directory listing that are directories of versions other
/// than the one in `current`, in the order of the listing.
pub open spec fn spec_stale_versions(entries: Seq<Seq<char>>, current: Seq<char>) -> Seq<
    Seq<char>,
> {
    entries.filter(|name: Seq<char>| is_stale(name, current))
}

/// What is left of a directory listing once every entry named in `removed`
/// is gone.
pub open spec fn spec_remaining(entries: Seq<Seq<char>>, removed: Seq<Seq<char>>) -> Seq<
    Seq<char>,
> {
    entries.filter(|name: Seq<char>| !removed.contains(name))
}

/// Picks from the entries of the working directory those to remove once the
/// version in `current` is installed: every entry whose name begins with the
/// tool's directory prefix, except `current` itself.
pub fn stale_versions(entries: &Vec<String>, current: &str) -> (stale: Vec<String>)
    ensures
        stale.deep_view() == spec_stale_versions(entries.deep_view(), current@),
        !stale.deep_view().contains(current@),
        forall|name: Seq<char>| #[trigger]
            stale.deep_view().contains(name) <==> entries.deep_view().contains(name) && is_stale(
                name,
                current@,
            ),
{
    proof {
        lemma_prune_leaves_only_current(entries.deep_view(), current@);
    }
    let prefix = directory_prefix();
    let ghost names = entries.deep_view();
    let ghost keep = |name: Seq<char>| is_stale(name, current@);
    let mut stale: Vec<String> = Vec::new();
    let mut i: usize = 0;
    assert(names.take(0).filter(keep) =~= Seq::<Seq<char>>::empty()) by {
        reveal(Seq::filter);
    }
    while i < entries.len()
        invariant
            i <= entries.len(),
            names == entries.deep_view(),
            keep == |name: Seq<char>| is_stale(name, current@),
            prefix@ == spec_directory_prefix(),
            stale.deep_view() == names.take(i as int).filter(keep),
        decreases entries.len() - i,
    {
        let name = &entries[i];
        let ghost before = stale.deep_view();
        proof {
            assert(names[i as int] == name@);
            assert(names.take(i + 1) =~= names.take(i as int).push(name@));
            names.take(i as int).lemma_filter_push(name@, keep);
        }
        if starts_with(name.as_str(), prefix.as_str()) && !same_text(name.as_str(), current) {
            stale.push(name.clone());
            assert(stale.deep_view() =~= before.push(name@));
        }
        i += 1;
    }
    assert(names.take(entries.len() as int) =~= names);
    stale
}

/// Once the stale entries of a listing are removed, the only entry left
/// under the tool's directory prefix is the current version: every other
/// such entry is among those removed, the current one is not, and nothing
/// outside the listing is.
pub proof fn lemma_prune_leaves_only_current(entries: Seq<Seq<char>>, current: Seq<char>)
    ensures
        forall|name: Seq<char>| #[trigger]
            entries.contains(name) && is_stale(name, current) ==> spec_stale_versions(
                entries,
                current,
            ).contains(name),
        forall|name: Seq<char>| #[trigger]
            spec_stale_versions(entries, current).contains(name) ==> entries.contains(name)
                && is_stale(name, current),
        !spec_stale_versions(entries, current).contains(current),
        forall|name: Seq<char>| #[trigger]
            spec_remaining(entries, spec_stale_versions(entries, current)).contains(name)
                && spec_directory_prefix().is_prefix_of(name) ==> name == current,
        entries.contains(current) ==> spec_remaining(
            entries,
            spec_stale_versions(entries, current),
        ).contains(current),
{
    let keep = |name: Seq<char>| is_stale(name, current);
    let stale = spec_stale_versions(entries, current);
    let stay = |name: Seq<char>| !stale.contains(name);
    let left = spec_remaining(entries, stale);
    assert forall|name: Seq<char>| #[trigger]
        entries.contains(name) && is_stale(name, current) implies stale.contains(name) by {
        let i = choose|i: int| 0 <= i < entries.len() && entries[i] == name;
        entries.lemma_filter_contains(keep, i);
    }
    assert forall|name: Seq<char>| #[trigger] stale.contains(name) implies entries.contains(name)
        && is_stale(name, current) by {
        entries.lemma_filter_contains_rev(keep, name);
        let i = choose|i: int| 0 <= i < stale.len() && stale[i] == name;
        entries.lemma_filter_pred(keep, i);
    }
    assert forall|name: Seq<char>| #[trigger]
        left.contains(name) && spec_directory_prefix().is_prefix_of(name) implies name
        == current by {
        entries.lemma_filter_contains_rev(stay, name);
        let i = choose|i: int| 0 <= i < left.len() && left[i] == name;
        entries.lemma_filter_pred(stay, i);
    }
    if entries.contains(current) {
        let i = choose|i: int| 0 <= i < entries.len() && entries[i] == current;
        entries.lemma_filter_contains(stay, i);
    }
}

} // verus!
