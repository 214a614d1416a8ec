//! The platforms a release can target, and how its assets are named for them.

use vstd::prelude::*;

verus! {

/// The archive format a release asset is packaged in.
#[derive(Clone, Copy, Debug, PartialEq, Eq, Structural)]
pub enum ArchiveKind {
    /// A gzip-compressed tarball.
    GzipTar,
    /// A zip archive.
    Zip,
}

impl ArchiveKind {
    /// The file extension of an archive of this kind, without the leading dot.
    pub open spec fn spec_extension(self) -> Seq<char> {
        match self {
            ArchiveKind::GzipTar => "tar.gz"@,
            ArchiveKind::Zip => "zip"@,
        }
    }

    /// The file extension of an archive of this kind, without the leading dot.
    pub fn extension(self) -> (ext: &'static str)
        ensures
            ext@ == self.spec_extension(),
    {
        match self {
            ArchiveKind::GzipTar => "tar.gz",
            ArchiveKind::Zip => "zip",
        }
    }
}

/// The processor architecture the host editor runs on.
#[derive(Clone, Copy, Debug, PartialEq, Eq, Structural)]
pub enum Architecture {
    /// 64-bit ARM.
    Aarch64,
    /// 32-bit x86.
    X86,
    /// 64-bit x86.
    X8664,
}

impl Architecture {
    /// Whether binaries are published for this architecture.
    pub open spec fn spec_is_supported(self) -> bool {
        self is Aarch64 || self is X8664
    }

    /// Whether binaries are published for this architecture: only the two
    /// 64-bit ones are.
    #[verifier::when_used_as_spec(spec_is_supported)]
    pub fn is_supported(self) -> (supported: bool)
        ensures
            supported == self.spec_is_supported(),
    {
        match self {
            Architecture::Aarch64 | Architecture::X8664 => true,
            Architecture::X86 => false,
        }
    }

    /// The name by which diagnostics refer to this architecture.
    pub open spec fn spec_label(self) -> Seq<char> {
        match self {
            Architecture::Aarch64 => "Architecture::Aarch64"@,
            Architecture::X86 => "Architecture::X86"@,
            Architecture::X8664 => "Architecture::X8664"@,
        }
    }

    /// The name by which diagnostics refer to this architecture, written as
    /// the host writes it.
    pub fn label(self) -> (name: &'static str)
        ensures
            name@ == self.spec_label(),
    {
        match self {
            Architecture::Aarch64 => "Architecture::Aarch64",
            Architecture::X86 => "Architecture::X86",
            Architecture::X8664 => "Architecture::X8664",
        }
    }

    /// The architecture component of the target triples under which binaries
    /// for this architecture are published, if any are.
    pub open spec fn spec_triple_name(self) -> Option<Seq<char>> {
        match self {
            Architecture::Aarch64 => Some("aarch64"@),
            Architecture::X86 => None,
            Architecture::X8664 => Some("x86_64"@),
        }
    }

    /// The architecture component of the target triples under which binaries
    /// for this architecture are published. There is one exactly for the
    /// supported architectures.
    pub fn triple_name(self) -> (name: Option<&'static str>)
        ensures
            name is Some == self.spec_is_supported(),
            match name {
                Some(text) => self.spec_triple_name() == Some(text@),
                None => self.spec_triple_name() is None,
            },
    {
        match self {
            Architecture::Aarch64 => Some("aarch64"),
            Architecture::X86 => None,
            Architecture::X8664 => Some("x86_64"),
        }
    }
}

/// The vendor, system and ABI part of a target triple.
#[derive(Clone, Copy, Debug, PartialEq, Eq, Structural)]
pub enum Target {
    /// macOS.
    AppleDarwin,
    /// Linux, linked against glibc.
    UnknownLinuxGnu,
    /// Linux, linked against musl.
    UnknownLinuxMusl,
    /// Windows, MSVC toolchain.
    PcWindowsMsvc,
}

impl Target {
    /// The text of this target in a triple.
    pub open spec fn spec_name(self) -> Seq<char> {
        match self {
            Target::AppleDarwin => "apple-darwin"@,
            Target::UnknownLinuxGnu => "unknown-linux-gnu"@,
            Target::UnknownLinuxMusl => "unknown-linux-musl"@,
            Target::PcWindowsMsvc => "pc-windows-msvc"@,
        }
    }

    /// The text of this target in a triple.
    pub fn name(self) -> (name: &'static str)
        ensures
            name@ == self.spec_name(),
    {
        match self {
            Target::AppleDarwin => "apple-darwin",
            Target::UnknownLinuxGnu => "unknown-linux-gnu",
            Target::UnknownLinuxMusl => "unknown-linux-musl",
            Target::PcWindowsMsvc => "pc-windows-msvc",
        }
    }
}

/// The operating system the host editor runs on.
#[derive(Clone, Copy, Debug, PartialEq, Eq, Structural)]
pub enum Os {
    Mac,
    Linux,
    Windows,
}

impl Os {
    /// The archive format in which releases for this system are published.
    pub open spec fn spec_archive_kind(self) -> ArchiveKind {
        match self {
            Os::Windows => ArchiveKind::Zip,
            _ => ArchiveKind::GzipTar,
        }
    }

    /// The archive format in which releases for this system are published:
    /// zip on Windows, a gzip-compressed tarball everywhere else.
    #[verifier::when_used_as_spec(spec_archive_kind)]
    pub fn archive_kind(self) -> (kind: ArchiveKind)
        ensures
            kind == self.spec_archive_kind(),
    {
        match self {
            Os::Windows => ArchiveKind::Zip,
            _ => ArchiveKind::GzipTar,
        }
    }

    /// The target whose asset is preferred on this system.
    pub open spec fn spec_primary_target(self) -> Target {
        match self {
            Os::Mac => Target::AppleDarwin,
            Os::Linux => Target::UnknownLinuxGnu,
            Os::Windows => Target::PcWindowsMsvc,
        }
    }

    /// The target whose asset is preferred on this system. On Linux that is
    /// the glibc build.
    #[verifier::when_used_as_spec(spec_primary_target)]
    pub fn primary_target(self) -> (target: Target)
        ensures
            target == self.spec_primary_target(),
    {
        match self {
            Os::Mac => Target::AppleDarwin,
            Os::Linux => Target::UnknownLinuxGnu,
            Os::Windows => Target::PcWindowsMsvc,
        }
    }

    /// The target to try when the preferred one has no asset.
    pub open spec fn spec_fallback_target(self) -> Option<Target> {
        match self {
            Os::Linux => Some(Target::UnknownLinuxMusl),
            _ => None,
        }
    }

    /// The target to try when the preferred one has no asset: the musl build
    /// on Linux, none elsewhere.
    #[verifier::when_used_as_spec(spec_fallback_target)]
    pub fn fallback_target(self) -> (target: Option<Target>)
        ensures
            target == self.spec_fallback_target(),
    {
        match self {
            Os::Linux => Some(Target::UnknownLinuxMusl),
            _ => None,
        }
    }
}

/// The full target triple: `{architecture}-{target}`.
pub open spec fn spec_triple(architecture: Seq<char>, target: Target) -> Seq<char> {
    architecture + "-"@ + target.spec_name()
}

/// The full target triple: `{architecture}-{target}`.
pub fn triple(architecture: &str, target: Target) -> (text: String)
    ensures
        text@ == spec_triple(architecture@, target),
{
    let mut text = String::from_str(architecture);
    text.append("-");
    text.append(target.name());
    text
}

/// The ending that identifies an asset built for the given triple and packed
/// as the given kind of archive: `{architecture}-{target}.{extension}`.
pub open spec fn spec_asset_suffix(
    architecture: Seq<char>,
    target: Target,
    kind: ArchiveKind,
) -> Seq<char> {
    spec_triple(architecture, target) + "."@ + kind.spec_extension()
}

/// The ending that identifies an asset built for the given triple and packed
/// as the given kind of archive: `{architecture}-{target}.{extension}`.
pub fn asset_suffix(architecture: &str, target: Target, kind: ArchiveKind) -> (suffix: String)
    ensures
        suffix@ == spec_asset_suffix(architecture@, target, kind),
{
    let mut suffix = triple(architecture, target);
    suffix.append(".");
    suffix.append(kind.extension());
    suffix
}

} // verus!
