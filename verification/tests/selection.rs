use zed_rumdl::error::InstallError;
use zed_rumdl::platform::{asset_suffix, triple, Architecture, ArchiveKind, Os, Target};
use zed_rumdl::release::{find_asset, select_asset, Release, ReleaseAsset};

fn asset_named(name: &str) -> ReleaseAsset {
    ReleaseAsset {
        name: name.to_string(),
        download_url: format!("https://example.invalid/download/{name}"),
    }
}

fn release_with(version: &str, names: &[&str]) -> Release {
    Release {
        version: version.to_string(),
        assets: names.iter().map(|name| asset_named(name)).collect(),
    }
}

#[test]
fn linux_x86_64_takes_the_glibc_asset() {
    let release = release_with("1.2.3", &["rumdl-x86_64-unknown-linux-gnu.tar.gz"]);
    let selected = select_asset(&release, Os::Linux, Architecture::X8664);
    assert_eq!(selected, Ok(&asset_named("rumdl-x86_64-unknown-linux-gnu.tar.gz")));
}

#[test]
fn linux_falls_back_to_the_musl_asset() {
    let release = release_with("1.2.3", &["rumdl-x86_64-unknown-linux-musl.tar.gz"]);
    let selected = select_asset(&release, Os::Linux, Architecture::X8664);
    assert_eq!(selected, Ok(&asset_named("rumdl-x86_64-unknown-linux-musl.tar.gz")));
}

#[test]
fn glibc_is_preferred_to_musl_whatever_the_order() {
    let release = release_with(
        "1.2.3",
        &[
            "rumdl-aarch64-unknown-linux-musl.tar.gz",
            "rumdl-x86_64-unknown-linux-musl.tar.gz",
            "rumdl-x86_64-unknown-linux-gnu.tar.gz",
            "rumdl-aarch64-unknown-linux-gnu.tar.gz",
        ],
    );
    assert_eq!(
        select_asset(&release, Os::Linux, Architecture::X8664).map(|a| a.name.as_str()),
        Ok("rumdl-x86_64-unknown-linux-gnu.tar.gz")
    );
    assert_eq!(
        select_asset(&release, Os::Linux, Architecture::Aarch64).map(|a| a.name.as_str()),
        Ok("rumdl-aarch64-unknown-linux-gnu.tar.gz")
    );
}

#[test]
fn the_first_of_several_matching_assets_is_taken() {
    let release = release_with(
        "2.0.0",
        &[
            "checksums.txt",
            "rumdl-v2.0.0-aarch64-apple-darwin.tar.gz",
            "rumdl-aarch64-apple-darwin.tar.gz",
        ],
    );
    let selected = select_asset(&release, Os::Mac, Architecture::Aarch64).unwrap();
    assert_eq!(selected.name, "rumdl-v2.0.0-aarch64-apple-darwin.tar.gz");
    assert_eq!(
        selected.download_url,
        "https://example.invalid/download/rumdl-v2.0.0-aarch64-apple-darwin.tar.gz"
    );
    assert_eq!(find_asset(&release.assets, "aarch64-apple-darwin.tar.gz"), Some(1));
    assert_eq!(find_asset(&release.assets, ".txt"), Some(0));
    assert_eq!(find_asset(&release.assets, ".zip"), None);
}

#[test]
fn windows_takes_the_zip_asset() {
    let release = release_with(
        "1.2.3",
        &["rumdl-x86_64-pc-windows-msvc.tar.gz", "rumdl-x86_64-pc-windows-msvc.zip"],
    );
    let selected = select_asset(&release, Os::Windows, Architecture::X8664).unwrap();
    assert_eq!(selected.name, "rumdl-x86_64-pc-windows-msvc.zip");
}

#[test]
fn an_asset_must_end_with_the_suffix() {
    let release = release_with("1.2.3", &["rumdl-x86_64-unknown-linux-gnu.tar.gz.sha256"]);
    assert!(select_asset(&release, Os::Linux, Architecture::X8664).is_err());
}

#[test]
fn unsupported_architecture_is_refused_on_every_system() {
    let release = release_with(
        "1.2.3",
        &[
            "rumdl-x86_64-unknown-linux-gnu.tar.gz",
            "rumdl-x86_64-apple-darwin.tar.gz",
            "rumdl-x86_64-pc-windows-msvc.zip",
        ],
    );
    for os in [Os::Mac, Os::Linux, Os::Windows] {
        let error = select_asset(&release, os, Architecture::X86).unwrap_err();
        assert_eq!(
            error,
            InstallError::UnsupportedArchitecture { architecture: Architecture::X86 }
        );
        assert_eq!(error.message(), "Unsupported architecture: Architecture::X86");
    }
}

#[test]
fn linux_without_any_build_reports_both_attempts() {
    let release = release_with("1.2.3", &["rumdl-x86_64-apple-darwin.tar.gz"]);
    let error = select_asset(&release, Os::Linux, Architecture::X8664).unwrap_err();
    assert_eq!(
        error,
        InstallError::NoCompatibleAsset {
            triple: "x86_64-unknown-linux-gnu".to_string(),
            fallback: Some("x86_64-unknown-linux-musl".to_string()),
        }
    );
    let message = error.message();
    assert!(message.contains("No compatible Rumdl binary found for x86_64-unknown-linux-gnu"));
    assert!(message.contains("No compatible Rumdl binary found for x86_64-unknown-linux-musl"));
    assert_eq!(
        message,
        "No compatible Rumdl binary found for x86_64-unknown-linux-gnu; fallback also failed: \
         No compatible Rumdl binary found for x86_64-unknown-linux-musl"
    );
}

#[test]
fn other_systems_do_not_retry() {
    let release = release_with("1.2.3", &["rumdl-aarch64-unknown-linux-musl.tar.gz"]);
    let error = select_asset(&release, Os::Mac, Architecture::Aarch64).unwrap_err();
    assert_eq!(
        error,
        InstallError::NoCompatibleAsset {
            triple: "aarch64-apple-darwin".to_string(),
            fallback: None
        }
    );
    assert_eq!(error.message(), "No compatible Rumdl binary found for aarch64-apple-darwin");
    let error = select_asset(&release, Os::Windows, Architecture::X8664).unwrap_err();
    assert_eq!(error.message(), "No compatible Rumdl binary found for x86_64-pc-windows-msvc");
}

#[test]
fn a_release_without_assets_has_nothing_to_select() {
    let release = release_with("1.2.3", &[]);
    assert!(select_asset(&release, Os::Linux, Architecture::Aarch64).is_err());
    assert_eq!(find_asset(&release.assets, ""), None);
}

#[test]
fn platform_names() {
    assert_eq!(Architecture::X8664.triple_name(), Some("x86_64"));
    assert_eq!(Architecture::Aarch64.triple_name(), Some("aarch64"));
    assert_eq!(Architecture::X86.triple_name(), None);
    assert!(Architecture::X8664.is_supported());
    assert!(Architecture::Aarch64.is_supported());
    assert!(!Architecture::X86.is_supported());
    assert_eq!(Architecture::X8664.label(), "Architecture::X8664");
    assert_eq!(Architecture::Aarch64.label(), "Architecture::Aarch64");
    assert_eq!(Architecture::X86.label(), "Architecture::X86");
    assert_eq!(Os::Mac.primary_target(), Target::AppleDarwin);
    assert_eq!(Os::Linux.primary_target(), Target::UnknownLinuxGnu);
    assert_eq!(Os::Windows.primary_target(), Target::PcWindowsMsvc);
    assert_eq!(Os::Mac.fallback_target(), None);
    assert_eq!(Os::Linux.fallback_target(), Some(Target::UnknownLinuxMusl));
    assert_eq!(Os::Windows.fallback_target(), None);
    assert_eq!(Os::Mac.archive_kind(), ArchiveKind::GzipTar);
    assert_eq!(Os::Linux.archive_kind(), ArchiveKind::GzipTar);
    assert_eq!(Os::Windows.archive_kind(), ArchiveKind::Zip);
    assert_eq!(ArchiveKind::GzipTar.extension(), "tar.gz");
    assert_eq!(ArchiveKind::Zip.extension(), "zip");
    assert_eq!(Target::AppleDarwin.name(), "apple-darwin");
    assert_eq!(Target::UnknownLinuxGnu.name(), "unknown-linux-gnu");
    assert_eq!(Target::UnknownLinuxMusl.name(), "unknown-linux-musl");
    assert_eq!(Target::PcWindowsMsvc.name(), "pc-windows-msvc");
}

#[test]
fn suffixes_are_spelled_out() {
    assert_eq!(triple("x86_64", Target::UnknownLinuxGnu), "x86_64-unknown-linux-gnu");
    assert_eq!(
        asset_suffix("x86_64", Target::UnknownLinuxGnu, ArchiveKind::GzipTar),
        "x86_64-unknown-linux-gnu.tar.gz"
    );
    assert_eq!(
        asset_suffix("aarch64", Target::UnknownLinuxMusl, ArchiveKind::GzipTar),
        "aarch64-unknown-linux-musl.tar.gz"
    );
    assert_eq!(
        asset_suffix("aarch64", Target::AppleDarwin, ArchiveKind::GzipTar),
        "aarch64-apple-darwin.tar.gz"
    );
    assert_eq!(
        asset_suffix("x86_64", Target::PcWindowsMsvc, ArchiveKind::Zip),
        "x86_64-pc-windows-msvc.zip"
    );
}
