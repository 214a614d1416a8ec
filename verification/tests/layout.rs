use zed_rumdl::error::InstallError;
use zed_rumdl::layout::{
    build_install_path, directory_prefix, stale_versions, InstallPath, TOOL_NAME,
};
use zed_rumdl::plan::{plan_install, InstallPlan};
use zed_rumdl::platform::{Architecture, ArchiveKind, Os};
use zed_rumdl::release::{Release, ReleaseAsset};

fn listing(entries: &[&str]) -> Vec<String> {
    entries.iter().map(|entry| entry.to_string()).collect()
}

#[test]
fn version_directory_and_binary_path() {
    assert_eq!(
        build_install_path("1.2.3", Os::Linux),
        Ok(InstallPath {
            directory: "rumdl-1.2.3".to_string(),
            binary: "rumdl-1.2.3/rumdl".to_string()
        })
    );
    assert_eq!(
        build_install_path("1.2.3", Os::Mac),
        Ok(InstallPath {
            directory: "rumdl-1.2.3".to_string(),
            binary: "rumdl-1.2.3/rumdl".to_string()
        })
    );
}

#[test]
fn windows_binary_has_the_exe_suffix() {
    assert_eq!(
        build_install_path("v0.0.99", Os::Windows),
        Ok(InstallPath {
            directory: "rumdl-v0.0.99".to_string(),
            binary: "rumdl-v0.0.99/rumdl.exe".to_string()
        })
    );
}

#[test]
fn version_with_a_slash_is_refused() {
    assert_eq!(
        build_install_path("../evil", Os::Linux),
        Err(InstallError::InvalidVersionString { version: "../evil".to_string() })
    );
    assert_eq!(
        build_install_path("/", Os::Mac),
        Err(InstallError::InvalidVersionString { version: "/".to_string() })
    );
}

#[test]
fn version_with_a_backslash_is_refused() {
    assert_eq!(
        build_install_path("..\\evil", Os::Windows),
        Err(InstallError::InvalidVersionString { version: "..\\evil".to_string() })
    );
    assert_eq!(
        build_install_path("1.0\\", Os::Linux),
        Err(InstallError::InvalidVersionString { version: "1.0\\".to_string() })
    );
}

#[test]
fn other_odd_versions_are_taken_as_they_are() {
    assert_eq!(build_install_path("", Os::Linux).unwrap().directory, "rumdl-");
    assert_eq!(build_install_path("..", Os::Linux).unwrap().binary, "rumdl-../rumdl");
    assert_eq!(build_install_path("1.0 beta", Os::Linux).unwrap().directory, "rumdl-1.0 beta");
    assert_eq!(build_install_path("é", Os::Windows).unwrap().binary, "rumdl-é/rumdl.exe");
}

#[test]
fn tool_name_and_prefix() {
    assert_eq!(TOOL_NAME, "rumdl");
    assert_eq!(directory_prefix(), "rumdl-");
}

#[test]
fn stale_versions_are_the_other_version_directories() {
    let entries = listing(&["rumdl-1.0.0", "rumdl-1.2.3", "notes.txt", "rumdl-0.9.0", "rumdl"]);
    assert_eq!(stale_versions(&entries, "rumdl-1.2.3"), listing(&["rumdl-1.0.0", "rumdl-0.9.0"]));
}

#[test]
fn the_current_version_is_never_stale() {
    let entries = listing(&["rumdl-1.2.3", "rumdl-1.2.3"]);
    assert_eq!(stale_versions(&entries, "rumdl-1.2.3"), Vec::<String>::new());
    assert_eq!(stale_versions(&Vec::new(), "rumdl-1.2.3"), Vec::<String>::new());
}

#[test]
fn entries_outside_the_prefix_are_left_alone() {
    let entries = listing(&["Rumdl-1.0.0", "rumd", "x-rumdl-1.0.0", "rumdl_1.0.0", "rumdl-"]);
    assert_eq!(stale_versions(&entries, "rumdl-1.2.3"), listing(&["rumdl-"]));
}

#[test]
fn a_longer_name_with_the_current_one_in_front_is_stale() {
    let entries = listing(&["rumdl-1.2.30", "rumdl-1.2", "rumdl-1.2.3"]);
    assert_eq!(stale_versions(&entries, "rumdl-1.2.3"), listing(&["rumdl-1.2.30", "rumdl-1.2"]));
}

fn release_offering(version: &str, names: &[&str]) -> Release {
    Release {
        version: version.to_string(),
        assets: names
            .iter()
            .map(|name| ReleaseAsset {
                name: name.to_string(),
                download_url: format!("https://example.invalid/{name}"),
            })
            .collect(),
    }
}

#[test]
fn plan_for_linux_x86_64() {
    let release = release_offering("1.2.3", &["rumdl-x86_64-unknown-linux-gnu.tar.gz"]);
    assert_eq!(
        plan_install(&release, Os::Linux, Architecture::X8664),
        Ok(InstallPlan {
            download_url: "https://example.invalid/rumdl-x86_64-unknown-linux-gnu.tar.gz"
                .to_string(),
            archive: ArchiveKind::GzipTar,
            path: InstallPath {
                directory: "rumdl-1.2.3".to_string(),
                binary: "rumdl-1.2.3/rumdl".to_string()
            },
        })
    );
}

#[test]
fn plan_for_windows() {
    let release = release_offering("3.0.0", &["rumdl-aarch64-pc-windows-msvc.zip"]);
    assert_eq!(
        plan_install(&release, Os::Windows, Architecture::Aarch64),
        Ok(InstallPlan {
            download_url: "https://example.invalid/rumdl-aarch64-pc-windows-msvc.zip".to_string(),
            archive: ArchiveKind::Zip,
            path: InstallPath {
                directory: "rumdl-3.0.0".to_string(),
                binary: "rumdl-3.0.0/rumdl.exe".to_string()
            },
        })
    );
}

#[test]
fn plan_reports_the_asset_before_the_version() {
    let release = release_offering("../evil", &["rumdl-x86_64-unknown-linux-gnu.tar.gz"]);
    assert_eq!(
        plan_install(&release, Os::Linux, Architecture::X8664),
        Err(InstallError::InvalidVersionString { version: "../evil".to_string() })
    );
    assert_eq!(
        plan_install(&release, Os::Linux, Architecture::X86),
        Err(InstallError::UnsupportedArchitecture { architecture: Architecture::X86 })
    );
    assert_eq!(
        plan_install(&release, Os::Mac, Architecture::X8664),
        Err(InstallError::NoCompatibleAsset {
            triple: "x86_64-apple-darwin".to_string(),
            fallback: None
        })
    );
}
