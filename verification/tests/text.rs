use zed_rumdl::error::InstallError;
use zed_rumdl::platform::Architecture;
use zed_rumdl::text::{
    chars_of, contains_path_separator, ends_with, join, same_text, starts_with,
};

#[test]
fn characters_of_a_text() {
    assert_eq!(chars_of(""), Vec::<char>::new());
    assert_eq!(chars_of("a-b"), vec!['a', '-', 'b']);
    assert_eq!(chars_of("né"), vec!['n', 'é']);
}

#[test]
fn prefixes() {
    assert!(starts_with("rumdl-1.2.3", "rumdl-"));
    assert!(starts_with("rumdl-", "rumdl-"));
    assert!(starts_with("anything", ""));
    assert!(starts_with("", ""));
    assert!(!starts_with("rumdl", "rumdl-"));
    assert!(!starts_with("xrumdl-1", "rumdl-"));
    assert!(!starts_with("", "r"));
    assert!(starts_with("éa", "é"));
}

#[test]
fn suffixes() {
    assert!(ends_with("rumdl-x86_64-apple-darwin.tar.gz", "x86_64-apple-darwin.tar.gz"));
    assert!(ends_with("x86_64-apple-darwin.tar.gz", "x86_64-apple-darwin.tar.gz"));
    assert!(ends_with("anything", ""));
    assert!(ends_with("", ""));
    assert!(!ends_with("apple-darwin.tar.gz", "x86_64-apple-darwin.tar.gz"));
    assert!(!ends_with("rumdl-x86_64-apple-darwin.tar.gz.sig", "apple-darwin.tar.gz"));
    assert!(!ends_with("", "z"));
    assert!(ends_with("aé", "é"));
    assert!(!ends_with("aé", "e"));
}

#[test]
fn path_separators() {
    assert!(contains_path_separator("../evil"));
    assert!(contains_path_separator("..\\evil"));
    assert!(contains_path_separator("/"));
    assert!(contains_path_separator("a\\"));
    assert!(!contains_path_separator(""));
    assert!(!contains_path_separator("1.2.3"));
    assert!(!contains_path_separator(".."));
    assert!(!contains_path_separator("v1.0.0-rc.1+build:7"));
}

#[test]
fn equal_texts() {
    assert!(same_text("", ""));
    assert!(same_text("rumdl-1.2.3", "rumdl-1.2.3"));
    assert!(!same_text("rumdl-1.2.3", "rumdl-1.2.4"));
    assert!(!same_text("rumdl-1.2.3", "rumdl-1.2"));
    assert!(!same_text("rumdl-1.2", "rumdl-1.2.3"));
    assert!(!same_text("", "a"));
}

#[test]
fn concatenation() {
    assert_eq!(join("", ""), "");
    assert_eq!(join("rumdl", "-"), "rumdl-");
    assert_eq!(join("", "x"), "x");
}

#[test]
fn every_error_has_its_message() {
    assert_eq!(
        InstallError::UnsupportedArchitecture { architecture: Architecture::X86 }.message(),
        "Unsupported architecture: Architecture::X86"
    );
    assert_eq!(
        InstallError::NoCompatibleAsset {
            triple: "aarch64-apple-darwin".to_string(),
            fallback: None
        }
        .message(),
        "No compatible Rumdl binary found for aarch64-apple-darwin"
    );
    assert_eq!(
        InstallError::NoCompatibleAsset { triple: "a".to_string(), fallback: Some("b".to_string()) }
            .message(),
        "No compatible Rumdl binary found for a; fallback also failed: \
         No compatible Rumdl binary found for b"
    );
    assert_eq!(
        InstallError::InvalidVersionString { version: "../evil".to_string() }.message(),
        "Invalid version string (must not contain a path separator): ../evil"
    );
    assert_eq!(
        InstallError::ReleaseLookupFailure { reason: "offline".to_string() }.message(),
        "Failed to fetch latest release: offline"
    );
    assert_eq!(
        InstallError::DownloadFailure { reason: "404".to_string() }.message(),
        "Failed to download Rumdl binary: 404"
    );
    assert_eq!(
        InstallError::PermissionSetFailure { reason: "denied".to_string() }.message(),
        "Failed to make binary executable: denied"
    );
}
