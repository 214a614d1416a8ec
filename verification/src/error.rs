//! The ways in which providing the binary can fail.

use crate::platform::Architecture;
use crate::text::join;
use vstd::prelude::*;

verus! {

/// Why the binary could not be provided.
#[derive(Clone, Debug, PartialEq, Eq)]
pub enum InstallError {
    /// No binary is published for the architecture of this machine.
    UnsupportedArchitecture { architecture: Architecture },
    /// The release has no asset for the target triple of this machine, nor,
    /// where one was tried, for the fallback triple.
    NoCompatibleAsset { triple: String, fallback: Option<String> },
    /// The version of the release cannot be used as part of a directory name.
    InvalidVersionString { version: String },
    /// The release index could not be queried.
    ReleaseLookupFailure { reason: String },
    /// The asset could not be fetched or unpacked.
    DownloadFailure { reason: String },
    /// The unpacked binary could not be marked executable.
    PermissionSetFailure { reason: String },
}

/// The mathematical value of an [`InstallError`].
pub enum InstallErrorView {
    UnsupportedArchitecture { architecture: Architecture },
    NoCompatibleAsset { triple: Seq<char>, fallback: Option<Seq<char>> },
    InvalidVersionString { version: Seq<char> },
    ReleaseLookupFailure { reason: Seq<char> },
    DownloadFailure { reason: Seq<char> },
    PermissionSetFailure { reason: Seq<char> },
}

impl View for InstallError {
    type V = InstallErrorView;

    open spec fn view(&self) -> InstallErrorView {
        match *self {
            InstallError::UnsupportedArchitecture { architecture } => {
                InstallErrorView::UnsupportedArchitecture { architecture }
            },
            InstallError::NoCompatibleAsset { triple, fallback } => {
                InstallErrorView::NoCompatibleAsset {
                    triple: triple@,
                    fallback: fallback.deep_view(),
                }
            },
            InstallError::InvalidVersionString { version } => {
                InstallErrorView::InvalidVersionString { version: version@ }
            },
            InstallError::ReleaseLookupFailure { reason } => {
                InstallErrorView::ReleaseLookupFailure { reason: reason@ }
            },
            InstallError::DownloadFailure { reason } => {
                InstallErrorView::DownloadFailure { reason: reason@ }
            },
            InstallError::PermissionSetFailure { reason } => {
                InstallErrorView::PermissionSetFailure { reason: reason@ }
            },
        }
    }
}

/// The reason given when no asset of a release is built for `triple`.
pub open spec fn missing_asset_reason(triple: Seq<char>) -> Seq<char> {
    "No compatible Rumdl binary found for "@ + triple
}

impl InstallErrorView {
    /// The text shown to the operator for this error.
    pub open spec fn message(self) -> Seq<char> {
        match self {
            InstallErrorView::UnsupportedArchitecture { architecture } => {
                "Unsupported architecture: "@ + architecture.spec_label()
            },
            InstallErrorView::NoCompatibleAsset { triple, fallback } => match fallback {
                None => missing_asset_reason(triple),
                Some(other) => missing_asset_reason(triple) + "; fallback also failed: "@
                    + missing_asset_reason(other),
            },
            InstallErrorView::InvalidVersionString { version } => {
                "Invalid version string (must not contain a path separator): "@ + version
            },
            InstallErrorView::ReleaseLookupFailure { reason } => {
                "Failed to fetch latest release: "@ + reason
            },
            InstallErrorView::DownloadFailure { reason } => {
                "Failed to download Rumdl binary: "@ + reason
            },
            InstallErrorView::PermissionSetFailure { reason } => {
                "Failed to make binary executable: "@ + reason
            },
        }
    }
}

impl InstallError {
    /// The text shown to the operator for this error.
    pub fn message(&self) -> (text: String)
        ensures
            text@ == self@.message(),
    {
        match self {
            InstallError::UnsupportedArchitecture { architecture } => {
                join("Unsupported architecture: ", architecture.label())
            },
            InstallError::NoCompatibleAsset { triple, fallback } => {
                let mut text = join("No compatible Rumdl binary found for ", triple.as_str());
                match fallback {
                    None => {},
                    Some(other) => {
                        text.append("; fallback also failed: ");
                        let second = join(
                            "No compatible Rumdl binary found for ",
                            other.as_str(),
                        );
                        text.append(second.as_str());
                    },
                }
                text
            },
            InstallError::InvalidVersionString { version } => {
                join(
                    "Invalid version string (must not contain a path separator): ",
                    version.as_str(),
                )
            },
            InstallError::ReleaseLookupFailure { reason } => {
                join("Failed to fetch latest release: ", reason.as_str())
            },
            InstallError::DownloadFailure { reason } => {
                join("Failed to download Rumdl binary: ", reason.as_str())
            },
            InstallError::PermissionSetFailure { reason } => {
                join("Failed to make binary executable: ", reason.as_str())
            },
        }
    }
}

} // verus!
