use vstd::prelude::*;
use vstd::string::*;

use crate::package::PackageKind;

verus! {

/// Why an install run stops.
#[derive(Clone, Copy, Debug, PartialEq, Eq, Structural)]
pub enum InstallError {
    /// The host is not Linux.
    UnsupportedOs,
    /// The host is Linux on an architecture outside the platform table.
    UnsupportedArchitecture,
    /// Every release in the feed is the rolling `main` build.
    NoSuitableRelease,
    /// No asset of the chosen release fits this platform.
    NoMatchingAsset,
    /// The chosen asset has no installable package extension.
    UnsupportedPackageFormat,
    /// The package manager exited with a failure status.
    InstallFailed { kind: PackageKind },
}

/// The text reported for an error.
pub open spec fn message_of(e: InstallError) -> Seq<char> {
    match e {
        InstallError::UnsupportedOs => "Only Linux supported."@,
        InstallError::UnsupportedArchitecture => "Unsupported Linux architecture"@,
        InstallError::NoSuitableRelease => "No suitable release found"@,
        InstallError::NoMatchingAsset => "No matching asset found for your Linux architecture"@,
        InstallError::UnsupportedPackageFormat => "Unsupported package format"@,
        InstallError::InstallFailed { kind } => match kind {
            PackageKind::Deb => "dpkg install failed"@,
            PackageKind::Rpm => "rpm install failed"@,
            PackageKind::Flatpak => "flatpak install failed"@,
        },
    }
}

impl InstallError {
    /// The text reported for this error.
    pub fn message(&self) -> (r: String)
        ensures
            r@ == message_of(*self),
    {
        match self {
            InstallError::UnsupportedOs => String::from_str("Only Linux supported."),
            InstallError::UnsupportedArchitecture => String::from_str("Unsupported Linux architecture"),
            InstallError::NoSuitableRelease => String::from_str("No suitable release found"),
            InstallError::NoMatchingAsset => String::from_str(
                "No matching asset found for your Linux architecture",
            ),
            InstallError::UnsupportedPackageFormat => String::from_str("Unsupported package format"),
            InstallError::InstallFailed { kind } => match kind {
                PackageKind::Deb => String::from_str("dpkg install failed"),
                PackageKind::Rpm => String::from_str("rpm install failed"),
                PackageKind::Flatpak => String::from_str("flatpak install failed"),
            },
        }
    }
}

} // verus!
