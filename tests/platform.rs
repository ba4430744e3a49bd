use aether_installer::error::InstallError;
use aether_installer::platform::resolve_platform;
use aether_installer::package::PackageKind;

#[test]
fn linux_architectures_map_to_their_tags() {
    assert_eq!(resolve_platform("linux", "x86").unwrap(), "linux_386");
    assert_eq!(resolve_platform("linux", "x86_64").unwrap(), "linux_amd64");
    assert_eq!(resolve_platform("linux", "aarch64").unwrap(), "linux_arm64");
    assert_eq!(resolve_platform("linux", "arm").unwrap(), "linux_arm");
}

#[test]
fn other_operating_systems_are_refused() {
    assert_eq!(resolve_platform("macos", "x86_64"), Err(InstallError::UnsupportedOs));
    assert_eq!(resolve_platform("windows", "x86"), Err(InstallError::UnsupportedOs));
    assert_eq!(resolve_platform("Linux", "x86_64"), Err(InstallError::UnsupportedOs));
    assert_eq!(resolve_platform("", ""), Err(InstallError::UnsupportedOs));
}

#[test]
fn unknown_linux_architectures_are_refused() {
    assert_eq!(resolve_platform("linux", "mips"), Err(InstallError::UnsupportedArchitecture));
    assert_eq!(resolve_platform("linux", "X86_64"), Err(InstallError::UnsupportedArchitecture));
    assert_eq!(resolve_platform("linux", "x86_"), Err(InstallError::UnsupportedArchitecture));
    assert_eq!(resolve_platform("linux", "riscv64"), Err(InstallError::UnsupportedArchitecture));
}

#[test]
fn error_messages_name_the_cause() {
    assert_eq!(InstallError::UnsupportedOs.message(), "Only Linux supported.");
    assert_eq!(InstallError::UnsupportedArchitecture.message(), "Unsupported Linux architecture");
    assert_eq!(InstallError::NoSuitableRelease.message(), "No suitable release found");
    assert_eq!(
        InstallError::NoMatchingAsset.message(),
        "No matching asset found for your Linux architecture"
    );
    assert_eq!(InstallError::UnsupportedPackageFormat.message(), "Unsupported package format");
    assert_eq!(
        InstallError::InstallFailed { kind: PackageKind::Deb }.message(),
        "dpkg install failed"
    );
    assert_eq!(
        InstallError::InstallFailed { kind: PackageKind::Rpm }.message(),
        "rpm install failed"
    );
    assert_eq!(
        InstallError::InstallFailed { kind: PackageKind::Flatpak }.message(),
        "flatpak install failed"
    );
}
