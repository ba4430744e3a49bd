use aether_installer::package::{
    download_path, install_command, next_tool, package_kind, probe_command, removal_command,
    self_uninstall_command, PackageKind,
};

fn words(v: &[&str]) -> Vec<String> {
    v.iter().map(|s| s.to_string()).collect()
}

#[test]
fn package_kind_follows_the_extension() {
    assert_eq!(package_kind("a_linux_amd64.deb"), Some(PackageKind::Deb));
    assert_eq!(package_kind("a_linux_amd64.rpm"), Some(PackageKind::Rpm));
    assert_eq!(package_kind("a_linux_amd64.flatpak"), Some(PackageKind::Flatpak));
    assert_eq!(package_kind("a_linux_amd64deb"), None);
    assert_eq!(package_kind("a.zip"), None);
    assert_eq!(package_kind(""), None);
}

#[test]
fn install_commands_are_exact() {
    assert_eq!(install_command(PackageKind::Deb, "/h/a.deb"), words(&["sudo", "dpkg", "-i", "/h/a.deb"]));
    assert_eq!(install_command(PackageKind::Rpm, "/h/a.rpm"), words(&["sudo", "rpm", "-i", "/h/a.rpm"]));
    assert_eq!(
        install_command(PackageKind::Flatpak, "/h/a.flatpak"),
        words(&["flatpak", "install", "--user", "--assumeyes", "/h/a.flatpak"])
    );
}

#[test]
fn removal_and_probe_commands_are_exact() {
    assert_eq!(removal_command(PackageKind::Deb), words(&["sudo", "dpkg", "-r", "aether"]));
    assert_eq!(removal_command(PackageKind::Rpm), words(&["sudo", "rpm", "-e", "aether"]));
    assert_eq!(
        removal_command(PackageKind::Flatpak),
        words(&["flatpak", "uninstall", "--user", "--assumeyes", "org.aether.Aether"])
    );
    assert_eq!(probe_command(PackageKind::Deb), words(&["which", "dpkg"]));
    assert_eq!(probe_command(PackageKind::Rpm), words(&["which", "rpm"]));
    assert_eq!(probe_command(PackageKind::Flatpak), words(&["which", "flatpak"]));
    assert_eq!(self_uninstall_command(), words(&["cargo", "uninstall", "aether-rs"]));
}

#[test]
fn removal_tools_are_tried_in_order() {
    assert_eq!(next_tool(PackageKind::Deb), Some(PackageKind::Rpm));
    assert_eq!(next_tool(PackageKind::Rpm), Some(PackageKind::Flatpak));
    assert_eq!(next_tool(PackageKind::Flatpak), None);
}

#[test]
fn download_goes_to_home_or_current_directory() {
    assert_eq!(download_path(Some("/home/u"), "aether_linux_amd64.deb"), "/home/u/aether_linux_amd64.deb");
    assert_eq!(download_path(None, "aether_linux_amd64.deb"), "./aether_linux_amd64.deb");
}
