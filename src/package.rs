use vstd::prelude::*;
use vstd::string::*;

use crate::text::{ends_with, text_ends_with};

verus! {

/// A native package format, and the package manager that handles it.
#[derive(Clone, Copy, Debug, PartialEq, Eq, Structural)]
pub enum PackageKind {
    Deb,
    Rpm,
    Flatpak,
}

/// The package format that a file name announces by its extension.
pub open spec fn kind_of_name(name: Seq<char>) -> Option<PackageKind> {
    if ends_with(name, ".deb"@) {
        Some(PackageKind::Deb)
    } else if ends_with(name, ".rpm"@) {
        Some(PackageKind::Rpm)
    } else if ends_with(name, ".flatpak"@) {
        Some(PackageKind::Flatpak)
    } else {
        None
    }
}

/// The command line that installs the package file at `path`.
pub open spec fn install_argv(kind: PackageKind, path: Seq<char>) -> Seq<Seq<char>> {
    match kind {
        PackageKind::Deb => seq!["sudo"@, "dpkg"@, "-i"@, path],
        PackageKind::Rpm => seq!["sudo"@, "rpm"@, "-i"@, path],
        PackageKind::Flatpak => seq!["flatpak"@, "install"@, "--user"@, "--assumeyes"@, path],
    }
}

/// The command line that removes the application with the given package manager.
pub open spec fn removal_argv(kind: PackageKind) -> Seq<Seq<char>> {
    match kind {
        PackageKind::Deb => seq!["sudo"@, "dpkg"@, "-r"@, "aether"@],
        PackageKind::Rpm => seq!["sudo"@, "rpm"@, "-e"@, "aether"@],
        PackageKind::Flatpak => seq![
            "flatpak"@,
            "uninstall"@,
            "--user"@,
            "--assumeyes"@,
            "org.aether.Aether"@,
        ],
    }
}

/// The name of the package manager's program.
pub open spec fn tool_name(kind: PackageKind) -> Seq<char> {
    match kind {
        PackageKind::Deb => "dpkg"@,
        PackageKind::Rpm => "rpm"@,
        PackageKind::Flatpak => "flatpak"@,
    }
}

/// The command line that looks the package manager up.
pub open spec fn probe_argv(kind: PackageKind) -> Seq<Seq<char>> {
    seq!["which"@, tool_name(kind)]
}

/// The command line by which the installer removes itself.
pub open spec fn self_uninstall_argv() -> Seq<Seq<char>> {
    seq!["cargo"@, "uninstall"@, "aether-rs"@]
}

/// The package manager tried after `kind` when removing, in the order
/// dpkg, rpm, flatpak.
pub open spec fn tool_after(kind: PackageKind) -> Option<PackageKind> {
    match kind {
        PackageKind::Deb => Some(PackageKind::Rpm),
        PackageKind::Rpm => Some(PackageKind::Flatpak),
        PackageKind::Flatpak => None,
    }
}

/// Where a downloaded asset is written: inside the home directory, or inside
/// `.` where there is none.
pub open spec fn download_path_of(home: Option<Seq<char>>, name: Seq<char>) -> Seq<char> {
    match home {
        Some(h) => h + "/"@ + name,
        None => "."@ + "/"@ + name,
    }
}

/// Reads the package format from a file name's extension.
pub fn package_kind(name: &str) -> (r: Option<PackageKind>)
    ensures
        r == kind_of_name(name@),
{
    if text_ends_with(name, ".deb") {
        Some(PackageKind::Deb)
    } else if text_ends_with(name, ".rpm") {
        Some(PackageKind::Rpm)
    } else if text_ends_with(name, ".flatpak") {
        Some(PackageKind::Flatpak)
    } else {
        None
    }
}

/// A command line from its words.
fn argv(words: &[&str]) -> (r: Vec<String>)
    ensures
        r.deep_view() == words@.map_values(|w: &str| w@),
{
    let mut r: Vec<String> = Vec::new();
    let mut i: usize = 0;
    while i < words.len()
        invariant
            i <= words@.len(),
            r.deep_view() == words@.subrange(0, i as int).map_values(|w: &str| w@),
        decreases words@.len() - i,
    {
        r.push(String::from_str(words[i]));
        assert(words@.subrange(0, i + 1).map_values(|w: &str| w@) =~= words@.subrange(
            0,
            i as int,
        ).map_values(|w: &str| w@).push(words@[i as int]@));
        assert(r.deep_view() =~= words@.subrange(0, i + 1).map_values(|w: &str| w@));
        i = i + 1;
    }
    assert(words@.subrange(0, words@.len() as int) =~= words@);
    r
}

/// The command line that installs the package file at `path`.
pub fn install_command(kind: PackageKind, path: &str) -> (r: Vec<String>)
    ensures
        r.deep_view() == install_argv(kind, path@),
{
    let r = match kind {
        PackageKind::Deb => argv(&["sudo", "dpkg", "-i", path]),
        PackageKind::Rpm => argv(&["sudo", "rpm", "-i", path]),
        PackageKind::Flatpak => argv(&["flatpak", "install", "--user", "--assumeyes", path]),
    };
    assert(r.deep_view() =~= install_argv(kind, path@));
    r
}

/// The command line that removes the application with the given package manager.
pub fn removal_command(kind: PackageKind) -> (r: Vec<String>)
    ensures
        r.deep_view() == removal_argv(kind),
{
    let r = match kind {
        PackageKind::Deb => argv(&["sudo", "dpkg", "-r", "aether"]),
        PackageKind::Rpm => argv(&["sudo", "rpm", "-e", "aether"]),
        PackageKind::Flatpak => argv(
            &["flatpak", "uninstall", "--user", "--assumeyes", "org.aether.Aether"],
        ),
    };
    assert(r.deep_view() =~= removal_argv(kind));
    r
}

/// The command line that looks the package manager up.
pub fn probe_command(kind: PackageKind) -> (r: Vec<String>)
    ensures
        r.deep_view() == probe_argv(kind),
{
    let r = match kind {
        PackageKind::Deb => argv(&["which", "dpkg"]),
        PackageKind::Rpm => argv(&["which", "rpm"]),
        PackageKind::Flatpak => argv(&["which", "flatpak"]),
    };
    assert(r.deep_view() =~= probe_argv(kind));
    r
}

/// The command line by which the installer removes itself.
pub fn self_uninstall_command() -> (r: Vec<String>)
    ensures
        r.deep_view() == self_uninstall_argv(),
{
    let r = argv(&["cargo", "uninstall", "aether-rs"]);
    assert(r.deep_view() =~= self_uninstall_argv());
    r
}

/// The package manager tried after `kind` when removing.
pub fn next_tool(kind: PackageKind) -> (r: Option<PackageKind>)
    ensures
        r == tool_after(kind),
{
    match kind {
        PackageKind::Deb => Some(PackageKind::Rpm),
        PackageKind::Rpm => Some(PackageKind::Flatpak),
        PackageKind::Flatpak => None,
    }
}

/// The file that a downloaded asset named `name` is written to.
pub fn download_path(home: Option<&str>, name: &str) -> (r: String)
    ensures
        r@ == download_path_of(
            match home {
                Some(h) => Some(h@),
                None => None,
            },
            name@,
        ),
{
    let base = match home {
        Some(h) => String::from_str(h),
        None => String::from_str("."),
    };
    base.concat("/").concat(name)
}

} // verus!
