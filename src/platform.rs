use vstd::prelude::*;
use vstd::string::*;

use crate::error::InstallError;
use crate::text::same_text;

verus! {

/// The platform tag of a Linux architecture, as the platform table gives it.
pub open spec fn linux_arch_tag(arch: Seq<char>) -> Option<Seq<char>> {
    if arch == "x86"@ {
        Some("linux_386"@)
    } else if arch == "x86_64"@ {
        Some("linux_amd64"@)
    } else if arch == "aarch64"@ {
        Some("linux_arm64"@)
    } else if arch == "arm"@ {
        Some("linux_arm"@)
    } else {
        None
    }
}

/// The platform tag of a host, or why it has none.
pub open spec fn platform_of(os: Seq<char>, arch: Seq<char>) -> Result<Seq<char>, InstallError> {
    if os != "linux"@ {
        Err(InstallError::UnsupportedOs)
    } else {
        match linux_arch_tag(arch) {
            Some(tag) => Ok(tag),
            None => Err(InstallError::UnsupportedArchitecture),
        }
    }
}

/// A string result seen through the characters it holds.
pub open spec fn text_result(r: Result<String, InstallError>) -> Result<Seq<char>, InstallError> {
    match r {
        Ok(s) => Ok(s@),
        Err(e) => Err(e),
    }
}

/// Maps the host's operating system and CPU architecture names to the
/// platform tag that asset names carry.
pub fn resolve_platform(os: &str, arch: &str) -> (r: Result<String, InstallError>)
    ensures
        text_result(r) == platform_of(os@, arch@),
{
    if !same_text(os, "linux") {
        return Err(InstallError::UnsupportedOs);
    }
    if same_text(arch, "x86") {
        Ok(String::from_str("linux_386"))
    } else if same_text(arch, "x86_64") {
        Ok(String::from_str("linux_amd64"))
    } else if same_text(arch, "aarch64") {
        Ok(String::from_str("linux_arm64"))
    } else if same_text(arch, "arm") {
        Ok(String::from_str("linux_arm"))
    } else {
        Err(InstallError::UnsupportedArchitecture)
    }
}

} // verus!
