use aether_installer::error::InstallError;
use aether_installer::release::{asset_matches, select_asset, select_release, Asset, Release};

fn asset(name: &str) -> Asset {
    Asset { name: name.to_string(), browser_download_url: format!("https://x/{}", name) }
}

fn release(tag: &str, names: &[&str]) -> Release {
    Release { tag_name: tag.to_string(), assets: names.iter().map(|n| asset(n)).collect() }
}

#[test]
fn main_releases_are_skipped() {
    let rs = vec![release("main", &[]), release("main", &[]), release("v1.2.0", &[]), release("v1.1.0", &[])];
    assert_eq!(select_release(&rs), Ok(2));
}

#[test]
fn first_release_is_taken_when_tagged() {
    let rs = vec![release("v2.0.0", &[]), release("main", &[]), release("v1.0.0", &[])];
    assert_eq!(select_release(&rs), Ok(0));
}

#[test]
fn only_main_releases_give_no_release() {
    let rs = vec![release("main", &[]), release("main", &[])];
    assert_eq!(select_release(&rs), Err(InstallError::NoSuitableRelease));
    assert_eq!(select_release(&vec![]), Err(InstallError::NoSuitableRelease));
}

#[test]
fn tag_comparison_is_exact() {
    let rs = vec![release("main", &[]), release("Main", &[])];
    assert_eq!(select_release(&rs), Ok(1));
    let rs = vec![release("mainline", &[])];
    assert_eq!(select_release(&rs), Ok(0));
}

#[test]
fn amd64_deb_fits_amd64_but_386_does_not() {
    assert!(asset_matches("aether_linux_amd64.deb", "linux_amd64"));
    assert!(!asset_matches("aether_linux_386.deb", "linux_amd64"));
}

#[test]
fn extension_is_a_bare_suffix() {
    assert!(asset_matches("aether_linux_amd64.rpm", "linux_amd64"));
    assert!(asset_matches("aether_linux_amd64.flatpak", "linux_amd64"));
    assert!(asset_matches("aether_linux_amd64deb", "linux_amd64"));
    assert!(!asset_matches("aether_linux_amd64.tar.gz", "linux_amd64"));
    assert!(!asset_matches("aether_linux_amd64.deb.sha256", "linux_amd64"));
    assert!(asset_matches("linux_amd64.deb", "linux_amd64"));
    assert!(!asset_matches("deb", "linux_amd64"));
}

#[test]
fn platform_tag_is_an_unanchored_substring() {
    assert!(asset_matches("pkg-linux_arm64-v1.deb", "linux_arm64"));
    assert!(asset_matches("aether_linux_arm64.deb", "linux_arm"));
    assert!(!asset_matches("aether_LINUX_ARM64.deb", "linux_arm64"));
}

#[test]
fn first_fitting_asset_wins() {
    let assets = vec![
        asset("aether_linux_386.deb"),
        asset("aether_linux_amd64.tar.gz"),
        asset("aether_linux_amd64.rpm"),
        asset("aether_linux_amd64.deb"),
    ];
    assert_eq!(select_asset(&assets, "linux_amd64"), Ok(2));
    assert_eq!(select_asset(&assets, "linux_amd64"), Ok(2));
    assert_eq!(select_asset(&assets, "linux_386"), Ok(0));
}

#[test]
fn no_fitting_asset_is_an_error() {
    let assets = vec![asset("aether_linux_386.deb"), asset("aether_darwin_amd64.zip")];
    assert_eq!(select_asset(&assets, "linux_arm64"), Err(InstallError::NoMatchingAsset));
    assert_eq!(select_asset(&vec![], "linux_amd64"), Err(InstallError::NoMatchingAsset));
}
