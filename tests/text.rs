use aether_installer::text::{same_text, text_contains, text_ends_with};

#[test]
fn same_text_is_exact() {
    assert!(same_text("linux", "linux"));
    assert!(!same_text("linux", "Linux"));
    assert!(!same_text("linux", "linux "));
    assert!(same_text("", ""));
}

#[test]
fn suffix_check_handles_edges() {
    assert!(text_ends_with("a.deb", "deb"));
    assert!(text_ends_with("deb", "deb"));
    assert!(text_ends_with("anything", ""));
    assert!(!text_ends_with("eb", "deb"));
    assert!(!text_ends_with("a.deb.x", "deb"));
}

#[test]
fn substring_check_handles_edges() {
    assert!(text_contains("aether_linux_amd64.deb", "linux_amd64"));
    assert!(text_contains("linux_amd64", "linux_amd64"));
    assert!(text_contains("x", ""));
    assert!(!text_contains("linux_amd6", "linux_amd64"));
    assert!(text_contains("ééx_linux_386", "linux_386"));
}
