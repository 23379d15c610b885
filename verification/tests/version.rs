use uniffi_core::{check_compatible_version, versions_compatible, PACKAGE_VERSION};

#[test]
fn equal_tokens_are_compatible() {
    assert!(versions_compatible("0.24.0", "0.24.0"));
}

#[test]
fn unequal_tokens_are_not_compatible() {
    assert!(!versions_compatible("0.24.0", "0.24.1"));
    assert!(!versions_compatible("0.24.0", "0.24"));
    assert!(!versions_compatible("0.24", "0.24.0"));
    assert!(!versions_compatible("", "0"));
}

#[test]
fn token_of_nine_bytes_is_accepted() {
    assert!(versions_compatible("0.24.0-rc", "0.24.0-rc"));
    assert!(versions_compatible("", ""));
}

#[test]
fn token_of_ten_bytes_is_rejected() {
    assert!(!versions_compatible("0.24.0-rc1", "0.24.0-rc1"));
    assert!(!versions_compatible("10.240.100", "10.240.100"));
}

#[test]
fn token_length_counts_bytes() {
    // Five characters of two bytes each.
    assert!(!versions_compatible("\u{e9}\u{e9}\u{e9}\u{e9}\u{e9}", "\u{e9}\u{e9}\u{e9}\u{e9}\u{e9}"));
    assert!(versions_compatible("\u{e9}\u{e9}\u{e9}\u{e9}", "\u{e9}\u{e9}\u{e9}\u{e9}"));
}

#[test]
fn runtime_accepts_its_own_version_only() {
    assert!(check_compatible_version(PACKAGE_VERSION));
    assert!(check_compatible_version("0.24.0"));
    assert!(!check_compatible_version("0.24.1"));
    assert!(!check_compatible_version("0.24.00"));
    assert!(!check_compatible_version(""));
}
