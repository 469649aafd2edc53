//! Title-id resolution: the historical boot-path variants and the refusals.

use oplfs::system_cnf::SystemCnf;
use oplfs::title_id::resolve_title_id;

#[test]
fn resolves_versioned_boot_path() {
    assert_eq!(resolve_title_id("cdrom0:\\SCUS_987.65;1").unwrap(), "SCUS_987.65");
}

#[test]
fn resolves_boot_path_without_version() {
    assert_eq!(resolve_title_id("cdrom0:\\SCUS_987.65").unwrap(), "SCUS_987.65");
}

#[test]
fn resolves_boot_path_without_drive_digit() {
    assert_eq!(resolve_title_id("cdrom:\\SLES_001.01").unwrap(), "SLES_001.01");
}

#[test]
fn resolves_boot_path_with_trailing_whitespace() {
    assert_eq!(resolve_title_id("cdrom0:\\SLUS_210.77;1    ").unwrap(), "SLUS_210.77");
}

#[test]
fn resolves_bare_value_without_prefix() {
    assert_eq!(resolve_title_id("SLUS_123.45").unwrap(), "SLUS_123.45");
}

#[test]
fn version_suffix_needs_digits() {
    assert_eq!(resolve_title_id("SLUS_123.45;").unwrap(), "SLUS_123.45;");
}

#[test]
fn only_the_last_version_suffix_is_dropped() {
    assert_eq!(resolve_title_id("AB;1;2").unwrap(), "AB;1");
}

#[test]
fn any_drive_digit_is_accepted() {
    assert_eq!(resolve_title_id("cdrom5:\\X").unwrap(), "X");
}

#[test]
fn prefix_with_nothing_after_it_is_its_own_id() {
    assert_eq!(resolve_title_id("cdrom0:\\").unwrap(), "cdrom0:\\");
}

#[test]
fn empty_value_does_not_resolve() {
    assert!(resolve_title_id("").is_none());
    assert!(resolve_title_id("   ").is_none());
}

#[test]
fn resolves_through_parsed_config() {
    let cnf = SystemCnf::parse(b"BOOT2 = cdrom0:\\SCUS_123.45;1\nVER = 1.00\n").unwrap();
    assert_eq!(cnf.title_id().unwrap(), "SCUS_123.45");
}

#[test]
fn missing_boot_key_does_not_resolve() {
    let cnf = SystemCnf::parse(b"BOOT = cdrom0:\\SCUS_123.45;1\n").unwrap();
    assert!(cnf.title_id().is_none());
}
