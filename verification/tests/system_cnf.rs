//! Parsing of configuration text: splitting, trimming, duplicate keys and
//! the ASCII precondition.

use oplfs::system_cnf::ConfigError;
use oplfs::system_cnf::SystemCnf;

#[test]
fn parses_key_value_lines() {
    let text = b"BOOT2 = cdrom0:\\SCUS_123.45;1\nVER = 1.00\nVMODE = NTSC\n";
    let cnf = SystemCnf::parse(text).unwrap();
    assert_eq!(cnf.get("BOOT2").unwrap().as_str(), "cdrom0:\\SCUS_123.45;1");
    assert_eq!(cnf.get("VER").unwrap().as_str(), "1.00");
    assert_eq!(cnf.get("VMODE").unwrap().as_str(), "NTSC");
}

#[test]
fn lookup_is_exact_and_case_sensitive() {
    let cnf = SystemCnf::parse(b"KEY = value\n").unwrap();
    assert!(cnf.get("KEY").is_some());
    assert!(cnf.get("key").is_none());
    assert!(cnf.get("KEY ").is_none());
    assert!(cnf.get("OTHER").is_none());
}

#[test]
fn later_duplicate_key_wins() {
    let cnf = SystemCnf::parse(b"A = first\nB = kept\nA = second\n").unwrap();
    assert_eq!(cnf.get("A").unwrap().as_str(), "second");
    assert_eq!(cnf.get("B").unwrap().as_str(), "kept");
}

#[test]
fn lines_without_equals_are_ignored() {
    let cnf = SystemCnf::parse(b"noise\nKEY = value\nmore noise\n").unwrap();
    assert_eq!(cnf.get("KEY").unwrap().as_str(), "value");
    assert!(cnf.get("noise").is_none());
}

#[test]
fn value_keeps_trailing_whitespace() {
    let cnf = SystemCnf::parse(b"K = v  \n").unwrap();
    assert_eq!(cnf.get("K").unwrap().as_str(), "v  ");
}

#[test]
fn key_loses_trailing_and_value_leading_whitespace() {
    let cnf = SystemCnf::parse(b"K\t =\t padded\n").unwrap();
    assert_eq!(cnf.get("K").unwrap().as_str(), "padded");
}

#[test]
fn value_may_be_empty() {
    let cnf = SystemCnf::parse(b"K =\n").unwrap();
    assert_eq!(cnf.get("K").unwrap().as_str(), "");
}

#[test]
fn missing_final_newline_still_parses() {
    let cnf = SystemCnf::parse(b"K = v").unwrap();
    assert_eq!(cnf.get("K").unwrap().as_str(), "v");
}

#[test]
fn non_ascii_bytes_are_rejected() {
    let bytes = vec![b'K', b' ', b'=', b' ', 0xff, b'\n'];
    assert_eq!(SystemCnf::parse(&bytes).unwrap_err(), ConfigError::NotAscii);
}
