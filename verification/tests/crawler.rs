//! The crawl's decision core: candidate filtering, per-entry indexing and
//! batch reports where one failure never stops the rest.

use oplfs::crawler::IndexError;
use oplfs::crawler::has_acceptable_extension;
use oplfs::crawler::index_outcomes;
use oplfs::crawler::title_id_from_config;
use oplfs::Disc;

#[test]
fn filters_names_by_suffix() {
    assert!(has_acceptable_extension("game.iso"));
    assert!(has_acceptable_extension("game.iso9660"));
    assert!(!has_acceptable_extension("game.bin"));
    assert!(!has_acceptable_extension("game.ISO"));
    assert!(!has_acceptable_extension("game.iso.bak"));
    assert!(!has_acceptable_extension("iso"));
}

#[test]
fn indexes_extracted_config() {
    let report = title_id_from_config(b"BOOT2 = cdrom0:\\SCUS_123.45;1\n");
    assert_eq!(report.unwrap(), "SCUS_123.45");
}

#[test]
fn reports_non_ascii_config() {
    let bytes = vec![0xfe, 0xff];
    assert_eq!(title_id_from_config(&bytes).unwrap_err(), IndexError::NotAscii);
}

#[test]
fn reports_missing_title_id() {
    let e = title_id_from_config(b"VER = 1.00\n").unwrap_err();
    assert_eq!(e, IndexError::NoTitleId);
    assert_eq!(e.message(), "no title ID found");
}

#[test]
fn extraction_failures_have_diagnostics() {
    assert_eq!(IndexError::OpenError.message(), "could not open the disc image");
    assert_eq!(IndexError::EntryNotFound.message(), "no SYSTEM.CNF entry found");
    assert_eq!(IndexError::NotAscii.message(), "SYSTEM.CNF is not ASCII");
}

#[test]
fn one_bad_file_does_not_stop_the_batch() {
    let outcomes = vec![
        (String::from("a.iso"), Ok(b"BOOT2 = cdrom0:\\SCUS_111.11;1\n".to_vec())),
        (String::from("b.iso"), Err(IndexError::OpenError)),
        (String::from("c.iso"), Ok(b"BOOT2 = cdrom:\\SLES_222.22\n".to_vec())),
    ];
    let reports = index_outcomes(&outcomes);
    assert_eq!(reports.len(), 3);
    assert_eq!(reports[0].0, "a.iso");
    assert_eq!(reports[0].1.as_ref().unwrap().as_str(), "SCUS_111.11");
    assert_eq!(reports[1].0, "b.iso");
    assert_eq!(*reports[1].1.as_ref().unwrap_err(), IndexError::OpenError);
    assert_eq!(reports[2].0, "c.iso");
    assert_eq!(reports[2].1.as_ref().unwrap().as_str(), "SLES_222.22");
}

#[test]
fn new_disc_record_carries_required_fields() {
    let d = Disc::new(String::from("SCUS_123.45"), String::from("/discs/game.iso"), 700);
    assert_eq!(d.title_id, "SCUS_123.45");
    assert_eq!(d.path, "/discs/game.iso");
    assert_eq!(d.size, 700);
    assert!(d.id.is_none());
    assert!(d.media.is_none());
    assert!(d.release.is_none());
}
