//! The storage codec of the four closed enumerations: round trips, exact
//! canonical text, and the exact diagnostic for unrecognized values.

use oplfs::disc::Format;
use oplfs::disc::Media;
use oplfs::disc::Platform;
use oplfs::disc::VideoMode;

#[test]
fn format_it_handles_unknown_values() {
    assert_eq!(Format::from_text("FLP").unwrap_err().message(), "unrecognized format FLP");
}

#[test]
fn media_it_handles_unknown_values() {
    assert_eq!(Media::from_text("VHS").unwrap_err().message(), "unrecognized media VHS");
}

#[test]
fn platform_it_handles_unknown_values() {
    assert_eq!(Platform::from_text("PS9000").unwrap_err().message(), "unrecognized platform PS9000");
}

#[test]
fn video_mode_it_handles_unknown_values() {
    assert_eq!(
        VideoMode::from_text("spectravision").unwrap_err().message(),
        "unrecognized video mode spectravision"
    );
}

#[test]
fn format_round_trips() {
    assert_eq!(Format::from_text(Format::ISO.to_text().as_str()).unwrap(), Format::ISO);
}

#[test]
fn media_round_trips() {
    assert_eq!(Media::from_text(Media::CD.to_text().as_str()).unwrap(), Media::CD);
    assert_eq!(Media::from_text(Media::DVD.to_text().as_str()).unwrap(), Media::DVD);
}

#[test]
fn platform_round_trips() {
    assert_eq!(Platform::from_text(Platform::PS2.to_text().as_str()).unwrap(), Platform::PS2);
}

#[test]
fn video_mode_round_trips() {
    assert_eq!(VideoMode::from_text(VideoMode::Multi.to_text().as_str()).unwrap(), VideoMode::Multi);
    assert_eq!(VideoMode::from_text(VideoMode::NTSC.to_text().as_str()).unwrap(), VideoMode::NTSC);
    assert_eq!(VideoMode::from_text(VideoMode::PAL.to_text().as_str()).unwrap(), VideoMode::PAL);
}

#[test]
fn canonical_texts_are_exact() {
    assert_eq!(Format::ISO.to_text(), "ISO");
    assert_eq!(Media::CD.to_text(), "CD");
    assert_eq!(Media::DVD.to_text(), "DVD");
    assert_eq!(Platform::PS2.to_text(), "PS2");
    assert_eq!(VideoMode::Multi.to_text(), "multi");
    assert_eq!(VideoMode::NTSC.to_text(), "NTSC");
    assert_eq!(VideoMode::PAL.to_text(), "PAL");
}

#[test]
fn casing_matters() {
    assert!(Format::from_text("iso").is_err());
    assert!(Media::from_text("cd").is_err());
    assert!(Platform::from_text("ps2").is_err());
    assert_eq!(
        VideoMode::from_text("Multi").unwrap_err().message(),
        "unrecognized video mode Multi"
    );
    assert_eq!(VideoMode::from_text("multi").unwrap(), VideoMode::Multi);
}
