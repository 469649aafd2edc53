//! Catalog record types: the disc record itself and the four closed
//! enumerations with their canonical storage text.

pub mod codec;
pub mod format;
pub mod media;
pub mod platform;
pub mod video_mode;

pub use codec::UnrecognizedValue;
pub use format::Format;
pub use media::Media;
pub use platform::Platform;
pub use video_mode::VideoMode;

use vstd::prelude::*;

verus! {

/// A calendar date, held as plain year, month and day numbers.
#[derive(Clone, Copy, Debug, PartialEq, Eq, Structural)]
pub struct Date {
    pub year: i32,
    pub month: u8,
    pub day: u8,
}

/// A point in time, held as seconds since the Unix epoch.
#[derive(Clone, Copy, Debug, PartialEq, Eq, Structural)]
pub struct Timestamp {
    pub unix_seconds: i64,
}

/// A disc in the catalog: one record per successfully indexed disc image.
/// The storage layer owns the id and the two timestamps.
#[derive(Debug)]
pub struct Disc {
    pub id: Option<u32>,
    pub title_id: String,
    pub path: String,
    pub media: Option<Media>,
    pub format: Option<Format>,
    pub platform: Option<Platform>,
    pub size: u64,
    pub title: String,
    pub description: String,
    pub developer: String,
    pub genre: String,
    pub video_mode: Option<VideoMode>,
    pub release: Option<Date>,
    pub players: Option<u8>,
    pub rating_stars: Option<u8>,
    pub created_at: Timestamp,
    pub updated_at: Timestamp,
}

/// A catalog record is well formed when its required identifier is filled:
/// the title id is never empty.
pub open spec fn disc_wf(d: &Disc) -> bool {
    d.title_id@.len() > 0
}

impl Disc {
    /// A fresh record for a newly indexed disc: the required fields are
    /// set, every optional piece of metadata is absent, and the timestamps
    /// are left at the epoch for the storage layer to assign.
    pub fn new(title_id: String, path: String, size: u64) -> (r: Disc)
        requires
            title_id@.len() > 0,
        ensures
            disc_wf(&r),
            r.title_id@ == title_id@,
            r.path@ == path@,
            r.size == size,
            r.id is None,
            r.media is None,
            r.format is None,
            r.platform is None,
            r.video_mode is None,
            r.release is None,
            r.players is None,
            r.rating_stars is None,
            r.title@ == Seq::<char>::empty(),
            r.description@ == Seq::<char>::empty(),
            r.developer@ == Seq::<char>::empty(),
            r.genre@ == Seq::<char>::empty(),
            r.created_at.unix_seconds == 0,
            r.updated_at.unix_seconds == 0,
    {
        Disc {
            id: None,
            title_id,
            path,
            media: None,
            format: None,
            platform: None,
            size,
            title: String::new(),
            description: String::new(),
            developer: String::new(),
            genre: String::new(),
            video_mode: None,
            release: None,
            players: None,
            rating_stars: None,
            created_at: Timestamp { unix_seconds: 0 },
            updated_at: Timestamp { unix_seconds: 0 },
        }
    }
}

} // verus!
