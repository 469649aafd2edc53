//! The video mode of a disc and its canonical storage text.

use vstd::prelude::*;

use super::codec::UnrecognizedValue;
use crate::text::str_eq;

verus! {

/// The video mode of the disc.
#[derive(Clone, Copy, Debug, PartialEq, Eq, Structural)]
pub enum VideoMode {
    /// Supports multiple video modes.
    Multi,
    /// Supports NTSC.
    NTSC,
    /// Supports PAL.
    PAL,
}

/// The canonical storage text of each video mode.
pub open spec fn video_mode_text(v: VideoMode) -> Seq<char> {
    match v {
        VideoMode::Multi => "multi"@,
        VideoMode::NTSC => "NTSC"@,
        VideoMode::PAL => "PAL"@,
    }
}

/// The video mode that storage text denotes, if any; only the exact
/// canonical text is accepted, case-sensitively.
pub open spec fn video_mode_of_text(s: Seq<char>) -> Option<VideoMode> {
    if s == "multi"@ {
        Some(VideoMode::Multi)
    } else if s == "NTSC"@ {
        Some(VideoMode::NTSC)
    } else if s == "PAL"@ {
        Some(VideoMode::PAL)
    } else {
        None
    }
}

/// Every video mode comes back unchanged from its canonical text.
pub proof fn lemma_video_mode_round_trip(v: VideoMode)
    ensures
        video_mode_of_text(video_mode_text(v)) == Some(v),
{
    lemma_video_mode_texts_differ();
}

/// No two video modes share a canonical text.
pub proof fn lemma_video_mode_text_injective(a: VideoMode, b: VideoMode)
    ensures
        video_mode_text(a) == video_mode_text(b) ==> a == b,
{
    lemma_video_mode_texts_differ();
}

proof fn lemma_video_mode_texts_differ()
    ensures
        "multi"@ != "NTSC"@,
        "multi"@ != "PAL"@,
        "NTSC"@ != "PAL"@,
{
    reveal_strlit("multi");
    reveal_strlit("NTSC");
    reveal_strlit("PAL");
    assert("multi"@.len() == 5);
    assert("NTSC"@.len() == 4);
    assert("PAL"@.len() == 3);
}

impl VideoMode {
    /// The canonical storage text of this video mode.
    pub fn to_text(&self) -> (r: String)
        ensures
            r@ == video_mode_text(*self),
    {
        match self {
            VideoMode::Multi => String::from_str("multi"),
            VideoMode::NTSC => String::from_str("NTSC"),
            VideoMode::PAL => String::from_str("PAL"),
        }
    }

    /// Matches storage text against the canonical set.
    pub fn from_text(value: &str) -> (r: Result<VideoMode, UnrecognizedValue>)
        ensures
            match r {
                Ok(v) => video_mode_of_text(value@) == Some(v),
                Err(e) => {
                    &&& video_mode_of_text(value@) is None
                    &&& e.kind@ == "video mode"@
                    &&& e.text@ == value@
                },
            },
    {
        proof {
            reveal_strlit("multi");
            reveal_strlit("NTSC");
            reveal_strlit("PAL");
        }
        if str_eq(value, "multi") {
            Ok(VideoMode::Multi)
        } else if str_eq(value, "NTSC") {
            Ok(VideoMode::NTSC)
        } else if str_eq(value, "PAL") {
            Ok(VideoMode::PAL)
        } else {
            Err(
                UnrecognizedValue {
                    kind: String::from_str("video mode"),
                    text: String::from_str(value),
                },
            )
        }
    }
}

} // verus!
