//! The physical media of a disc and its canonical storage text.

use vstd::prelude::*;

use super::codec::UnrecognizedValue;
use crate::text::str_eq;

verus! {

/// The physical media of the disc.
#[derive(Clone, Copy, Debug, PartialEq, Eq, Structural)]
pub enum Media {
    /// A CD.
    CD,
    /// A single or dual layer DVD.
    DVD,
}

/// The canonical storage text of each media type.
pub open spec fn media_text(v: Media) -> Seq<char> {
    match v {
        Media::CD => "CD"@,
        Media::DVD => "DVD"@,
    }
}

/// The media type that storage text denotes, if any; only the exact
/// canonical text is accepted, case-sensitively.
pub open spec fn media_of_text(s: Seq<char>) -> Option<Media> {
    if s == "CD"@ {
        Some(Media::CD)
    } else if s == "DVD"@ {
        Some(Media::DVD)
    } else {
        None
    }
}

/// Every media type comes back unchanged from its canonical text.
pub proof fn lemma_media_round_trip(v: Media)
    ensures
        media_of_text(media_text(v)) == Some(v),
{
    lemma_media_texts_differ();
}

/// No two media types share a canonical text.
pub proof fn lemma_media_text_injective(a: Media, b: Media)
    ensures
        media_text(a) == media_text(b) ==> a == b,
{
    lemma_media_texts_differ();
}

proof fn lemma_media_texts_differ()
    ensures
        "CD"@ != "DVD"@,
{
    reveal_strlit("CD");
    reveal_strlit("DVD");
    assert("CD"@.len() == 2);
    assert("DVD"@.len() == 3);
}

impl Media {
    /// The canonical storage text of this media type.
    pub fn to_text(&self) -> (r: String)
        ensures
            r@ == media_text(*self),
    {
        match self {
            Media::CD => String::from_str("CD"),
            Media::DVD => String::from_str("DVD"),
        }
    }

    /// Matches storage text against the canonical set.
    pub fn from_text(value: &str) -> (r: Result<Media, UnrecognizedValue>)
        ensures
            match r {
                Ok(v) => media_of_text(value@) == Some(v),
                Err(e) => {
                    &&& media_of_text(value@) is None
                    &&& e.kind@ == "media"@
                    &&& e.text@ == value@
                },
            },
    {
        proof {
            reveal_strlit("CD");
            reveal_strlit("DVD");
        }
        if str_eq(value, "CD") {
            Ok(Media::CD)
        } else if str_eq(value, "DVD") {
            Ok(Media::DVD)
        } else {
            Err(
                UnrecognizedValue { kind: String::from_str("media"), text: String::from_str(value) },
            )
        }
    }
}

} // verus!
