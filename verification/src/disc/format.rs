//! The format of a disc image and its canonical storage text.

use vstd::prelude::*;

use super::codec::UnrecognizedValue;
use crate::text::str_eq;

verus! {

/// The format of the disc image.
#[derive(Clone, Copy, Debug, PartialEq, Eq, Structural)]
pub enum Format {
    /// An ISO9660 image.
    ISO,
}

/// The canonical storage text of each format.
pub open spec fn format_text(v: Format) -> Seq<char> {
    match v {
        Format::ISO => "ISO"@,
    }
}

/// The format that storage text denotes, if any; only the exact canonical
/// text is accepted, case-sensitively.
pub open spec fn format_of_text(s: Seq<char>) -> Option<Format> {
    if s == "ISO"@ {
        Some(Format::ISO)
    } else {
        None
    }
}

/// Every format comes back unchanged from its canonical text.
pub proof fn lemma_format_round_trip(v: Format)
    ensures
        format_of_text(format_text(v)) == Some(v),
{
}

/// No two formats share a canonical text.
pub proof fn lemma_format_text_injective(a: Format, b: Format)
    ensures
        format_text(a) == format_text(b) ==> a == b,
{
}

impl Format {
    /// The canonical storage text of this format.
    pub fn to_text(&self) -> (r: String)
        ensures
            r@ == format_text(*self),
    {
        match self {
            Format::ISO => String::from_str("ISO"),
        }
    }

    /// Matches storage text against the canonical set.
    pub fn from_text(value: &str) -> (r: Result<Format, UnrecognizedValue>)
        ensures
            match r {
                Ok(v) => format_of_text(value@) == Some(v),
                Err(e) => {
                    &&& format_of_text(value@) is None
                    &&& e.kind@ == "format"@
                    &&& e.text@ == value@
                },
            },
    {
        if str_eq(value, "ISO") {
            Ok(Format::ISO)
        } else {
            Err(
                UnrecognizedValue {
                    kind: String::from_str("format"),
                    text: String::from_str(value),
                },
            )
        }
    }
}

} // verus!
