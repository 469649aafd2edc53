//! The platform of a disc and its canonical storage text.

use vstd::prelude::*;

use super::codec::UnrecognizedValue;
use crate::text::str_eq;

verus! {

/// The platform of the disc.
#[derive(Clone, Copy, Debug, PartialEq, Eq, Structural)]
pub enum Platform {
    /// A PlayStation 2 disc.
    PS2,
}

/// The canonical storage text of each platform.
pub open spec fn platform_text(v: Platform) -> Seq<char> {
    match v {
        Platform::PS2 => "PS2"@,
    }
}

/// The platform that storage text denotes, if any; only the exact canonical
/// text is accepted, case-sensitively.
pub open spec fn platform_of_text(s: Seq<char>) -> Option<Platform> {
    if s == "PS2"@ {
        Some(Platform::PS2)
    } else {
        None
    }
}

/// Every platform comes back unchanged from its canonical text.
pub proof fn lemma_platform_round_trip(v: Platform)
    ensures
        platform_of_text(platform_text(v)) == Some(v),
{
}

/// No two platforms share a canonical text.
pub proof fn lemma_platform_text_injective(a: Platform, b: Platform)
    ensures
        platform_text(a) == platform_text(b) ==> a == b,
{
}

impl Platform {
    /// The canonical storage text of this platform.
    pub fn to_text(&self) -> (r: String)
        ensures
            r@ == platform_text(*self),
    {
        match self {
            Platform::PS2 => String::from_str("PS2"),
        }
    }

    /// Matches storage text against the canonical set.
    pub fn from_text(value: &str) -> (r: Result<Platform, UnrecognizedValue>)
        ensures
            match r {
                Ok(v) => platform_of_text(value@) == Some(v),
                Err(e) => {
                    &&& platform_of_text(value@) is None
                    &&& e.kind@ == "platform"@
                    &&& e.text@ == value@
                },
            },
    {
        if str_eq(value, "PS2") {
            Ok(Platform::PS2)
        } else {
            Err(
                UnrecognizedValue {
                    kind: String::from_str("platform"),
                    text: String::from_str(value),
                },
            )
        }
    }
}

} // verus!
