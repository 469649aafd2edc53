//! The failure shared by all closed enumerations at the storage boundary.

use vstd::prelude::*;

verus! {

/// The diagnostic text `unrecognized <kind> <text>` for a stored value that
/// is not in a kind's canonical set.
pub open spec fn spec_unrecognized(kind: Seq<char>, text: Seq<char>) -> Seq<char> {
    "unrecognized "@ + kind + " "@ + text
}

/// Carried back over the storage boundary when stored text matches no
/// variant of a closed enumeration: it signals corrupt or foreign data and
/// is never silently coerced.
#[derive(Debug)]
pub struct UnrecognizedValue {
    /// The lowercase kind name, such as `media`.
    pub kind: String,
    /// The text that matched no variant.
    pub text: String,
}

impl UnrecognizedValue {
    /// The exact diagnostic text; downstream systems pattern-match on this
    /// form, so it is part of the contract.
    pub fn message(&self) -> (r: String)
        ensures
            r@ == spec_unrecognized(self.kind@, self.text@),
    {
        let r = String::from_str("unrecognized ").concat(self.kind.as_str()).concat(" ").concat(
            self.text.as_str(),
        );
        proof {
            assert(r@ =~= spec_unrecognized(self.kind@, self.text@));
        }
        r
    }
}

} // verus!
