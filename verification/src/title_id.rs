//! Resolution of the canonical title id from the value of the boot key.
//!
//! The value, once trimmed, has the surface syntax
//! `[cdrom[<digit>]:\]<title-id>[;<digits>]`: an optional boot-device prefix,
//! then the id itself, then an optional version suffix. The id is chosen as
//! short as possible while still letting the rest of the syntax match, so a
//! trailing `;` with one or more digits is never part of the id.

use vstd::prelude::*;

use crate::text::trim_spec;
use crate::text::trim_str;

verus! {

/// A decimal digit.
pub open spec fn is_digit(c: char) -> bool {
    '0' <= c && c <= '9'
}

/// The least index `d` such that every character of `s` from `d` on is a
/// decimal digit; `s.len()` when the last character is not a digit.
pub open spec fn digit_suffix_start(s: Seq<char>) -> int
    decreases s.len(),
{
    if s.len() == 0 {
        0
    } else if !is_digit(s.last()) {
        s.len() as int
    } else {
        digit_suffix_start(s.drop_last())
    }
}

/// The id captured from `u`, the trimmed value with its prefix removed: `u`
/// without its version suffix when one is present and the rest stays
/// non-empty, otherwise all of `u`. Taking the suffix at the earliest
/// possible `;` keeps the captured id as short as possible.
pub open spec fn spec_capture(u: Seq<char>) -> Seq<char> {
    let d = digit_suffix_start(u);
    if d < u.len() && d >= 2 && u[d - 1] == ';' {
        u.take(d - 1)
    } else {
        u
    }
}

/// A version suffix: `;` followed by one or more digits.
pub open spec fn is_version_suffix(s: Seq<char>) -> bool {
    s.len() >= 2 && s[0] == ';' && (forall|j: int| 1 <= j < s.len() ==> is_digit(s[j]))
}

/// A way to read `u` as the pattern asks: a non-empty id prefix of length
/// `i`, followed by nothing or by a version suffix.
pub open spec fn is_id_split(u: Seq<char>, i: int) -> bool {
    1 <= i <= u.len() && (i == u.len() || is_version_suffix(u.skip(i)))
}

proof fn lemma_digit_suffix_start_props(s: Seq<char>)
    ensures
        0 <= digit_suffix_start(s) <= s.len(),
        forall|j: int| digit_suffix_start(s) <= j < s.len() ==> is_digit(s[j]),
        digit_suffix_start(s) > 0 ==> !is_digit(s[digit_suffix_start(s) - 1]),
    decreases s.len(),
{
    if s.len() == 0 {
    } else if !is_digit(s.last()) {
    } else {
        lemma_digit_suffix_start_props(s.drop_last());
        let d = digit_suffix_start(s);
        assert forall|j: int| d <= j < s.len() implies is_digit(s[j]) by {
            if j < s.len() - 1 {
                assert(is_digit(s.drop_last()[j]));
            }
        }
        if d > 0 {
            assert(!is_digit(s.drop_last()[d - 1]));
        }
    }
}

/// The captured id is the shortest one the pattern allows: it reads `u` as
/// id plus optional version suffix, and no shorter non-empty id does.
pub proof fn lemma_capture_shortest(u: Seq<char>)
    requires
        u.len() > 0,
    ensures
        spec_capture(u) == u.take(spec_capture(u).len() as int),
        is_id_split(u, spec_capture(u).len() as int),
        forall|i: int| is_id_split(u, i) ==> spec_capture(u).len() <= i,
{
    lemma_digit_suffix_start_props(u);
    let d = digit_suffix_start(u);
    if d < u.len() && d >= 2 && u[d - 1] == ';' {
        let c = d - 1;
        assert(u.take(c).len() == c);
        assert(spec_capture(u) == u.take(spec_capture(u).len() as int));
        assert(is_version_suffix(u.skip(c))) by {
            assert(u.skip(c)[0] == u[c]);
            assert forall|j: int| 1 <= j < u.skip(c).len() implies is_digit(u.skip(c)[j]) by {
                assert(u.skip(c)[j] == u[c + j]);
            }
        }
        assert forall|i: int| is_id_split(u, i) implies c <= i by {
            if i < c {
                assert(is_version_suffix(u.skip(i)));
                assert(u.skip(i)[d - 1 - i] == u[d - 1]);
                assert(is_digit(u[d - 1]));
            }
        }
    } else {
        assert(u.take(u.len() as int) =~= u);
        assert forall|i: int| is_id_split(u, i) implies u.len() <= i by {
            if i < u.len() {
                assert(is_version_suffix(u.skip(i)));
                assert(u.skip(i)[0] == u[i]);
                // everything after the `;` at `i` is a digit
                assert forall|j: int| i + 1 <= j < u.len() implies is_digit(u[j]) by {
                    assert(is_digit(u.skip(i)[j - i]));
                }
                // so the digit suffix reaches back exactly to `i + 1`
                assert(d <= i + 1) by {
                    if d > i + 1 {
                        assert(is_digit(u[d - 1]));
                        assert(!is_digit(u[d - 1]));
                    }
                }
                assert(d == i + 1) by {
                    if d <= i {
                        assert(is_digit(u[i]));
                    }
                }
                // but then the capture would have dropped that suffix
                assert(false);
            }
        }
    }
}

/// `t` starts with the literal `cdrom`.
pub open spec fn has_cdrom(t: Seq<char>) -> bool {
    t.len() >= 5 && t[0] == 'c' && t[1] == 'd' && t[2] == 'r' && t[3] == 'o' && t[4] == 'm'
}

/// `t` without its boot-device prefix — `cdrom:\` or `cdrom<digit>:\` — when
/// that prefix is present and something follows it, otherwise `t` unchanged.
pub open spec fn spec_strip_boot_prefix(t: Seq<char>) -> Seq<char> {
    if has_cdrom(t) && t.len() > 8 && is_digit(t[5]) && t[6] == ':' && t[7] == '\\' {
        t.skip(8)
    } else if has_cdrom(t) && t.len() > 7 && t[5] == ':' && t[6] == '\\' {
        t.skip(7)
    } else {
        t
    }
}

/// The title id that a raw boot-key value resolves to: trim the value, and
/// unless nothing is left, strip the optional boot-device prefix and drop the
/// optional version suffix.
pub open spec fn spec_resolve(v: Seq<char>) -> Option<Seq<char>> {
    let t = trim_spec(v);
    if t.len() == 0 {
        None
    } else {
        Some(spec_capture(spec_strip_boot_prefix(t)))
    }
}

/// A resolved title id is never empty.
pub proof fn lemma_resolved_nonempty(v: Seq<char>)
    ensures
        spec_resolve(v) matches Some(t) ==> t.len() > 0,
{
}

/// Executable mirror of `is_digit`.
pub fn is_digit_char(c: char) -> (r: bool)
    ensures
        r == is_digit(c),
{
    '0' <= c && c <= '9'
}

proof fn lemma_digit_suffix_start_at(s: Seq<char>, d: int)
    requires
        0 <= d <= s.len(),
        forall|j: int| d <= j < s.len() ==> is_digit(s[j]),
        d > 0 ==> !is_digit(s[d - 1]),
    ensures
        digit_suffix_start(s) == d,
    decreases s.len(),
{
    if s.len() == 0 {
    } else if !is_digit(s.last()) {
        assert(d == s.len());
    } else {
        lemma_digit_suffix_start_at(s.drop_last(), d);
    }
}

/// Resolves the title id from a raw boot-key value, if the trimmed value is
/// non-empty.
pub fn resolve_title_id(value: &str) -> (r: Option<String>)
    ensures
        match r {
            Some(s) => spec_resolve(value@) == Some(s@) && s@.len() > 0,
            None => spec_resolve(value@) is None,
        },
{
    proof {
        lemma_resolved_nonempty(value@);
    }
    let t = trim_str(value);
    let n = t.unicode_len();
    if n == 0 {
        return None;
    }
    let start: usize = if n >= 5 && t.get_char(0) == 'c' && t.get_char(1) == 'd' && t.get_char(2)
        == 'r' && t.get_char(3) == 'o' && t.get_char(4) == 'm' {
        if n > 8 && is_digit_char(t.get_char(5)) && t.get_char(6) == ':' && t.get_char(7) == '\\' {
            8
        } else if n > 7 && t.get_char(5) == ':' && t.get_char(6) == '\\' {
            7
        } else {
            0
        }
    } else {
        0
    };
    let u = t.substring_char(start, n);
    proof {
        assert(u@ =~= spec_strip_boot_prefix(t@));
    }
    let m = u.unicode_len();
    let mut d: usize = m;
    while d > 0 && is_digit_char(u.get_char(d - 1))
        invariant
            d <= m,
            m == u@.len(),
            forall|j: int| d <= j < m ==> is_digit(u@[j]),
        decreases d,
    {
        d -= 1;
    }
    proof {
        lemma_digit_suffix_start_at(u@, d as int);
    }
    if d < m && d >= 2 && u.get_char(d - 1) == ';' {
        Some(String::from_str(u.substring_char(0, d - 1)))
    } else {
        Some(String::from_str(u))
    }
}

} // verus!
