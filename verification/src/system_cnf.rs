//! The parsed configuration entry of a disc image: a key/value mapping built
//! once from newline-delimited `key = value` text.
//!
//! The text must be ASCII. In each line the first `=` splits key from value;
//! the key loses its trailing whitespace, the value its leading whitespace,
//! and nothing else is trimmed. A line without `=` is ignored, and a later
//! line with the same key overwrites an earlier one.

use vstd::prelude::*;

use crate::text::all_ascii;
use crate::text::ascii_to_string;
use crate::text::chars_of;
use crate::text::find_char;
use crate::text::find_from;
use crate::text::is_space;
use crate::text::is_space_char;
use crate::text::lemma_find_char_at;
use crate::text::lemma_find_char_range;
use crate::text::lemma_trim_end_take;
use crate::text::lemma_trim_start_skip;
use crate::text::trim_end_spec;
use crate::text::trim_start_spec;
use crate::title_id::resolve_title_id;
use crate::title_id::spec_resolve;

verus! {

/// The key and value that one line contributes, or nothing for a line
/// without `=`.
pub open spec fn spec_parse_line(line: Seq<char>) -> Option<(Seq<char>, Seq<char>)> {
    let i = find_char(line, '=');
    if i == -1 {
        None
    } else {
        Some((trim_end_spec(line.take(i)), trim_start_spec(line.skip(i + 1))))
    }
}

/// The newline-delimited segments of `s`; the text after the last newline is
/// a segment too, so there is always at least one.
pub open spec fn spec_lines(s: Seq<char>) -> Seq<Seq<char>>
    decreases s.len(),
    via spec_lines_decreases
{
    let i = find_char(s, '\n');
    if i == -1 {
        seq![s]
    } else {
        seq![s.take(i)] + spec_lines(s.skip(i + 1))
    }
}

#[via_fn]
proof fn spec_lines_decreases(s: Seq<char>) {
    lemma_find_char_range(s, '\n');
}

/// One line folded onto a mapping: a binding overwrites, a line without `=`
/// changes nothing.
pub open spec fn apply_line(
    m: Map<Seq<char>, Seq<char>>,
    line: Seq<char>,
) -> Map<Seq<char>, Seq<char>> {
    match spec_parse_line(line) {
        Some(kv) => m.insert(kv.0, kv.1),
        None => m,
    }
}

/// Lines folded onto a mapping in order, so that later lines win.
pub open spec fn apply_lines(
    m: Map<Seq<char>, Seq<char>>,
    lines: Seq<Seq<char>>,
) -> Map<Seq<char>, Seq<char>>
    decreases lines.len(),
{
    if lines.len() == 0 {
        m
    } else {
        apply_lines(apply_line(m, lines[0]), lines.drop_first())
    }
}

/// The mapping that a configuration text denotes.
pub open spec fn spec_config(s: Seq<char>) -> Map<Seq<char>, Seq<char>> {
    apply_lines(Map::empty(), spec_lines(s))
}

/// Stored entries folded into a mapping in order, later entries winning.
pub open spec fn entries_apply(
    m: Map<Seq<char>, Seq<char>>,
    es: Seq<(String, String)>,
) -> Map<Seq<char>, Seq<char>>
    decreases es.len(),
{
    if es.len() == 0 {
        m
    } else {
        entries_apply(m.insert(es[0].0@, es[0].1@), es.drop_first())
    }
}

/// The title id that a configuration mapping yields: the resolution of the
/// `BOOT2` value, when that key is bound and its value resolves.
pub open spec fn spec_title_id(m: Map<Seq<char>, Seq<char>>) -> Option<Seq<char>> {
    if m.contains_key("BOOT2"@) {
        spec_resolve(m["BOOT2"@])
    } else {
        None
    }
}

/// Why configuration text was rejected.
#[derive(Clone, Copy, Debug, PartialEq, Eq, Structural)]
pub enum ConfigError {
    /// The raw entry bytes are not ASCII.
    NotAscii,
}

/// A parsed configuration entry, an immutable key/value mapping.
#[derive(Debug)]
pub struct SystemCnf {
    entries: Vec<(String, String)>,
}

impl View for SystemCnf {
    type V = Map<Seq<char>, Seq<char>>;

    closed spec fn view(&self) -> Map<Seq<char>, Seq<char>> {
        entries_apply(Map::empty(), self.entries@)
    }
}

proof fn lemma_entries_apply_absent(
    m: Map<Seq<char>, Seq<char>>,
    es: Seq<(String, String)>,
    k: Seq<char>,
)
    requires
        forall|j: int| 0 <= j < es.len() ==> es[j].0@ != k,
    ensures
        entries_apply(m, es).contains_key(k) == m.contains_key(k),
        m.contains_key(k) ==> entries_apply(m, es)[k] == m[k],
    decreases es.len(),
{
    if es.len() > 0 {
        lemma_entries_apply_absent(m.insert(es[0].0@, es[0].1@), es.drop_first(), k);
    }
}

proof fn lemma_entries_apply_found(
    m: Map<Seq<char>, Seq<char>>,
    es: Seq<(String, String)>,
    k: Seq<char>,
    i: int,
)
    requires
        0 <= i < es.len(),
        es[i].0@ == k,
        forall|j: int| i < j < es.len() ==> es[j].0@ != k,
    ensures
        entries_apply(m, es).contains_key(k),
        entries_apply(m, es)[k] == es[i].1@,
    decreases es.len(),
{
    let m1 = m.insert(es[0].0@, es[0].1@);
    if i == 0 {
        lemma_entries_apply_absent(m1, es.drop_first(), k);
    } else {
        lemma_entries_apply_found(m1, es.drop_first(), k, i - 1);
    }
}

proof fn lemma_entries_apply_snoc(
    m: Map<Seq<char>, Seq<char>>,
    es: Seq<(String, String)>,
    e: (String, String),
)
    ensures
        entries_apply(m, es.push(e)) == entries_apply(m, es).insert(e.0@, e.1@),
    decreases es.len(),
{
    if es.len() == 0 {
        assert(es.push(e)[0] == e);
        let m1 = m.insert(e.0@, e.1@);
        assert(entries_apply(m, es.push(e)) == entries_apply(m1, es.push(e).drop_first()));
        assert(es.push(e).drop_first().len() == 0);
        assert(entries_apply(m1, es.push(e).drop_first()) == m1);
    } else {
        assert(es.push(e)[0] == es[0]);
        assert(es.push(e).drop_first() =~= es.drop_first().push(e));
        let m1 = m.insert(es[0].0@, es[0].1@);
        assert(entries_apply(m, es.push(e)) == entries_apply(m1, es.drop_first().push(e)));
        lemma_entries_apply_snoc(m1, es.drop_first(), e);
        assert(entries_apply(m, es) == entries_apply(m1, es.drop_first()));
    }
}

impl SystemCnf {
    /// Parses one line: the first `=` splits it, the key loses trailing and
    /// the value leading whitespace.
    fn parse_line(line: &str) -> (r: Option<(String, String)>)
        requires
            line.is_ascii(),
        ensures
            match r {
                Some(kv) => spec_parse_line(line@) == Some((kv.0@, kv.1@)),
                None => spec_parse_line(line@) is None,
            },
    {
        let n = line.unicode_len();
        let i = find_from(line, 0, '=');
        proof {
            lemma_find_char_at(line@, '=', i as int);
        }
        if i == n {
            return None;
        }
        let mut e: usize = i;
        while e > 0 && is_space_char(line.get_char(e - 1))
            invariant
                e <= i,
                i < n,
                n == line@.len(),
                forall|j: int| e <= j < i ==> is_space(line@[j]),
            decreases e,
        {
            e -= 1;
        }
        let key = line.substring_ascii(0, e);
        let mut v: usize = i + 1;
        while v < n && is_space_char(line.get_char(v))
            invariant
                i + 1 <= v <= n,
                n == line@.len(),
                forall|j: int| i + 1 <= j < v ==> is_space(line@[j]),
            decreases n - v,
        {
            v += 1;
        }
        let value = line.substring_ascii(v, n);
        proof {
            lemma_trim_end_take(line@.take(i as int), e as int);
            assert(line@.take(i as int).take(e as int) =~= key@);
            lemma_trim_start_skip(line@.skip(i + 1), v - (i + 1));
            assert(line@.skip(i + 1).skip(v - (i + 1)) =~= value@);
        }
        Some((String::from_str(key), String::from_str(value)))
    }

    /// Parses validated ASCII text into the mapping.
    fn parse_text(text: &str) -> (r: SystemCnf)
        requires
            text.is_ascii(),
        ensures
            r@ == spec_config(text@),
    {
        let n = text.unicode_len();
        let mut entries: Vec<(String, String)> = Vec::new();
        let mut start: usize = 0;
        proof {
            assert(text@.skip(0) =~= text@);
        }
        loop
            invariant_except_break
                text.is_ascii(),
                n == text@.len(),
                start <= n,
                spec_config(text@) == apply_lines(
                    entries_apply(Map::empty(), entries@),
                    spec_lines(text@.skip(start as int)),
                ),
            ensures
                spec_config(text@) == entries_apply(Map::empty(), entries@),
            decreases n - start,
        {
            let ghost m0 = entries_apply(Map::empty(), entries@);
            let ghost rest = text@.skip(start as int);
            let j = find_from(text, start, '\n');
            let line = text.substring_ascii(start, j);
            proof {
                assert(forall|x: int| 0 <= x < rest.len() ==> rest[x] == text@[start + x]);
                lemma_find_char_at(rest, '\n', j - start);
                if j < n {
                    assert(spec_lines(rest) == seq![rest.take(j - start)] + spec_lines(
                        rest.skip(j - start + 1),
                    ));
                    assert(rest.take(j - start) =~= line@);
                    assert(rest.skip(j - start + 1) =~= text@.skip(j + 1));
                } else {
                    assert(spec_lines(rest) == seq![rest]);
                    assert(rest =~= line@);
                }
            }
            match Self::parse_line(line) {
                Some(kv) => {
                    proof {
                        lemma_entries_apply_snoc(Map::empty(), entries@, kv);
                    }
                    entries.push(kv);
                },
                None => {},
            }
            proof {
                let m1 = entries_apply(Map::empty(), entries@);
                assert(m1 == apply_line(m0, line@));
                if j < n {
                    let tail = spec_lines(text@.skip(j + 1));
                    assert((seq![line@] + tail).drop_first() =~= tail);
                    assert((seq![line@] + tail)[0] == line@);
                    assert(apply_lines(m0, seq![line@] + tail) == apply_lines(m1, tail));
                } else {
                    assert(seq![line@][0] == line@);
                    assert(apply_lines(m0, seq![line@]) == apply_lines(
                        m1,
                        seq![line@].drop_first(),
                    ));
                    assert(seq![line@].drop_first().len() == 0);
                    assert(apply_lines(m1, seq![line@].drop_first()) == m1);
                }
            }
            if j == n {
                break;
            }
            start = j + 1;
        }
        SystemCnf { entries }
    }

    /// Parses raw configuration bytes; rejects anything that is not ASCII.
    pub fn parse(bytes: &[u8]) -> (r: Result<SystemCnf, ConfigError>)
        ensures
            match r {
                Ok(c) => all_ascii(bytes@) && c@ == spec_config(chars_of(bytes@)),
                Err(e) => !all_ascii(bytes@) && e == ConfigError::NotAscii,
            },
    {
        let n = bytes.len();
        let mut i: usize = 0;
        while i < n
            invariant
                i <= n,
                n == bytes@.len(),
                forall|j: int| 0 <= j < i ==> bytes@[j] < 128,
            decreases n - i,
        {
            if bytes[i] >= 128 {
                return Err(ConfigError::NotAscii);
            }
            i += 1;
        }
        let text = ascii_to_string(bytes);
        Ok(Self::parse_text(&text))
    }

    /// Looks a key up exactly; the latest binding for it wins.
    pub fn get<'a>(&'a self, key: &str) -> (r: Option<&'a String>)
        ensures
            match r {
                Some(v) => self@.contains_key(key@) && self@[key@] == v@,
                None => !self@.contains_key(key@),
            },
    {
        let k = String::from_str(key);
        let n = self.entries.len();
        let mut i: usize = n;
        while i > 0
            invariant
                i <= n,
                n == self.entries@.len(),
                k@ == key@,
                forall|j: int| i <= j < n ==> self.entries@[j].0@ != key@,
            decreases i,
        {
            i -= 1;
            let pair = &self.entries[i];
            if pair.0 == k {
                proof {
                    lemma_entries_apply_found(Map::empty(), self.entries@, key@, i as int);
                }
                return Some(&pair.1);
            }
        }
        proof {
            lemma_entries_apply_absent(Map::empty(), self.entries@, key@);
        }
        None
    }

    /// The resolved title id from the `BOOT2` key, when that key is present
    /// and its value resolves.
    pub fn title_id(&self) -> (r: Option<String>)
        ensures
            match r {
                Some(s) => spec_title_id(self@) == Some(s@) && s@.len() > 0,
                None => spec_title_id(self@) is None,
            },
    {
        match self.get("BOOT2") {
            Some(v) => resolve_title_id(v.as_str()),
            None => None,
        }
    }
}

} // verus!
