//! The decision core of the directory crawl: which file names are disc-image
//! candidates, what one extracted configuration entry yields, and how a batch
//! of per-file outcomes turns into per-file reports without one failure
//! stopping the rest.
//!
//! Walking the filesystem and reading archive entries is outside work; it
//! hands this module plain names, bytes and per-file outcomes.

use vstd::prelude::*;

use crate::system_cnf::ConfigError;
use crate::system_cnf::SystemCnf;
use crate::system_cnf::spec_config;
use crate::system_cnf::spec_title_id;
use crate::text::all_ascii;
use crate::text::chars_of;
use crate::text::ends_with;
use crate::text::str_ends_with;

verus! {

/// Why one candidate file failed to index. These are the per-file soft
/// failures: each is reported and the crawl goes on.
#[derive(Clone, Copy, Debug, PartialEq, Eq, Structural)]
pub enum IndexError {
    /// The disc image could not be opened as a container.
    OpenError,
    /// The container has no configuration entry of the expected name.
    EntryNotFound,
    /// The configuration entry is not ASCII text.
    NotAscii,
    /// No title id could be resolved from the configuration.
    NoTitleId,
}

/// The diagnostic text of each per-file failure.
pub open spec fn index_error_text(e: IndexError) -> Seq<char> {
    match e {
        IndexError::OpenError => "could not open the disc image"@,
        IndexError::EntryNotFound => "no SYSTEM.CNF entry found"@,
        IndexError::NotAscii => "SYSTEM.CNF is not ASCII"@,
        IndexError::NoTitleId => "no title ID found"@,
    }
}

impl IndexError {
    /// The diagnostic text for this failure.
    pub fn message(&self) -> (r: String)
        ensures
            r@ == index_error_text(*self),
    {
        match self {
            IndexError::OpenError => String::from_str("could not open the disc image"),
            IndexError::EntryNotFound => String::from_str("no SYSTEM.CNF entry found"),
            IndexError::NotAscii => String::from_str("SYSTEM.CNF is not ASCII"),
            IndexError::NoTitleId => String::from_str("no title ID found"),
        }
    }
}

/// A disc-image candidate: the name ends in one of the fixed suffixes.
pub open spec fn acceptable_name(name: Seq<char>) -> bool {
    ends_with(name, ".iso"@) || ends_with(name, ".iso9660"@)
}

/// Whether a file name marks a disc-image candidate; the tail match is
/// exact and case-sensitive.
pub fn has_acceptable_extension(name: &str) -> (r: bool)
    ensures
        r == acceptable_name(name@),
{
    str_ends_with(name, ".iso") || str_ends_with(name, ".iso9660")
}

/// What indexing one extracted configuration entry yields: the resolved
/// title id, or the precise per-file failure.
pub open spec fn spec_index_config(b: Seq<u8>) -> Result<Seq<char>, IndexError> {
    if !all_ascii(b) {
        Err(IndexError::NotAscii)
    } else {
        match spec_title_id(spec_config(chars_of(b))) {
            Some(t) => Ok(t),
            None => Err(IndexError::NoTitleId),
        }
    }
}

/// Reads the title id out of one extracted configuration entry: parse the
/// bytes, then resolve the boot key's value.
pub fn title_id_from_config(bytes: &[u8]) -> (r: Result<String, IndexError>)
    ensures
        match r {
            Ok(s) => spec_index_config(bytes@) == Ok::<Seq<char>, IndexError>(s@) && s@.len() > 0,
            Err(e) => spec_index_config(bytes@) == Err::<Seq<char>, IndexError>(e),
        },
{
    match SystemCnf::parse(bytes) {
        Err(ConfigError::NotAscii) => Err(IndexError::NotAscii),
        Ok(cnf) => match cnf.title_id() {
            Some(t) => Ok(t),
            None => Err(IndexError::NoTitleId),
        },
    }
}

/// An extraction outcome, as mathematics: the entry's bytes or the failure.
pub open spec fn outcome_view(x: Result<Vec<u8>, IndexError>) -> Result<Seq<u8>, IndexError> {
    match x {
        Ok(b) => Ok(b@),
        Err(e) => Err(e),
    }
}

/// A per-file report, as mathematics: the title id or the failure.
pub open spec fn report_view(r: Result<String, IndexError>) -> Result<Seq<char>, IndexError> {
    match r {
        Ok(s) => Ok(s@),
        Err(e) => Err(e),
    }
}

/// The report owed for one extraction outcome: a failed extraction is
/// reported as it is, extracted bytes are indexed.
pub open spec fn spec_report(x: Result<Seq<u8>, IndexError>) -> Result<Seq<char>, IndexError> {
    match x {
        Ok(b) => spec_index_config(b),
        Err(e) => Err(e),
    }
}

/// Turns one batch of per-file extraction outcomes into per-file reports.
/// Every file gets exactly one report, each determined by that file's own
/// outcome alone, so one bad file never stops the rest of the batch.
pub fn index_outcomes(outcomes: &Vec<(String, Result<Vec<u8>, IndexError>)>) -> (r: Vec<
    (String, Result<String, IndexError>),
>)
    ensures
        r@.len() == outcomes@.len(),
        forall|i: int|
            0 <= i < outcomes@.len() ==> (#[trigger] r@[i]).0@ == outcomes@[i].0@ && report_view(
                r@[i].1,
            ) == spec_report(outcome_view(outcomes@[i].1)),
{
    let n = outcomes.len();
    let mut reports: Vec<(String, Result<String, IndexError>)> = Vec::new();
    let mut i: usize = 0;
    while i < n
        invariant
            i <= n,
            n == outcomes@.len(),
            reports@.len() == i,
            forall|j: int|
                0 <= j < i ==> (#[trigger] reports@[j]).0@ == outcomes@[j].0@ && report_view(
                    reports@[j].1,
                ) == spec_report(outcome_view(outcomes@[j].1)),
        decreases n - i,
    {
        let pair = &outcomes[i];
        let name = pair.0.clone();
        let report = match &pair.1 {
            Ok(bytes) => title_id_from_config(bytes.as_slice()),
            Err(e) => Err(*e),
        };
        reports.push((name, report));
        i += 1;
    }
    reports
}

} // verus!
