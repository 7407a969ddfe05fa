//! The backend of `Regexp`.

use vstd::prelude::*;
use crate::bytes::same_bytes;
use crate::error::ArtichokeError;

verus! {

pub type NilableString = Option<Vec<u8>>;

pub type NameToCaptureLocations = Vec<(Vec<u8>, Vec<usize>)>;

/// What a scan of a haystack gave.
#[derive(Debug, Clone, Hash, PartialEq, Eq, PartialOrd, Ord)]
pub enum Scan {
    /// The groups of every match, for a pattern with groups.
    Collected(Vec<Vec<Option<Vec<u8>>>>),
    /// Every match, for a pattern without groups.
    Patterns(Vec<Vec<u8>>),
    /// The matches were given to a block, and the scan gives the haystack.
    Haystack,
}

/// The encoding that a pattern asks for.
#[derive(Debug, Clone, Copy, Hash, PartialEq, Eq, Structural)]
pub enum Encoding {
    Fixed,
    No,
    Unspecified,
}

/// A pattern with its options.
#[derive(Debug, Clone, Hash, PartialEq, Eq)]
pub struct Config {
    pub pattern: Vec<u8>,
    pub multiline: bool,
    pub ignore_case: bool,
    pub extended: bool,
}

/// A compiled pattern.
pub trait RegexpType {
    fn debug(&self) -> Vec<u8>;

    /// The pattern as it was written.
    fn literal_config(&self) -> &Config;

    /// The pattern as it was compiled.
    fn derived_config(&self) -> &Config;

    fn encoding(&self) -> &Encoding;

    fn inspect(&self) -> Vec<u8>;

    fn string(&self) -> &[u8];

    fn captures(&self, haystack: &[u8]) -> Result<Option<Vec<NilableString>>, ArtichokeError>;

    fn capture_indexes_for_name(&self, name: &[u8]) -> Result<Option<Vec<usize>>, ArtichokeError>;

    fn captures_len(&self, haystack: Option<&[u8]>) -> Result<usize, ArtichokeError>;

    fn is_match(&self, haystack: &[u8], pos: Option<i64>) -> Result<bool, ArtichokeError>;

    fn named_captures(&self) -> Result<NameToCaptureLocations, ArtichokeError>;

    fn names(&self) -> Vec<Vec<u8>>;

    fn pos(&self, haystack: &[u8], at: usize) -> Result<Option<(usize, usize)>, ArtichokeError>;
}

/// Whether two compiled patterns are the same pattern: their patterns as
/// compiled and their encodings are equal.
pub fn same_pattern(derived: &Config, encoding: &Encoding, other: &Config, other_encoding: &Encoding) -> (r: bool)
    ensures
        r == (derived.pattern@ == other.pattern@ && *encoding == *other_encoding),
{
    same_bytes(derived.pattern.as_slice(), other.pattern.as_slice()) && match (
        encoding,
        other_encoding,
    ) {
        (Encoding::Fixed, Encoding::Fixed) => true,
        (Encoding::No, Encoding::No) => true,
        (Encoding::Unspecified, Encoding::Unspecified) => true,
        _ => false,
    }
}

} // verus!
