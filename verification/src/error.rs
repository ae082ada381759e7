//! Failures that the gateway reports to its caller.

use vstd::prelude::*;

verus! {

/// Why a text is not the hex encoding of a byte sequence.
#[derive(Clone, Copy, Debug, PartialEq, Eq)]
pub enum HexError {
    /// The text has an odd number of bytes.
    OddLength,
    /// The byte at `index` of the text is no hex digit; `c` is that byte as a
    /// character.
    InvalidCharacter { c: char, index: usize },
}

/// Why a verification call ended without a verdict.
#[derive(Clone, Copy, Debug, PartialEq, Eq)]
pub enum VerifyError {
    /// One of the three texts is not hex.
    InvalidEncoding(HexError),
    /// The backend could not parse the proof or the verifying key.
    MalformedArtifact,
}

} // verus!
