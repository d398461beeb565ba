//! The error taxonomy shared by every layer of the archive reader.
//!
//! Every unrecognized enumerated value, bad magic tag, truncated buffer or
//! malformed payload surfaces as a variant of [`FfxivError`]; no routine in
//! this crate aborts the process on malformed input.

use vstd::prelude::*;

verus! {

/// One error type for the whole archive stack.
///
/// Format errors (bad magic, unrecognized enumerated tags), lookup misses,
/// unsupported container kinds, truncation and payload decoding failures are
/// kept apart so that callers can decide what is fatal and what may be
/// skipped.
#[derive(Clone, Copy, Debug, PartialEq, Eq, Structural)]
pub enum FfxivError {
    /// A 4-byte magic tag did not match the expected value.
    InvalidMagic,
    /// The first path segment names no known asset category.
    UnknownCategory,
    /// The pack header's platform tag is not one of the known platforms.
    UnknownPlatform,
    /// The archived-file header's type tag is not a known file type.
    UnknownFileType,
    /// The table header's variant tag is not a known variant.
    UnknownVariant,
    /// A stored language code maps to no known language.
    UnknownLanguage,
    /// A column descriptor's type code maps to no known column data type.
    UnknownColumnType,
    /// The path has no entry in the index.
    NotFound,
    /// A read ran past the end of the available bytes.
    Truncated,
    /// A text cell's bytes are not valid UTF-8.
    InvalidUtf8,
    /// A block's compressed payload could not be inflated.
    CorruptStream,
    /// The archived file's kind is recognized but not handled here.
    UnsupportedFileType,
}

impl FfxivError {
    /// A short stable name for the error, for diagnostics outside the crate.
    pub fn describe(&self) -> (r: &'static str)
        ensures
            r@.len() > 0,
    {
        let r = match *self {
            FfxivError::InvalidMagic => "InvalidMagic",
            FfxivError::UnknownCategory => "UnknownCategory",
            FfxivError::UnknownPlatform => "UnknownPlatform",
            FfxivError::UnknownFileType => "UnknownFileType",
            FfxivError::UnknownVariant => "UnknownVariant",
            FfxivError::UnknownLanguage => "UnknownLanguage",
            FfxivError::UnknownColumnType => "UnknownColumnType",
            FfxivError::NotFound => "NotFound",
            FfxivError::Truncated => "Truncated",
            FfxivError::InvalidUtf8 => "InvalidUtf8",
            FfxivError::CorruptStream => "CorruptStream",
            FfxivError::UnsupportedFileType => "UnsupportedFileType",
        };
        proof {
            reveal_strlit("InvalidMagic");
            reveal_strlit("UnknownCategory");
            reveal_strlit("UnknownPlatform");
            reveal_strlit("UnknownFileType");
            reveal_strlit("UnknownVariant");
            reveal_strlit("UnknownLanguage");
            reveal_strlit("UnknownColumnType");
            reveal_strlit("NotFound");
            reveal_strlit("Truncated");
            reveal_strlit("InvalidUtf8");
            reveal_strlit("CorruptStream");
            reveal_strlit("UnsupportedFileType");
        }
        r
    }
}

} // verus!
