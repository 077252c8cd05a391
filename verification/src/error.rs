//! The closed set of decoding failures.

use vstd::prelude::*;

verus! {

/// Everything that can go wrong while decoding a world file.
///
/// The set is closed on purpose: callers branch on the structured kind and
/// never on formatted text. Turning an error into a display string is left
/// to the host layer around the library.
#[derive(Debug)]
pub enum WorldLoadError {
    /// Structurally nonsensical input detected without needing to read
    /// further: an empty buffer, or non-positive or excessive declared
    /// dimensions.
    InvalidData { message: &'static str },
    /// Format version outside the supported range. Reserved for future
    /// header-version gating; the decoder does not raise it yet, but it is
    /// part of the closed set downstream code must handle.
    UnsupportedVersion { version: i32 },
    /// Data ran out earlier than the grammar requires, or a post-decode
    /// invariant failed. Carries the cursor offset at which the problem was
    /// detected.
    CorruptedData { position: usize, message: &'static str },
    /// A fixed marker field held an unexpected value. Reserved for explicit
    /// format-tag checks; not raised by the current grammar.
    InvalidFormat { expected: &'static str, found: &'static str },
    /// A primitive cursor read, skip or seek would pass the end of the
    /// buffer. Raised by the cursor itself; the decoder wraps it into
    /// `CorruptedData` with the position at which it was caught.
    OutOfBounds,
}

} // verus!
