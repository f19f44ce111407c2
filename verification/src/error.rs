use vstd::prelude::*;

verus! {

/// The decoder's error type. A decode either yields a complete,
/// internally consistent object, or aborts with exactly one of these;
/// there is no partial or best-effort result.
///
/// Every variant carries the absolute byte offset it concerns, so a
/// corrupt or unsupported file can be diagnosed from the error alone.
#[derive(Clone, Copy, Debug, PartialEq, Eq, Structural)]
pub enum DecodeError {
    /// The input ended before the field or record starting at `offset`
    /// could be read in full.
    UnexpectedEnd { offset: u64 },
    /// The pointer field at position `at` holds 0 where a record is
    /// required. Offset 0 is the null sentinel and is never a valid
    /// record address, so it is rejected instead of dereferenced.
    NullOffset { at: u64 },
    /// Following the chain reached the node at `offset` after more steps
    /// than the input could possibly hold distinct nodes, so the on-disk
    /// list must revisit a node and would never reach the 0 terminator.
    CyclicChain { offset: u64 },
    /// The facelist at `offset` selects the face-type tag `tag`, which is
    /// not one of the six known fixed-layout triangle encodings. The
    /// record width is derived from the tag, so an unknown tag is a hard
    /// failure rather than a skip.
    UnknownFaceType { offset: u64, tag: u8 },
    /// The string region starting at `offset` is not valid UTF-8.
    /// Malformed strings are rejected outright, never replaced.
    InvalidString { offset: u64 },
    /// The buffer whose declared count field sits at `offset` declares
    /// `count` elements, which exceeds its declared capacity `capacity`.
    CountOverCapacity { offset: u64, count: u32, capacity: u32 },
}

} // verus!
