use vstd::prelude::*;

verus! {

/// The failures of the remoting layer.
#[derive(Debug, Clone, PartialEq, Eq)]
pub enum Error {
    /// A frame or its header could not be decoded.
    DecodeCommandError(String),
    /// The transport failed.
    IoError(String),
    /// Fewer than four bytes are buffered.
    StreamNotReady,
    /// The endpoint could not be parsed.
    InvalidAddress(String),
    /// The caller's wait exceeded its bound.
    Timeout,
    /// The completion handle was dropped without a result.
    ReadError,
    /// The outbound queue was full or the transport write failed.
    WriteError(String),
    /// Not enough bytes yet: read again later.
    TryLater,
    /// An unexpected lower-level failure.
    InternalError(String),
}

/// The big-endian value of four bytes.
pub open spec fn be_u32(b0: u8, b1: u8, b2: u8, b3: u8) -> int {
    b0 as int * 0x100_0000 + b1 as int * 0x1_0000 + b2 as int * 0x100 + b3 as int
}

/// Reads the big-endian `u32` at the start of `data`.
pub fn read_u32(data: &[u8]) -> (r: u32)
    requires
        data@.len() >= 4,
    ensures
        r as int == be_u32(data@[0], data@[1], data@[2], data@[3]),
{
    (data[0] as u32) * 0x100_0000 + (data[1] as u32) * 0x1_0000 + (data[2] as u32) * 0x100
        + (data[3] as u32)
}

} // verus!
