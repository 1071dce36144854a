use vstd::prelude::*;

verus! {

/// The failure codes a codec engine can report.
#[derive(Clone, Copy, Debug, PartialEq, Eq, Structural)]
pub enum EngineErrorCode {
    /// One or more arguments were invalid or out of range.
    BadArg,
    /// A buffer was too small for what had to be written into it.
    BufferTooSmall,
    /// The engine detected an internal error.
    InternalError,
    /// The compressed data is corrupted.
    InvalidPacket,
    /// The request is not implemented.
    Unimplemented,
    /// The encoder or decoder state is invalid.
    InvalidState,
    /// Memory allocation failed.
    AllocFail,
    /// Any other failure.
    Unknown,
}

/// Why an encode or decode call produced no buffer.
#[derive(Clone, Copy, Debug, PartialEq, Eq, Structural)]
pub enum CodecError {
    /// The channel setting is none of 0, 1 and 2.
    Config { channels: i32 },
    /// The engine refused to create an encoder or decoder for the requested
    /// sample rate and channel mode.
    CodecInit(EngineErrorCode),
    /// The engine refused the bitrate or the frame.
    Encode(EngineErrorCode),
    /// The engine refused the packet, or reported more samples than the
    /// scratch region holds.
    Decode(EngineErrorCode),
}

} // verus!
