//! Transcoding between raw 16-bit little-endian PCM buffers and Opus packets.
//!
//! The codec engine itself is not part of this crate: `encode_frame` and
//! `decode_frame` take it as a function. Each is made of two halves around
//! the engine. A `prepare_*` function decides what the engine is asked to do,
//! and a `finish_*` function turns whatever the engine answered into the
//! caller's result and the session's next state.

pub mod decode;
pub mod encode;
pub mod error;
pub mod options;
pub mod pcm;
pub mod session;

pub use crate::decode::{
    decode_frame, finish_decode, prepare_decode, DecodeOutcome, DecodeRequest,
};
pub use crate::encode::{
    encode_frame, finish_encode, prepare_encode, EncodeOutcome, EncodeRequest,
};
pub use crate::error::{CodecError, EngineErrorCode};
pub use crate::options::{
    resolve_channels, ChannelMode, OpusCodecOptions, OpusDecodeInfo, OpusEncodeInfo,
};
pub use crate::pcm::{pcm_to_samples, samples_to_pcm};
pub use crate::session::{CodecSession, EncoderState, SessionParams};
