use vstd::prelude::*;

use crate::error::CodecError;

verus! {

/// Codec settings supplied with every call.
pub struct OpusCodecOptions {
    /// Samples per channel in one frame.
    pub frame_size: i32,
    /// Sample rate in Hz.
    pub sample_rate: i32,
    /// 0 or 1 for mono, 2 for stereo.
    pub channels: i32,
    /// Target bitrate in bits per second.
    pub bitrate: i32,
    /// Upper bound on decoded samples per channel.
    pub max_frame_size: i32,
    /// Upper bound on the size of an encoded packet, in bytes.
    pub max_packet_size: i32,
}

pub struct OpusEncodeInfo {}

pub struct OpusDecodeInfo {}

impl OpusCodecOptions {
    pub fn new(
        frame_size: i32,
        sample_rate: i32,
        channels: i32,
        bitrate: i32,
        max_frame_size: i32,
        max_packet_size: i32,
    ) -> (options: OpusCodecOptions)
        ensures
            options.frame_size == frame_size,
            options.sample_rate == sample_rate,
            options.channels == channels,
            options.bitrate == bitrate,
            options.max_frame_size == max_frame_size,
            options.max_packet_size == max_packet_size,
    {
        OpusCodecOptions {
            frame_size,
            sample_rate,
            channels,
            bitrate,
            max_frame_size,
            max_packet_size,
        }
    }
}

/// The channel layout of an encoder or decoder.
#[derive(Clone, Copy, Debug, PartialEq, Eq, Structural)]
pub enum ChannelMode {
    Mono,
    Stereo,
}

impl ChannelMode {
    /// Number of interleaved channels.
    pub open spec fn count(self) -> nat {
        match self {
            ChannelMode::Mono => 1,
            ChannelMode::Stereo => 2,
        }
    }

    pub fn channel_count(self) -> (n: usize)
        ensures
            n == self.count(),
    {
        match self {
            ChannelMode::Mono => 1,
            ChannelMode::Stereo => 2,
        }
    }
}

/// The mode a raw channel setting stands for: 0 and 1 are mono, 2 is stereo,
/// anything else is no mode at all.
pub open spec fn resolved_mode(channels: i32) -> Option<ChannelMode> {
    if channels == 0 || channels == 1 {
        Some(ChannelMode::Mono)
    } else if channels == 2 {
        Some(ChannelMode::Stereo)
    } else {
        None
    }
}

pub fn resolve_channels(channels: i32) -> (r: Result<ChannelMode, CodecError>)
    ensures
        r == match resolved_mode(channels) {
            Some(mode) => Ok::<ChannelMode, CodecError>(mode),
            None => Err(CodecError::Config { channels }),
        },
{
    if channels == 0 || channels == 1 {
        Ok(ChannelMode::Mono)
    } else if channels == 2 {
        Ok(ChannelMode::Stereo)
    } else {
        Err(CodecError::Config { channels })
    }
}

} // verus!
