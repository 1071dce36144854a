use vstd::prelude::*;

use crate::error::{CodecError, EngineErrorCode};
use crate::options::{resolve_channels, resolved_mode, ChannelMode, OpusCodecOptions};
use crate::pcm::{pcm_of, samples_to_pcm};
use crate::session::{missing_instance, with_decoder, CodecSession, SessionParams};

verus! {

/// What the engine is asked to do for one decode call, in this order: create
/// the decoder where `create` says so, then decode the packet into a zeroed
/// scratch region of `scratch_len` samples. The first step that fails ends
/// the request.
#[derive(Clone, Copy, Debug, PartialEq, Eq)]
pub struct DecodeRequest {
    /// The parameters to create the decoder with; `None` where the session
    /// has one.
    pub create: Option<SessionParams>,
    /// The channel mode that the call's channel setting stands for.
    pub channels: ChannelMode,
    /// The number of samples the scratch region holds.
    pub scratch_len: usize,
    /// Whether the engine is to recover the frame from forward error
    /// correction data. It never is.
    pub fec: bool,
}

/// How the engine answered a decode request.
#[derive(Debug, PartialEq, Eq)]
pub enum DecodeOutcome {
    /// The decoder could not be created.
    CreateFailed(EngineErrorCode),
    /// The decoder refused the packet.
    DecodeFailed(EngineErrorCode),
    /// The decoder wrote `per_channel` samples for each channel to the front
    /// of the scratch region `samples`.
    Decoded { samples: Vec<i16>, per_channel: usize },
}

/// The request that a decode call makes of the engine, or the error that ends
/// the call before the engine is asked anything. The scratch region is sized
/// by the channel setting as given, so a setting of 0 gives an empty one.
pub open spec fn decode_plan(decoder: Option<SessionParams>, options: OpusCodecOptions) -> Result<
    DecodeRequest,
    CodecError,
> {
    match resolved_mode(options.channels) {
        None => Err(CodecError::Config { channels: options.channels }),
        Some(mode) => Ok(
            DecodeRequest {
                create: missing_instance(decoder, options.sample_rate, mode),
                channels: mode,
                scratch_len: (options.max_frame_size * options.channels) as usize,
                fec: false,
            },
        ),
    }
}

/// The session's decoder after the engine answered `outcome` to `request`.
pub open spec fn decoder_after(
    decoder: Option<SessionParams>,
    request: DecodeRequest,
    outcome: DecodeOutcome,
) -> Option<SessionParams> {
    if outcome is CreateFailed {
        decoder
    } else {
        with_decoder(decoder, request.create)
    }
}

/// What a decode call returns once the engine answered `outcome`: the PCM
/// bytes of the samples that were decoded for `channels` channels.
pub open spec fn decode_result(channels: ChannelMode, outcome: DecodeOutcome) -> Result<
    Seq<u8>,
    CodecError,
> {
    match outcome {
        DecodeOutcome::CreateFailed(code) => Err(CodecError::CodecInit(code)),
        DecodeOutcome::DecodeFailed(code) => Err(CodecError::Decode(code)),
        DecodeOutcome::Decoded { samples, per_channel } => if channels.count() * per_channel
            <= samples@.len() {
            Ok(pcm_of(samples@.take(channels.count() * per_channel)))
        } else {
            Err(CodecError::Decode(EngineErrorCode::BufferTooSmall))
        },
    }
}

/// First half of a decode call: decides what the engine is asked to do with
/// the packet. A decoder is created only where the session has none, so the
/// sample rate and channel setting of a later call are ignored.
pub fn prepare_decode(session: &CodecSession, options: &OpusCodecOptions) -> (r: Result<
    DecodeRequest,
    CodecError,
>)
    requires
        options.max_frame_size >= 0,
    ensures
        r == decode_plan(session.decoder(), *options),
{
    let mode = match resolve_channels(options.channels) {
        Ok(mode) => mode,
        Err(error) => {
            return Err(error);
        },
    };
    let per_channel: usize = options.max_frame_size as usize;
    let channels: usize = options.channels as usize;
    assert(per_channel * channels == options.max_frame_size * options.channels) by (nonlinear_arith)
        requires
            per_channel == options.max_frame_size,
            channels == options.channels,
    ;
    assert(per_channel * channels <= 2 * per_channel) by (nonlinear_arith)
        requires
            0 <= channels <= 2,
            0 <= per_channel,
    ;
    Ok(
        DecodeRequest {
            create: session.decoder_to_create(options.sample_rate, mode),
            channels: mode,
            scratch_len: per_channel * channels,
            fec: false,
        },
    )
}

/// Second half of a decode call: records in the session what the engine did
/// and returns the decoded samples as PCM bytes, or the error for the step
/// that failed. A sample count that the scratch region cannot hold is refused.
pub fn finish_decode(session: &mut CodecSession, request: &DecodeRequest, outcome: DecodeOutcome) -> (r:
    Result<Vec<u8>, CodecError>)
    ensures
        final(session).decoder() == decoder_after(old(session).decoder(), *request, outcome),
        final(session).encoder() == old(session).encoder(),
        match decode_result(request.channels, outcome) {
            Ok(bytes) => r matches Ok(pcm) && pcm@ == bytes,
            Err(error) => r == Err::<Vec<u8>, CodecError>(error),
        },
        r matches Ok(pcm) ==> outcome matches DecodeOutcome::Decoded { per_channel, .. }
            && pcm.len() == 2 * request.channels.count() * per_channel,
{
    match outcome {
        DecodeOutcome::CreateFailed(code) => Err(CodecError::CodecInit(code)),
        DecodeOutcome::DecodeFailed(code) => {
            record_created(session, request.create);
            Err(CodecError::Decode(code))
        },
        DecodeOutcome::Decoded { samples, per_channel } => {
            record_created(session, request.create);
            let channels: usize = request.channels.channel_count();
            if per_channel <= samples.len() / channels {
                assert(channels * per_channel <= samples.len()) by (nonlinear_arith)
                    requires
                        1 <= channels <= 2,
                        per_channel <= samples.len() / channels,
                ;
                let pcm = samples_to_pcm(&samples, channels * per_channel);
                assert(2 * (channels * per_channel) == 2 * channels * per_channel)
                    by (nonlinear_arith);
                Ok(pcm)
            } else {
                assert(channels * per_channel > samples.len()) by (nonlinear_arith)
                    requires
                        1 <= channels <= 2,
                        per_channel > samples.len() / channels,
                ;
                Err(CodecError::Decode(EngineErrorCode::BufferTooSmall))
            }
        },
    }
}

/// A whole decode call on `session`: prepares the request, hands it to
/// `engine` together with the packet in `decoding_buffer`, and finishes with
/// whatever the engine answered. The engine is not asked anything where the
/// channel setting is invalid.
pub fn decode_frame<E: FnOnce(&DecodeRequest, &Vec<u8>) -> DecodeOutcome>(
    session: &mut CodecSession,
    options: &OpusCodecOptions,
    decoding_buffer: &Vec<u8>,
    engine: E,
) -> (r: Result<Vec<u8>, CodecError>)
    requires
        options.max_frame_size >= 0,
        forall|request: &DecodeRequest| call_requires(engine, (request, decoding_buffer)),
    ensures
        final(session).encoder() == old(session).encoder(),
        match decode_plan(old(session).decoder(), *options) {
            Err(error) => {
                &&& r == Err::<Vec<u8>, CodecError>(error)
                &&& final(session).decoder() == old(session).decoder()
            },
            Ok(request) => exists|outcome: DecodeOutcome|
                {
                    &&& #[trigger] call_ensures(engine, (&request, decoding_buffer), outcome)
                    &&& final(session).decoder() == decoder_after(
                        old(session).decoder(),
                        request,
                        outcome,
                    )
                    &&& match decode_result(request.channels, outcome) {
                        Ok(bytes) => r matches Ok(pcm) && pcm@ == bytes,
                        Err(error) => r == Err::<Vec<u8>, CodecError>(error),
                    }
                },
        },
{
    let request = match prepare_decode(session, options) {
        Ok(request) => request,
        Err(error) => {
            return Err(error);
        },
    };
    let outcome = engine(&request, decoding_buffer);
    finish_decode(session, &request, outcome)
}

fn record_created(session: &mut CodecSession, create: Option<SessionParams>)
    ensures
        final(session).decoder() == with_decoder(old(session).decoder(), create),
        final(session).encoder() == old(session).encoder(),
{
    match create {
        Some(params) => session.decoder_created(params),
        None => {},
    }
}

/// A channel setting of 0 selects the decoder that a setting of 1 selects.
/// The scratch region is another matter: it is empty for 0.
pub proof fn lemma_decode_zero_channels_is_mono(
    decoder: Option<SessionParams>,
    zero: OpusCodecOptions,
    one: OpusCodecOptions,
)
    requires
        zero.channels == 0,
        one.channels == 1,
        zero.sample_rate == one.sample_rate,
    ensures
        decode_plan(decoder, zero) matches Ok(for_zero) && decode_plan(decoder, one) matches Ok(
            for_one,
        ) && {
            &&& for_zero.create == for_one.create
            &&& for_zero.channels == ChannelMode::Mono
            &&& for_one.channels == ChannelMode::Mono
            &&& for_zero.scratch_len == 0
        },
{
}

/// Once a session has a decoder, no decode call asks for another one, and
/// whatever the engine answers, the decoder keeps the sample rate and channel
/// mode it was created with.
pub proof fn lemma_decoder_is_kept(
    params: SessionParams,
    options: OpusCodecOptions,
    outcome: DecodeOutcome,
)
    requires
        resolved_mode(options.channels) is Some,
    ensures
        decode_plan(Some(params), options) matches Ok(request) && {
            &&& request.create is None
            &&& decoder_after(Some(params), request, outcome) == Some(params)
        },
{
}

/// A decoded buffer is twice as long, in bytes, as the number of samples per
/// channel times the number of channels that the call's setting stands for.
pub proof fn lemma_decode_output_size(channels: ChannelMode, outcome: DecodeOutcome)
    requires
        decode_result(channels, outcome) is Ok,
    ensures
        outcome matches DecodeOutcome::Decoded { per_channel, .. } && decode_result(
            channels,
            outcome,
        )->Ok_0.len() == 2 * channels.count() * per_channel,
{
    let per_channel = outcome->per_channel;
    assert(2 * (channels.count() * per_channel) == 2 * channels.count() * per_channel)
        by (nonlinear_arith);
}

} // verus!
