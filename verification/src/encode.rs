use vstd::prelude::*;

use crate::error::{CodecError, EngineErrorCode};
use crate::options::{resolve_channels, resolved_mode, OpusCodecOptions};
use crate::pcm::{pcm_region_samples, pcm_to_samples};
use crate::session::{
    missing_instance, with_bitrate, with_encoder, CodecSession, EncoderState, SessionParams,
};

verus! {

/// What the engine is asked to do for one encode call, in this order: create
/// the encoder where `create` says so, apply `bitrate`, then encode `samples`
/// into at most `max_packet_size` bytes. The first step that fails ends the
/// request.
#[derive(Debug, PartialEq, Eq)]
pub struct EncodeRequest {
    /// The parameters to create the encoder with; `None` where the session
    /// has one.
    pub create: Option<SessionParams>,
    /// The bitrate to apply, in bits per second.
    pub bitrate: i32,
    /// The frame, interleaved by channel.
    pub samples: Vec<i16>,
    /// The largest packet the engine may produce, in bytes.
    pub max_packet_size: usize,
}

/// An encode request as a mathematical value.
pub ghost struct EncodePlan {
    pub create: Option<SessionParams>,
    pub bitrate: i32,
    pub samples: Seq<i16>,
    pub max_packet_size: nat,
}

impl View for EncodeRequest {
    type V = EncodePlan;

    open spec fn view(&self) -> EncodePlan {
        EncodePlan {
            create: self.create,
            bitrate: self.bitrate,
            samples: self.samples@,
            max_packet_size: self.max_packet_size as nat,
        }
    }
}

/// How the engine answered an encode request.
#[derive(Debug, PartialEq, Eq)]
pub enum EncodeOutcome {
    /// The encoder could not be created.
    CreateFailed(EngineErrorCode),
    /// The encoder refused the bitrate.
    BitrateFailed(EngineErrorCode),
    /// The encoder refused the frame.
    EncodeFailed(EngineErrorCode),
    /// The encoder produced this packet.
    Encoded(Vec<u8>),
}

impl EncodeOutcome {
    /// The engine got past creating the encoder, or had none to create.
    pub open spec fn encoder_ready(self) -> bool {
        !(self is CreateFailed)
    }

    /// The engine accepted the bitrate.
    pub open spec fn bitrate_accepted(self) -> bool {
        self is EncodeFailed || self is Encoded
    }
}

/// The request that an encode call makes of the engine, or the error that
/// ends the call before the engine is asked anything.
pub open spec fn encode_plan(
    encoder: Option<EncoderState>,
    options: OpusCodecOptions,
    buffer: Seq<u8>,
    offset: int,
    length: int,
) -> Result<EncodePlan, CodecError> {
    match resolved_mode(options.channels) {
        None => Err(CodecError::Config { channels: options.channels }),
        Some(mode) => Ok(
            EncodePlan {
                create: missing_instance(encoder, options.sample_rate, mode),
                bitrate: options.bitrate,
                samples: pcm_region_samples(buffer, offset, length),
                max_packet_size: options.max_packet_size as nat,
            },
        ),
    }
}

/// The session's encoder after the engine answered `outcome` to `plan`.
pub open spec fn encoder_after(
    encoder: Option<EncoderState>,
    plan: EncodePlan,
    outcome: EncodeOutcome,
) -> Option<EncoderState> {
    let created = if outcome.encoder_ready() {
        with_encoder(encoder, plan.create)
    } else {
        encoder
    };
    if outcome.bitrate_accepted() {
        with_bitrate(created, plan.bitrate)
    } else {
        created
    }
}

/// What an encode call returns once the engine answered `outcome`.
pub open spec fn encode_result(max_packet_size: nat, outcome: EncodeOutcome) -> Result<
    Seq<u8>,
    CodecError,
> {
    match outcome {
        EncodeOutcome::CreateFailed(code) => Err(CodecError::CodecInit(code)),
        EncodeOutcome::BitrateFailed(code) => Err(CodecError::Encode(code)),
        EncodeOutcome::EncodeFailed(code) => Err(CodecError::Encode(code)),
        EncodeOutcome::Encoded(packet) => if packet@.len() <= max_packet_size {
            Ok(packet@)
        } else {
            Err(CodecError::Encode(EngineErrorCode::BufferTooSmall))
        },
    }
}

/// First half of an encode call: decides what the engine is asked to do.
///
/// The PCM region of `encoding_buffer` starts at `offset` and is `length`
/// bytes long; a trailing single byte is left out. An encoder is created only
/// where the session has none, so the sample rate and channel setting of a
/// later call are ignored, while the bitrate is applied on every call.
pub fn prepare_encode(
    session: &CodecSession,
    options: &OpusCodecOptions,
    encoding_buffer: &Vec<u8>,
    offset: usize,
    length: usize,
) -> (r: Result<EncodeRequest, CodecError>)
    requires
        options.max_packet_size >= 0,
        offset + 2 * (length / 2) <= encoding_buffer.len(),
    ensures
        match encode_plan(
            session.encoder(),
            *options,
            encoding_buffer@,
            offset as int,
            length as int,
        ) {
            Ok(plan) => r matches Ok(request) && request@ == plan,
            Err(error) => r == Err::<EncodeRequest, CodecError>(error),
        },
{
    let mode = match resolve_channels(options.channels) {
        Ok(mode) => mode,
        Err(error) => {
            return Err(error);
        },
    };
    Ok(
        EncodeRequest {
            create: session.encoder_to_create(options.sample_rate, mode),
            bitrate: options.bitrate,
            samples: pcm_to_samples(encoding_buffer, offset, length),
            max_packet_size: options.max_packet_size as usize,
        },
    )
}

/// Second half of an encode call: records in the session what the engine did
/// and returns the packet, or the error for the step that failed. A packet
/// longer than the request allowed is refused.
pub fn finish_encode(session: &mut CodecSession, request: &EncodeRequest, outcome: EncodeOutcome) -> (r:
    Result<Vec<u8>, CodecError>)
    ensures
        final(session).encoder() == encoder_after(old(session).encoder(), request@, outcome),
        final(session).decoder() == old(session).decoder(),
        match encode_result(request@.max_packet_size, outcome) {
            Ok(bytes) => r matches Ok(packet) && packet@ == bytes,
            Err(error) => r == Err::<Vec<u8>, CodecError>(error),
        },
        r matches Ok(packet) ==> packet.len() <= request.max_packet_size,
{
    match outcome {
        EncodeOutcome::CreateFailed(code) => Err(CodecError::CodecInit(code)),
        EncodeOutcome::BitrateFailed(code) => {
            record_created(session, request.create);
            Err(CodecError::Encode(code))
        },
        EncodeOutcome::EncodeFailed(code) => {
            record_created(session, request.create);
            session.bitrate_applied(request.bitrate);
            Err(CodecError::Encode(code))
        },
        EncodeOutcome::Encoded(packet) => {
            record_created(session, request.create);
            session.bitrate_applied(request.bitrate);
            if packet.len() <= request.max_packet_size {
                Ok(packet)
            } else {
                Err(CodecError::Encode(EngineErrorCode::BufferTooSmall))
            }
        },
    }
}

/// A whole encode call on `session`: prepares the request, hands it to
/// `engine`, which carries it out, and finishes with whatever the engine
/// answered. The engine is not asked anything where the channel setting is
/// invalid.
pub fn encode_frame<E: FnOnce(&EncodeRequest) -> EncodeOutcome>(
    session: &mut CodecSession,
    options: &OpusCodecOptions,
    encoding_buffer: &Vec<u8>,
    offset: usize,
    length: usize,
    engine: E,
) -> (r: Result<Vec<u8>, CodecError>)
    requires
        options.max_packet_size >= 0,
        offset + 2 * (length / 2) <= encoding_buffer.len(),
        forall|request: &EncodeRequest| call_requires(engine, (request,)),
    ensures
        final(session).decoder() == old(session).decoder(),
        match encode_plan(
            old(session).encoder(),
            *options,
            encoding_buffer@,
            offset as int,
            length as int,
        ) {
            Err(error) => {
                &&& r == Err::<Vec<u8>, CodecError>(error)
                &&& final(session).encoder() == old(session).encoder()
            },
            Ok(plan) => exists|request: EncodeRequest, outcome: EncodeOutcome|
                {
                    &&& request@ == plan
                    &&& #[trigger] call_ensures(engine, (&request,), outcome)
                    &&& final(session).encoder() == encoder_after(
                        old(session).encoder(),
                        plan,
                        outcome,
                    )
                    &&& match encode_result(plan.max_packet_size, outcome) {
                        Ok(bytes) => r matches Ok(packet) && packet@ == bytes,
                        Err(error) => r == Err::<Vec<u8>, CodecError>(error),
                    }
                },
        },
{
    let request = match prepare_encode(session, options, encoding_buffer, offset, length) {
        Ok(request) => request,
        Err(error) => {
            return Err(error);
        },
    };
    let outcome = engine(&request);
    finish_encode(session, &request, outcome)
}

fn record_created(session: &mut CodecSession, create: Option<SessionParams>)
    ensures
        final(session).encoder() == with_encoder(old(session).encoder(), create),
        final(session).decoder() == old(session).decoder(),
{
    match create {
        Some(params) => session.encoder_created(params),
        None => {},
    }
}

/// A channel setting of 0 asks the engine for exactly what a setting of 1
/// asks for.
pub proof fn lemma_encode_zero_channels_is_mono(
    encoder: Option<EncoderState>,
    zero: OpusCodecOptions,
    one: OpusCodecOptions,
    buffer: Seq<u8>,
    offset: int,
    length: int,
)
    requires
        zero.channels == 0,
        one.channels == 1,
        zero.sample_rate == one.sample_rate,
        zero.bitrate == one.bitrate,
        zero.max_packet_size == one.max_packet_size,
    ensures
        encode_plan(encoder, zero, buffer, offset, length) == encode_plan(
            encoder,
            one,
            buffer,
            offset,
            length,
        ),
{
}

/// Once a session has an encoder, no encode call asks for another one, and
/// whatever the engine answers, the encoder keeps the sample rate and channel
/// mode it was created with.
pub proof fn lemma_encoder_is_kept(
    state: EncoderState,
    options: OpusCodecOptions,
    buffer: Seq<u8>,
    offset: int,
    length: int,
    outcome: EncodeOutcome,
)
    requires
        resolved_mode(options.channels) is Some,
    ensures
        encode_plan(Some(state), options, buffer, offset, length) matches Ok(plan) && {
            &&& plan.create is None
            &&& encoder_after(Some(state), plan, outcome) matches Some(after)
            &&& after.params == state.params
        },
{
}

/// Two encode calls in a row on a session without encoder, the first of which
/// gets its encoder created: the encoder has the sample rate and channel mode
/// of the first call after both, and the second call does not ask for one.
pub proof fn lemma_first_call_fixes_encoder(
    first: OpusCodecOptions,
    second: OpusCodecOptions,
    first_buffer: Seq<u8>,
    second_buffer: Seq<u8>,
    first_outcome: EncodeOutcome,
    second_outcome: EncodeOutcome,
)
    requires
        resolved_mode(first.channels) is Some,
        resolved_mode(second.channels) is Some,
        first_outcome.encoder_ready(),
    ensures
        ({
            let first_plan = encode_plan(None, first, first_buffer, 0, first_buffer.len() as int)->Ok_0;
            let between = encoder_after(None, first_plan, first_outcome);
            let second_plan = encode_plan(
                between,
                second,
                second_buffer,
                0,
                second_buffer.len() as int,
            )->Ok_0;
            let after = encoder_after(between, second_plan, second_outcome);
            let created = SessionParams {
                sample_rate: first.sample_rate,
                channels: resolved_mode(first.channels)->Some_0,
            };
            &&& first_plan.create == Some(created)
            &&& between matches Some(state) && state.params == created
            &&& second_plan.create is None
            &&& after matches Some(state) && state.params == created
        }),
{
}

/// Every encode call asks for its own bitrate, and an encoder that accepted
/// it has that bitrate afterwards, with the parameters it had before.
pub proof fn lemma_bitrate_follows_each_call(
    state: EncoderState,
    options: OpusCodecOptions,
    buffer: Seq<u8>,
    offset: int,
    length: int,
    outcome: EncodeOutcome,
)
    requires
        resolved_mode(options.channels) is Some,
        outcome.bitrate_accepted(),
    ensures
        encode_plan(Some(state), options, buffer, offset, length) matches Ok(plan) && {
            &&& plan.bitrate == options.bitrate
            &&& plan.create is None
            &&& encoder_after(Some(state), plan, outcome) == Some(
                EncoderState { params: state.params, bitrate: Some(options.bitrate) },
            )
        },
{
}

} // verus!
