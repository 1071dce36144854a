use vstd::prelude::*;

use crate::options::ChannelMode;

verus! {

/// What an encoder or decoder was created with. Both stay fixed for as long
/// as the instance lives.
#[derive(Clone, Copy, Debug, PartialEq, Eq, Structural)]
pub struct SessionParams {
    pub sample_rate: i32,
    pub channels: ChannelMode,
}

/// What is known of a session's encoder.
#[derive(Clone, Copy, Debug, PartialEq, Eq)]
pub struct EncoderState {
    /// What the encoder was created with.
    pub params: SessionParams,
    /// The bitrate last applied to it, if any.
    pub bitrate: Option<i32>,
}

/// One thread's codec session: at most one encoder and at most one decoder,
/// each created on first use and kept from then on.
pub struct CodecSession {
    encoder: Option<EncoderState>,
    decoder: Option<SessionParams>,
}

impl CodecSession {
    /// The session's encoder, once one has been created.
    pub closed spec fn encoder(&self) -> Option<EncoderState> {
        self.encoder
    }

    /// The session's decoder, once one has been created.
    pub closed spec fn decoder(&self) -> Option<SessionParams> {
        self.decoder
    }

    /// A session with neither encoder nor decoder.
    pub fn new() -> (session: CodecSession)
        ensures
            session.encoder() is None,
            session.decoder() is None,
    {
        CodecSession { encoder: None, decoder: None }
    }

    pub fn encoder_state(&self) -> (state: Option<EncoderState>)
        ensures
            state == self.encoder(),
    {
        self.encoder
    }

    pub fn decoder_params(&self) -> (params: Option<SessionParams>)
        ensures
            params == self.decoder(),
    {
        self.decoder
    }

    /// The parameters to create this session's encoder with, or `None` when
    /// it has one already: the request of a later call is then ignored.
    pub fn encoder_to_create(&self, sample_rate: i32, channels: ChannelMode) -> (create: Option<
        SessionParams,
    >)
        ensures
            create == missing_instance(self.encoder(), sample_rate, channels),
    {
        match self.encoder {
            Some(_) => None,
            None => Some(SessionParams { sample_rate, channels }),
        }
    }

    /// The parameters to create this session's decoder with, or `None` when
    /// it has one already.
    pub fn decoder_to_create(&self, sample_rate: i32, channels: ChannelMode) -> (create: Option<
        SessionParams,
    >)
        ensures
            create == missing_instance(self.decoder(), sample_rate, channels),
    {
        match self.decoder {
            Some(_) => None,
            None => Some(SessionParams { sample_rate, channels }),
        }
    }

    /// Records that an encoder was created with `params`. A session that has
    /// an encoder keeps it as it is.
    pub fn encoder_created(&mut self, params: SessionParams)
        ensures
            final(self).encoder() == with_encoder(old(self).encoder(), Some(params)),
            final(self).decoder() == old(self).decoder(),
    {
        if self.encoder.is_none() {
            self.encoder = Some(EncoderState { params, bitrate: None });
        }
    }

    /// Records that `bits` was applied to the encoder as its bitrate. The
    /// parameters it was created with stay as they are.
    pub fn bitrate_applied(&mut self, bits: i32)
        ensures
            final(self).encoder() == with_bitrate(old(self).encoder(), bits),
            final(self).decoder() == old(self).decoder(),
    {
        match self.encoder {
            Some(state) => {
                self.encoder = Some(EncoderState { params: state.params, bitrate: Some(bits) });
            },
            None => {},
        }
    }

    /// Records that a decoder was created with `params`. A session that has a
    /// decoder keeps it as it is.
    pub fn decoder_created(&mut self, params: SessionParams)
        ensures
            final(self).decoder() == with_decoder(old(self).decoder(), Some(params)),
            final(self).encoder() == old(self).encoder(),
    {
        if self.decoder.is_none() {
            self.decoder = Some(params);
        }
    }
}

/// The parameters of the instance that has to be created before the engine
/// can be used: none where the slot is filled.
pub open spec fn missing_instance<T>(
    slot: Option<T>,
    sample_rate: i32,
    channels: ChannelMode,
) -> Option<SessionParams> {
    match slot {
        Some(_) => None,
        None => Some(SessionParams { sample_rate, channels }),
    }
}

/// The encoder slot after an encoder was created with `created`: a filled
/// slot is never replaced.
pub open spec fn with_encoder(
    slot: Option<EncoderState>,
    created: Option<SessionParams>,
) -> Option<EncoderState> {
    match (slot, created) {
        (Some(state), _) => Some(state),
        (None, Some(params)) => Some(EncoderState { params, bitrate: None }),
        (None, None) => None,
    }
}

/// The encoder slot after `bits` was applied as the bitrate.
pub open spec fn with_bitrate(slot: Option<EncoderState>, bits: i32) -> Option<EncoderState> {
    match slot {
        Some(state) => Some(EncoderState { params: state.params, bitrate: Some(bits) }),
        None => None,
    }
}

/// The decoder slot after a decoder was created with `created`: a filled slot
/// is never replaced.
pub open spec fn with_decoder(
    slot: Option<SessionParams>,
    created: Option<SessionParams>,
) -> Option<SessionParams> {
    match (slot, created) {
        (Some(params), _) => Some(params),
        (None, created) => created,
    }
}

} // verus!
