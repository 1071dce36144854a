use opus_codec::{ChannelMode, CodecSession, EncoderState, SessionParams};

fn params(sample_rate: i32, channels: ChannelMode) -> SessionParams {
    SessionParams {
        sample_rate,
        channels,
    }
}

#[test]
fn new_session_has_no_instances() {
    let session = CodecSession::new();
    assert_eq!(session.encoder_state(), None);
    assert_eq!(session.decoder_params(), None);
}

#[test]
fn empty_session_asks_for_what_the_call_names() {
    let session = CodecSession::new();
    assert_eq!(
        session.encoder_to_create(48000, ChannelMode::Stereo),
        Some(params(48000, ChannelMode::Stereo))
    );
    assert_eq!(
        session.decoder_to_create(16000, ChannelMode::Mono),
        Some(params(16000, ChannelMode::Mono))
    );
}

#[test]
fn created_encoder_is_kept_and_has_no_bitrate_yet() {
    let mut session = CodecSession::new();
    session.encoder_created(params(48000, ChannelMode::Mono));
    assert_eq!(
        session.encoder_state(),
        Some(EncoderState {
            params: params(48000, ChannelMode::Mono),
            bitrate: None,
        })
    );
    assert_eq!(session.encoder_to_create(16000, ChannelMode::Stereo), None);
    assert_eq!(
        session.decoder_to_create(16000, ChannelMode::Stereo),
        Some(params(16000, ChannelMode::Stereo))
    );
}

#[test]
fn second_encoder_does_not_replace_the_first() {
    let mut session = CodecSession::new();
    session.encoder_created(params(48000, ChannelMode::Mono));
    session.bitrate_applied(64000);
    session.encoder_created(params(8000, ChannelMode::Stereo));
    assert_eq!(
        session.encoder_state(),
        Some(EncoderState {
            params: params(48000, ChannelMode::Mono),
            bitrate: Some(64000),
        })
    );
}

#[test]
fn second_decoder_does_not_replace_the_first() {
    let mut session = CodecSession::new();
    session.decoder_created(params(48000, ChannelMode::Stereo));
    session.decoder_created(params(8000, ChannelMode::Mono));
    assert_eq!(
        session.decoder_params(),
        Some(params(48000, ChannelMode::Stereo))
    );
    assert_eq!(session.decoder_to_create(8000, ChannelMode::Mono), None);
    assert_eq!(session.encoder_state(), None);
}

#[test]
fn bitrate_changes_while_the_parameters_stay() {
    let mut session = CodecSession::new();
    session.encoder_created(params(24000, ChannelMode::Stereo));
    session.bitrate_applied(96000);
    session.bitrate_applied(12000);
    assert_eq!(
        session.encoder_state(),
        Some(EncoderState {
            params: params(24000, ChannelMode::Stereo),
            bitrate: Some(12000),
        })
    );
}

#[test]
fn bitrate_without_an_encoder_changes_nothing() {
    let mut session = CodecSession::new();
    session.bitrate_applied(96000);
    assert_eq!(session.encoder_state(), None);
    assert_eq!(session.decoder_params(), None);
}
