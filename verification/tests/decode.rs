use opus_codec::{
    finish_decode, finish_encode, prepare_decode, prepare_encode, ChannelMode, CodecError,
    CodecSession, DecodeOutcome, DecodeRequest, EncodeOutcome, EngineErrorCode,
    OpusCodecOptions, SessionParams,
};

fn stereo_48k() -> SessionParams {
    SessionParams {
        sample_rate: 48000,
        channels: ChannelMode::Stereo,
    }
}

#[test]
fn first_decode_call_asks_for_a_decoder() {
    let session = CodecSession::new();
    let options = OpusCodecOptions::new(960, 48000, 2, 64000, 5760, 4000);
    assert_eq!(
        prepare_decode(&session, &options),
        Ok(DecodeRequest {
            create: Some(stereo_48k()),
            channels: ChannelMode::Stereo,
            scratch_len: 11520,
            fec: false,
        })
    );
}

#[test]
fn scratch_region_holds_max_frame_size_samples_per_channel() {
    let session = CodecSession::new();
    let mono = OpusCodecOptions::new(960, 48000, 1, 64000, 5760, 4000);
    let stereo = OpusCodecOptions::new(960, 48000, 2, 64000, 5760, 4000);
    let none = OpusCodecOptions::new(960, 48000, 2, 64000, 0, 4000);
    assert_eq!(prepare_decode(&session, &mono).unwrap().scratch_len, 5760);
    assert_eq!(prepare_decode(&session, &stereo).unwrap().scratch_len, 11520);
    assert_eq!(prepare_decode(&session, &none).unwrap().scratch_len, 0);
}

#[test]
fn scratch_region_of_the_largest_frame_size_does_not_wrap() {
    let session = CodecSession::new();
    let options = OpusCodecOptions::new(960, 48000, 2, 64000, i32::MAX, 4000);
    assert_eq!(
        prepare_decode(&session, &options).unwrap().scratch_len as u64,
        4294967294
    );
}

#[test]
fn zero_channels_decode_in_mono_with_an_empty_scratch_region() {
    let session = CodecSession::new();
    let options = OpusCodecOptions::new(960, 48000, 0, 64000, 5760, 4000);
    assert_eq!(
        prepare_decode(&session, &options),
        Ok(DecodeRequest {
            create: Some(SessionParams {
                sample_rate: 48000,
                channels: ChannelMode::Mono,
            }),
            channels: ChannelMode::Mono,
            scratch_len: 0,
            fec: false,
        })
    );
}

#[test]
fn three_channels_fail_the_decode_call() {
    let session = CodecSession::new();
    let options = OpusCodecOptions::new(960, 48000, 3, 64000, 5760, 4000);
    assert_eq!(
        prepare_decode(&session, &options),
        Err(CodecError::Config { channels: 3 })
    );
}

#[test]
fn decoded_samples_are_written_low_byte_first() {
    let mut session = CodecSession::new();
    let options = OpusCodecOptions::new(1, 48000, 1, 64000, 4, 4000);
    let request = prepare_decode(&session, &options).unwrap();
    let pcm = finish_decode(
        &mut session,
        &request,
        DecodeOutcome::Decoded {
            samples: vec![0x1234, 0, 0, 0],
            per_channel: 1,
        },
    );
    assert_eq!(pcm, Ok(vec![0x34, 0x12]));
}

#[test]
fn decoded_buffer_has_two_bytes_per_sample_and_channel() {
    let mut session = CodecSession::new();
    let options = OpusCodecOptions::new(3, 48000, 2, 64000, 4, 4000);
    let request = prepare_decode(&session, &options).unwrap();
    let pcm = finish_decode(
        &mut session,
        &request,
        DecodeOutcome::Decoded {
            samples: vec![1, -1, 2, -2, 3, -3, 0, 0],
            per_channel: 3,
        },
    )
    .unwrap();
    assert_eq!(pcm.len(), 2 * 2 * 3);
    assert_eq!(
        pcm,
        vec![1, 0, 0xFF, 0xFF, 2, 0, 0xFE, 0xFF, 3, 0, 0xFD, 0xFF]
    );
}

#[test]
fn nothing_decoded_gives_an_empty_buffer() {
    let mut session = CodecSession::new();
    let options = OpusCodecOptions::new(3, 48000, 2, 64000, 4, 4000);
    let request = prepare_decode(&session, &options).unwrap();
    let pcm = finish_decode(
        &mut session,
        &request,
        DecodeOutcome::Decoded {
            samples: vec![7; 8],
            per_channel: 0,
        },
    );
    assert_eq!(pcm, Ok(Vec::new()));
}

#[test]
fn full_scratch_region_is_written_out() {
    let mut session = CodecSession::new();
    let options = OpusCodecOptions::new(2, 48000, 2, 64000, 2, 4000);
    let request = prepare_decode(&session, &options).unwrap();
    let pcm = finish_decode(
        &mut session,
        &request,
        DecodeOutcome::Decoded {
            samples: vec![1, 2, 3, 4],
            per_channel: 2,
        },
    );
    assert_eq!(pcm, Ok(vec![1, 0, 2, 0, 3, 0, 4, 0]));
}

#[test]
fn more_samples_than_the_scratch_region_holds_are_refused() {
    let mut session = CodecSession::new();
    let options = OpusCodecOptions::new(2, 48000, 2, 64000, 2, 4000);
    let request = prepare_decode(&session, &options).unwrap();
    let pcm = finish_decode(
        &mut session,
        &request,
        DecodeOutcome::Decoded {
            samples: vec![1, 2, 3, 4],
            per_channel: 3,
        },
    );
    assert_eq!(pcm, Err(CodecError::Decode(EngineErrorCode::BufferTooSmall)));

    let pcm = finish_decode(
        &mut session,
        &request,
        DecodeOutcome::Decoded {
            samples: vec![1, 2, 3, 4],
            per_channel: usize::MAX,
        },
    );
    assert_eq!(pcm, Err(CodecError::Decode(EngineErrorCode::BufferTooSmall)));
}

#[test]
fn failed_creation_is_a_codec_init_error_and_leaves_no_decoder() {
    let mut session = CodecSession::new();
    let options = OpusCodecOptions::new(960, 11111, 2, 64000, 5760, 4000);
    let request = prepare_decode(&session, &options).unwrap();
    assert_eq!(
        finish_decode(
            &mut session,
            &request,
            DecodeOutcome::CreateFailed(EngineErrorCode::BadArg)
        ),
        Err(CodecError::CodecInit(EngineErrorCode::BadArg))
    );
    assert_eq!(session.decoder_params(), None);
}

#[test]
fn refused_packet_is_a_decode_error_and_keeps_the_new_decoder() {
    let mut session = CodecSession::new();
    let options = OpusCodecOptions::new(960, 48000, 2, 64000, 5760, 4000);
    let request = prepare_decode(&session, &options).unwrap();
    assert_eq!(
        finish_decode(
            &mut session,
            &request,
            DecodeOutcome::DecodeFailed(EngineErrorCode::InvalidPacket)
        ),
        Err(CodecError::Decode(EngineErrorCode::InvalidPacket))
    );
    assert_eq!(session.decoder_params(), Some(stereo_48k()));
    assert_eq!(session.encoder_state(), None);
}

#[test]
fn second_call_with_other_settings_reuses_the_decoder() {
    let mut session = CodecSession::new();
    let first = OpusCodecOptions::new(960, 48000, 2, 64000, 4, 4000);
    let request = prepare_decode(&session, &first).unwrap();
    finish_decode(
        &mut session,
        &request,
        DecodeOutcome::Decoded {
            samples: vec![0; 8],
            per_channel: 4,
        },
    )
    .unwrap();

    let second = OpusCodecOptions::new(960, 8000, 1, 64000, 4, 4000);
    let request = prepare_decode(&session, &second).unwrap();
    assert_eq!(request.create, None);
    assert_eq!(request.channels, ChannelMode::Mono);
    let pcm = finish_decode(
        &mut session,
        &request,
        DecodeOutcome::Decoded {
            samples: vec![5, 6, 7, 8],
            per_channel: 2,
        },
    );
    assert_eq!(pcm, Ok(vec![5, 0, 6, 0]));
    assert_eq!(session.decoder_params(), Some(stereo_48k()));
}

#[test]
fn silent_frame_keeps_its_length_through_encode_and_decode() {
    let mut session = CodecSession::new();
    let options = OpusCodecOptions::new(960, 48000, 2, 64000, 5760, 4000);
    let silence = vec![0u8; 2 * 960 * 2];

    let request = prepare_encode(&session, &options, &silence, 0, silence.len()).unwrap();
    assert_eq!(request.samples, vec![0i16; 2 * 960]);
    let packet = finish_encode(
        &mut session,
        &request,
        EncodeOutcome::Encoded(vec![0xFC, 0xFF, 0xFE]),
    )
    .unwrap();
    assert_eq!(packet, vec![0xFC, 0xFF, 0xFE]);

    let request = prepare_decode(&session, &options).unwrap();
    let pcm = finish_decode(
        &mut session,
        &request,
        DecodeOutcome::Decoded {
            samples: vec![0i16; request.scratch_len],
            per_channel: 960,
        },
    )
    .unwrap();
    assert_eq!(pcm.len(), 2 * 960 * 2);
    assert_eq!(pcm, silence);
}
