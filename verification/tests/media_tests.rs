use wincast::media::{
    validate_h264_frame, validate_raw_frame, DecodedPixelFormat, DecodedVideoFrame,
    EncodedVideoFrame, EncodedVideoFrameError, FakeH264Decoder, FakeH264Encoder, MediaConfigError,
    MediaError, RawPixelFormat, RawVideoFrame, RawVideoFrameError, VideoDecoder, VideoEncoder,
    VideoLatencyMode, VideoPipelineConfig, FAKE_H264_DECODED_PAYLOAD_LIMIT,
};
use wincast::protocol::VideoCodec;

const PROTOCOL_MAX_ENCODED_VIDEO_FRAME_BYTES: usize = 4 * 1024 * 1024;

fn valid_config() -> VideoPipelineConfig {
    VideoPipelineConfig {
        codec: VideoCodec::H264,
        width: 640,
        height: 360,
        fps: 30,
        bitrate_kbps: 8_000,
        max_bitrate_kbps: 12_000,
        latency_mode: VideoLatencyMode::LowLatency,
    }
}

fn valid_1080p_config() -> VideoPipelineConfig {
    VideoPipelineConfig {
        width: 1920,
        height: 1080,
        ..valid_config()
    }
}

fn raw_frame<'a>(
    width: u32,
    height: u32,
    sequence_number: u64,
    timestamp_ns: u64,
    bytes: &'a [u8],
) -> RawVideoFrame<'a> {
    RawVideoFrame {
        width,
        height,
        row_pitch: width * 4,
        format: RawPixelFormat::Bgra8Unorm,
        sequence_number,
        timestamp_ns,
        bytes,
    }
}

fn h264_frame(
    width: u32,
    height: u32,
    sequence_number: u64,
    timestamp_ns: u64,
    bytes: Vec<u8>,
) -> EncodedVideoFrame {
    EncodedVideoFrame {
        codec: VideoCodec::H264,
        width,
        height,
        sequence_number,
        timestamp_ns,
        keyframe: true,
        bytes,
    }
}

/// The protocol layer's verdict on the frames these tests build: it refuses
/// an empty payload, a zero side and a payload above its limit.
fn protocol_check(frame: &EncodedVideoFrame) -> Result<(), EncodedVideoFrameError> {
    if frame.bytes.is_empty() {
        return Err(EncodedVideoFrameError {
            description: "EmptyPayload".to_owned(),
        });
    }
    if frame.width == 0 || frame.height == 0 {
        return Err(EncodedVideoFrameError {
            description: "InvalidDimensions".to_owned(),
        });
    }
    if frame.bytes.len() > PROTOCOL_MAX_ENCODED_VIDEO_FRAME_BYTES {
        return Err(EncodedVideoFrameError {
            description: "PayloadTooLarge".to_owned(),
        });
    }
    Ok(())
}

#[test]
fn low_latency_h264_1080p_config_is_valid() {
    valid_1080p_config()
        .validate()
        .expect("1080p H.264 config should be valid");
}

#[test]
fn config_rejects_resolution_above_1080p() {
    let too_wide = VideoPipelineConfig {
        width: 1921,
        ..valid_1080p_config()
    };
    assert_eq!(
        too_wide.validate(),
        Err(MediaConfigError::ResolutionTooLarge {
            width: 1921,
            height: 1080,
            max_width: 1920,
            max_height: 1080,
        })
    );

    let too_tall = VideoPipelineConfig {
        height: 1081,
        ..valid_1080p_config()
    };
    assert_eq!(
        too_tall.validate(),
        Err(MediaConfigError::ResolutionTooLarge {
            width: 1920,
            height: 1081,
            max_width: 1920,
            max_height: 1080,
        })
    );
}

#[test]
fn config_rejects_invalid_fps_and_bitrate() {
    assert_eq!(
        VideoPipelineConfig {
            fps: 0,
            ..valid_1080p_config()
        }
        .validate(),
        Err(MediaConfigError::InvalidFps { fps: 0, max_fps: 60 })
    );
    assert_eq!(
        VideoPipelineConfig {
            fps: 61,
            ..valid_1080p_config()
        }
        .validate(),
        Err(MediaConfigError::InvalidFps { fps: 61, max_fps: 60 })
    );
    assert_eq!(
        VideoPipelineConfig {
            bitrate_kbps: 0,
            ..valid_1080p_config()
        }
        .validate(),
        Err(MediaConfigError::InvalidBitrate {
            bitrate_kbps: 0,
            max_bitrate_kbps: 12_000,
        })
    );
    assert_eq!(
        VideoPipelineConfig {
            bitrate_kbps: 12_001,
            ..valid_1080p_config()
        }
        .validate(),
        Err(MediaConfigError::InvalidBitrate {
            bitrate_kbps: 12_001,
            max_bitrate_kbps: 12_000,
        })
    );
}

#[test]
fn config_errors_have_chinese_messages() {
    assert_eq!(
        MediaConfigError::UnsupportedCodec {
            codec: VideoCodec::RawBgra
        }
        .message(),
        "媒体链路只支持 H.264，当前配置为 RawBgra"
    );
    assert_eq!(
        MediaConfigError::ResolutionTooLarge {
            width: 1921,
            height: 1080,
            max_width: 1920,
            max_height: 1080
        }
        .message(),
        "视频尺寸 1921x1080 超过上限 1920x1080"
    );
    assert_eq!(
        MediaConfigError::InvalidMaxBitrate.message(),
        "视频码率上限必须大于 0"
    );
    assert_eq!(
        VideoPipelineConfig {
            max_bitrate_kbps: 0,
            ..valid_config()
        }
        .validate(),
        Err(MediaConfigError::InvalidMaxBitrate)
    );
}

#[test]
fn media_boundary_reuses_protocol_encoded_video_frame() {
    let frame = EncodedVideoFrame {
        codec: VideoCodec::H264,
        width: 1920,
        height: 1080,
        sequence_number: 7,
        timestamp_ns: 123_456,
        keyframe: true,
        bytes: vec![1, 2, 3],
    };

    validate_h264_frame(&frame, protocol_check(&frame))
        .expect("protocol encoded frame should validate at media boundary");
}

#[test]
fn encoder_and_decoder_traits_use_protocol_frame_boundary() {
    fn assert_encoder<T: VideoEncoder>() {}
    fn assert_decoder<T: VideoDecoder>() {}

    struct MockEncoder;
    impl VideoEncoder for MockEncoder {
        fn encode(&mut self, _frame: RawVideoFrame<'_>) -> Result<EncodedVideoFrame, MediaError> {
            Ok(EncodedVideoFrame {
                codec: VideoCodec::H264,
                width: 1920,
                height: 1080,
                sequence_number: 1,
                timestamp_ns: 1,
                keyframe: true,
                bytes: vec![1],
            })
        }

        fn request_keyframe(&mut self) -> Result<(), MediaError> {
            Ok(())
        }
    }

    struct MockDecoder {
        bytes: Vec<u8>,
    }

    impl VideoDecoder for MockDecoder {
        fn decode<'a>(
            &'a mut self,
            frame: &EncodedVideoFrame,
            _frame_check: Result<(), EncodedVideoFrameError>,
        ) -> Result<DecodedVideoFrame<'a>, MediaError> {
            self.bytes.clear();
            self.bytes.extend_from_slice(frame.bytes.as_slice());

            Ok(DecodedVideoFrame {
                width: frame.width,
                height: frame.height,
                format: DecodedPixelFormat::Bgra8Unorm,
                bytes: self.bytes.as_slice(),
            })
        }
    }

    assert_encoder::<MockEncoder>();
    assert_decoder::<MockDecoder>();
}

#[test]
fn fake_h264_encoder_outputs_protocol_frame_boundary() {
    let mut encoder = FakeH264Encoder::new(valid_config()).expect("config should be valid");
    let bytes = vec![0x11; 640 * 360 * 4];
    let raw = raw_frame(640, 360, 9, 123_456, &bytes);

    let encoded = encoder.encode(raw).expect("fake encoder should produce frame");

    assert_eq!(encoded.codec, VideoCodec::H264);
    assert_eq!(encoded.width, 640);
    assert_eq!(encoded.height, 360);
    assert_eq!(encoded.sequence_number, 9);
    assert_eq!(encoded.timestamp_ns, 123_456);
    assert!(encoded.keyframe);
    assert!(!encoded.bytes.is_empty());
    protocol_check(&encoded).expect("fake encoded frame should satisfy protocol validation");
}

#[test]
fn fake_h264_encoder_marks_next_frame_keyframe_after_request() {
    let mut encoder = FakeH264Encoder::new(valid_config()).expect("config should be valid");
    let bytes = vec![0x22; 640 * 360 * 4];

    let first = encoder
        .encode(raw_frame(640, 360, 1, 100, &bytes))
        .expect("first frame should encode");
    let second = encoder
        .encode(raw_frame(640, 360, 2, 200, &bytes))
        .expect("second frame should encode");
    encoder
        .request_keyframe()
        .expect("fake encoder should accept keyframe request");
    let third = encoder
        .encode(raw_frame(640, 360, 3, 300, &bytes))
        .expect("requested frame should encode");

    assert!(first.keyframe);
    assert!(!second.keyframe);
    assert!(third.keyframe);
}

#[test]
fn fake_h264_encoder_rejects_invalid_or_oversized_dimensions() {
    let zero_width = FakeH264Encoder::new(VideoPipelineConfig {
        width: 0,
        ..valid_config()
    });
    assert!(matches!(zero_width, Err(MediaError::Config(_))));

    let too_large = FakeH264Encoder::new(VideoPipelineConfig {
        width: 1921,
        ..valid_config()
    });
    assert!(matches!(too_large, Err(MediaError::Config(_))));
}

#[test]
fn fake_h264_encoder_rejects_empty_raw_payload() {
    let mut encoder = FakeH264Encoder::new(valid_config()).expect("config should be valid");
    let result = encoder.encode(RawVideoFrame {
        bytes: &[],
        ..raw_frame(640, 360, 1, 100, &[1, 2, 3, 4])
    });

    assert!(matches!(result, Err(MediaError::InvalidRawFrame(_))));
}

#[test]
fn fake_h264_encoder_rejects_raw_frame_size_mismatched_with_config() {
    let mut encoder = FakeH264Encoder::new(valid_1080p_config()).expect("config should be valid");
    let bytes = vec![0x22; 640 * 360 * 4];

    let result = encoder.encode(raw_frame(640, 360, 1, 100, &bytes));

    assert!(matches!(
        result,
        Err(MediaError::InvalidRawFrame(
            RawVideoFrameError::ConfigDimensionMismatch {
                frame_width: 640,
                frame_height: 360,
                config_width: 1920,
                config_height: 1080,
            }
        ))
    ));
}

#[test]
fn fake_h264_encoder_rejects_frames_that_cannot_produce_payload() {
    let mut encoder = FakeH264Encoder::new(valid_config()).expect("config should be valid");
    let result = encoder.encode(RawVideoFrame {
        row_pitch: 4,
        bytes: &[1, 2, 3, 4],
        ..raw_frame(640, 360, 1, 100, &[1, 2, 3, 4])
    });

    assert!(matches!(result, Err(MediaError::InvalidRawFrame(_))));
}

#[test]
fn fake_h264_payload_is_marker_header_and_sample() {
    let mut encoder = FakeH264Encoder::new(VideoPipelineConfig {
        width: 2,
        height: 1,
        ..valid_config()
    })
    .expect("config should be valid");
    let bytes = [9, 8, 7, 6, 5, 4, 3, 2];

    let encoded = encoder
        .encode(raw_frame(2, 1, 0x0102, 0x0304, &bytes))
        .expect("small frame should encode");

    let mut expected = b"WINCAST_FAKE_H264".to_vec();
    expected.extend_from_slice(&2u32.to_be_bytes());
    expected.extend_from_slice(&1u32.to_be_bytes());
    expected.extend_from_slice(&0x0102u64.to_be_bytes());
    expected.extend_from_slice(&0x0304u64.to_be_bytes());
    expected.extend_from_slice(&8u64.to_be_bytes());
    expected.extend_from_slice(&bytes);
    assert_eq!(encoded.bytes, expected);
}

#[test]
fn fake_h264_payload_samples_at_most_sixteen_bytes() {
    let mut encoder = FakeH264Encoder::new(valid_config()).expect("config should be valid");
    let bytes: Vec<u8> = (0..640 * 360 * 4).map(|i| (i % 251) as u8).collect();

    let encoded = encoder
        .encode(raw_frame(640, 360, 1, 2, &bytes))
        .expect("frame should encode");

    assert_eq!(encoded.bytes.len(), 17 + 4 + 4 + 8 + 8 + 8 + 16);
    assert_eq!(&encoded.bytes[encoded.bytes.len() - 16..], &bytes[..16]);
}

#[test]
fn rejected_raw_frame_keeps_pending_keyframe() {
    let mut encoder = FakeH264Encoder::new(valid_config()).expect("config should be valid");
    let bytes = vec![0x33; 640 * 360 * 4];

    assert!(encoder.encode(raw_frame(640, 361, 1, 1, &bytes)).is_err());
    let frame = encoder
        .encode(raw_frame(640, 360, 2, 2, &bytes))
        .expect("valid frame encodes");

    assert!(frame.keyframe);
}

#[test]
fn raw_frame_validation_reports_each_rule() {
    let config = valid_config();
    let bytes = vec![0u8; 640 * 360 * 4];

    assert_eq!(
        validate_raw_frame(config, raw_frame(0, 360, 1, 1, &bytes)),
        Err(RawVideoFrameError::InvalidDimensions {
            width: 0,
            height: 360
        })
    );
    assert_eq!(
        validate_raw_frame(config, raw_frame(1921, 360, 1, 1, &bytes)),
        Err(RawVideoFrameError::ResolutionTooLarge {
            width: 1921,
            height: 360,
            max_width: 1920,
            max_height: 1080
        })
    );
    assert_eq!(
        validate_raw_frame(
            config,
            RawVideoFrame {
                row_pitch: 100,
                ..raw_frame(640, 360, 1, 1, &bytes)
            }
        ),
        Err(RawVideoFrameError::InvalidRowPitch {
            row_pitch: 100,
            min_row_pitch: 2560
        })
    );
    assert_eq!(
        validate_raw_frame(config, raw_frame(640, 360, 1, 1, &bytes[1..])),
        Err(RawVideoFrameError::InvalidPayloadLength {
            actual: 640 * 360 * 4 - 1,
            expected: 640 * 360 * 4
        })
    );
    assert_eq!(validate_raw_frame(config, raw_frame(640, 360, 1, 1, &bytes)), Ok(()));
}

#[test]
fn raw_frame_errors_have_messages() {
    assert_eq!(
        RawVideoFrameError::EmptyPayload.message(),
        "raw frame payload is empty"
    );
    assert_eq!(
        RawVideoFrameError::InvalidPayloadLength {
            actual: 3,
            expected: 4
        }
        .message(),
        "raw frame payload length 3 does not match expected 4"
    );
    assert_eq!(
        MediaError::InvalidRawFrame(RawVideoFrameError::RowPitchOverflow).message(),
        "原始视频帧无效: raw frame row pitch overflow"
    );
    assert_eq!(
        MediaError::DecodedPayloadTooLarge { actual: 9, max: 8 }.message(),
        "fake 解码输出载荷 9 超过上限 8"
    );
    assert_eq!(
        MediaError::Backend("boom".to_owned()).message(),
        "媒体后端处理失败: boom"
    );
}

#[test]
fn fake_h264_decoder_decodes_valid_protocol_frame_with_traceable_metadata() {
    let mut decoder = FakeH264Decoder::new();
    let encoded = h264_frame(640, 360, 42, 987_654_321, vec![0x65, 0x88, 0x21]);

    let decoded = decoder
        .decode(&encoded, protocol_check(&encoded))
        .expect("valid H.264 frame should decode through VideoDecoder boundary");

    assert_eq!(decoded.width, 640);
    assert_eq!(decoded.height, 360);
    assert_eq!(decoded.row_pitch(), 640 * 4);
    assert_eq!(decoded.bytes.len(), decoded.row_pitch() as usize * 360);
    assert_eq!(
        &decoded.bytes[..12],
        &[0x65, 0x65, 0x65, 0xff, 0x88, 0x88, 0x88, 0xff, 0x21, 0x21, 0x21, 0xff]
    );
}

#[test]
fn fake_h264_decoder_reuses_internal_output_buffer_for_same_size_frames() {
    let mut decoder = FakeH264Decoder::new();
    let first = h264_frame(2, 2, 1, 10, vec![0x11]);
    let second = h264_frame(2, 2, 2, 20, vec![0x22]);

    let first_ptr = {
        let decoded = decoder
            .decode(&first, protocol_check(&first))
            .expect("first valid H.264 frame should decode");
        assert_eq!(decoded.bytes.len(), decoded.row_pitch() as usize * 2);
        decoded.bytes.as_ptr()
    };

    let second_ptr = {
        let decoded = decoder
            .decode(&second, protocol_check(&second))
            .expect("second valid H.264 frame should decode");
        assert_eq!(decoded.bytes.len(), decoded.row_pitch() as usize * 2);
        assert_eq!(
            &decoded.bytes[..8],
            &[0x22, 0x22, 0x22, 0xff, 0x22, 0x22, 0x22, 0xff]
        );
        decoded.bytes.as_ptr()
    };

    assert_eq!(
        first_ptr, second_ptr,
        "fake decoder should reuse its owned output buffer instead of leaking a new slice"
    );
}

#[test]
fn fake_h264_decoder_rejects_non_h264_frame() {
    let mut decoder = FakeH264Decoder::new();
    let encoded = EncodedVideoFrame {
        codec: VideoCodec::RawBgra,
        ..h264_frame(640, 360, 1, 2, vec![1])
    };

    assert!(matches!(
        decoder.decode(&encoded, protocol_check(&encoded)),
        Err(MediaError::UnsupportedEncodedCodec {
            codec: VideoCodec::RawBgra
        })
    ));
}

#[test]
fn fake_h264_decoder_rejects_empty_payload() {
    let mut decoder = FakeH264Decoder::new();
    let encoded = h264_frame(640, 360, 1, 2, Vec::new());

    assert!(matches!(
        decoder.decode(&encoded, protocol_check(&encoded)),
        Err(MediaError::InvalidEncodedFrame(_))
    ));
}

#[test]
fn fake_h264_decoder_rejects_invalid_dimensions() {
    let mut decoder = FakeH264Decoder::new();
    let encoded = h264_frame(0, 360, 1, 2, vec![1]);

    assert!(matches!(
        decoder.decode(&encoded, protocol_check(&encoded)),
        Err(MediaError::InvalidEncodedFrame(_))
    ));
}

#[test]
fn fake_h264_decoder_rejects_encoded_payload_above_protocol_limit() {
    let mut decoder = FakeH264Decoder::new();
    let encoded = h264_frame(
        640,
        360,
        1,
        2,
        vec![0x55; PROTOCOL_MAX_ENCODED_VIDEO_FRAME_BYTES + 1],
    );

    assert!(matches!(
        decoder.decode(&encoded, protocol_check(&encoded)),
        Err(MediaError::InvalidEncodedFrame(_))
    ));
}

#[test]
fn fake_h264_decoder_rejects_decoded_payload_above_fake_limit() {
    let mut decoder = FakeH264Decoder::new();
    let encoded = h264_frame(1920, 1081, 1, 2, vec![0x55]);

    assert!(matches!(
        decoder.decode(&encoded, protocol_check(&encoded)),
        Err(MediaError::DecodedPayloadTooLarge {
            actual,
            max: FAKE_H264_DECODED_PAYLOAD_LIMIT
        }) if actual == 1920 * 1081 * 4
    ));
}

#[test]
fn fake_h264_decoder_reports_size_overflow_as_too_large() {
    let mut decoder = FakeH264Decoder::new();
    let encoded = h264_frame(u32::MAX / 2, 2, 1, 2, vec![0x55]);

    assert!(matches!(
        decoder.decode(&encoded, protocol_check(&encoded)),
        Err(MediaError::DecodedPayloadTooLarge { actual, max: FAKE_H264_DECODED_PAYLOAD_LIMIT })
            if actual == usize::MAX
    ));
}

#[test]
fn fake_round_trip_keeps_frame_size() {
    let mut encoder = FakeH264Encoder::new(VideoPipelineConfig {
        width: 4,
        height: 2,
        ..valid_config()
    })
    .expect("config should be valid");
    let mut decoder = FakeH264Decoder::new();
    let bytes = vec![0x7f; 4 * 2 * 4];

    let encoded = encoder
        .encode(raw_frame(4, 2, 5, 6, &bytes))
        .expect("frame encodes");
    let decoded = decoder
        .decode(&encoded, protocol_check(&encoded))
        .expect("frame decodes");

    assert_eq!((decoded.width, decoded.height), (4, 2));
    assert_eq!(decoded.bytes.len(), 4 * 2 * 4);
}
