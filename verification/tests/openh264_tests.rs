use wincast::media::{
    finish_openh264_decode, DecodedPixelFormat, EncodedVideoFrame, MediaError, OpenH264Decoder,
    VideoDecoder,
};
use wincast::protocol::VideoCodec;

fn h264_frame(bytes: Vec<u8>) -> EncodedVideoFrame {
    EncodedVideoFrame {
        codec: VideoCodec::H264,
        width: 2,
        height: 1,
        sequence_number: 1,
        timestamp_ns: 0,
        keyframe: true,
        bytes,
    }
}

#[test]
fn finish_reports_decoder_errors_and_missing_pictures() {
    assert!(matches!(
        finish_openh264_decode(2, 1, Err("坏数据".to_owned())),
        Err(MediaError::Backend(m)) if m == "OpenH264 解码失败: 坏数据"
    ));
    assert!(matches!(
        finish_openh264_decode(2, 1, Ok(None)),
        Err(MediaError::Backend(m)) if m == "OpenH264 解码器需要更多 H.264 数据"
    ));
}

#[test]
fn finish_swaps_red_and_blue_of_a_picture_of_the_announced_size() {
    let rgba = vec![1u8, 2, 3, 4, 5, 6, 7, 8];
    assert!(matches!(
        finish_openh264_decode(2, 1, Ok(Some((2, 1, rgba)))),
        Ok(pixels) if pixels == vec![3u8, 2, 1, 4, 7, 6, 5, 8]
    ));
}

#[test]
fn finish_refuses_a_picture_of_another_size() {
    let rgba = vec![0u8; 8];
    assert!(matches!(
        finish_openh264_decode(4, 1, Ok(Some((2, 1, rgba)))),
        Err(MediaError::Backend(m)) if m == "OpenH264 解码尺寸 2x1 与协议帧 4x1 不一致"
    ));
}

#[test]
fn openh264_decoder_refuses_other_codecs_before_decoding() {
    let mut decoder = OpenH264Decoder::new().expect("decoder");
    let mut frame = h264_frame(vec![0, 0, 0, 1]);
    frame.codec = VideoCodec::RawBgra;
    let error = decoder.decode(&frame, Ok(())).expect_err("not H.264");
    assert!(matches!(
        error,
        MediaError::UnsupportedEncodedCodec { codec: VideoCodec::RawBgra }
    ));
}

#[test]
fn openh264_decoder_reports_undecodable_data_as_backend_error() {
    let mut decoder = OpenH264Decoder::new().expect("decoder");
    let frame = h264_frame(vec![0x55; 32]);
    match decoder.decode(&frame, Ok(())) {
        Err(MediaError::Backend(message)) => assert!(message.starts_with("OpenH264 解码")),
        Err(other) => panic!("unexpected error {other:?}"),
        Ok(decoded) => {
            assert_eq!(decoded.format, DecodedPixelFormat::Bgra8Unorm);
            assert_eq!(decoded.bytes.len(), 8);
        }
    }
}
