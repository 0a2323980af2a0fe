use wincast::client::EncodedVideoStreamReadError;
use wincast::stream_framing::{FramingProgress, H264EncodedStreamReader};

fn framed(payload: &[u8]) -> Vec<u8> {
    let mut bytes = (payload.len() as u32).to_be_bytes().to_vec();
    bytes.extend_from_slice(payload);
    bytes
}

#[test]
fn frame_split_into_pieces_arrives_whole() {
    let mut reader = H264EncodedStreamReader::new();
    let bytes = framed(&[7, 8, 9, 10, 11]);
    let mut offset = 0;
    let mut frames = Vec::new();
    while offset < bytes.len() {
        let want = reader.bytes_wanted() as usize;
        let take = want.min(2).min(bytes.len() - offset);
        match reader.accept(&bytes[offset..offset + take], 1024).expect("frame is valid") {
            FramingProgress::Frame(frame) => frames.push(frame),
            FramingProgress::Incomplete => {}
        }
        offset += take;
    }

    assert_eq!(frames, vec![bytes]);
    assert!(reader.is_idle());
}

#[test]
fn header_announcing_too_much_is_refused() {
    let mut reader = H264EncodedStreamReader::new();

    let error = reader
        .accept(&framed(&[0; 20])[..4], 10)
        .expect_err("longer than the limit");

    assert_eq!(
        error,
        EncodedVideoStreamReadError::InvalidControl("控制消息长度 20 超过限制 10".to_owned())
    );
}

#[test]
fn end_of_stream_inside_a_frame_is_an_interruption() {
    let mut reader = H264EncodedStreamReader::new();
    assert_eq!(reader.end_of_stream(), Ok(()));

    reader.accept(&[0, 0], 100).expect("partial header");
    assert_eq!(
        reader.end_of_stream(),
        Err(EncodedVideoStreamReadError::Interrupted("控制消息长度头不完整".to_owned()))
    );

    reader.accept(&[0, 3], 100).expect("header complete");
    assert_eq!(reader.bytes_wanted(), 3);
    assert_eq!(
        reader.end_of_stream(),
        Err(EncodedVideoStreamReadError::Interrupted("控制消息载荷不完整".to_owned()))
    );

    reader.reset();
    assert!(reader.is_idle());
}

#[test]
fn empty_payload_frame_completes_with_its_header() {
    let mut reader = H264EncodedStreamReader::new();

    assert_eq!(
        reader.accept(&[0, 0, 0, 0], 100),
        Ok(FramingProgress::Frame(vec![0, 0, 0, 0]))
    );
}
