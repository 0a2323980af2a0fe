//! The media pipeline boundary: validation of H.264 pipeline configurations
//! and raw BGRA frames, and the deterministic fake H.264 encoder and decoder
//! used to exercise it.

use vstd::prelude::*;

use openh264::decoder::Decoder;
use openh264::formats::YUVSource;

use crate::protocol::VideoCodec;
use crate::text::{concat2, decimal, decimal_string, owned};

verus! {

/// Widest frame the H.264 pipeline accepts.
pub const MAX_H264_WIDTH: u32 = 1920;
/// Tallest frame the H.264 pipeline accepts.
pub const MAX_H264_HEIGHT: u32 = 1080;
/// Highest frame rate the H.264 pipeline accepts.
pub const MAX_H264_FPS: u32 = 60;
/// Largest payload the fake decoder produces: a full-size BGRA frame.
pub const FAKE_H264_DECODED_PAYLOAD_LIMIT: usize = 8_294_400;

/// Latency trade-off of the pipeline.
#[derive(Debug, Clone, Copy, PartialEq, Eq, Structural)]
pub enum VideoLatencyMode {
    LowLatency,
}

/// Settings of a video pipeline.
#[derive(Debug, Clone, Copy, PartialEq, Eq, Structural)]
pub struct VideoPipelineConfig {
    pub codec: VideoCodec,
    pub width: u32,
    pub height: u32,
    pub fps: u32,
    pub bitrate_kbps: u32,
    pub max_bitrate_kbps: u32,
    pub latency_mode: VideoLatencyMode,
}

/// Why a pipeline configuration is rejected.
#[derive(Debug, Clone, Copy, PartialEq, Eq, Structural)]
pub enum MediaConfigError {
    UnsupportedCodec { codec: VideoCodec },
    InvalidDimensions { width: u32, height: u32 },
    ResolutionTooLarge { width: u32, height: u32, max_width: u32, max_height: u32 },
    InvalidFps { fps: u32, max_fps: u32 },
    InvalidMaxBitrate,
    InvalidBitrate { bitrate_kbps: u32, max_bitrate_kbps: u32 },
}

/// The first rule a configuration breaks, checked in this order: codec,
/// non-zero size, size limit, frame rate, bitrate ceiling, bitrate.
pub open spec fn config_error(c: VideoPipelineConfig) -> Option<MediaConfigError> {
    if c.codec != VideoCodec::H264 {
        Some(MediaConfigError::UnsupportedCodec { codec: c.codec })
    } else if c.width == 0 || c.height == 0 {
        Some(MediaConfigError::InvalidDimensions { width: c.width, height: c.height })
    } else if c.width > MAX_H264_WIDTH || c.height > MAX_H264_HEIGHT {
        Some(
            MediaConfigError::ResolutionTooLarge {
                width: c.width,
                height: c.height,
                max_width: MAX_H264_WIDTH,
                max_height: MAX_H264_HEIGHT,
            },
        )
    } else if c.fps == 0 || c.fps > MAX_H264_FPS {
        Some(MediaConfigError::InvalidFps { fps: c.fps, max_fps: MAX_H264_FPS })
    } else if c.max_bitrate_kbps == 0 {
        Some(MediaConfigError::InvalidMaxBitrate)
    } else if c.bitrate_kbps == 0 || c.bitrate_kbps > c.max_bitrate_kbps {
        Some(
            MediaConfigError::InvalidBitrate {
                bitrate_kbps: c.bitrate_kbps,
                max_bitrate_kbps: c.max_bitrate_kbps,
            },
        )
    } else {
        None
    }
}

impl VideoPipelineConfig {
    /// Checks the configuration; the error is the first rule broken.
    pub fn validate(&self) -> (res: Result<(), MediaConfigError>)
        ensures
            match config_error(*self) {
                None => res is Ok,
                Some(e) => res == Err::<(), MediaConfigError>(e),
            },
    {
        if self.codec != VideoCodec::H264 {
            return Err(MediaConfigError::UnsupportedCodec { codec: self.codec });
        }
        if self.width == 0 || self.height == 0 {
            return Err(MediaConfigError::InvalidDimensions { width: self.width, height: self.height });
        }
        if self.width > MAX_H264_WIDTH || self.height > MAX_H264_HEIGHT {
            return Err(
                MediaConfigError::ResolutionTooLarge {
                    width: self.width,
                    height: self.height,
                    max_width: MAX_H264_WIDTH,
                    max_height: MAX_H264_HEIGHT,
                },
            );
        }
        if self.fps == 0 || self.fps > MAX_H264_FPS {
            return Err(MediaConfigError::InvalidFps { fps: self.fps, max_fps: MAX_H264_FPS });
        }
        if self.max_bitrate_kbps == 0 {
            return Err(MediaConfigError::InvalidMaxBitrate);
        }
        if self.bitrate_kbps == 0 || self.bitrate_kbps > self.max_bitrate_kbps {
            return Err(
                MediaConfigError::InvalidBitrate {
                    bitrate_kbps: self.bitrate_kbps,
                    max_bitrate_kbps: self.max_bitrate_kbps,
                },
            );
        }
        Ok(())
    }
}

/// A configuration is accepted exactly when it asks for H.264 at a size of
/// at most 1920x1080 with both sides non-zero, at 1 to 60 fps, with a
/// non-zero bitrate not above a non-zero ceiling.
pub proof fn lemma_config_accepted_iff(c: VideoPipelineConfig)
    ensures
        config_error(c) is None <==> (c.codec == VideoCodec::H264 && 0 < c.width <= MAX_H264_WIDTH
            && 0 < c.height <= MAX_H264_HEIGHT && 0 < c.fps <= MAX_H264_FPS && 0 < c.bitrate_kbps
            <= c.max_bitrate_kbps),
{
}

/// The name of a codec as it is shown in messages.
pub open spec fn codec_name(codec: VideoCodec) -> Seq<char> {
    match codec {
        VideoCodec::H264 => "H264"@,
        VideoCodec::RawBgra => "RawBgra"@,
    }
}

/// The name of a codec as it is shown in messages.
pub fn codec_name_string(codec: VideoCodec) -> (res: String)
    ensures
        res@ == codec_name(codec),
{
    match codec {
        VideoCodec::H264 => owned("H264"),
        VideoCodec::RawBgra => owned("RawBgra"),
    }
}

/// `w` and `h` rendered as `WxH`.
pub open spec fn size_text(w: u32, h: u32) -> Seq<char> {
    decimal(w as nat) + "x"@ + decimal(h as nat)
}

/// Renders a size as `WxH`.
pub fn size_string(w: u32, h: u32) -> (res: String)
    ensures
        res@ == size_text(w, h),
{
    let mut res = decimal_string(w as u64);
    res.append("x");
    let h = decimal_string(h as u64);
    res.append(h.as_str());
    res
}

impl MediaConfigError {
    /// The user-facing description of the error.
    pub fn message(&self) -> (res: String)
        ensures
            res@ == config_error_text(*self),
    {
        match *self {
            MediaConfigError::UnsupportedCodec { codec } => {
                let name = codec_name_string(codec);
                concat2("媒体链路只支持 H.264，当前配置为 ", name.as_str())
            },
            MediaConfigError::InvalidDimensions { width, height } => {
                let size = size_string(width, height);
                concat2("视频尺寸无效: ", size.as_str())
            },
            MediaConfigError::ResolutionTooLarge { width, height, max_width, max_height } => {
                let size = size_string(width, height);
                let max = size_string(max_width, max_height);
                let mut res = concat2("视频尺寸 ", size.as_str());
                res.append(" 超过上限 ");
                res.append(max.as_str());
                res
            },
            MediaConfigError::InvalidFps { fps, max_fps } => {
                let fps = decimal_string(fps as u64);
                let max = decimal_string(max_fps as u64);
                let mut res = concat2("视频帧率 ", fps.as_str());
                res.append(" 无效，最大支持 ");
                res.append(max.as_str());
                res
            },
            MediaConfigError::InvalidMaxBitrate => owned("视频码率上限必须大于 0"),
            MediaConfigError::InvalidBitrate { bitrate_kbps, max_bitrate_kbps } => {
                let rate = decimal_string(bitrate_kbps as u64);
                let max = decimal_string(max_bitrate_kbps as u64);
                let mut res = concat2("视频目标码率 ", rate.as_str());
                res.append(" 无效，上限为 ");
                res.append(max.as_str());
                res
            },
        }
    }
}

/// Pixel layouts of raw frames.
#[derive(Debug, Clone, Copy, PartialEq, Eq, Structural)]
pub enum RawPixelFormat {
    Bgra8Unorm,
}

/// Why a raw frame is rejected by the encoder.
#[derive(Debug, Clone, Copy, PartialEq, Eq, Structural)]
pub enum RawVideoFrameError {
    InvalidDimensions { width: u32, height: u32 },
    ResolutionTooLarge { width: u32, height: u32, max_width: u32, max_height: u32 },
    ConfigDimensionMismatch {
        frame_width: u32,
        frame_height: u32,
        config_width: u32,
        config_height: u32,
    },
    UnsupportedPixelFormat { format: RawPixelFormat },
    EmptyPayload,
    RowPitchOverflow,
    InvalidRowPitch { row_pitch: u32, min_row_pitch: u32 },
    PayloadLengthOverflow,
    InvalidPayloadLength { actual: usize, expected: usize },
}

/// A raw frame handed to an encoder.
#[derive(Debug, Clone, Copy, PartialEq, Eq)]
pub struct RawVideoFrame<'a> {
    pub width: u32,
    pub height: u32,
    pub row_pitch: u32,
    pub format: RawPixelFormat,
    pub sequence_number: u64,
    pub timestamp_ns: u64,
    pub bytes: &'a [u8],
}

/// The first rule a raw frame breaks under `config`, checked in this order:
/// non-zero size, size limit, size equal to the configuration, pixel format,
/// non-empty payload, row pitch of at least four bytes per pixel (and that
/// minimum fits in 32 bits), payload length equal to row pitch times height
/// (and that product fits in 32 bits).
pub open spec fn raw_frame_error(
    config: VideoPipelineConfig,
    width: u32,
    height: u32,
    row_pitch: u32,
    format: RawPixelFormat,
    len: nat,
) -> Option<RawVideoFrameError> {
    if width == 0 || height == 0 {
        Some(RawVideoFrameError::InvalidDimensions { width, height })
    } else if width > MAX_H264_WIDTH || height > MAX_H264_HEIGHT {
        Some(
            RawVideoFrameError::ResolutionTooLarge {
                width,
                height,
                max_width: MAX_H264_WIDTH,
                max_height: MAX_H264_HEIGHT,
            },
        )
    } else if width != config.width || height != config.height {
        Some(
            RawVideoFrameError::ConfigDimensionMismatch {
                frame_width: width,
                frame_height: height,
                config_width: config.width,
                config_height: config.height,
            },
        )
    } else if format != RawPixelFormat::Bgra8Unorm {
        Some(RawVideoFrameError::UnsupportedPixelFormat { format })
    } else if len == 0 {
        Some(RawVideoFrameError::EmptyPayload)
    } else if width * 4 > u32::MAX {
        Some(RawVideoFrameError::RowPitchOverflow)
    } else if row_pitch < width * 4 {
        Some(RawVideoFrameError::InvalidRowPitch { row_pitch, min_row_pitch: (width * 4) as u32 })
    } else if row_pitch * height > u32::MAX {
        Some(RawVideoFrameError::PayloadLengthOverflow)
    } else if len != row_pitch * height {
        Some(
            RawVideoFrameError::InvalidPayloadLength {
                actual: len as usize,
                expected: (row_pitch * height) as usize,
            },
        )
    } else {
        None
    }
}

/// The first rule a raw frame breaks under `config`.
pub open spec fn raw_frame_error_of(config: VideoPipelineConfig, frame: RawVideoFrame) -> Option<
    RawVideoFrameError,
> {
    raw_frame_error(config, frame.width, frame.height, frame.row_pitch, frame.format, frame.bytes@.len())
}

/// Checks a raw frame against the encoder's configuration.
pub fn validate_raw_frame(config: VideoPipelineConfig, frame: RawVideoFrame<'_>) -> (res: Result<
    (),
    RawVideoFrameError,
>)
    ensures
        match raw_frame_error_of(config, frame) {
            None => res is Ok,
            Some(e) => res == Err::<(), RawVideoFrameError>(e),
        },
{
    if frame.width == 0 || frame.height == 0 {
        return Err(RawVideoFrameError::InvalidDimensions { width: frame.width, height: frame.height });
    }
    if frame.width > MAX_H264_WIDTH || frame.height > MAX_H264_HEIGHT {
        return Err(
            RawVideoFrameError::ResolutionTooLarge {
                width: frame.width,
                height: frame.height,
                max_width: MAX_H264_WIDTH,
                max_height: MAX_H264_HEIGHT,
            },
        );
    }
    if frame.width != config.width || frame.height != config.height {
        return Err(
            RawVideoFrameError::ConfigDimensionMismatch {
                frame_width: frame.width,
                frame_height: frame.height,
                config_width: config.width,
                config_height: config.height,
            },
        );
    }
    if frame.format != RawPixelFormat::Bgra8Unorm {
        return Err(RawVideoFrameError::UnsupportedPixelFormat { format: frame.format });
    }
    if frame.bytes.len() == 0 {
        return Err(RawVideoFrameError::EmptyPayload);
    }
    let min_row_pitch = match frame.width.checked_mul(4) {
        Some(p) => p,
        None => {
            return Err(RawVideoFrameError::RowPitchOverflow);
        },
    };
    if frame.row_pitch < min_row_pitch {
        return Err(RawVideoFrameError::InvalidRowPitch { row_pitch: frame.row_pitch, min_row_pitch });
    }
    let expected = match frame.row_pitch.checked_mul(frame.height) {
        Some(n) => n as usize,
        None => {
            return Err(RawVideoFrameError::PayloadLengthOverflow);
        },
    };
    if frame.bytes.len() != expected {
        return Err(
            RawVideoFrameError::InvalidPayloadLength { actual: frame.bytes.len(), expected },
        );
    }
    Ok(())
}


/// The description of a raw frame error, as the encoder reports it.
pub open spec fn raw_frame_error_text(e: RawVideoFrameError) -> Seq<char> {
    match e {
                RawVideoFrameError::InvalidDimensions { width, height } =>
                    "raw frame dimensions are invalid: "@ + size_text(width, height),
                RawVideoFrameError::ResolutionTooLarge { width, height, max_width, max_height } =>
                    "raw frame dimensions "@ + size_text(width, height)
                    + " exceed fake H.264 boundary "@ + size_text(max_width, max_height),
                RawVideoFrameError::ConfigDimensionMismatch {
                    frame_width,
                    frame_height,
                    config_width,
                    config_height,
                } => "raw frame dimensions "@ + size_text(frame_width, frame_height)
                    + " do not match configured size "@ + size_text(config_width, config_height),
                RawVideoFrameError::UnsupportedPixelFormat { format } =>
                    "fake H.264 encoder only accepts BGRA8 raw frames, current format is Bgra8Unorm"@,
                RawVideoFrameError::EmptyPayload => "raw frame payload is empty"@,
                RawVideoFrameError::RowPitchOverflow => "raw frame row pitch overflow"@,
                RawVideoFrameError::InvalidRowPitch { row_pitch, min_row_pitch } =>
                    "raw frame row pitch "@ + decimal(row_pitch as nat) + " is below minimum "@
                    + decimal(min_row_pitch as nat),
                RawVideoFrameError::PayloadLengthOverflow => "raw frame payload length overflow"@,
                RawVideoFrameError::InvalidPayloadLength { actual, expected } =>
                    "raw frame payload length "@ + decimal(actual as nat) + " does not match expected "@
                    + decimal(expected as nat),
            }
}

impl RawVideoFrameError {
    /// The description of the error, as the encoder reports it.
    pub fn message(&self) -> (res: String)
        ensures
            res@ == raw_frame_error_text(*self),
    {
        match *self {
            RawVideoFrameError::InvalidDimensions { width, height } => {
                let size = size_string(width, height);
                concat2("raw frame dimensions are invalid: ", size.as_str())
            },
            RawVideoFrameError::ResolutionTooLarge { width, height, max_width, max_height } => {
                let size = size_string(width, height);
                let max = size_string(max_width, max_height);
                let mut res = concat2("raw frame dimensions ", size.as_str());
                res.append(" exceed fake H.264 boundary ");
                res.append(max.as_str());
                res
            },
            RawVideoFrameError::ConfigDimensionMismatch {
                frame_width,
                frame_height,
                config_width,
                config_height,
            } => {
                let size = size_string(frame_width, frame_height);
                let config = size_string(config_width, config_height);
                let mut res = concat2("raw frame dimensions ", size.as_str());
                res.append(" do not match configured size ");
                res.append(config.as_str());
                res
            },
            RawVideoFrameError::UnsupportedPixelFormat { format: _ } => owned(
                "fake H.264 encoder only accepts BGRA8 raw frames, current format is Bgra8Unorm",
            ),
            RawVideoFrameError::EmptyPayload => owned("raw frame payload is empty"),
            RawVideoFrameError::RowPitchOverflow => owned("raw frame row pitch overflow"),
            RawVideoFrameError::InvalidRowPitch { row_pitch, min_row_pitch } => {
                let pitch = decimal_string(row_pitch as u64);
                let min = decimal_string(min_row_pitch as u64);
                let mut res = concat2("raw frame row pitch ", pitch.as_str());
                res.append(" is below minimum ");
                res.append(min.as_str());
                res
            },
            RawVideoFrameError::PayloadLengthOverflow => owned("raw frame payload length overflow"),
            RawVideoFrameError::InvalidPayloadLength { actual, expected } => {
                let actual = decimal_string(actual as u64);
                let expected = decimal_string(expected as u64);
                let mut res = concat2("raw frame payload length ", actual.as_str());
                res.append(" does not match expected ");
                res.append(expected.as_str());
                res
            },
        }
    }
}

/// An encoded video frame as the control protocol carries it.
#[derive(Debug, Clone, PartialEq, Eq)]
pub struct EncodedVideoFrame {
    pub codec: VideoCodec,
    pub width: u32,
    pub height: u32,
    pub sequence_number: u64,
    pub timestamp_ns: u64,
    pub keyframe: bool,
    pub bytes: Vec<u8>,
}

/// The protocol layer's reason for rejecting an encoded frame, in the words
/// of its debug rendering.
#[derive(Debug, Clone, PartialEq, Eq)]
pub struct EncodedVideoFrameError {
    pub description: String,
}

/// Why a media backend fails.
#[derive(Debug)]
pub enum MediaError {
    Config(MediaConfigError),
    UnsupportedEncodedCodec { codec: VideoCodec },
    InvalidEncodedFrame(EncodedVideoFrameError),
    InvalidRawFrame(RawVideoFrameError),
    DecodedPayloadTooLarge { actual: usize, max: usize },
    BackendUnavailable(&'static str),
    Backend(String),
}

/// The user-facing description of a configuration error.
pub open spec fn config_error_text(e: MediaConfigError) -> Seq<char> {
    match e {
        MediaConfigError::UnsupportedCodec { codec } => "媒体链路只支持 H.264，当前配置为 "@ + codec_name(codec),
        MediaConfigError::InvalidDimensions { width, height } => "视频尺寸无效: "@ + size_text(width, height),
        MediaConfigError::ResolutionTooLarge { width, height, max_width, max_height } => "视频尺寸 "@
            + size_text(width, height) + " 超过上限 "@ + size_text(max_width, max_height),
        MediaConfigError::InvalidFps { fps, max_fps } => "视频帧率 "@ + decimal(fps as nat) + " 无效，最大支持 "@
            + decimal(max_fps as nat),
        MediaConfigError::InvalidMaxBitrate => "视频码率上限必须大于 0"@,
        MediaConfigError::InvalidBitrate { bitrate_kbps, max_bitrate_kbps } => "视频目标码率 "@ + decimal(
            bitrate_kbps as nat,
        ) + " 无效，上限为 "@ + decimal(max_bitrate_kbps as nat),
    }
}

impl MediaError {
    /// The user-facing description of the error.
    pub fn message(&self) -> (res: String)
        ensures
            match self {
                MediaError::Config(e) => res@ == config_error_text(*e),
                MediaError::UnsupportedEncodedCodec { codec } => res@ == "编码视频帧只支持 H.264，当前为 "@
                    + codec_name(*codec),
                MediaError::InvalidEncodedFrame(e) => res@ == "编码视频帧无效: "@ + e.description@,
                MediaError::InvalidRawFrame(e) => res@ == "原始视频帧无效: "@ + raw_frame_error_text(*e),
                MediaError::DecodedPayloadTooLarge { actual, max } => res@ == "fake 解码输出载荷 "@
                    + decimal(*actual as nat) + " 超过上限 "@ + decimal(*max as nat),
                MediaError::BackendUnavailable(reason) => res@ == "媒体后端不可用: "@ + reason@,
                MediaError::Backend(reason) => res@ == "媒体后端处理失败: "@ + reason@,
            },
    {
        match self {
            MediaError::Config(e) => e.message(),
            MediaError::UnsupportedEncodedCodec { codec } => {
                let name = codec_name_string(*codec);
                concat2("编码视频帧只支持 H.264，当前为 ", name.as_str())
            },
            MediaError::InvalidEncodedFrame(e) => concat2("编码视频帧无效: ", e.description.as_str()),
            MediaError::InvalidRawFrame(e) => {
                let inner = e.message();
                concat2("原始视频帧无效: ", inner.as_str())
            },
            MediaError::DecodedPayloadTooLarge { actual, max } => {
                let actual = decimal_string(*actual as u64);
                let max = decimal_string(*max as u64);
                let mut res = concat2("fake 解码输出载荷 ", actual.as_str());
                res.append(" 超过上限 ");
                res.append(max.as_str());
                res
            },
            MediaError::BackendUnavailable(reason) => concat2("媒体后端不可用: ", reason),
            MediaError::Backend(reason) => concat2("媒体后端处理失败: ", reason.as_str()),
        }
    }
}


/// Pixel layouts of decoded frames.
#[derive(Debug, Clone, Copy, PartialEq, Eq, Structural)]
pub enum DecodedPixelFormat {
    Bgra8Unorm,
}

/// A decoded frame, borrowed from the decoder that produced it.
#[derive(Debug, Clone, Copy, PartialEq, Eq)]
pub struct DecodedVideoFrame<'a> {
    pub width: u32,
    pub height: u32,
    pub format: DecodedPixelFormat,
    pub bytes: &'a [u8],
}

impl DecodedVideoFrame<'_> {
    /// Bytes per row: four per pixel.
    pub fn row_pitch(&self) -> (res: u32)
        requires
            self.width * 4 <= u32::MAX,
        ensures
            res == self.width * 4,
    {
        self.width * 4
    }
}

/// Something that turns raw BGRA frames into encoded frames.
pub trait VideoEncoder {
    /// Encodes one raw frame.
    fn encode(&mut self, frame: RawVideoFrame<'_>) -> Result<EncodedVideoFrame, MediaError>;

    /// Asks that the next encoded frame be a keyframe.
    fn request_keyframe(&mut self) -> Result<(), MediaError>;
}

/// Something that turns encoded frames back into BGRA pixels. `frame_check`
/// is the protocol layer's verdict on `frame`; that layer accepts no frame
/// with an empty payload.
pub trait VideoDecoder {
    /// Decodes one encoded frame into a buffer owned by the decoder.
    fn decode<'a>(
        &'a mut self,
        frame: &EncodedVideoFrame,
        frame_check: Result<(), EncodedVideoFrameError>,
    ) -> Result<DecodedVideoFrame<'a>, MediaError>
        requires
            frame_check is Ok ==> frame.bytes@.len() > 0,
    ;
}

/// Largest number of payload bytes the fake encoder copies into its output.
pub const FAKE_H264_SAMPLE_LEN: usize = 16;

/// Marker that starts every fake H.264 payload.
pub open spec fn fake_h264_magic() -> Seq<u8> {
    seq![
        0x57u8, 0x49u8, 0x4eu8, 0x43u8, 0x41u8, 0x53u8, 0x54u8, 0x5fu8, 0x46u8, 0x41u8, 0x4bu8,
        0x45u8, 0x5fu8, 0x48u8, 0x32u8, 0x36u8, 0x34u8,
    ]
}

/// Byte `i` (most significant first) of the `width`-byte big-endian form of `v`.
pub open spec fn be_byte(v: u64, width: nat, i: int) -> u8 {
    ((v >> ((8 * (width - 1 - i)) as u64)) & 0xff) as u8
}

/// The `width`-byte big-endian form of `v`.
pub open spec fn be_bytes(v: u64, width: nat) -> Seq<u8> {
    Seq::new(width, |i: int| be_byte(v, width, i))
}

/// The payload the fake encoder produces for a frame: the marker, then the
/// width and height as four big-endian bytes each, then the sequence number,
/// timestamp and payload length as eight big-endian bytes each, then the
/// first sixteen payload bytes (or all of them, if fewer).
pub open spec fn fake_h264_payload(
    width: u32,
    height: u32,
    sequence_number: u64,
    timestamp_ns: u64,
    bytes: Seq<u8>,
) -> Seq<u8> {
    fake_h264_magic() + be_bytes(width as u64, 4) + be_bytes(height as u64, 4) + be_bytes(
        sequence_number,
        8,
    ) + be_bytes(timestamp_ns, 8) + be_bytes(bytes.len() as u64, 8) + bytes.take(
        if bytes.len() < 16 {
            bytes.len() as int
        } else {
            16
        },
    )
}

fn push_be_bytes(out: &mut Vec<u8>, v: u64, width: usize)
    requires
        1 <= width <= 8,
    ensures
        final(out)@ == old(out)@ + be_bytes(v, width as nat),
{
    let ghost start = out@;
    let mut i: usize = 0;
    while i < width
        invariant
            i <= width <= 8,
            out@ == start + be_bytes(v, width as nat).take(i as int),
        decreases width - i,
    {
        let shift: u64 = (8 * (width - 1 - i)) as u64;
        let byte: u8 = ((v >> shift) & 0xff) as u8;
        out.push(byte);
        proof {
            assert(be_bytes(v, width as nat).take(i + 1) =~= be_bytes(v, width as nat).take(
                i as int,
            ).push(byte));
        }
        i = i + 1;
    }
    proof {
        assert(be_bytes(v, width as nat).take(width as int) =~= be_bytes(v, width as nat));
    }
}

fn fake_h264_magic_bytes() -> (res: Vec<u8>)
    ensures
        res@ == fake_h264_magic(),
{
    let res: Vec<u8> = vec![
        0x57u8, 0x49u8, 0x4eu8, 0x43u8, 0x41u8, 0x53u8, 0x54u8, 0x5fu8, 0x46u8, 0x41u8, 0x4bu8,
        0x45u8, 0x5fu8, 0x48u8, 0x32u8, 0x36u8, 0x34u8,
    ];
    assert(res@ =~= fake_h264_magic());
    res
}

/// Deterministic stand-in for an H.264 encoder: its payloads are traceable
/// stubs, not playable bitstreams.
#[derive(Debug)]
pub struct FakeH264Encoder {
    config: VideoPipelineConfig,
    force_keyframe: bool,
}

impl FakeH264Encoder {
    /// The configuration the encoder was built with.
    pub closed spec fn spec_config(&self) -> VideoPipelineConfig {
        self.config
    }

    /// Whether the next encoded frame will be a keyframe.
    pub closed spec fn next_is_keyframe(&self) -> bool {
        self.force_keyframe
    }

    /// Builds an encoder for a valid configuration; its first frame is a keyframe.
    pub fn new(config: VideoPipelineConfig) -> (res: Result<Self, MediaError>)
        ensures
            match config_error(config) {
                None => res matches Ok(enc) && enc.spec_config() == config && enc.next_is_keyframe(),
                Some(e) => res matches Err(MediaError::Config(got)) && got == e,
            },
    {
        match config.validate() {
            Ok(()) => Ok(FakeH264Encoder { config, force_keyframe: true }),
            Err(e) => Err(MediaError::Config(e)),
        }
    }

    /// The configuration the encoder was built with.
    pub fn config(&self) -> (res: VideoPipelineConfig)
        ensures
            res == self.spec_config(),
    {
        self.config
    }
}

impl VideoEncoder for FakeH264Encoder {
    /// Encodes a frame that passes `validate_raw_frame` into the fake payload;
    /// the frame is a keyframe when one was due, and the next one is not.
    fn encode(&mut self, frame: RawVideoFrame<'_>) -> (res: Result<EncodedVideoFrame, MediaError>)
        ensures
            final(self).spec_config() == old(self).spec_config(),
            match raw_frame_error_of(old(self).spec_config(), frame) {
                None => {
                    &&& res matches Ok(encoded) && encoded.codec == VideoCodec::H264
                        && encoded.width == frame.width && encoded.height == frame.height
                        && encoded.sequence_number == frame.sequence_number
                        && encoded.timestamp_ns == frame.timestamp_ns
                        && encoded.keyframe == old(self).next_is_keyframe()
                        && encoded.bytes@ == fake_h264_payload(
                        frame.width,
                        frame.height,
                        frame.sequence_number,
                        frame.timestamp_ns,
                        frame.bytes@,
                    )
                    &&& !final(self).next_is_keyframe()
                },
                Some(e) => {
                    &&& res matches Err(MediaError::InvalidRawFrame(got)) && got == e
                    &&& final(self).next_is_keyframe() == old(self).next_is_keyframe()
                },
            },
    {
        match validate_raw_frame(self.config, frame) {
            Ok(()) => {},
            Err(e) => {
                return Err(MediaError::InvalidRawFrame(e));
            },
        }
        let keyframe = self.force_keyframe;
        self.force_keyframe = false;

        let mut bytes = fake_h264_magic_bytes();
        push_be_bytes(&mut bytes, frame.width as u64, 4);
        push_be_bytes(&mut bytes, frame.height as u64, 4);
        push_be_bytes(&mut bytes, frame.sequence_number, 8);
        push_be_bytes(&mut bytes, frame.timestamp_ns, 8);
        push_be_bytes(&mut bytes, frame.bytes.len() as u64, 8);
        let sample_len = if frame.bytes.len() < FAKE_H264_SAMPLE_LEN {
            frame.bytes.len()
        } else {
            FAKE_H264_SAMPLE_LEN
        };
        let ghost before = bytes@;
        let mut i: usize = 0;
        while i < sample_len
            invariant
                sample_len <= frame.bytes@.len(),
                i <= sample_len,
                bytes@ == before + frame.bytes@.take(i as int),
            decreases sample_len - i,
        {
            bytes.push(frame.bytes[i]);
            proof {
                assert(frame.bytes@.take(i + 1) =~= frame.bytes@.take(i as int).push(frame.bytes@[i as int]));
            }
            i = i + 1;
        }
        assert(bytes@ =~= fake_h264_payload(
            frame.width,
            frame.height,
            frame.sequence_number,
            frame.timestamp_ns,
            frame.bytes@,
        ));
        if bytes.len() == 0 {
            return Err(MediaError::Backend(owned("fake H.264 encoder produced empty payload")));
        }
        Ok(
            EncodedVideoFrame {
                codec: VideoCodec::H264,
                width: frame.width,
                height: frame.height,
                sequence_number: frame.sequence_number,
                timestamp_ns: frame.timestamp_ns,
                keyframe,
                bytes,
            },
        )
    }

    /// Makes the next encoded frame a keyframe; never fails.
    fn request_keyframe(&mut self) -> (res: Result<(), MediaError>)
        ensures
            res is Ok,
            final(self).next_is_keyframe(),
            final(self).spec_config() == old(self).spec_config(),
    {
        self.force_keyframe = true;
        Ok(())
    }
}


/// Why a decoder refuses an encoded frame before decoding it, if it does:
/// the frame must be H.264 and pass the protocol check.
pub open spec fn encoded_frame_error(
    frame: EncodedVideoFrame,
    frame_check: Result<(), EncodedVideoFrameError>,
) -> Option<MediaError> {
    if frame.codec != VideoCodec::H264 {
        Some(MediaError::UnsupportedEncodedCodec { codec: frame.codec })
    } else {
        match frame_check {
            Ok(()) => None,
            Err(e) => Some(MediaError::InvalidEncodedFrame(e)),
        }
    }
}

/// Checks that an encoded frame is H.264 and passed the protocol check.
pub fn validate_h264_frame(
    frame: &EncodedVideoFrame,
    frame_check: Result<(), EncodedVideoFrameError>,
) -> (res: Result<(), MediaError>)
    ensures
        match encoded_frame_error(*frame, frame_check) {
            None => res is Ok,
            Some(e) => res matches Err(got) && got == e,
        },
{
    if frame.codec != VideoCodec::H264 {
        return Err(MediaError::UnsupportedEncodedCodec { codec: frame.codec });
    }
    match frame_check {
        Ok(()) => Ok(()),
        Err(e) => Err(MediaError::InvalidEncodedFrame(e)),
    }
}

/// The BGRA pixels the fake decoder produces: every pixel repeats one payload
/// byte in its three colour channels (cycling through the payload) and is
/// fully opaque.
pub open spec fn fake_decoded_pixels(payload: Seq<u8>, len: nat) -> Seq<u8> {
    Seq::new(
        len,
        |i: int|
            if i % 4 == 3 {
                0xffu8
            } else {
                payload[(i / 4) % (payload.len() as int)]
            },
    )
}

/// Deterministic stand-in for an H.264 decoder, paired with `FakeH264Encoder`.
#[derive(Debug)]
pub struct FakeH264Decoder {
    buffer: Vec<u8>,
}

impl FakeH264Decoder {
    /// A decoder with an empty output buffer.
    pub fn new() -> (res: Self)
        ensures
            res.spec_buffer().len() == 0,
    {
        FakeH264Decoder { buffer: Vec::new() }
    }

    /// The decoder's output buffer.
    pub closed spec fn spec_buffer(&self) -> Seq<u8> {
        self.buffer@
    }
}

impl VideoDecoder for FakeH264Decoder {
    /// Decodes an H.264 frame that passed the protocol check into
    /// `width * 4 * height` BGRA bytes, refusing more than a full-size frame.
    fn decode<'a>(
        &'a mut self,
        frame: &EncodedVideoFrame,
        frame_check: Result<(), EncodedVideoFrameError>,
    ) -> (res: Result<DecodedVideoFrame<'a>, MediaError>)
        ensures
            match encoded_frame_error(*frame, frame_check) {
                Some(e) => res matches Err(got) && got == e,
                None => if frame.width * 4 > u32::MAX || frame.width * 4 * frame.height > u32::MAX {
                    res matches Err(MediaError::DecodedPayloadTooLarge { actual, max })
                        && actual == usize::MAX && max == FAKE_H264_DECODED_PAYLOAD_LIMIT
                } else if frame.width * 4 * frame.height > FAKE_H264_DECODED_PAYLOAD_LIMIT {
                    res matches Err(MediaError::DecodedPayloadTooLarge { actual, max })
                        && actual == frame.width * 4 * frame.height
                        && max == FAKE_H264_DECODED_PAYLOAD_LIMIT
                } else {
                    res matches Ok(decoded) && decoded.width == frame.width
                        && decoded.height == frame.height
                        && decoded.format == DecodedPixelFormat::Bgra8Unorm
                        && decoded.bytes@ == fake_decoded_pixels(
                        frame.bytes@,
                        (frame.width * 4 * frame.height) as nat,
                    )
                },
            },
    {
        match validate_h264_frame(frame, frame_check) {
            Ok(()) => {},
            Err(e) => {
                return Err(e);
            },
        }
        let row_pitch = match frame.width.checked_mul(4) {
            Some(p) => p,
            None => {
                return Err(
                    MediaError::DecodedPayloadTooLarge {
                        actual: usize::MAX,
                        max: FAKE_H264_DECODED_PAYLOAD_LIMIT,
                    },
                );
            },
        };
        let decoded_len = match row_pitch.checked_mul(frame.height) {
            Some(n) => n as usize,
            None => {
                return Err(
                    MediaError::DecodedPayloadTooLarge {
                        actual: usize::MAX,
                        max: FAKE_H264_DECODED_PAYLOAD_LIMIT,
                    },
                );
            },
        };
        if decoded_len > FAKE_H264_DECODED_PAYLOAD_LIMIT {
            return Err(
                MediaError::DecodedPayloadTooLarge {
                    actual: decoded_len,
                    max: FAKE_H264_DECODED_PAYLOAD_LIMIT,
                },
            );
        }
        self.buffer.clear();
        let len = frame.bytes.len();
        let mut index: usize = 0;
        while index < decoded_len
            invariant
                decoded_len <= FAKE_H264_DECODED_PAYLOAD_LIMIT,
                len == frame.bytes@.len(),
                len > 0,
                index <= decoded_len,
                self.buffer@ == fake_decoded_pixels(frame.bytes@, decoded_len as nat).take(
                    index as int,
                ),
            decreases decoded_len - index,
        {
            let byte = if index % 4 == 3 {
                0xffu8
            } else {
                frame.bytes[(index / 4) % len]
            };
            self.buffer.push(byte);
            proof {
                assert(fake_decoded_pixels(frame.bytes@, decoded_len as nat).take(index + 1)
                    =~= fake_decoded_pixels(frame.bytes@, decoded_len as nat).take(
                    index as int,
                ).push(byte));
            }
            index = index + 1;
        }
        assert(self.buffer@ =~= fake_decoded_pixels(frame.bytes@, decoded_len as nat));
        Ok(
            DecodedVideoFrame {
                width: frame.width,
                height: frame.height,
                format: DecodedPixelFormat::Bgra8Unorm,
                bytes: self.buffer.as_slice(),
            },
        )
    }
}


/// `pixels` with the first and third byte of every four-byte pixel
/// exchanged: RGBA turned into BGRA and back.
pub open spec fn red_blue_swapped(pixels: Seq<u8>) -> Seq<u8> {
    Seq::new(
        pixels.len(),
        |i: int|
            if i % 4 == 0 {
                pixels[i + 2]
            } else if i % 4 == 2 {
                pixels[i - 2]
            } else {
                pixels[i]
            },
    )
}

/// Turns RGBA pixels into BGRA in place by exchanging the red and blue bytes
/// of each pixel.
pub fn swap_red_blue(pixels: &mut Vec<u8>)
    requires
        old(pixels)@.len() % 4 == 0,
    ensures
        final(pixels)@ == red_blue_swapped(old(pixels)@),
{
    let ghost before = pixels@;
    let len = pixels.len();
    let mut i: usize = 0;
    while i < len
        invariant
            len == pixels@.len(),
            len == before.len(),
            len % 4 == 0,
            i % 4 == 0,
            i <= len,
            forall|k: int| 0 <= k < i ==> pixels@[k] == #[trigger] red_blue_swapped(before)[k],
            forall|k: int| i <= k < len ==> pixels@[k] == before[k],
        decreases len - i,
    {
        let red = pixels[i];
        let blue = pixels[i + 2];
        pixels.set(i, blue);
        pixels.set(i + 2, red);
        i = i + 4;
    }
    assert(pixels@ =~= red_blue_swapped(before));
}

/// Swapping red and blue twice gives the pixels back.
pub proof fn lemma_red_blue_swap_involution(pixels: Seq<u8>)
    requires
        pixels.len() % 4 == 0,
    ensures
        red_blue_swapped(red_blue_swapped(pixels)) == pixels,
{
    assert(red_blue_swapped(red_blue_swapped(pixels)) =~= pixels);
}

/// Checks that a decoded picture has the size the protocol frame announced.
pub fn check_decoded_dimensions(decoded_width: usize, decoded_height: usize, width: u32, height: u32) -> (res:
    Result<(), MediaError>)
    ensures
        decoded_width == width && decoded_height == height ==> res is Ok,
        !(decoded_width == width && decoded_height == height) ==> (res matches Err(
            MediaError::Backend(m),
        ) && m@ == decoded_dimensions_mismatch_text(decoded_width, decoded_height, width, height)),
{
    if decoded_width == width as usize && decoded_height == height as usize {
        return Ok(());
    }
    let w = decimal_string(decoded_width as u64);
    let h = decimal_string(decoded_height as u64);
    let size = size_string(width, height);
    let mut m = concat2("OpenH264 解码尺寸 ", w.as_str());
    m.append("x");
    m.append(h.as_str());
    m.append(" 与协议帧 ");
    m.append(size.as_str());
    m.append(" 不一致");
    Err(MediaError::Backend(m))
}

/// The text of a decoded picture whose size differs from the protocol frame.
pub open spec fn decoded_dimensions_mismatch_text(
    decoded_width: usize,
    decoded_height: usize,
    width: u32,
    height: u32,
) -> Seq<char> {
    "OpenH264 解码尺寸 "@ + decimal(decoded_width as nat) + "x"@ + decimal(decoded_height as nat)
        + " 与协议帧 "@ + size_text(width, height) + " 不一致"@
}

/// Whether a decoder outcome's RGBA picture holds four bytes per pixel.
pub open spec fn rgba_outcome_well_sized(outcome: Result<Option<(usize, usize, Vec<u8>)>, String>) -> bool {
    outcome matches Ok(Some((w, h, px))) ==> px@.len() == w * h * 4
}

/// Whether `res` is what an OpenH264 outcome gives for a frame announced as
/// `width` x `height`: the decoder's error, a request for more data, a size
/// mismatch, or the picture with red and blue swapped (BGRA).
pub open spec fn openh264_finish_matches(
    width: u32,
    height: u32,
    outcome: Result<Option<(usize, usize, Vec<u8>)>, String>,
    res: Result<Seq<u8>, MediaError>,
) -> bool {
    match outcome {
        Err(m) => res matches Err(MediaError::Backend(t)) && t@ == "OpenH264 解码失败: "@ + m@,
        Ok(None) => res matches Err(MediaError::Backend(t)) && t@
            == "OpenH264 解码器需要更多 H.264 数据"@,
        Ok(Some((w, h, px))) => if w == width && h == height {
            res == Ok::<Seq<u8>, MediaError>(red_blue_swapped(px@))
        } else {
            res matches Err(MediaError::Backend(t)) && t@ == decoded_dimensions_mismatch_text(
                w,
                h,
                width,
                height,
            )
        },
    }
}

/// The pixel bytes of a `Result` of pixels, keeping the error.
pub open spec fn pixels_view(res: Result<Vec<u8>, MediaError>) -> Result<Seq<u8>, MediaError> {
    match res {
        Ok(px) => Ok(px@),
        Err(e) => Err(e),
    }
}

/// Turns what the OpenH264 decoder gave for a frame announced as `width` x
/// `height` into BGRA pixels: its error and an empty answer become backend
/// errors, a picture of another size is refused, and an RGBA picture of the
/// right size has its red and blue channels swapped.
pub fn finish_openh264_decode(
    width: u32,
    height: u32,
    outcome: Result<Option<(usize, usize, Vec<u8>)>, String>,
) -> (res: Result<Vec<u8>, MediaError>)
    requires
        rgba_outcome_well_sized(outcome),
    ensures
        openh264_finish_matches(width, height, outcome, pixels_view(res)),
{
    match outcome {
        Err(m) => Err(MediaError::Backend(concat2("OpenH264 解码失败: ", m.as_str()))),
        Ok(None) => Err(MediaError::Backend(owned("OpenH264 解码器需要更多 H.264 数据"))),
        Ok(Some((w, h, pixels))) => {
            match check_decoded_dimensions(w, h, width, height) {
                Ok(()) => {},
                Err(e) => {
                    return Err(e);
                },
            }
            let mut pixels = pixels;
            assert(pixels@.len() % 4 == 0) by (nonlinear_arith)
                requires
                    pixels@.len() == w * h * 4,
            ;
            swap_red_blue(&mut pixels);
            Ok(pixels)
        },
    }
}

/// `openh264::decoder::Decoder::new`: a decoder, or the library's error
/// rendered as text. Nothing is claimed of which one comes back.
#[verifier::external_body]
fn openh264_decoder_new() -> (res: Result<Decoder, String>) {
    match Decoder::new() {
        Ok(decoder) => Ok(decoder),
        Err(e) => Err(format!("{e}")),
    }
}

/// `openh264::decoder::Decoder::decode` on one H.264 packet, with the
/// decoded picture turned into plain values: its width and height
/// (`YUVSource::dimensions`) and its RGBA pixels, written by
/// `DecodedYUV::write_rgba8` into a buffer of `YUVSource::rgba8_len`
/// bytes. The picture borrows the decoder, so it is converted here, in one
/// piece. The claims are that the packet handed to OpenH264 is `bytes`
/// (recorded in the decoder's packet log, which nothing else writes) and
/// that the buffer holds four bytes per pixel, which is the size
/// `write_rgba8` asserts (the decoder always hands out I420 pictures, the
/// other thing it asserts). Which picture, error or empty answer comes back
/// is not stated: it depends on the decoder's state, that is, on the packets
/// it was given before.
#[verifier::external_body]
fn openh264_decode_rgba(decoder: &mut OpenH264Decoder, bytes: &[u8]) -> (res: Result<
    Option<(usize, usize, Vec<u8>)>,
    String,
>)
    ensures
        rgba_outcome_well_sized(res),
        final(decoder).spec_packets() == old(decoder).spec_packets().push(bytes@),
        final(decoder).spec_buffer() == old(decoder).spec_buffer(),
{
    match decoder.decoder.decode(bytes) {
        Ok(Some(yuv)) => {
            let mut rgba = vec![0u8; yuv.rgba8_len()];
            yuv.write_rgba8(&mut rgba);
            let (w, h) = yuv.dimensions();
            Ok(Some((w, h, rgba)))
        },
        Ok(None) => Ok(None),
        Err(e) => Err(format!("{e}")),
    }
}

/// The H.264 decoder of the client, backed by OpenH264.
pub struct OpenH264Decoder {
    decoder: Decoder,
    buffer: Vec<u8>,
    /// The packets handed to OpenH264 so far, in order.
    packets: Ghost<Seq<Seq<u8>>>,
}

impl OpenH264Decoder {
    /// A decoder with an empty output buffer that has been given no packet,
    /// or the initialisation failure.
    pub fn new() -> (res: Result<Self, MediaError>)
        ensures
            match res {
                Ok(d) => d.spec_buffer().len() == 0 && d.spec_packets().len() == 0,
                Err(e) => e matches MediaError::Backend(t) && exists|m: Seq<char>|
                    t@ == "初始化 OpenH264 解码器失败: "@ + m,
            },
    {
        match openh264_decoder_new() {
            Ok(decoder) => Ok(
                OpenH264Decoder { decoder, buffer: Vec::new(), packets: Ghost(Seq::empty()) },
            ),
            Err(m) => {
                let t = concat2("初始化 OpenH264 解码器失败: ", m.as_str());
                assert(t@ == "初始化 OpenH264 解码器失败: "@ + m@);
                Err(MediaError::Backend(t))
            },
        }
    }

    /// The decoder's output buffer.
    pub closed spec fn spec_buffer(&self) -> Seq<u8> {
        self.buffer@
    }

    /// The packets handed to OpenH264 so far, in order.
    pub closed spec fn spec_packets(&self) -> Seq<Seq<u8>> {
        self.packets@
    }
}

impl VideoDecoder for OpenH264Decoder {
    /// Decodes an H.264 frame that passed the protocol check with OpenH264
    /// into BGRA bytes of the announced size: the frame's bytes are handed to
    /// OpenH264 as the next packet (a refused frame is not), and what
    /// OpenH264 gives back is handled by `finish_openh264_decode`.
    fn decode<'a>(
        &'a mut self,
        frame: &EncodedVideoFrame,
        frame_check: Result<(), EncodedVideoFrameError>,
    ) -> (res: Result<DecodedVideoFrame<'a>, MediaError>)
        ensures
            final(self).spec_packets() == if encoded_frame_error(*frame, frame_check) is None {
                old(self).spec_packets().push(frame.bytes@)
            } else {
                old(self).spec_packets()
            },
            match encoded_frame_error(*frame, frame_check) {
                Some(e) => res matches Err(got) && got == e,
                None => exists|outcome: Result<Option<(usize, usize, Vec<u8>)>, String>|
                    #[trigger] rgba_outcome_well_sized(outcome) && match res {
                        Ok(decoded) => decoded.width == frame.width && decoded.height
                            == frame.height && decoded.format == DecodedPixelFormat::Bgra8Unorm
                            && openh264_finish_matches(
                            frame.width,
                            frame.height,
                            outcome,
                            Ok(decoded.bytes@),
                        ),
                        Err(e) => openh264_finish_matches(frame.width, frame.height, outcome, Err(e)),
                    },
            },
    {
        match validate_h264_frame(frame, frame_check) {
            Ok(()) => {},
            Err(e) => {
                return Err(e);
            },
        }
        let outcome = openh264_decode_rgba(self, frame.bytes.as_slice());
        assert(rgba_outcome_well_sized(outcome));
        match finish_openh264_decode(frame.width, frame.height, outcome) {
            Ok(pixels) => {
                self.buffer = pixels;
                Ok(
                    DecodedVideoFrame {
                        width: frame.width,
                        height: frame.height,
                        format: DecodedPixelFormat::Bgra8Unorm,
                        bytes: self.buffer.as_slice(),
                    },
                )
            },
            Err(e) => Err(e),
        }
    }
}

/// `openh264::decoder::Decoder`, carried by the OpenH264 decoder.
#[verifier::external_type_specification]
#[verifier::external_body]
pub struct ExOpenH264Decoder(Decoder);

} // verus!
