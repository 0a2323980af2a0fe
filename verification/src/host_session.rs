//! The decisions of one host session: how it ends and what is reported, how
//! capture frames feed the encoder, how the input reader's outcomes end the
//! stream, and which desktop state a foreground host starts from.

use vstd::prelude::*;
use vstd::string::StrSliceExecFns;

use crate::capture::{CaptureTarget, CapturedBgraFrame};
use crate::input::CaptureInputBounds;
use crate::media::{
    MediaConfigError, MediaError, RawPixelFormat, RawVideoFrame, RawVideoFrameError,
    VideoLatencyMode, VideoPipelineConfig, codec_name, config_error_text, size_string, size_text,
};
use crate::protocol::{CaptureMode, ErrorCode, SessionEndReason, VideoCodec};
use crate::session_events::{
    DesktopSessionDetector, DesktopSessionError, DetectedDesktopSession, after_detection,
    apply_detected_desktop_session,
};
use crate::session_state::{
    protocol_error_code_of, DesktopPhase, RemoteSessionStatus, SessionEvent, SessionModel,
    SessionStateMachine, SharedSessionState,
};
use crate::text::{concat2, concat3, decimal, decimal_string, owned};
use crate::window::{WindowCandidate, WindowLookupError, WindowRect};

verus! {

/// Why a host session ended.
#[derive(Debug, Clone, Copy, PartialEq, Eq, Structural)]
pub enum HostSessionEndReason {
    StopSession,
    CaptureInactive,
    ClientDisconnected,
    CaptureFailed,
    InputFailed,
    TransportFailed,
    SessionUnavailable,
}

impl HostSessionEndReason {
    /// How the service is told why the session ended: a client stop was
    /// requested, a vanished capture, client or desktop session means the
    /// desktop is unavailable, and any failure is a failed session.
    pub fn service_reason(self) -> (res: SessionEndReason)
        ensures
            res == match self {
                HostSessionEndReason::StopSession => SessionEndReason::ServiceRequested,
                HostSessionEndReason::CaptureInactive => SessionEndReason::DesktopUnavailable,
                HostSessionEndReason::ClientDisconnected => SessionEndReason::DesktopUnavailable,
                HostSessionEndReason::SessionUnavailable => SessionEndReason::DesktopUnavailable,
                HostSessionEndReason::CaptureFailed => SessionEndReason::SessionFailed,
                HostSessionEndReason::InputFailed => SessionEndReason::SessionFailed,
                HostSessionEndReason::TransportFailed => SessionEndReason::SessionFailed,
            },
    {
        match self {
            HostSessionEndReason::StopSession => SessionEndReason::ServiceRequested,
            HostSessionEndReason::CaptureInactive | HostSessionEndReason::ClientDisconnected
            | HostSessionEndReason::SessionUnavailable => SessionEndReason::DesktopUnavailable,
            HostSessionEndReason::CaptureFailed | HostSessionEndReason::InputFailed
            | HostSessionEndReason::TransportFailed => SessionEndReason::SessionFailed,
        }
    }
}

/// A session that ended in failure, with the reason and the message.
#[derive(Debug, Clone, PartialEq, Eq)]
pub struct HostSessionError {
    pub reason: HostSessionEndReason,
    pub message: String,
}

impl HostSessionError {
    /// A failure with the given reason and message.
    pub fn new(reason: HostSessionEndReason, message: &str) -> (res: Self)
        ensures
            res.reason == reason,
            res.message@ == message@,
    {
        HostSessionError { reason, message: owned(message) }
    }
}

/// `message`, followed by the failure to send it to the client if that failed.
pub open spec fn with_write_failure_text(message: Seq<char>, write_result: Result<(), String>) -> Seq<
    char,
> {
    match write_result {
        Ok(()) => message,
        Err(write_error) => message + "；"@ + write_error@,
    }
}

/// Adds to `message` the failure to send it to the client, if there was one.
pub fn append_error_response_write_failure(message: String, write_result: Result<(), String>) -> (res:
    String)
    ensures
        res@ == with_write_failure_text(message@, write_result),
{
    match write_result {
        Ok(()) => message,
        Err(write_error) => {
            let mut res = message;
            res.append("；");
            res.append(write_error.as_str());
            res
        },
    }
}

/// The host's Chinese wording of a raw frame error.
pub open spec fn raw_frame_error_zh_text(e: RawVideoFrameError) -> Seq<char> {
    match e {
        RawVideoFrameError::InvalidDimensions { width, height } => "raw 视频尺寸无效: "@ + size_text(
            width,
            height,
        ),
        RawVideoFrameError::ResolutionTooLarge { width, height, max_width, max_height } => "视频尺寸 "@
            + size_text(width, height) + " 超过上限 "@ + size_text(max_width, max_height),
        RawVideoFrameError::ConfigDimensionMismatch {
            frame_width,
            frame_height,
            config_width,
            config_height,
        } => "raw 视频尺寸 "@ + size_text(frame_width, frame_height) + " 与配置尺寸 "@ + size_text(
            config_width,
            config_height,
        ) + " 不一致"@,
        RawVideoFrameError::UnsupportedPixelFormat { format } =>
            "H.264 编码器只支持 BGRA8 raw 帧，当前为 Bgra8Unorm"@,
        RawVideoFrameError::EmptyPayload => "raw 视频帧载荷为空"@,
        RawVideoFrameError::RowPitchOverflow => "raw 视频帧行跨度溢出"@,
        RawVideoFrameError::InvalidRowPitch { row_pitch, min_row_pitch } => "raw 视频帧行跨度 "@
            + decimal(row_pitch as nat) + " 小于最小值 "@ + decimal(min_row_pitch as nat),
        RawVideoFrameError::PayloadLengthOverflow => "raw 视频帧载荷长度溢出"@,
        RawVideoFrameError::InvalidPayloadLength { actual, expected } => "raw 视频帧载荷长度 "@
            + decimal(actual as nat) + " 与期望长度 "@ + decimal(expected as nat) + " 不一致"@,
    }
}

/// The host's Chinese wording of a raw frame error.
pub fn raw_video_frame_error_message(error: &RawVideoFrameError) -> (res: String)
    ensures
        res@ == raw_frame_error_zh_text(*error),
{
    match *error {
        RawVideoFrameError::InvalidDimensions { width, height } => {
            let size = size_string(width, height);
            concat2("raw 视频尺寸无效: ", size.as_str())
        },
        RawVideoFrameError::ResolutionTooLarge { width, height, max_width, max_height } => {
            let size = size_string(width, height);
            let max = size_string(max_width, max_height);
            let mut res = concat3("视频尺寸 ", size.as_str(), " 超过上限 ");
            res.append(max.as_str());
            res
        },
        RawVideoFrameError::ConfigDimensionMismatch {
            frame_width,
            frame_height,
            config_width,
            config_height,
        } => {
            let size = size_string(frame_width, frame_height);
            let config = size_string(config_width, config_height);
            let mut res = concat3("raw 视频尺寸 ", size.as_str(), " 与配置尺寸 ");
            res.append(config.as_str());
            res.append(" 不一致");
            res
        },
        RawVideoFrameError::UnsupportedPixelFormat { format: _ } => owned(
            "H.264 编码器只支持 BGRA8 raw 帧，当前为 Bgra8Unorm",
        ),
        RawVideoFrameError::EmptyPayload => owned("raw 视频帧载荷为空"),
        RawVideoFrameError::RowPitchOverflow => owned("raw 视频帧行跨度溢出"),
        RawVideoFrameError::InvalidRowPitch { row_pitch, min_row_pitch } => {
            let pitch = decimal_string(row_pitch as u64);
            let min = decimal_string(min_row_pitch as u64);
            let mut res = concat3("raw 视频帧行跨度 ", pitch.as_str(), " 小于最小值 ");
            res.append(min.as_str());
            res
        },
        RawVideoFrameError::PayloadLengthOverflow => owned("raw 视频帧载荷长度溢出"),
        RawVideoFrameError::InvalidPayloadLength { actual, expected } => {
            let actual = decimal_string(actual as u64);
            let expected = decimal_string(expected as u64);
            let mut res = concat3("raw 视频帧载荷长度 ", actual.as_str(), " 与期望长度 ");
            res.append(expected.as_str());
            res.append(" 不一致");
            res
        },
    }
}

/// The host's wording of a media configuration error.
pub fn media_config_error_message(error: &MediaConfigError) -> (res: String)
    ensures
        res@ == config_error_text(*error),
{
    error.message()
}

/// The host's wording of a media error.
pub open spec fn media_error_zh_text(e: MediaError) -> Seq<char> {
    match e {
        MediaError::Config(c) => config_error_text(c),
        MediaError::InvalidRawFrame(r) => raw_frame_error_zh_text(r),
        MediaError::UnsupportedEncodedCodec { codec } => "编码视频帧只支持 H.264，当前为 "@ + codec_name(
            codec,
        ),
        MediaError::InvalidEncodedFrame(f) => "编码视频帧无效: "@ + f.description@,
        MediaError::DecodedPayloadTooLarge { actual, max } => "fake 解码输出载荷 "@ + decimal(
            actual as nat,
        ) + " 超过上限 "@ + decimal(max as nat),
        MediaError::BackendUnavailable(m) => "媒体后端不可用: "@ + m@,
        MediaError::Backend(m) => "媒体后端处理失败: "@ + m@,
    }
}

/// The host's wording of a media error.
pub fn media_error_message(error: &MediaError) -> (res: String)
    ensures
        res@ == media_error_zh_text(*error),
{
    match error {
        MediaError::Config(c) => media_config_error_message(c),
        MediaError::InvalidRawFrame(r) => raw_video_frame_error_message(r),
        _ => error.message(),
    }
}

/// The raw frame handed to the encoder for a captured frame: its size, row
/// pitch, sequence number, timestamp and pixels, as BGRA.
pub fn raw_video_frame_from_capture(frame: &CapturedBgraFrame) -> (res: RawVideoFrame<'_>)
    ensures
        res.width == frame.metadata.frame.width,
        res.height == frame.metadata.frame.height,
        res.row_pitch == frame.row_pitch,
        res.format == RawPixelFormat::Bgra8Unorm,
        res.sequence_number == frame.metadata.frame.sequence_number,
        res.timestamp_ns == frame.metadata.frame.timestamp_ns,
        res.bytes@ == frame.bytes@,
{
    RawVideoFrame {
        width: frame.metadata.frame.width,
        height: frame.metadata.frame.height,
        row_pitch: frame.row_pitch,
        format: RawPixelFormat::Bgra8Unorm,
        sequence_number: frame.metadata.frame.sequence_number,
        timestamp_ns: frame.metadata.frame.timestamp_ns,
        bytes: frame.bytes.as_slice(),
    }
}

/// Input bounds of a whole-screen capture: the frame's size at the origin.
pub fn screen_input_bounds(frame: &CapturedBgraFrame) -> (res: CaptureInputBounds)
    ensures
        res == (CaptureInputBounds {
            origin_x: 0,
            origin_y: 0,
            width: frame.metadata.frame.width,
            height: frame.metadata.frame.height,
            client_width: frame.metadata.frame.width,
            client_height: frame.metadata.frame.height,
        }),
{
    CaptureInputBounds::from_capture_size(0, 0, frame.metadata.frame.width, frame.metadata.frame.height)
}

/// Input bounds of a capture: the frame's size, at the origin for a desktop
/// capture and at the window's top-left corner for a window capture.
pub fn capture_input_bounds(mode: CaptureMode, window: WindowRect, frame: &CapturedBgraFrame) -> (res:
    CaptureInputBounds)
    ensures
        res == (CaptureInputBounds {
            origin_x: if mode == CaptureMode::Window {
                window.left
            } else {
                0
            },
            origin_y: if mode == CaptureMode::Window {
                window.top
            } else {
                0
            },
            width: frame.metadata.frame.width,
            height: frame.metadata.frame.height,
            client_width: frame.metadata.frame.width,
            client_height: frame.metadata.frame.height,
        }),
{
    match mode {
        CaptureMode::Desktop => screen_input_bounds(frame),
        CaptureMode::Window => CaptureInputBounds::from_capture_size(
            window.left,
            window.top,
            frame.metadata.frame.width,
            frame.metadata.frame.height,
        ),
    }
}

/// The video part of the host configuration.
#[derive(Debug, Clone, Copy, PartialEq, Eq, Structural)]
pub struct HostVideoSettings {
    pub width: u32,
    pub height: u32,
    pub fps: u32,
    pub bitrate_kbps: u32,
    pub max_bitrate_kbps: u32,
}

/// The encoder configuration for the host's video settings: low-latency H.264.
pub fn h264_pipeline_config(video: &HostVideoSettings) -> (res: VideoPipelineConfig)
    ensures
        res == (VideoPipelineConfig {
            codec: VideoCodec::H264,
            width: video.width,
            height: video.height,
            fps: video.fps,
            bitrate_kbps: video.bitrate_kbps,
            max_bitrate_kbps: video.max_bitrate_kbps,
            latency_mode: VideoLatencyMode::LowLatency,
        }),
{
    VideoPipelineConfig {
        codec: VideoCodec::H264,
        width: video.width,
        height: video.height,
        fps: video.fps,
        bitrate_kbps: video.bitrate_kbps,
        max_bitrate_kbps: video.max_bitrate_kbps,
        latency_mode: VideoLatencyMode::LowLatency,
    }
}

/// The failure of an encoding step, after its error was (or failed to be)
/// reported to the client; encoding failures end the session as capture
/// failures.
pub fn encoding_failure(message: String, write_result: Result<(), String>) -> (res: HostSessionError)
    ensures
        res.reason == HostSessionEndReason::CaptureFailed,
        res.message@ == with_write_failure_text(message@, write_result),
{
    let message = append_error_response_write_failure(message, write_result);
    HostSessionError { reason: HostSessionEndReason::CaptureFailed, message }
}

/// The message sent to the client when encoding fails: what failed, then
/// the media error.
pub fn encoding_failure_message(failure_prefix: &str, error: &MediaError) -> (res: String)
    ensures
        res@ == failure_prefix@ + ": "@ + media_error_zh_text(*error),
{
    let detail = media_error_message(error);
    concat3(failure_prefix, ": ", detail.as_str())
}

/// The failure to start a session (window lookup or capture start), after
/// its error was (or failed to be) reported to the client.
pub fn session_startup_failure(message: String, write_result: Result<(), String>) -> (res:
    HostSessionError)
    ensures
        res.reason == HostSessionEndReason::CaptureFailed,
        res.message@ == with_write_failure_text(message@, write_result),
{
    encoding_failure(message, write_result)
}

/// The failure of reading a capture frame after the first.
pub fn capture_read_failure(error: &str) -> (res: HostSessionError)
    ensures
        res.reason == HostSessionEndReason::CaptureFailed,
        res.message@ == "读取后续 H.264 捕获帧失败: "@ + error@,
{
    HostSessionError { reason: HostSessionEndReason::CaptureFailed, message: concat2("读取后续 H.264 捕获帧失败: ", error) }
}

/// How the input reader thread finished.
#[derive(Debug, Clone, PartialEq, Eq)]
pub enum InputReaderEvent {
    StopSession,
    Disconnected,
    Failed(String),
}

/// What polling the input reader's channel gave.
#[derive(Debug, Clone, PartialEq, Eq)]
pub enum InputReaderPoll {
    /// The reader finished with this event.
    Event(InputReaderEvent),
    /// The reader is still running.
    Empty,
    /// The reader is gone without a word.
    Disconnected,
}

/// What the stream makes of the input reader: a stop request ends the
/// session as stopped, a disconnect (reported or not) as disconnected, a
/// failure fails the session, and a running reader changes nothing.
pub fn check_input_reader_events(poll: InputReaderPoll) -> (res: Result<
    Option<HostSessionEndReason>,
    HostSessionError,
>)
    ensures
        match poll {
            InputReaderPoll::Event(InputReaderEvent::StopSession) => res == Ok::<
                Option<HostSessionEndReason>,
                HostSessionError,
            >(Some(HostSessionEndReason::StopSession)),
            InputReaderPoll::Event(InputReaderEvent::Disconnected) => res == Ok::<
                Option<HostSessionEndReason>,
                HostSessionError,
            >(Some(HostSessionEndReason::ClientDisconnected)),
            InputReaderPoll::Disconnected => res == Ok::<
                Option<HostSessionEndReason>,
                HostSessionError,
            >(Some(HostSessionEndReason::ClientDisconnected)),
            InputReaderPoll::Event(InputReaderEvent::Failed(m)) => res matches Err(e) && e.reason
                == HostSessionEndReason::InputFailed && e.message == m,
            InputReaderPoll::Empty => res == Ok::<Option<HostSessionEndReason>, HostSessionError>(
                None,
            ),
        },
{
    match poll {
        InputReaderPoll::Event(InputReaderEvent::StopSession) => Ok(
            Some(HostSessionEndReason::StopSession),
        ),
        InputReaderPoll::Event(InputReaderEvent::Disconnected) | InputReaderPoll::Disconnected => Ok(
            Some(HostSessionEndReason::ClientDisconnected),
        ),
        InputReaderPoll::Event(InputReaderEvent::Failed(m)) => Err(
            HostSessionError { reason: HostSessionEndReason::InputFailed, message: m },
        ),
        InputReaderPoll::Empty => Ok(None),
    }
}

/// What the stream does next, once a frame was sent or none was ready.
#[derive(Debug, Clone, PartialEq, Eq)]
pub enum StreamStep {
    /// Say goodbye to the client and end with this reason.
    Goodbye(HostSessionEndReason),
    /// End with this failure.
    Fail(HostSessionError),
    /// Ask the session gate whether the desktop is still available.
    CheckGate,
}

/// The decision after the input reader was polled: its outcome ends the
/// stream if it has one; otherwise a capture that went inactive ends it;
/// otherwise the session gate decides.
pub fn next_stream_step(
    input: Result<Option<HostSessionEndReason>, HostSessionError>,
    capture_active: bool,
) -> (res: StreamStep)
    ensures
        match input {
            Err(e) => res == StreamStep::Fail(e),
            Ok(Some(reason)) => res == StreamStep::Goodbye(reason),
            Ok(None) => if capture_active {
                res == StreamStep::CheckGate
            } else {
                res == StreamStep::Goodbye(HostSessionEndReason::CaptureInactive)
            },
        },
{
    match input {
        Err(e) => StreamStep::Fail(e),
        Ok(Some(reason)) => StreamStep::Goodbye(reason),
        Ok(None) => {
            if capture_active {
                StreamStep::CheckGate
            } else {
                StreamStep::Goodbye(HostSessionEndReason::CaptureInactive)
            }
        },
    }
}

/// The error to send for a remote session status: a rejection goes to the
/// client with its code and message and ends the session as unavailable;
/// an allowed session goes on.
pub fn session_gate_rejection(status: RemoteSessionStatus) -> (res: Option<(ErrorCode, &'static str)>)
    ensures
        match status {
            RemoteSessionStatus::Allowed => res is None,
            RemoteSessionStatus::Rejected { code, message } => res == Some(
                (protocol_error_code_of(code), message),
            ),
        },
{
    status.to_protocol_error()
}

/// How to finish the input reader thread: join it after a stop request it
/// reported itself, stop it first otherwise.
#[derive(Debug, Clone, Copy, PartialEq, Eq, Structural)]
pub enum InputReaderCleanup {
    Join,
    StopAndJoin,
}

/// How to finish the input reader after the stream ended with `result`.
pub fn input_reader_cleanup(result: &Result<HostSessionEndReason, HostSessionError>) -> (res:
    InputReaderCleanup)
    ensures
        res == if result matches Ok(r) && r == HostSessionEndReason::StopSession {
            InputReaderCleanup::Join
        } else {
            InputReaderCleanup::StopAndJoin
        },
{
    match result {
        Ok(HostSessionEndReason::StopSession) => InputReaderCleanup::Join,
        _ => InputReaderCleanup::StopAndJoin,
    }
}

/// The failure of an input reader thread that ended abnormally.
pub fn input_reader_join_failure() -> (res: HostSessionError)
    ensures
        res.reason == HostSessionEndReason::InputFailed,
        res.message@ == "输入事件读取线程异常结束"@,
{
    HostSessionError::new(HostSessionEndReason::InputFailed, "输入事件读取线程异常结束")
}

/// The stream's outcome once the input reader was finished: the stream's
/// failure first, then the reader's, then the stream's reason.
pub fn finish_stream(
    result: Result<HostSessionEndReason, HostSessionError>,
    cleanup: Result<(), HostSessionError>,
) -> (res: Result<HostSessionEndReason, HostSessionError>)
    ensures
        res == match (result, cleanup) {
            (Err(e), _) => Err(e),
            (Ok(_), Err(e)) => Err(e),
            (Ok(r), Ok(())) => Ok::<HostSessionEndReason, HostSessionError>(r),
        },
{
    match result {
        Err(e) => Err(e),
        Ok(reason) => match cleanup {
            Err(e) => Err(e),
            Ok(()) => Ok(reason),
        },
    }
}

/// The outcome of a control connection once the program was cleaned up: both
/// failures are reported when both happened.
pub fn combine_session_and_cleanup(
    session: Result<HostSessionEndReason, HostSessionError>,
    cleanup: Result<(), String>,
) -> (res: Result<(), String>)
    ensures
        match (session, cleanup) {
            (Ok(_), Ok(())) => res is Ok,
            (Err(e), Ok(())) => res matches Err(m) && m == e.message,
            (Ok(_), Err(c)) => res matches Err(m) && m == c,
            (Err(e), Err(c)) => res matches Err(m) && m@ == e.message@ + "；"@ + c@,
        },
{
    match (session, cleanup) {
        (Ok(_), Ok(())) => Ok(()),
        (Err(e), Ok(())) => Err(e.message),
        (Ok(_), Err(c)) => Err(c),
        (Err(e), Err(c)) => {
            let mut res = e.message;
            res.append("；");
            res.append(c.as_str());
            Err(res)
        },
    }
}

/// What one read from the client's control connection gave the input reader.
#[derive(Debug, Clone, PartialEq, Eq)]
pub enum InputReadOutcome {
    InputEvent,
    Heartbeat,
    StopSession,
    Goodbye,
    /// Another message, by its debug rendering.
    OtherMessage(String),
    /// The read timed out for now.
    TemporaryTimeout,
    /// The connection is closed.
    StreamClosed,
    /// The read failed otherwise, with the error's description.
    ReadFailed(String),
}

/// What the input reader does after a read.
#[derive(Debug, Clone, PartialEq, Eq)]
pub enum InputReaderStep {
    /// Hand the input event to the sink, then read on with the timeout
    /// count back at zero.
    Deliver,
    /// Read on, with this many timeouts in a row so far.
    ReadOn { consecutive_timeouts: u32 },
    /// Stop with this event.
    Finish(InputReaderEvent),
}

/// The input reader's decision after a read: events are delivered (after
/// which the reader counts timeouts from zero again, as `Deliver` says) and
/// heartbeats read on with the count at zero; a stop or goodbye ends
/// the reader as stopped; too many timeouts in a row or a closed connection
/// as disconnected; anything else as failed.
pub fn next_input_reader_step(read: InputReadOutcome, consecutive_timeouts: u32, timeout_limit: u32) -> (res:
    InputReaderStep)
    ensures
        match read {
            InputReadOutcome::InputEvent => res == InputReaderStep::Deliver,
            InputReadOutcome::Heartbeat => res == InputReaderStep::ReadOn { consecutive_timeouts: 0 },
            InputReadOutcome::StopSession => res == InputReaderStep::Finish(
                InputReaderEvent::StopSession,
            ),
            InputReadOutcome::Goodbye => res == InputReaderStep::Finish(InputReaderEvent::StopSession),
            InputReadOutcome::OtherMessage(d) => res matches InputReaderStep::Finish(
                InputReaderEvent::Failed(m),
            ) && m@ == "客户端输入事件消息无效: "@ + d@,
            InputReadOutcome::TemporaryTimeout => if consecutive_timeouts + 1 >= timeout_limit {
                res == InputReaderStep::Finish(InputReaderEvent::Disconnected)
            } else {
                res == InputReaderStep::ReadOn { consecutive_timeouts: (consecutive_timeouts + 1) as u32 }
            },
            InputReadOutcome::StreamClosed => res == InputReaderStep::Finish(
                InputReaderEvent::Disconnected,
            ),
            InputReadOutcome::ReadFailed(e) => res matches InputReaderStep::Finish(
                InputReaderEvent::Failed(m),
            ) && m@ == "读取客户端输入事件失败: "@ + e@,
        },
{
    match read {
        InputReadOutcome::InputEvent => InputReaderStep::Deliver,
        InputReadOutcome::Heartbeat => InputReaderStep::ReadOn { consecutive_timeouts: 0 },
        InputReadOutcome::StopSession | InputReadOutcome::Goodbye => InputReaderStep::Finish(
            InputReaderEvent::StopSession,
        ),
        InputReadOutcome::OtherMessage(d) => InputReaderStep::Finish(
            InputReaderEvent::Failed(concat2("客户端输入事件消息无效: ", d.as_str())),
        ),
        InputReadOutcome::TemporaryTimeout => {
            if consecutive_timeouts >= timeout_limit || timeout_limit - consecutive_timeouts <= 1 {
                InputReaderStep::Finish(InputReaderEvent::Disconnected)
            } else {
                InputReaderStep::ReadOn { consecutive_timeouts: consecutive_timeouts + 1 }
            }
        },
        InputReadOutcome::StreamClosed => InputReaderStep::Finish(InputReaderEvent::Disconnected),
        InputReadOutcome::ReadFailed(e) => InputReaderStep::Finish(
            InputReaderEvent::Failed(concat2("读取客户端输入事件失败: ", e.as_str())),
        ),
    }
}

/// Before each read the input reader checks whether the stream asked it to
/// stop (the stream ended on its own side): if so it finishes as
/// disconnected without reading again.
pub fn input_reader_stop_check(stop_requested: bool) -> (res: Option<InputReaderEvent>)
    ensures
        stop_requested ==> res == Some(InputReaderEvent::Disconnected),
        !stop_requested ==> res is None,
{
    if stop_requested {
        Some(InputReaderEvent::Disconnected)
    } else {
        None
    }
}

/// The input reader's failure when the sink refused an event.
pub fn input_sink_failure(error: &str) -> (res: InputReaderEvent)
    ensures
        res matches InputReaderEvent::Failed(m) && m@ == "处理客户端输入事件失败: "@ + error@,
{
    InputReaderEvent::Failed(concat2("处理客户端输入事件失败: ", error))
}

/// The desktop state of a foreground host whose probe failed: a logged-in
/// unlocked desktop for development, or no user at all.
pub open spec fn state_after_detection_failure(fallback_to_development: bool) -> SessionModel {
    if fallback_to_development {
        SessionModel { desktop: DesktopPhase::Unlocked, agent_running: false }
    } else {
        SessionModel { desktop: DesktopPhase::NoUserLoggedIn, agent_running: false }
    }
}

/// The state a foreground host starts from: the probe's result when it
/// worked, the failure policy's state otherwise, and the agent (the host
/// itself) running.
pub open spec fn foreground_start_state(
    detected: Result<DetectedDesktopSession, String>,
    fallback_to_development: bool,
) -> SessionModel {
    match detected {
        Ok(d) => after_detection(
            SessionModel { desktop: DesktopPhase::NoUserLoggedIn, agent_running: false },
            d,
        ),
        Err(_) => state_after_detection_failure(fallback_to_development),
    }.after(SessionEvent::AgentStarted)
}

/// The machine of a logged-in, unlocked desktop without a running agent.
fn development_session_machine() -> (res: SessionStateMachine)
    ensures
        res@ == (SessionModel { desktop: DesktopPhase::Unlocked, agent_running: false }),
{
    let mut machine = SessionStateMachine::new();
    machine.apply(SessionEvent::UserLoggedIn);
    machine
}

/// A logged-in, unlocked desktop, for development hosts without a probe.
pub fn foreground_development_session_state() -> (res: SharedSessionState)
    ensures
        res.initial() == (SessionModel { desktop: DesktopPhase::Unlocked, agent_running: false }),
{
    SharedSessionState::from_machine(development_session_machine())
}

/// The machine after a failed probe under the failure policy.
fn machine_after_detection_failure(fallback_to_development: bool) -> (res: SessionStateMachine)
    ensures
        res@ == state_after_detection_failure(fallback_to_development),
{
    if fallback_to_development {
        development_session_machine()
    } else {
        SessionStateMachine::new()
    }
}

/// The state after a failed probe under the failure policy.
pub fn foreground_session_state_after_detection_failure(fallback_to_development: bool) -> (res:
    SharedSessionState)
    ensures
        res.initial() == state_after_detection_failure(fallback_to_development),
{
    SharedSessionState::from_machine(machine_after_detection_failure(fallback_to_development))
}

/// Whether a failed probe falls back to the development state: only off
/// Windows, where no probe exists.
pub fn foreground_detection_failure_should_fallback_to_development(is_windows: bool) -> (res: bool)
    ensures
        res == !is_windows,
{
    !is_windows
}

/// The machine a foreground host starts from, under the given failure
/// policy: the probe result (or the failure policy) with the agent running.
pub fn foreground_start_machine(
    detected: Result<DetectedDesktopSession, String>,
    fallback_to_development: bool,
) -> (res: SessionStateMachine)
    ensures
        res@ == foreground_start_state(detected, fallback_to_development),
{
    let mut machine = match detected {
        Ok(d) => {
            let mut machine = SessionStateMachine::new();
            apply_detected_desktop_session(&mut machine, d);
            machine
        },
        Err(_) => machine_after_detection_failure(fallback_to_development),
    };
    machine.apply(SessionEvent::AgentStarted);
    machine
}

/// The state a foreground host starts from, under the given failure policy.
pub fn foreground_run_session_state_from_detection_with_failure_policy(
    detected: Result<DetectedDesktopSession, String>,
    fallback_to_development: bool,
) -> (res: SharedSessionState)
    ensures
        res.initial() == foreground_start_state(detected, fallback_to_development),
{
    SharedSessionState::from_machine(foreground_start_machine(detected, fallback_to_development))
}

/// The state a foreground host starts from when a failed probe is rejected.
pub fn foreground_run_session_state_from_detection(detected: Result<DetectedDesktopSession, String>) -> (res:
    SharedSessionState)
    ensures
        res.initial() == foreground_start_state(detected, false),
{
    foreground_run_session_state_from_detection_with_failure_policy(detected, false)
}

/// A failed probe without the development fallback leaves a foreground host
/// rejecting remote sessions as having no user.
pub proof fn lemma_failed_probe_is_conservative(error: String)
    ensures
        foreground_start_state(Err(error), false).desktop == DesktopPhase::NoUserLoggedIn,
        foreground_start_state(Err(error), false).agent_running,
{
}

/// Decides whether a remote session may start; a rejection carries the
/// code and message to report to the client.
pub trait SessionGate {
    fn remote_session_status(&mut self) -> RemoteSessionStatus;
}

/// A gate that answers from a shared session state, which the desktop
/// detector and the agent supervisor update through their own handles.
pub struct SharedSessionGate {
    state: SharedSessionState,
}

impl SharedSessionGate {
    /// A gate over `state`.
    pub fn new(state: SharedSessionState) -> (res: Self)
        ensures
            res.state() == state,
    {
        SharedSessionGate { state }
    }

    /// The session state this gate reads.
    pub closed spec fn state(&self) -> SharedSessionState {
        self.state
    }
}

impl SessionGate for SharedSessionGate {
    /// The status of the shared machine as it stands now.
    fn remote_session_status(&mut self) -> (res: RemoteSessionStatus)
        ensures
            final(self).state() == old(self).state(),
            exists|m: SessionModel| #[trigger] m.status() == res,
    {
        self.state.remote_session_status()
    }
}

/// The state a polling gate keeps after a probe: a probe result applied to
/// it, or the state unchanged when the probe failed.
pub open spec fn gate_state_after(
    state: SessionModel,
    detected: Result<DetectedDesktopSession, DesktopSessionError>,
) -> SessionModel {
    match detected {
        Ok(d) => after_detection(state, d),
        Err(_) => state,
    }
}

/// The status a polling gate reports after a probe: the status of the
/// updated state; after a failed probe, the state's status under the
/// development fallback and a no-user rejection otherwise.
pub open spec fn gate_status_after(
    state: SessionModel,
    detected: Result<DetectedDesktopSession, DesktopSessionError>,
    fallback_to_development: bool,
) -> RemoteSessionStatus {
    match detected {
        Ok(d) => after_detection(state, d).status(),
        Err(_) => if fallback_to_development {
            state.status()
        } else {
            RemoteSessionStatus::Rejected {
                code: crate::session_state::ClientSessionErrorCode::NoUserLoggedIn,
                message: "当前没有 Windows 用户登录，无法启动远程会话。",
            }
        },
    }
}

/// The status a polling gate reports for a probe result: a probe applies
/// to the machine before the status is read; a failed probe is ignored under
/// the development fallback and rejects as no user otherwise.
pub fn gate_status_after_detection(
    machine: &mut SessionStateMachine,
    detected: Result<DetectedDesktopSession, DesktopSessionError>,
    fallback_to_development: bool,
) -> (res: RemoteSessionStatus)
    ensures
        final(machine)@ == gate_state_after(old(machine)@, detected),
        res == gate_status_after(old(machine)@, detected, fallback_to_development),
{
    match detected {
        Ok(d) => {
            apply_detected_desktop_session(machine, d);
        },
        Err(_) => {
            if !fallback_to_development {
                return RemoteSessionStatus::Rejected {
                    code: crate::session_state::ClientSessionErrorCode::NoUserLoggedIn,
                    message: "当前没有 Windows 用户登录，无法启动远程会话。",
                };
            }
        },
    }
    machine.remote_session_status()
}

impl SharedSessionState {
    /// Applies a probe result to the shared machine and reads the status
    /// that follows, both under one write lock; a failed probe without the
    /// development fallback is answered without touching the lock.
    pub fn status_after_detection(
        &self,
        detected: Result<DetectedDesktopSession, DesktopSessionError>,
        fallback_to_development: bool,
    ) -> (res: RemoteSessionStatus)
        ensures
            exists|before: SessionModel| #[trigger]
                gate_status_after(before, detected, fallback_to_development) == res,
    {
        if detected.is_err() && !fallback_to_development {
            let res = RemoteSessionStatus::Rejected {
                code: crate::session_state::ClientSessionErrorCode::NoUserLoggedIn,
                message: "当前没有 Windows 用户登录，无法启动远程会话。",
            };
            assert(gate_status_after(
                SessionModel { desktop: DesktopPhase::NoUserLoggedIn, agent_running: false },
                detected,
                fallback_to_development,
            ) == res);
            return res;
        }
        let (mut machine, handle) = self.inner.acquire_write();
        let ghost before = machine@;
        let res = gate_status_after_detection(&mut machine, detected, fallback_to_development);
        handle.release_write(machine);
        assert(gate_status_after(before, detected, fallback_to_development) == res);
        res
    }
}

/// A gate that probes the desktop each time it is asked.
pub struct PollingSessionGate<D: DesktopSessionDetector> {
    pub state: SharedSessionState,
    pub detector: D,
    pub fallback_to_development: bool,
}

impl<D: DesktopSessionDetector> PollingSessionGate<D> {
    /// A gate over `state` that probes with `detector`.
    pub fn new(state: SharedSessionState, detector: D, fallback_to_development: bool) -> (res: Self)
        ensures
            res.state == state,
            res.detector == detector,
            res.fallback_to_development == fallback_to_development,
    {
        PollingSessionGate { state, detector, fallback_to_development }
    }
}

impl<D: DesktopSessionDetector> SessionGate for PollingSessionGate<D> {
    /// Probes the desktop, applies the result to the shared machine, and
    /// reports the status that follows; the machine it applied the probe to
    /// is the one the lock held at that moment.
    fn remote_session_status(&mut self) -> (res: RemoteSessionStatus)
        ensures
            final(self).state == old(self).state,
            final(self).detector == old(self).detector,
            final(self).fallback_to_development == old(self).fallback_to_development,
            exists|detected: Result<DetectedDesktopSession, DesktopSessionError>|
                #[trigger] old(self).detector.detect_outcome(detected) && exists|before: SessionModel|
                    #[trigger] gate_status_after(before, detected, old(self).fallback_to_development)
                    == res,
    {
        let detected = self.detector.detect_desktop_session();
        let res = self.state.status_after_detection(detected, self.fallback_to_development);
        assert(old(self).detector.detect_outcome(detected));
        res
    }
}

/// Whether the listener stops taking connections: once it has taken as many
/// as it was allowed, when it was given a limit.
pub fn listener_should_stop(max_connections: Option<usize>, accepted: usize) -> (res: bool)
    ensures
        res == (max_connections matches Some(m) && accepted >= m),
{
    match max_connections {
        Some(m) => accepted >= m,
        None => false,
    }
}

/// What the listener does with a new connection.
#[derive(Debug, Clone, Copy, PartialEq, Eq, Structural)]
pub enum ConnectionAdmission {
    /// Start a session for it.
    StartSession,
    /// Tell the client the host is busy.
    RejectBusy,
}

/// The admission of a new connection: a session when none is running, a
/// busy refusal otherwise.
pub open spec fn admission_of(session_running: bool) -> ConnectionAdmission {
    if session_running {
        ConnectionAdmission::RejectBusy
    } else {
        ConnectionAdmission::StartSession
    }
}

/// A new connection gets a session when no session is running (after the
/// running one was given a short grace to finish), and is refused as busy
/// otherwise: at most one session runs at a time.
pub fn admit_connection(session_running: bool) -> (res: ConnectionAdmission)
    ensures
        res == admission_of(session_running),
{
    if session_running {
        ConnectionAdmission::RejectBusy
    } else {
        ConnectionAdmission::StartSession
    }
}

/// What happens at the listener: a client connects, or the running session
/// ends.
#[derive(Debug, Clone, Copy, PartialEq, Eq, Structural)]
pub enum ListenerEvent {
    Connect,
    SessionEnded,
}

/// Whether a session runs after `event`: a connection admitted to a session
/// starts one, a refused connection changes nothing, and the end of the
/// session leaves none running.
pub open spec fn running_after(session_running: bool, event: ListenerEvent) -> bool {
    match event {
        ListenerEvent::Connect => session_running || admission_of(session_running)
            == ConnectionAdmission::StartSession,
        ListenerEvent::SessionEnded => false,
    }
}

/// Whether a session runs after each of `events` in turn, from `session_running`.
pub open spec fn running_after_all(session_running: bool, events: Seq<ListenerEvent>) -> bool
    decreases events.len(),
{
    if events.len() == 0 {
        session_running
    } else {
        running_after(running_after_all(session_running, events.drop_last()), events.last())
    }
}

/// Once a session runs it keeps running until an end event.
proof fn lemma_running_until_end(events: Seq<ListenerEvent>, i: int, j: int)
    requires
        0 <= i <= j <= events.len(),
        running_after_all(false, events.take(i)),
        forall|k: int| i <= k < j ==> events[k] != ListenerEvent::SessionEnded,
    ensures
        running_after_all(false, events.take(j)),
    decreases j - i,
{
    if i < j {
        lemma_running_until_end(events, i, j - 1);
        assert(events.take(j).drop_last() =~= events.take(j - 1));
    }
}

/// At most one session runs at a time: between two connections that both
/// start a session, the first session has ended; and after a session ends
/// the next connection is served.
pub proof fn lemma_sessions_do_not_overlap(events: Seq<ListenerEvent>, i: int, j: int)
    requires
        0 <= i < j < events.len(),
        events[i] == ListenerEvent::Connect,
        events[j] == ListenerEvent::Connect,
        admission_of(running_after_all(false, events.take(i))) == ConnectionAdmission::StartSession,
        admission_of(running_after_all(false, events.take(j))) == ConnectionAdmission::StartSession,
    ensures
        exists|k: int| i < k < j && #[trigger] events[k] == ListenerEvent::SessionEnded,
{
    assert(events.take(i + 1).drop_last() =~= events.take(i));
    if forall|k: int| i + 1 <= k < j ==> events[k] != ListenerEvent::SessionEnded {
        lemma_running_until_end(events, i + 1, j);
    }
}

/// After the running session ends, the next connection starts a session.
pub proof fn lemma_next_client_served_after_end(session_running: bool)
    ensures
        admission_of(running_after(session_running, ListenerEvent::SessionEnded))
            == ConnectionAdmission::StartSession,
{
}

/// The host's startup message: the listen address, the program, and what
/// the runtime supports so far.
pub fn runtime_not_implemented_message(listen: &str, program: &str) -> (res: String)
    ensures
        res@ == "宿主端配置有效，监听 "@ + listen@ + "，程序 "@ + program@ + "。"@
            + runtime_not_implemented_detail_text(),
{
    let mut res = concat3("宿主端配置有效，监听 ", listen, "，程序 ");
    res.append(program);
    res.append("。");
    res.append(runtime_not_implemented_detail());
    res
}

/// What the runtime supports so far.
pub open spec fn runtime_not_implemented_detail_text() -> Seq<char> {
    "raw BGRA 画面链路已接入，H.264/WebRTC 编码传输尚未接入。"@
}

/// What the runtime supports so far.
pub fn runtime_not_implemented_detail() -> (res: &'static str)
    ensures
        res@ == runtime_not_implemented_detail_text(),
{
    "raw BGRA 画面链路已接入，H.264/WebRTC 编码传输尚未接入。"
}

/// The message after the runtime returned: the startup message, then the
/// address actually listened on.
pub fn run_host_message(startup_message: &str, local_addr: &str) -> (res: String)
    ensures
        res@ == startup_message@ + " 控制通道已进入持续监听，实际监听 "@ + local_addr@ + "。"@,
{
    let mut res = concat3(startup_message, " 控制通道已进入持续监听，实际监听 ", local_addr);
    res.append("。");
    res
}

/// The summary of a valid host configuration.
pub fn host_config_summary_message(listen: &str, program: &str, video: &HostVideoSettings) -> (res:
    String)
    ensures
        res@ == "宿主端配置有效，监听 "@ + listen@ + "，程序 "@ + program@ + "，视频 "@ + size_text(
            video.width,
            video.height,
        ) + "@"@ + decimal(video.fps as nat) + "fps"@,
{
    let size = size_string(video.width, video.height);
    let fps = decimal_string(video.fps as u64);
    let mut res = concat3("宿主端配置有效，监听 ", listen, "，程序 ");
    res.append(program);
    res.append("，视频 ");
    res.append(size.as_str());
    res.append("@");
    res.append(fps.as_str());
    res.append("fps");
    res
}

/// What the host's runtime does once started.
pub open spec fn runtime_status_detail_text() -> Seq<char> {
    "收到客户端会话请求后会直接启动配置程序，并通过 H.264 编码链路传输画面。"@
}

/// What the host's runtime does once started.
pub fn runtime_status_detail() -> (res: &'static str)
    ensures
        res@ == runtime_status_detail_text(),
{
    "收到客户端会话请求后会直接启动配置程序，并通过 H.264 编码链路传输画面。"
}

/// The message of a started host: the listen address, the program, and
/// what happens on a client's request.
pub fn runtime_status_message(listen: &str, program: &str) -> (res: String)
    ensures
        res@ == "宿主端已启动，监听 "@ + listen@ + "，程序 "@ + program@ + "。"@
            + runtime_status_detail_text(),
{
    let mut res = concat3("宿主端已启动，监听 ", listen, "，程序 ");
    res.append(program);
    res.append("。");
    res.append(runtime_status_detail());
    res
}

/// What to capture in a capture mode: the whole desktop, or the located
/// window with its size and (non-empty) title.
pub fn capture_target(mode: CaptureMode, window: &WindowCandidate) -> (res: CaptureTarget)
    requires
        window.rect.well_sized(),
    ensures
        mode == CaptureMode::Desktop ==> res == CaptureTarget::Desktop,
        mode == CaptureMode::Window ==> (res matches CaptureTarget::Window {
            handle,
            width,
            height,
            title,
        } && handle == window.handle as u64 && width == window.rect.spec_width() as u32 && height
            == window.rect.spec_height() as u32 && match title {
            Some(t) => window.title@.len() > 0 && t@ == window.title@,
            None => window.title@.len() == 0,
        }),
{
    match mode {
        CaptureMode::Desktop => CaptureTarget::Desktop,
        CaptureMode::Window => {
            let title = if window.title.as_str().unicode_len() == 0 {
                None
            } else {
                Some(window.title.clone())
            };
            CaptureTarget::Window {
                handle: window.handle as u64,
                width: window.rect.width() as u32,
                height: window.rect.height() as u32,
                title,
            }
        },
    }
}

/// What to do after one attempt to find the launched program's window.
pub enum WindowLookupStep {
    Found(WindowCandidate),
    GiveUp(WindowLookupError),
    Retry,
}

/// The decision after one window lookup: a window ends the search; a failure
/// ends it once the start-up deadline has passed, and is retried otherwise.
pub fn next_window_lookup_step(attempt: Result<WindowCandidate, WindowLookupError>, deadline_reached: bool) -> (res:
    WindowLookupStep)
    ensures
        match attempt {
            Ok(w) => res matches WindowLookupStep::Found(got) && got == w,
            Err(e) => if deadline_reached {
                res matches WindowLookupStep::GiveUp(got) && got == e
            } else {
                res is Retry
            },
        },
{
    match attempt {
        Ok(w) => WindowLookupStep::Found(w),
        Err(e) => {
            if deadline_reached {
                WindowLookupStep::GiveUp(e)
            } else {
                WindowLookupStep::Retry
            }
        },
    }
}

} // verus!
