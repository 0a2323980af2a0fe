use wincast::capture::CaptureTarget;
use wincast::host_session::{capture_target, next_window_lookup_step, WindowLookupStep};
use wincast::window::{WindowCandidate, WindowLookupError};
use wincast::capture::{CapturedBgraFrame, CapturedFrame, CapturedTextureMetadata, FramePixelFormat};
use wincast::host_session::{
    admit_connection, append_error_response_write_failure, capture_input_bounds,
    check_input_reader_events, combine_session_and_cleanup, encoding_failure_message,
    finish_stream, foreground_detection_failure_should_fallback_to_development,
    foreground_run_session_state_from_detection, foreground_start_machine,
    foreground_run_session_state_from_detection_with_failure_policy, gate_status_after_detection,
    h264_pipeline_config, host_config_summary_message, input_reader_cleanup, listener_should_stop,
    media_error_message, next_input_reader_step, next_stream_step, raw_video_frame_error_message,
    raw_video_frame_from_capture, run_host_message, runtime_not_implemented_message,
    screen_input_bounds, session_gate_rejection, ConnectionAdmission, HostSessionEndReason,
    HostSessionError, HostVideoSettings, InputReadOutcome, InputReaderCleanup, InputReaderEvent,
    InputReaderPoll, InputReaderStep, PollingSessionGate, SessionGate, SharedSessionGate, StreamStep,
};
use wincast::input::CaptureInputBounds;
use wincast::media::{MediaConfigError, MediaError, RawPixelFormat, RawVideoFrameError, VideoLatencyMode};
use wincast::protocol::{CaptureMode, ErrorCode, SessionEndReason, VideoCodec};
use wincast::session_events::{
    DesktopSessionDetector, DesktopSessionError, DetectedDesktopSession,
    PlatformDesktopSessionDetector,
};
use wincast::session_state::{
    ClientSessionErrorCode, RemoteSessionStatus, SessionEvent, SharedSessionState,
};
use wincast::window::WindowRect;

fn captured_bgra_frame_with_dimensions(width: u32, height: u32) -> CapturedBgraFrame {
    CapturedBgraFrame {
        metadata: CapturedTextureMetadata {
            frame: CapturedFrame {
                width,
                height,
                stride_bytes: width * 4,
                pixel_format: FramePixelFormat::Bgra8Unorm,
                sequence_number: 0,
                timestamp_ns: 0,
            },
            texture_width: width,
            texture_height: height,
            mip_levels: 1,
            array_size: 1,
            sample_count: 1,
        },
        row_pitch: width * 4,
        bytes: vec![0; (width * 4 * height) as usize],
    }
}

#[test]
fn screen_input_bounds_use_capture_frame_dimensions() {
    let frame = captured_bgra_frame_with_dimensions(1920, 1080);

    let bounds = screen_input_bounds(&frame);

    assert_eq!(bounds, CaptureInputBounds::from_capture_size(0, 0, 1920, 1080));
    assert_eq!((bounds.origin_x, bounds.origin_y, bounds.width, bounds.height), (0, 0, 1920, 1080));
}

#[test]
fn capture_input_bounds_keep_window_origin_for_window_capture() {
    let window = WindowRect {
        left: 50,
        top: 75,
        right: 1330,
        bottom: 795,
    };
    let frame = captured_bgra_frame_with_dimensions(1280, 720);

    let bounds = capture_input_bounds(CaptureMode::Window, window, &frame);

    assert_eq!(bounds, CaptureInputBounds::from_capture_size(50, 75, 1280, 720));
}

#[test]
fn capture_input_bounds_use_frame_size_for_desktop_capture() {
    let window = WindowRect {
        left: 50,
        top: 75,
        right: 1330,
        bottom: 795,
    };
    let frame = captured_bgra_frame_with_dimensions(1280, 720);

    let bounds = capture_input_bounds(CaptureMode::Desktop, window, &frame);

    assert_eq!(bounds, CaptureInputBounds::from_capture_size(0, 0, 1280, 720));
}

#[test]
fn foreground_detection_failure_is_conservative_rejection_by_default() {
    let state = foreground_run_session_state_from_detection(Err("probe failed".into()));

    assert_eq!(
        state.remote_session_status(),
        RemoteSessionStatus::Rejected {
            code: ClientSessionErrorCode::NoUserLoggedIn,
            message: "当前没有 Windows 用户登录，无法启动远程会话。",
        }
    );
}

#[test]
fn explicit_development_fallback_keeps_detection_failure_allowed() {
    let state =
        foreground_run_session_state_from_detection_with_failure_policy(Err("probe failed".into()), true);

    assert_eq!(state.remote_session_status(), RemoteSessionStatus::Allowed);
}

#[test]
fn foreground_detection_uses_probe_result() {
    let state = foreground_run_session_state_from_detection(Ok(DetectedDesktopSession {
        user_logged_in: true,
        locked: true,
    }));
    assert_eq!(
        state.remote_session_status(),
        RemoteSessionStatus::Rejected {
            code: ClientSessionErrorCode::SessionLocked,
            message: "Windows 会话已锁定，请先解锁后再启动远程会话。",
        }
    );
    assert!(foreground_detection_failure_should_fallback_to_development(false));
    assert!(!foreground_detection_failure_should_fallback_to_development(true));
}

struct FixedDetector(Result<DetectedDesktopSession, DesktopSessionError>);

impl DesktopSessionDetector for FixedDetector {
    fn detect_desktop_session(&self) -> Result<DetectedDesktopSession, DesktopSessionError> {
        self.0
    }
}

#[test]
fn polling_gate_applies_each_probe_before_answering() {
    let state = SharedSessionState::new();
    state.apply(SessionEvent::AgentStarted);
    let mut gate = PollingSessionGate::new(
        state,
        FixedDetector(Ok(DetectedDesktopSession {
            user_logged_in: true,
            locked: false,
        })),
        false,
    );

    assert_eq!(gate.remote_session_status(), RemoteSessionStatus::Allowed);

    let mut failing = PollingSessionGate::new(SharedSessionState::new(), PlatformDesktopSessionDetector, false);
    assert_eq!(
        failing.remote_session_status(),
        RemoteSessionStatus::Rejected {
            code: ClientSessionErrorCode::NoUserLoggedIn,
            message: "当前没有 Windows 用户登录，无法启动远程会话。",
        }
    );

    let development = foreground_run_session_state_from_detection_with_failure_policy(Err("x".into()), true);
    assert_eq!(
        development.status_after_detection(Err(DesktopSessionError::UnsupportedPlatform), true),
        RemoteSessionStatus::Allowed
    );
    let mut machine = foreground_start_machine(Err("x".into()), true);
    assert_eq!(
        gate_status_after_detection(&mut machine, Err(DesktopSessionError::UnsupportedPlatform), true),
        RemoteSessionStatus::Allowed
    );
}

#[test]
fn shared_session_gate_reports_no_user_locked_and_agent_unavailable() {
    let shared_state = SharedSessionState::new();
    let mut gate = SharedSessionGate::new(shared_state.clone());

    assert_eq!(
        gate.remote_session_status(),
        RemoteSessionStatus::Rejected {
            code: ClientSessionErrorCode::NoUserLoggedIn,
            message: "当前没有 Windows 用户登录，无法启动远程会话。",
        }
    );

    shared_state.apply(SessionEvent::UserLoggedIn);
    assert_eq!(
        gate.remote_session_status(),
        RemoteSessionStatus::Rejected {
            code: ClientSessionErrorCode::AgentUnavailable,
            message: "宿主端 Agent 不可用，正在等待重新拉起。",
        }
    );

    shared_state.apply(SessionEvent::AgentStarted);
    shared_state.apply(SessionEvent::SessionLocked);
    assert_eq!(
        gate.remote_session_status(),
        RemoteSessionStatus::Rejected {
            code: ClientSessionErrorCode::SessionLocked,
            message: "Windows 会话已锁定，请先解锁后再启动远程会话。",
        }
    );
}

#[test]
fn shared_handles_see_each_others_events() {
    let first = SharedSessionState::new();
    let second = first.share();
    first.apply(SessionEvent::UserLoggedIn);
    second.apply(SessionEvent::AgentStarted);

    assert_eq!(first.remote_session_status(), RemoteSessionStatus::Allowed);
    assert_eq!(second.remote_session_status(), RemoteSessionStatus::Allowed);
    second.apply_detected_desktop_session(DetectedDesktopSession {
        user_logged_in: true,
        locked: true,
    });
    assert_eq!(
        first.remote_session_status(),
        RemoteSessionStatus::Rejected {
            code: ClientSessionErrorCode::SessionLocked,
            message: "Windows 会话已锁定，请先解锁后再启动远程会话。",
        }
    );
}

#[test]
fn session_end_reasons_map_to_service_reasons() {
    assert_eq!(
        HostSessionEndReason::StopSession.service_reason(),
        SessionEndReason::ServiceRequested
    );
    assert_eq!(
        HostSessionEndReason::ClientDisconnected.service_reason(),
        SessionEndReason::DesktopUnavailable
    );
    assert_eq!(
        HostSessionEndReason::TransportFailed.service_reason(),
        SessionEndReason::SessionFailed
    );
}

#[test]
fn error_response_write_failure_is_appended() {
    assert_eq!(
        append_error_response_write_failure("定位失败".to_owned(), Ok(())),
        "定位失败"
    );
    assert_eq!(
        append_error_response_write_failure(
            "定位失败".to_owned(),
            Err("写入控制错误消息失败: broken pipe".to_owned())
        ),
        "定位失败；写入控制错误消息失败: broken pipe"
    );
}

#[test]
fn media_errors_are_worded_in_chinese_for_the_client() {
    assert_eq!(
        raw_video_frame_error_message(&RawVideoFrameError::ConfigDimensionMismatch {
            frame_width: 640,
            frame_height: 360,
            config_width: 1280,
            config_height: 720
        }),
        "raw 视频尺寸 640x360 与配置尺寸 1280x720 不一致"
    );
    assert_eq!(
        media_error_message(&MediaError::InvalidRawFrame(RawVideoFrameError::EmptyPayload)),
        "raw 视频帧载荷为空"
    );
    assert_eq!(
        media_error_message(&MediaError::Config(MediaConfigError::InvalidFps { fps: 0, max_fps: 60 })),
        "视频帧率 0 无效，最大支持 60"
    );
    assert_eq!(
        encoding_failure_message(
            "H.264 首帧编码失败",
            &MediaError::InvalidRawFrame(RawVideoFrameError::RowPitchOverflow)
        ),
        "H.264 首帧编码失败: raw 视频帧行跨度溢出"
    );
}

#[test]
fn capture_frames_feed_the_encoder_unchanged() {
    let frame = captured_bgra_frame_with_dimensions(4, 2);
    let raw = raw_video_frame_from_capture(&frame);

    assert_eq!((raw.width, raw.height, raw.row_pitch), (4, 2, 16));
    assert_eq!(raw.format, RawPixelFormat::Bgra8Unorm);
    assert_eq!(raw.bytes.len(), 32);

    let config = h264_pipeline_config(&HostVideoSettings {
        width: 1280,
        height: 720,
        fps: 30,
        bitrate_kbps: 4000,
        max_bitrate_kbps: 8000,
    });
    assert_eq!(config.codec, VideoCodec::H264);
    assert_eq!(config.latency_mode, VideoLatencyMode::LowLatency);
    assert_eq!((config.width, config.height, config.fps), (1280, 720, 30));
}

#[test]
fn input_reader_outcomes_end_the_stream() {
    assert_eq!(
        check_input_reader_events(InputReaderPoll::Event(InputReaderEvent::StopSession)),
        Ok(Some(HostSessionEndReason::StopSession))
    );
    assert_eq!(
        check_input_reader_events(InputReaderPoll::Disconnected),
        Ok(Some(HostSessionEndReason::ClientDisconnected))
    );
    assert_eq!(check_input_reader_events(InputReaderPoll::Empty), Ok(None));
    assert_eq!(
        check_input_reader_events(InputReaderPoll::Event(InputReaderEvent::Failed("坏消息".to_owned()))),
        Err(HostSessionError::new(HostSessionEndReason::InputFailed, "坏消息"))
    );
}

#[test]
fn idle_stream_checks_input_then_capture_then_gate() {
    assert_eq!(
        next_stream_step(Ok(Some(HostSessionEndReason::StopSession)), false),
        StreamStep::Goodbye(HostSessionEndReason::StopSession)
    );
    assert_eq!(
        next_stream_step(Ok(None), false),
        StreamStep::Goodbye(HostSessionEndReason::CaptureInactive)
    );
    assert_eq!(next_stream_step(Ok(None), true), StreamStep::CheckGate);
    assert_eq!(
        session_gate_rejection(RemoteSessionStatus::Rejected {
            code: ClientSessionErrorCode::SessionLocked,
            message: "Windows 会话已锁定，请先解锁后再启动远程会话。"
        }),
        Some((ErrorCode::SessionLocked, "Windows 会话已锁定，请先解锁后再启动远程会话。"))
    );
    assert_eq!(session_gate_rejection(RemoteSessionStatus::Allowed), None);
}

#[test]
fn stream_outcome_combines_with_cleanup() {
    let stopped: Result<HostSessionEndReason, HostSessionError> = Ok(HostSessionEndReason::StopSession);
    assert_eq!(input_reader_cleanup(&stopped), InputReaderCleanup::Join);
    assert_eq!(
        input_reader_cleanup(&Ok(HostSessionEndReason::CaptureInactive)),
        InputReaderCleanup::StopAndJoin
    );
    let reader_failed = HostSessionError::new(HostSessionEndReason::InputFailed, "输入事件读取线程异常结束");
    assert_eq!(finish_stream(stopped.clone(), Err(reader_failed.clone())), Err(reader_failed));
    assert_eq!(finish_stream(stopped, Ok(())), Ok(HostSessionEndReason::StopSession));

    assert_eq!(
        combine_session_and_cleanup(
            Err(HostSessionError::new(HostSessionEndReason::CaptureFailed, "捕获失败")),
            Err("清理宿主端程序失败: busy".to_owned())
        ),
        Err("捕获失败；清理宿主端程序失败: busy".to_owned())
    );
    assert_eq!(
        combine_session_and_cleanup(Ok(HostSessionEndReason::StopSession), Ok(())),
        Ok(())
    );
}

#[test]
fn input_reader_counts_timeouts_up_to_the_limit() {
    assert_eq!(
        next_input_reader_step(InputReadOutcome::TemporaryTimeout, 0, 3),
        InputReaderStep::ReadOn { consecutive_timeouts: 1 }
    );
    assert_eq!(
        next_input_reader_step(InputReadOutcome::TemporaryTimeout, 2, 3),
        InputReaderStep::Finish(InputReaderEvent::Disconnected)
    );
    assert_eq!(
        next_input_reader_step(InputReadOutcome::Heartbeat, 2, 3),
        InputReaderStep::ReadOn { consecutive_timeouts: 0 }
    );
    assert_eq!(
        next_input_reader_step(InputReadOutcome::Goodbye, 0, 3),
        InputReaderStep::Finish(InputReaderEvent::StopSession)
    );
    assert_eq!(next_input_reader_step(InputReadOutcome::InputEvent, 1, 3), InputReaderStep::Deliver);
    assert_eq!(
        next_input_reader_step(InputReadOutcome::OtherMessage("SessionReady".to_owned()), 0, 3),
        InputReaderStep::Finish(InputReaderEvent::Failed(
            "客户端输入事件消息无效: SessionReady".to_owned()
        ))
    );
}

#[test]
fn listener_admits_one_session_at_a_time() {
    assert_eq!(admit_connection(false), ConnectionAdmission::StartSession);
    assert_eq!(admit_connection(true), ConnectionAdmission::RejectBusy);
    assert!(listener_should_stop(Some(2), 2));
    assert!(!listener_should_stop(Some(2), 1));
    assert!(!listener_should_stop(None, 100));
}

#[test]
fn runtime_message_reports_raw_bgra_ready_and_codec_transport_pending() {
    let message = runtime_not_implemented_message("0.0.0.0:7856", "C:\\Program Files\\SomeApp\\app.exe");

    assert!(!message.contains("运行时链路未实现"));
    assert!(message.contains("raw BGRA 画面链路已接入"));
    assert!(message.contains("H.264/WebRTC 编码传输尚未接入"));
}

#[test]
fn host_messages_name_addresses_and_video() {
    let startup = runtime_not_implemented_message("127.0.0.1:0", "C:\\Program Files\\SomeApp\\app.exe");
    assert_eq!(
        run_host_message(&startup, "127.0.0.1:49152"),
        "宿主端配置有效，监听 127.0.0.1:0，程序 C:\\Program Files\\SomeApp\\app.exe。raw BGRA 画面链路已接入，H.264/WebRTC 编码传输尚未接入。 控制通道已进入持续监听，实际监听 127.0.0.1:49152。"
    );
    assert_eq!(
        host_config_summary_message(
            "0.0.0.0:7856",
            "app.exe",
            &HostVideoSettings {
                width: 1280,
                height: 720,
                fps: 30,
                bitrate_kbps: 4000,
                max_bitrate_kbps: 8000
            }
        ),
        "宿主端配置有效，监听 0.0.0.0:7856，程序 app.exe，视频 1280x720@30fps"
    );
}

#[test]
fn capture_target_follows_capture_mode() {
    let window = WindowCandidate {
        handle: 100,
        process_id: 42,
        title: "Demo".to_owned(),
        visible: true,
        tool_window: false,
        rect: WindowRect {
            left: 10,
            top: 20,
            right: 1290,
            bottom: 740,
        },
        monitor_rect: WindowRect {
            left: 0,
            top: 0,
            right: 1920,
            bottom: 1080,
        },
    };

    assert_eq!(capture_target(CaptureMode::Desktop, &window), CaptureTarget::Desktop);
    assert_eq!(
        capture_target(CaptureMode::Window, &window),
        CaptureTarget::Window {
            handle: 100,
            width: 1280,
            height: 720,
            title: Some("Demo".to_owned()),
        }
    );
    let untitled = WindowCandidate {
        title: String::new(),
        ..window.duplicate()
    };
    assert!(matches!(
        capture_target(CaptureMode::Window, &untitled),
        CaptureTarget::Window { title: None, .. }
    ));

    assert!(matches!(
        next_window_lookup_step(Err(WindowLookupError::UnsupportedPlatform), false),
        WindowLookupStep::Retry
    ));
    assert!(matches!(
        next_window_lookup_step(Err(WindowLookupError::UnsupportedPlatform), true),
        WindowLookupStep::GiveUp(WindowLookupError::UnsupportedPlatform)
    ));
    assert!(matches!(
        next_window_lookup_step(Ok(window), true),
        WindowLookupStep::Found(w) if w.handle == 100
    ));
}

#[test]
fn input_reader_stops_as_disconnected_when_asked() {
    assert_eq!(
        wincast::host_session::input_reader_stop_check(true),
        Some(InputReaderEvent::Disconnected)
    );
    assert_eq!(wincast::host_session::input_reader_stop_check(false), None);
}
