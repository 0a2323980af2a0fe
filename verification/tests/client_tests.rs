use wincast::client::{
    next_render_stream_step, render_control_write_step, render_frame_limit_step,
    render_input_poll_step, RenderLoopStep, RenderStreamStep,
    run_with_retry_and_reporter, RetryRuntime,
    check_h264_frame_count, h264_stream_frames_end, next_h264_stream_step, H264StreamStep,
    VideoStreamEnd,
    classify_video_stream_error, control_channel_ready_message, decode_h264_stream_message,
    default_retry_options, encoded_video_receive_summary, format_client_control_write_error,
    format_h264_encoded_read_error, format_h264_encoded_stream_error, format_host_error,
    format_retry_report, is_retriable_host_status, max_attempts, next_retry_step,
    prepend_context_once, supported_targets_message, validate_h264_frame_sequence,
    validate_summary_message, ClientControlMessageKind, ClientRenderMode, ClientRunError,
    EncodedVideoReceiveSummary, EncodedVideoStreamReadError, HandshakeError,
    NextEncodedVideoStreamItem, RetryOptions, RetryReport, RetryStep, StreamControlMessage,
};
use wincast::media::{EncodedVideoFrame, EncodedVideoFrameError};
use wincast::protocol::{ErrorCode, VideoCodec};

#[test]
fn targets_message_lists_x86_64_and_arm64_linux() {
    let message = supported_targets_message();

    assert!(message.contains("x86_64-unknown-linux-gnu"));
    assert!(message.contains("aarch64-unknown-linux-gnu"));
    assert!(message.contains("ARM64"));
}

#[test]
fn startup_uses_default_retry_policy_without_user_arguments() {
    let options = default_retry_options();

    assert_eq!(options.retries, 3);
    assert_eq!(
        std::time::Duration::from_millis(options.retry_delay_ms),
        std::time::Duration::from_millis(1_000)
    );
}

#[test]
fn current_platform_uses_protocol_only_render_mode_outside_linux() {
    assert_eq!(ClientRenderMode::for_platform(false), ClientRenderMode::ProtocolOnly);
    assert_eq!(ClientRenderMode::for_platform(true), ClientRenderMode::SdlWindow);
}

#[test]
fn retry_report_formats_session_locked_reason_with_delay() {
    let report = RetryReport {
        attempt: 1,
        max_attempts: 4,
        retry_delay_ms: 1_000,
        reason: "宿主端 Windows 会话已锁屏: 当前用户锁屏".to_owned(),
    };

    let message = format_retry_report(&report);

    assert!(message.contains("客户端运行第 1/4 次失败"));
    assert!(message.contains("宿主端 Windows 会话已锁屏: 当前用户锁屏"));
    assert!(message.contains("1000 ms 后重试"));
    assert_eq!(
        message,
        "客户端运行第 1/4 次失败：宿主端 Windows 会话已锁屏: 当前用户锁屏；1000 ms 后重试。"
    );
}

#[test]
fn h264_read_error_formatter_does_not_repeat_stream_interrupted_prefix() {
    let error = format_h264_encoded_read_error(
        "视频流中断: 读取宿主端 H.264 编码视频帧失败: 连接被重置",
    );

    assert_eq!(
        error,
        "视频流中断: 读取宿主端 H.264 编码视频帧失败: 连接被重置"
    );
}

#[test]
fn h264_read_error_formatter_adds_context_once() {
    assert_eq!(
        format_h264_encoded_read_error("暂时没有收到 H.264 编码流数据"),
        "视频流中断: 读取宿主端 H.264 编码视频帧失败: 暂时没有收到 H.264 编码流数据"
    );
    assert_eq!(
        format_h264_encoded_read_error("视频流中断：对端关闭"),
        "视频流中断：对端关闭"
    );
    assert_eq!(
        prepend_context_once("视频流中断", "视频流中断: 已有".to_owned()),
        "视频流中断: 已有"
    );
    assert_eq!(
        prepend_context_once("视频流中断", "其他".to_owned()),
        "视频流中断: 其他"
    );
}

#[test]
fn host_errors_use_code_specific_prefixes() {
    assert_eq!(
        format_host_error(ErrorCode::Busy, "宿主端已有客户端连接"),
        "宿主端忙碌: 宿主端已有客户端连接"
    );
    assert_eq!(
        format_host_error(ErrorCode::SessionLocked, "当前用户锁屏"),
        "宿主端 Windows 会话已锁屏: 当前用户锁屏"
    );
    assert_eq!(
        format_host_error(ErrorCode::UnsupportedVersion, "v2"),
        "协议版本不匹配: v2"
    );
}

#[test]
fn retriable_statuses_are_transient_host_states() {
    assert!(is_retriable_host_status(ErrorCode::Busy));
    assert!(is_retriable_host_status(ErrorCode::NoUserLoggedIn));
    assert!(is_retriable_host_status(ErrorCode::SessionLocked));
    assert!(is_retriable_host_status(ErrorCode::AgentUnavailable));
    assert!(!is_retriable_host_status(ErrorCode::UnsupportedVersion));
    assert!(!is_retriable_host_status(ErrorCode::CaptureFailed));

    assert!(ClientRunError::Connection("x".to_owned()).is_retriable());
    assert!(ClientRunError::VideoStreamInterrupted("x".to_owned()).is_retriable());
    assert!(!ClientRunError::Fatal("x".to_owned()).is_retriable());
    assert!(!ClientRunError::Handshake(HandshakeError::InvalidMessage).is_retriable());
    assert!(ClientRunError::Handshake(HandshakeError::HostRejected {
        code: ErrorCode::Busy,
        message: "m".to_owned()
    })
    .is_retriable());
}

#[test]
fn run_errors_have_user_messages() {
    assert_eq!(
        ClientRunError::Handshake(HandshakeError::UnsupportedVersion).into_message(),
        "协议版本不匹配"
    );
    assert_eq!(
        ClientRunError::Handshake(HandshakeError::Frame("eof".to_owned())).into_message(),
        "控制通道握手失败: eof"
    );
    assert_eq!(
        ClientRunError::host_status(ErrorCode::ProgramExited, "bye").into_message(),
        "宿主端程序已退出: bye"
    );
}

/// Attempts, waits and reports given by closures, as the original tests do.
struct ScriptedRuntime<A, S, P>
where
    A: FnMut() -> Result<String, ClientRunError>,
    S: FnMut(u64),
    P: FnMut(&RetryReport),
{
    attempt: A,
    sleep: S,
    report: P,
}

impl<A, S, P> RetryRuntime for ScriptedRuntime<A, S, P>
where
    A: FnMut() -> Result<String, ClientRunError>,
    S: FnMut(u64),
    P: FnMut(&RetryReport),
{
    fn attempt(&mut self) -> Result<String, ClientRunError> {
        (self.attempt)()
    }

    fn report(&mut self, report: &RetryReport) {
        (self.report)(report)
    }

    fn sleep(&mut self, delay_ms: u64) {
        (self.sleep)(delay_ms)
    }
}

fn run_with_retry(
    options: &RetryOptions,
    attempt: impl FnMut() -> Result<String, ClientRunError>,
    sleep: impl FnMut(u64),
) -> Result<String, String> {
    let mut runtime = ScriptedRuntime {
        attempt,
        sleep,
        report: |_: &RetryReport| {},
    };
    run_with_retry_and_reporter(options, &mut runtime)
}

#[test]
fn default_retry_policy_does_not_retry() {
    let mut attempts = 0;
    let mut sleeps = Vec::new();
    let options = RetryOptions {
        retries: 0,
        retry_delay_ms: 10,
    };

    let error = run_with_retry(
        &options,
        || {
            attempts += 1;
            Err(ClientRunError::host_status(ErrorCode::Busy, "宿主端已有客户端连接"))
        },
        |delay| sleeps.push(delay),
    )
    .expect_err("default retry policy should fail after one attempt");

    assert_eq!(attempts, 1);
    assert!(sleeps.is_empty());
    assert!(error.contains("宿主端忙碌"));
    assert!(!error.contains("尝试 1 次后失败"));
}

#[test]
fn retry_policy_succeeds_after_busy_status_recovers() {
    let mut attempts = 0;
    let mut sleeps = Vec::new();
    let options = RetryOptions {
        retries: 2,
        retry_delay_ms: 25,
    };

    let message = run_with_retry(
        &options,
        || {
            attempts += 1;
            if attempts == 1 {
                Err(ClientRunError::host_status(ErrorCode::Busy, "宿主端已有客户端连接"))
            } else {
                Ok("已连接".to_owned())
            }
        },
        |delay| sleeps.push(delay),
    )
    .expect("busy status should be retried and recover");

    assert_eq!(message, "已连接");
    assert_eq!(attempts, 2);
    assert_eq!(sleeps, vec![25]);
}

#[test]
fn retry_policy_reports_last_error_after_limit() {
    let mut attempts = 0;
    let options = RetryOptions {
        retries: 2,
        retry_delay_ms: 5,
    };

    let error = run_with_retry(
        &options,
        || {
            attempts += 1;
            Err(ClientRunError::host_status(ErrorCode::SessionLocked, "当前用户锁屏"))
        },
        |_| {},
    )
    .expect_err("locked session keeps failing");

    assert_eq!(attempts, 3);
    assert_eq!(
        error,
        "客户端运行尝试 3 次后失败，最后原因: 宿主端 Windows 会话已锁屏: 当前用户锁屏"
    );
}

#[test]
fn retry_policy_does_not_retry_fatal_errors() {
    let mut attempts = 0;
    let options = RetryOptions {
        retries: 5,
        retry_delay_ms: 5,
    };

    let error = run_with_retry(
        &options,
        || {
            attempts += 1;
            Err(ClientRunError::Handshake(HandshakeError::UnsupportedVersion))
        },
        |_| {},
    )
    .expect_err("version mismatch is final");

    assert_eq!(attempts, 1);
    assert_eq!(error, "协议版本不匹配");
}

#[test]
fn retry_report_carries_attempt_limit_and_reason() {
    let options = RetryOptions {
        retries: 3,
        retry_delay_ms: 1000,
    };
    assert_eq!(max_attempts(&options), 4);
    assert_eq!(
        max_attempts(&RetryOptions {
            retries: u32::MAX,
            retry_delay_ms: 0
        }),
        u32::MAX
    );

    match next_retry_step(&options, 1, ClientRunError::Connection("无法连接".to_owned())) {
        RetryStep::Retry(report) => {
            assert_eq!(report.attempt, 1);
            assert_eq!(report.max_attempts, 4);
            assert_eq!(report.retry_delay_ms, 1000);
            assert_eq!(report.reason, "无法连接");
        }
        RetryStep::GiveUp(message) => panic!("should retry, gave up with {message}"),
    }
}

#[test]
fn stream_errors_mentioning_interruption_are_retriable() {
    assert_eq!(
        classify_video_stream_error("视频流中断: 连接被重置".to_owned()),
        ClientRunError::VideoStreamInterrupted("视频流中断: 连接被重置".to_owned())
    );
    assert_eq!(
        classify_video_stream_error("宿主端 H.264 编码帧无效".to_owned()),
        ClientRunError::Fatal("宿主端 H.264 编码帧无效".to_owned())
    );
}

fn h264_frame(sequence_number: u64) -> EncodedVideoFrame {
    EncodedVideoFrame {
        codec: VideoCodec::H264,
        width: 16,
        height: 16,
        sequence_number,
        timestamp_ns: 0,
        keyframe: true,
        bytes: vec![1],
    }
}

#[test]
fn frame_sequence_must_not_go_back() {
    let mut last = None;
    assert_eq!(validate_h264_frame_sequence(&h264_frame(5), Ok(()), &mut last), Ok(()));
    assert_eq!(last, Some(5));
    assert_eq!(validate_h264_frame_sequence(&h264_frame(5), Ok(()), &mut last), Ok(()));
    assert_eq!(
        validate_h264_frame_sequence(&h264_frame(4), Ok(()), &mut last),
        Err("宿主端 H.264 编码帧序号回退: 上一帧 5，当前帧 4".to_owned())
    );
    assert_eq!(last, Some(5));
    let raw = EncodedVideoFrame {
        codec: VideoCodec::RawBgra,
        ..h264_frame(9)
    };
    assert_eq!(
        validate_h264_frame_sequence(&raw, Ok(()), &mut last),
        Err("宿主端编码帧 codec 无效: RawBgra".to_owned())
    );
    assert_eq!(
        validate_h264_frame_sequence(
            &h264_frame(9),
            Err(EncodedVideoFrameError {
                description: "EmptyPayload".to_owned()
            }),
            &mut last
        ),
        Err("宿主端 H.264 编码帧无效: EmptyPayload".to_owned())
    );
}

#[test]
fn receive_summary_needs_a_frame() {
    assert_eq!(
        encoded_video_receive_summary(3, Some(7)),
        Ok(EncodedVideoReceiveSummary {
            frames: 3,
            last_sequence_number: 7
        })
    );
    assert_eq!(
        encoded_video_receive_summary(0, None),
        Err("未收到 H.264 编码视频帧".to_owned())
    );
}

#[test]
fn stream_messages_are_interpreted() {
    assert_eq!(
        decode_h264_stream_message(StreamControlMessage::Goodbye),
        Ok(NextEncodedVideoStreamItem::Goodbye)
    );
    assert_eq!(
        decode_h264_stream_message(StreamControlMessage::Error {
            code: ErrorCode::ProgramExited,
            message: "进程退出".to_owned()
        }),
        Ok(NextEncodedVideoStreamItem::HostProgramExited(
            "宿主端程序已退出: 进程退出".to_owned()
        ))
    );
    assert_eq!(
        decode_h264_stream_message(StreamControlMessage::Error {
            code: ErrorCode::CaptureFailed,
            message: "黑屏".to_owned()
        }),
        Err(EncodedVideoStreamReadError::Host(
            "宿主端画面捕获失败: 黑屏".to_owned()
        ))
    );
    assert_eq!(
        decode_h264_stream_message(StreamControlMessage::Other("Heartbeat".to_owned())),
        Err(EncodedVideoStreamReadError::InvalidControl(
            "宿主端 H.264 编码流中收到无效控制消息: Heartbeat".to_owned()
        ))
    );
    assert_eq!(
        format_h264_encoded_stream_error(EncodedVideoStreamReadError::Interrupted(
            "控制消息载荷不完整".to_owned()
        )),
        "视频流中断: 读取宿主端 H.264 编码视频帧失败: 控制消息载荷不完整"
    );
}

#[test]
fn client_messages_name_the_endpoint() {
    assert!(control_channel_ready_message("192.168.1.20:7856")
        .starts_with("客户端配置有效，已建立宿主端控制通道 192.168.1.20:7856，"));
    let summary = validate_summary_message("192.168.1.20:7856");
    assert!(summary.contains("smoke-test"));
    assert!(summary.contains("host:port 192.168.1.20:7856"));
    assert!(summary.contains("x86_64-unknown-linux-gnu"));
    assert!(summary.contains("aarch64-unknown-linux-gnu"));
    assert_eq!(
        format_client_control_write_error(ClientControlMessageKind::Heartbeat, "broken pipe"),
        "发送客户端心跳失败: broken pipe"
    );
}

#[test]
fn stream_steps_decode_frames_and_end_normally_when_the_host_program_exits() {
    let frame = EncodedVideoFrame {
        codec: VideoCodec::H264,
        width: 2,
        height: 2,
        sequence_number: 4,
        timestamp_ns: 0,
        keyframe: false,
        bytes: vec![1, 2, 3],
    };
    assert_eq!(
        next_h264_stream_step(NextEncodedVideoStreamItem::Frame(frame.clone()), 1, Some(3)),
        H264StreamStep::Decode(frame)
    );
    assert_eq!(
        next_h264_stream_step(NextEncodedVideoStreamItem::Goodbye, 2, Some(9)),
        H264StreamStep::Finish(Ok(VideoStreamEnd::Frames(EncodedVideoReceiveSummary {
            frames: 2,
            last_sequence_number: 9,
        })))
    );
    assert_eq!(
        next_h264_stream_step(NextEncodedVideoStreamItem::Goodbye, 0, None),
        H264StreamStep::Finish(Err("未收到 H.264 编码视频帧".to_owned()))
    );
    assert_eq!(
        next_h264_stream_step(
            NextEncodedVideoStreamItem::HostProgramExited("宿主端程序已退出: 完成".to_owned()),
            5,
            Some(5),
        ),
        H264StreamStep::Finish(Ok(VideoStreamEnd::HostProgramExited(
            "宿主端程序已退出: 完成".to_owned()
        )))
    );
}

#[test]
fn zero_frames_cannot_be_received() {
    assert_eq!(
        check_h264_frame_count(0),
        Err("H.264 编码视频帧接收数量不能为 0".to_owned())
    );
    assert_eq!(check_h264_frame_count(3), Ok(()));
    assert_eq!(
        h264_stream_frames_end(3, Some(7)),
        Ok(VideoStreamEnd::Frames(EncodedVideoReceiveSummary {
            frames: 3,
            last_sequence_number: 7,
        }))
    );
}

#[test]
fn client_treats_goodbye_inside_h264_stream_as_session_end() {
    let first_frame = EncodedVideoFrame {
        codec: VideoCodec::H264,
        width: 2,
        height: 2,
        sequence_number: 7,
        timestamp_ns: 7_000,
        keyframe: true,
        bytes: vec![1, 2, 3, 4],
    };
    let mut last_sequence_number = None;
    validate_h264_frame_sequence(&first_frame, Ok(()), &mut last_sequence_number)
        .expect("first frame should pass");

    let summary = match next_h264_stream_step(NextEncodedVideoStreamItem::Goodbye, 1, last_sequence_number) {
        H264StreamStep::Finish(end) => end.expect("goodbye should end H.264 helper"),
        H264StreamStep::Decode(_) => panic!("goodbye should not decode"),
    };

    assert_eq!(
        summary,
        VideoStreamEnd::Frames(EncodedVideoReceiveSummary {
            frames: 1,
            last_sequence_number: 7,
        })
    );
}

#[test]
fn retry_policy_reconnects_after_video_stream_interruption() {
    let mut attempts = 0;
    let mut sleeps = Vec::new();
    let options = RetryOptions {
        retries: 2,
        retry_delay_ms: 25,
    };

    let message = run_with_retry(
        &options,
        || {
            attempts += 1;
            if attempts == 1 {
                Err(ClientRunError::VideoStreamInterrupted(
                    "视频流中断: 读取宿主端 H.264 编码视频帧失败: 连接被重置".to_owned(),
                ))
            } else {
                Ok("已重新连接".to_owned())
            }
        },
        |delay| sleeps.push(delay),
    )
    .expect("video stream interruption should be retried and recover");

    assert_eq!(message, "已重新连接");
    assert_eq!(attempts, 2);
    assert_eq!(sleeps, vec![25]);
}

#[test]
fn retry_policy_reports_retriable_error_before_recovering() {
    let mut attempts = 0;
    let mut reports = Vec::new();
    let mut sleeps = Vec::new();
    let options = RetryOptions {
        retries: 2,
        retry_delay_ms: 30,
    };

    let mut runtime = ScriptedRuntime {
        attempt: || {
            attempts += 1;
            if attempts == 1 {
                Err(ClientRunError::host_status(
                    ErrorCode::SessionLocked,
                    "当前 Windows 用户已锁屏",
                ))
            } else {
                Ok("已连接".to_owned())
            }
        },
        sleep: |delay| sleeps.push(delay),
        report: |report: &RetryReport| reports.push(format_retry_report(report)),
    };
    let message = run_with_retry_and_reporter(&options, &mut runtime)
        .expect("session locked status should be retried and recover");
    drop(runtime);

    assert_eq!(message, "已连接");
    assert_eq!(attempts, 2);
    assert_eq!(sleeps, vec![30]);
    assert_eq!(reports.len(), 1);
    assert!(reports[0].contains("客户端运行第 1/3 次失败"));
    assert!(reports[0].contains("宿主端 Windows 会话已锁屏: 当前 Windows 用户已锁屏"));
    assert!(reports[0].contains("30 ms 后重试"));
}

#[test]
fn retry_policy_reports_last_session_locked_error_after_limit() {
    let mut attempts = 0;
    let mut sleeps = Vec::new();
    let options = RetryOptions {
        retries: 2,
        retry_delay_ms: 15,
    };

    let error = run_with_retry(
        &options,
        || {
            attempts += 1;
            Err(ClientRunError::host_status(
                ErrorCode::SessionLocked,
                &format!("第 {attempts} 次仍锁屏"),
            ))
        },
        |delay| sleeps.push(delay),
    )
    .expect_err("session locked should fail after retry limit");

    assert_eq!(attempts, 3);
    assert_eq!(sleeps, vec![15, 15]);
    assert!(error.contains("尝试 3 次后失败"));
    assert!(error.contains("宿主端 Windows 会话已锁屏"));
    assert!(error.contains("第 3 次仍锁屏"));
}

#[test]
fn retry_policy_retries_session_gate_rejections_until_recovering() {
    for code in [
        ErrorCode::NoUserLoggedIn,
        ErrorCode::SessionLocked,
        ErrorCode::AgentUnavailable,
    ] {
        let mut attempts = 0;
        let mut sleeps = Vec::new();
        let options = RetryOptions {
            retries: 3,
            retry_delay_ms: 20,
        };

        let message = run_with_retry(
            &options,
            || {
                attempts += 1;
                if attempts < 3 {
                    Err(ClientRunError::host_status(
                        code,
                        &format!("第 {attempts} 次门禁拒绝"),
                    ))
                } else {
                    Ok(format!("{code:?} recovered"))
                }
            },
            |delay| sleeps.push(delay),
        )
        .expect("session gate rejection should be retried until recovery");

        assert_eq!(message, format!("{code:?} recovered"));
        assert_eq!(attempts, 3);
        assert_eq!(sleeps, vec![20, 20]);
    }
}

#[test]
fn retry_policy_does_not_retry_unsupported_version() {
    let mut attempts = 0;
    let options = RetryOptions {
        retries: 3,
        retry_delay_ms: 10,
    };

    let error = run_with_retry(
        &options,
        || {
            attempts += 1;
            Err(ClientRunError::Handshake(HandshakeError::UnsupportedVersion))
        },
        |_| panic!("unsupported version should not sleep"),
    )
    .expect_err("unsupported version should not retry");

    assert_eq!(attempts, 1);
    assert!(error.contains("协议版本不匹配"));
    assert!(
        !error.contains("尝试"),
        "不可重试错误不应伪装成重试耗尽: {error}"
    );
}

#[test]
fn render_loop_steps_follow_limit_quit_and_closed_stream() {
    assert_eq!(render_frame_limit_step(None, 9, Some(9)), RenderLoopStep::Continue);
    assert_eq!(render_frame_limit_step(Some(10), 9, Some(9)), RenderLoopStep::Continue);
    assert_eq!(
        render_frame_limit_step(Some(2), 2, Some(5)),
        RenderLoopStep::Finish(Ok(VideoStreamEnd::Frames(EncodedVideoReceiveSummary {
            frames: 2,
            last_sequence_number: 5,
        })))
    );
    assert_eq!(
        render_input_poll_step(true, 1, Some(1)),
        RenderLoopStep::Finish(Ok(VideoStreamEnd::Frames(EncodedVideoReceiveSummary {
            frames: 1,
            last_sequence_number: 1,
        })))
    );
    assert_eq!(render_input_poll_step(false, 1, Some(1)), RenderLoopStep::Continue);
    assert_eq!(
        render_control_write_step(true, 3, Some(4)),
        RenderLoopStep::Finish(Ok(VideoStreamEnd::Frames(EncodedVideoReceiveSummary {
            frames: 3,
            last_sequence_number: 4,
        })))
    );
    assert_eq!(render_control_write_step(false, 3, Some(4)), RenderLoopStep::Continue);
    assert_eq!(
        render_control_write_step(true, 0, None),
        RenderLoopStep::Finish(Err("未收到 H.264 编码视频帧".to_owned()))
    );
}

#[test]
fn render_stream_steps_show_only_the_latest_frame() {
    assert_eq!(next_render_stream_step(None, 2, Some(2)), RenderStreamStep::RenderLatest(None));
    let frame = h264_frame(3);
    assert_eq!(
        next_render_stream_step(Some(NextEncodedVideoStreamItem::Frame(frame.clone())), 2, Some(2)),
        RenderStreamStep::Decode(frame)
    );
    assert_eq!(
        next_render_stream_step(Some(NextEncodedVideoStreamItem::Goodbye), 3, Some(3)),
        RenderStreamStep::RenderLatest(Some(Ok(VideoStreamEnd::Frames(
            EncodedVideoReceiveSummary {
                frames: 3,
                last_sequence_number: 3,
            }
        ))))
    );
    assert_eq!(
        next_render_stream_step(
            Some(NextEncodedVideoStreamItem::HostProgramExited("结束".to_owned())),
            3,
            Some(3)
        ),
        RenderStreamStep::RenderLatest(Some(Ok(VideoStreamEnd::HostProgramExited(
            "结束".to_owned()
        ))))
    );
}
