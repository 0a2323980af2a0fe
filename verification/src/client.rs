//! The client's decisions: how host errors are worded, which failures are
//! retried and how often, how stream errors are classified, and the checks
//! on the encoded frames the host sends.

use vstd::prelude::*;
use vstd::string::StrSliceExecFns;

use crate::media::{EncodedVideoFrame, EncodedVideoFrameError, codec_name, codec_name_string};
use crate::protocol::{ErrorCode, VideoCodec};
use crate::text::{concat2, concat3, contains_seq, decimal, decimal_string, owned, str_contains};

verus! {

/// Default number of retries after a recoverable failure.
pub const DEFAULT_RETRIES: u32 = 3;
/// Default pause before a retry, in milliseconds.
pub const DEFAULT_RETRY_DELAY_MS: u64 = 1_000;
/// Linux target of x86_64 clients.
pub const CLIENT_TARGET_X86_64: &'static str = "x86_64-unknown-linux-gnu";
/// Linux target of ARM64 clients.
pub const CLIENT_TARGET_AARCH64: &'static str = "aarch64-unknown-linux-gnu";

/// The prefix that names a host error code in client messages.
pub open spec fn host_error_prefix(code: ErrorCode) -> Seq<char> {
    match code {
        ErrorCode::Busy => "宿主端忙碌: "@,
        ErrorCode::InvalidConfig => "宿主端配置无效: "@,
        ErrorCode::NoUserLoggedIn => "宿主端未登录 Windows 用户: "@,
        ErrorCode::SessionLocked => "宿主端 Windows 会话已锁屏: "@,
        ErrorCode::AgentUnavailable => "宿主端 Agent 不可用或不在线: "@,
        ErrorCode::ProgramLaunchFailed => "宿主端程序启动失败: "@,
        ErrorCode::ProgramExited => "宿主端程序已退出: "@,
        ErrorCode::WindowNotFound => "宿主端未找到程序窗口: "@,
        ErrorCode::CaptureFailed => "宿主端画面捕获失败: "@,
        ErrorCode::UnsupportedVersion => "协议版本不匹配: "@,
        ErrorCode::EncodingFailed => "宿主端视频编码失败: "@,
        ErrorCode::TransportFailed => "宿主端传输链路失败: "@,
    }
}

fn host_error_prefix_str(code: ErrorCode) -> (res: &'static str)
    ensures
        res@ == host_error_prefix(code),
{
    match code {
        ErrorCode::Busy => "宿主端忙碌: ",
        ErrorCode::InvalidConfig => "宿主端配置无效: ",
        ErrorCode::NoUserLoggedIn => "宿主端未登录 Windows 用户: ",
        ErrorCode::SessionLocked => "宿主端 Windows 会话已锁屏: ",
        ErrorCode::AgentUnavailable => "宿主端 Agent 不可用或不在线: ",
        ErrorCode::ProgramLaunchFailed => "宿主端程序启动失败: ",
        ErrorCode::ProgramExited => "宿主端程序已退出: ",
        ErrorCode::WindowNotFound => "宿主端未找到程序窗口: ",
        ErrorCode::CaptureFailed => "宿主端画面捕获失败: ",
        ErrorCode::UnsupportedVersion => "协议版本不匹配: ",
        ErrorCode::EncodingFailed => "宿主端视频编码失败: ",
        ErrorCode::TransportFailed => "宿主端传输链路失败: ",
    }
}

/// A host error as the client reports it: the code's prefix, then the
/// host's message.
pub fn format_host_error(code: ErrorCode, message: &str) -> (res: String)
    ensures
        res@ == host_error_prefix(code) + message@,
{
    concat2(host_error_prefix_str(code), message)
}

/// Host statuses worth retrying: the host is busy, nobody is logged in, the
/// session is locked, or the agent is away.
pub open spec fn spec_retriable_host_status(code: ErrorCode) -> bool {
    code == ErrorCode::Busy || code == ErrorCode::NoUserLoggedIn || code == ErrorCode::SessionLocked
        || code == ErrorCode::AgentUnavailable
}

/// Whether a host status is worth retrying.
pub fn is_retriable_host_status(code: ErrorCode) -> (res: bool)
    ensures
        res == spec_retriable_host_status(code),
{
    match code {
        ErrorCode::Busy | ErrorCode::NoUserLoggedIn | ErrorCode::SessionLocked
        | ErrorCode::AgentUnavailable => true,
        _ => false,
    }
}

/// Why the control handshake with the host failed.
#[derive(Debug, Clone, PartialEq, Eq)]
pub enum HandshakeError {
    /// The host refused the client with an error.
    HostRejected { code: ErrorCode, message: String },
    /// The host speaks another protocol version.
    UnsupportedVersion,
    /// The host sent something other than a handshake message.
    InvalidMessage,
    /// Framing the handshake failed; the framing error's description.
    Frame(String),
}

/// The client's wording of a handshake failure.
pub open spec fn handshake_error_text(e: HandshakeError) -> Seq<char> {
    match e {
        HandshakeError::HostRejected { code, message } => host_error_prefix(code) + message@,
        HandshakeError::UnsupportedVersion => "协议版本不匹配"@,
        HandshakeError::InvalidMessage => "宿主端握手消息无效"@,
        HandshakeError::Frame(detail) => "控制通道握手失败: "@ + detail@,
    }
}

/// The client's wording of a handshake failure.
pub fn format_handshake_error(error: HandshakeError) -> (res: String)
    ensures
        res@ == handshake_error_text(error),
{
    match error {
        HandshakeError::HostRejected { code, message } => format_host_error(code, message.as_str()),
        HandshakeError::UnsupportedVersion => owned("协议版本不匹配"),
        HandshakeError::InvalidMessage => owned("宿主端握手消息无效"),
        HandshakeError::Frame(detail) => concat2("控制通道握手失败: ", detail.as_str()),
    }
}

/// Why one client run failed.
#[derive(Debug, Clone, PartialEq, Eq)]
pub enum ClientRunError {
    Connection(String),
    Handshake(HandshakeError),
    HostStatus { code: ErrorCode, message: String },
    VideoStreamInterrupted(String),
    Fatal(String),
}

/// Whether a failed run is worth retrying: connection failures and stream
/// interruptions are, host refusals are when their status is, and other
/// handshake failures and fatal errors are not.
pub open spec fn spec_is_retriable(e: ClientRunError) -> bool {
    match e {
        ClientRunError::Connection(_) => true,
        ClientRunError::VideoStreamInterrupted(_) => true,
        ClientRunError::Handshake(HandshakeError::HostRejected { code, .. }) =>
            spec_retriable_host_status(code),
        ClientRunError::HostStatus { code, .. } => spec_retriable_host_status(code),
        ClientRunError::Handshake(_) => false,
        ClientRunError::Fatal(_) => false,
    }
}

/// The user-facing message of a failed run.
pub open spec fn run_error_text(e: ClientRunError) -> Seq<char> {
    match e {
        ClientRunError::Connection(m) => m@,
        ClientRunError::VideoStreamInterrupted(m) => m@,
        ClientRunError::Fatal(m) => m@,
        ClientRunError::Handshake(h) => handshake_error_text(h),
        ClientRunError::HostStatus { code, message } => host_error_prefix(code) + message@,
    }
}

impl ClientRunError {
    /// A host status error.
    pub fn host_status(code: ErrorCode, message: &str) -> (res: Self)
        ensures
            res matches ClientRunError::HostStatus { code: c, message: m } && c == code && m@
                == message@,
    {
        ClientRunError::HostStatus { code, message: owned(message) }
    }

    /// Whether the failure is worth retrying.
    pub fn is_retriable(&self) -> (res: bool)
        ensures
            res == spec_is_retriable(*self),
    {
        match self {
            ClientRunError::Connection(_) => true,
            ClientRunError::VideoStreamInterrupted(_) => true,
            ClientRunError::Handshake(HandshakeError::HostRejected { code, .. }) =>
                is_retriable_host_status(*code),
            ClientRunError::HostStatus { code, .. } => is_retriable_host_status(*code),
            ClientRunError::Handshake(_) => false,
            ClientRunError::Fatal(_) => false,
        }
    }

    /// The user-facing message of the failure.
    pub fn into_message(self) -> (res: String)
        ensures
            res@ == run_error_text(self),
    {
        match self {
            ClientRunError::Connection(m) => m,
            ClientRunError::VideoStreamInterrupted(m) => m,
            ClientRunError::Fatal(m) => m,
            ClientRunError::Handshake(h) => format_handshake_error(h),
            ClientRunError::HostStatus { code, message } => format_host_error(code, message.as_str()),
        }
    }
}

/// How often and how patiently the client retries.
#[derive(Debug, Clone, Copy, PartialEq, Eq, Structural)]
pub struct RetryOptions {
    pub retries: u32,
    pub retry_delay_ms: u64,
}

/// The policy used when the user asks for nothing: three retries, one
/// second apart.
pub fn default_retry_options() -> (res: RetryOptions)
    ensures
        res.retries == 3,
        res.retry_delay_ms == 1000,
{
    RetryOptions { retries: DEFAULT_RETRIES, retry_delay_ms: DEFAULT_RETRY_DELAY_MS }
}

/// Number of attempts allowed: one more than the retries, saturating.
pub open spec fn spec_max_attempts(options: RetryOptions) -> u32 {
    if options.retries == u32::MAX {
        u32::MAX
    } else {
        (options.retries + 1) as u32
    }
}

/// Number of attempts allowed: one more than the retries, saturating.
pub fn max_attempts(options: &RetryOptions) -> (res: u32)
    ensures
        res == spec_max_attempts(*options),
{
    options.retries.saturating_add(1)
}

/// What is reported before a retry.
#[derive(Debug, Clone, PartialEq, Eq)]
pub struct RetryReport {
    pub attempt: u32,
    pub max_attempts: u32,
    pub retry_delay_ms: u64,
    pub reason: String,
}

/// The wording of a retry report.
pub open spec fn retry_report_text(r: RetryReport) -> Seq<char> {
    "客户端运行第 "@ + decimal(r.attempt as nat) + "/"@ + decimal(r.max_attempts as nat) + " 次失败："@
        + r.reason@ + "；"@ + decimal(r.retry_delay_ms as nat) + " ms 后重试。"@
}

/// The wording of a retry report: attempt, limit, reason and delay.
pub fn format_retry_report(report: &RetryReport) -> (res: String)
    ensures
        res@ == retry_report_text(*report),
{
    let attempt = decimal_string(report.attempt as u64);
    let max = decimal_string(report.max_attempts as u64);
    let delay = decimal_string(report.retry_delay_ms);
    let mut res = concat3("客户端运行第 ", attempt.as_str(), "/");
    res.append(max.as_str());
    res.append(" 次失败：");
    res.append(report.reason.as_str());
    res.append("；");
    res.append(delay.as_str());
    res.append(" ms 后重试。");
    res
}

/// What the client does after a failed attempt.
#[derive(Debug, Clone, PartialEq, Eq)]
pub enum RetryStep {
    /// Stop and report this message.
    GiveUp(String),
    /// Report, wait the delay, and try again.
    Retry(RetryReport),
}

/// The decision after attempt number `attempts` failed with `error`: retry
/// when the error is retriable and attempts are left; otherwise give up with
/// the error's message, which names the number of attempts only when retries
/// were allowed and the error was retriable.
pub fn next_retry_step(options: &RetryOptions, attempts: u32, error: ClientRunError) -> (res: RetryStep)
    ensures
        ({
            let max = spec_max_attempts(*options);
            if spec_is_retriable(error) && attempts < max {
                res matches RetryStep::Retry(r) && r.attempt == attempts && r.max_attempts == max
                    && r.retry_delay_ms == options.retry_delay_ms && r.reason@ == run_error_text(error)
            } else if max == 1 || !spec_is_retriable(error) {
                res matches RetryStep::GiveUp(m) && m@ == run_error_text(error)
            } else {
                res matches RetryStep::GiveUp(m) && m@ == "客户端运行尝试 "@ + decimal(attempts as nat)
                    + " 次后失败，最后原因: "@ + run_error_text(error)
            }
        }),
{
    let max = max_attempts(options);
    let retriable = error.is_retriable();
    if retriable && attempts < max {
        return RetryStep::Retry(
            RetryReport {
                attempt: attempts,
                max_attempts: max,
                retry_delay_ms: options.retry_delay_ms,
                reason: error.into_message(),
            },
        );
    }
    if max == 1 || !retriable {
        return RetryStep::GiveUp(error.into_message());
    }
    let count = decimal_string(attempts as u64);
    let reason = error.into_message();
    let mut res = concat3("客户端运行尝试 ", count.as_str(), " 次后失败，最后原因: ");
    res.append(reason.as_str());
    RetryStep::GiveUp(res)
}

/// The client runs at most `retries + 1` attempts (saturating at
/// `u32::MAX`): a retry is decided only before the attempt limit, so the
/// next attempt is still within it; and a failure that is not retriable is
/// never retried.
pub proof fn lemma_retry_bounded(options: RetryOptions, attempts: u32, error: ClientRunError)
    requires
        spec_is_retriable(error) && attempts < spec_max_attempts(options),
    ensures
        attempts + 1 <= spec_max_attempts(options),
        spec_max_attempts(options) as int == if options.retries == u32::MAX {
            u32::MAX as int
        } else {
            options.retries + 1
        },
{
}

/// The message a run gives up with after attempt number `attempts` failed
/// with `error`: the error's own message when no retries were allowed or the
/// error is not retriable, and otherwise the message naming the attempts.
pub open spec fn give_up_text(max: u32, attempts: nat, error: ClientRunError) -> Seq<char> {
    if max == 1 || !spec_is_retriable(error) {
        run_error_text(error)
    } else {
        "客户端运行尝试 "@ + decimal(attempts) + " 次后失败，最后原因: "@ + run_error_text(error)
    }
}

/// The report made before the retry that follows attempt number `attempt`
/// failing with `error`.
pub open spec fn is_retry_report(
    options: RetryOptions,
    attempt: nat,
    error: ClientRunError,
    report: RetryReport,
) -> bool {
    &&& report.attempt == attempt
    &&& report.max_attempts == spec_max_attempts(options)
    &&& report.retry_delay_ms == options.retry_delay_ms
    &&& report.reason@ == run_error_text(error)
}

/// Whether a whole run ended with `res`, in terms of what its attempts gave:
/// `outcomes[i]` is what attempt `i + 1` returned; it made at least one
/// attempt and at most the allowed number; every attempt but the last failed
/// with a retriable error and was followed by the report `reports[i]` of
/// that failure; and the result is the last attempt's message when it
/// succeeded, or, when it failed with an error that is not retriable or at
/// the attempt limit, the give-up message.
pub open spec fn retry_run_ends(
    options: RetryOptions,
    outcomes: Seq<Result<String, ClientRunError>>,
    reports: Seq<RetryReport>,
    res: Result<String, String>,
) -> bool {
    let n = outcomes.len();
    let max = spec_max_attempts(options);
    &&& 1 <= n <= max
    &&& reports.len() == n - 1
    &&& forall|i: int|
        0 <= i < n - 1 ==> (#[trigger] outcomes[i] matches Err(e) && spec_is_retriable(e)
            && is_retry_report(options, (i + 1) as nat, e, reports[i]))
    &&& match outcomes.last() {
        Ok(m) => res == Ok::<String, String>(m),
        Err(e) => (!spec_is_retriable(e) || n == max) && (res matches Err(m) && m@
            == give_up_text(max, n, e)),
    }
}

/// What a retrying client run needs from its surroundings: running one
/// attempt, telling the user that a retry follows, and waiting. Each runtime
/// states, through `attempt_outcome`, `report_outcome` and `sleep_outcome`,
/// what each call may give and what state it leaves; a runtime that does not
/// say admits everything.
pub trait RetryRuntime: Sized {
    /// Whether `res` is a result an attempt may give, leaving `after`.
    open spec fn attempt_outcome(&self, res: Result<String, ClientRunError>, after: Self) -> bool {
        true
    }

    /// Whether reporting `report` may leave `after`.
    open spec fn report_outcome(&self, report: RetryReport, after: Self) -> bool {
        true
    }

    /// Whether waiting `delay_ms` may leave `after`.
    open spec fn sleep_outcome(&self, delay_ms: u64, after: Self) -> bool {
        true
    }

    /// Runs one attempt of the client.
    fn attempt(&mut self) -> (res: Result<String, ClientRunError>)
        ensures
            old(self).attempt_outcome(res, *final(self)),
    ;

    /// Tells the user that attempt `report.attempt` failed and a retry follows.
    fn report(&mut self, report: &RetryReport)
        ensures
            old(self).report_outcome(*report, *final(self)),
    ;

    /// Waits `delay_ms` milliseconds before the next attempt.
    fn sleep(&mut self, delay_ms: u64)
        ensures
            old(self).sleep_outcome(delay_ms, *final(self)),
    ;
}

/// Whether the runtime went from `start` to `end` through exactly these
/// calls: attempt `i + 1` from `before[i]` gave `outcomes[i]` and left
/// `after_attempt[i]`; after every attempt but the last came the report
/// `reports[i]` (leaving `after_report[i]`) and a wait of the retry delay
/// (leaving `before[i + 1]`); and nothing else was called.
pub open spec fn retry_run_calls<R: RetryRuntime>(
    options: RetryOptions,
    start: R,
    end: R,
    outcomes: Seq<Result<String, ClientRunError>>,
    reports: Seq<RetryReport>,
    before: Seq<R>,
    after_attempt: Seq<R>,
    after_report: Seq<R>,
) -> bool {
    let n = outcomes.len();
    &&& n >= 1
    &&& before.len() == n && after_attempt.len() == n && after_report.len() == n - 1
    &&& reports.len() == n - 1
    &&& before[0] == start
    &&& end == after_attempt[n - 1]
    &&& forall|i: int|
        0 <= i < n ==> #[trigger] before[i].attempt_outcome(outcomes[i], after_attempt[i])
    &&& forall|i: int|
        0 <= i < n - 1 ==> #[trigger] after_attempt[i].report_outcome(reports[i], after_report[i])
            && after_report[i].sleep_outcome(options.retry_delay_ms, before[i + 1])
}

/// Runs the client with retries: attempts until one succeeds, fails with an
/// error that is not retriable, or the attempt limit is reached; before each
/// retry the failure is reported and the retry delay waited.
pub fn run_with_retry_and_reporter<R: RetryRuntime>(options: &RetryOptions, runtime: &mut R) -> (res:
    Result<String, String>)
    ensures
        exists|
            outcomes: Seq<Result<String, ClientRunError>>,
            reports: Seq<RetryReport>,
            before: Seq<R>,
            after_attempt: Seq<R>,
            after_report: Seq<R>,
        |
            #[trigger] retry_run_calls(
                *options,
                *old(runtime),
                *final(runtime),
                outcomes,
                reports,
                before,
                after_attempt,
                after_report,
            ) && retry_run_ends(*options, outcomes, reports, res),
{
    let max = max_attempts(options);
    let ghost start = *runtime;
    let ghost mut outcomes: Seq<Result<String, ClientRunError>> = Seq::empty();
    let ghost mut reports: Seq<RetryReport> = Seq::empty();
    let ghost mut before: Seq<R> = Seq::empty();
    let ghost mut after_attempt: Seq<R> = Seq::empty();
    let ghost mut after_report: Seq<R> = Seq::empty();
    let ghost mut after_sleep: Seq<R> = Seq::empty();
    let mut attempts: u32 = 0;
    loop
        invariant
            max == spec_max_attempts(*options),
            start == *old(runtime),
            attempts == outcomes.len(),
            attempts < max,
            reports.len() == attempts,
            before.len() == attempts,
            after_attempt.len() == attempts,
            after_report.len() == attempts,
            attempts > 0 ==> before[0] == start,
            attempts == 0 ==> *runtime == start,
            forall|i: int|
                0 <= i < attempts ==> #[trigger] before[i].attempt_outcome(
                    outcomes[i],
                    after_attempt[i],
                ),
            forall|i: int|
                0 <= i < attempts ==> #[trigger] after_attempt[i].report_outcome(
                    reports[i],
                    after_report[i],
                ),
            after_sleep.len() == attempts,
            forall|i: int|
                0 <= i < attempts ==> #[trigger] after_report[i].sleep_outcome(
                    options.retry_delay_ms,
                    after_sleep[i],
                ),
            forall|i: int| 0 <= i < attempts - 1 ==> #[trigger] after_sleep[i] == before[i + 1],
            attempts > 0 ==> after_sleep[attempts - 1] == *runtime,
            forall|i: int|
                0 <= i < attempts ==> (#[trigger] outcomes[i] matches Err(e) && spec_is_retriable(e)
                    && is_retry_report(*options, (i + 1) as nat, e, reports[i])),
        decreases max - attempts,
    {
        let ghost state_before = *runtime;
        attempts = attempts + 1;
        let outcome = runtime.attempt();
        proof {
            outcomes = outcomes.push(outcome);
            before = before.push(state_before);
            after_attempt = after_attempt.push(*runtime);
        }
        match outcome {
            Ok(m) => {
                let res = Ok::<String, String>(m);
                proof {
                    assert forall|i: int| 0 <= i < outcomes.len() - 1 implies #[trigger] after_attempt[i].report_outcome(
                        reports[i],
                        after_report[i],
                    ) && after_report[i].sleep_outcome(options.retry_delay_ms, before[i + 1]) by {
                        assert(after_sleep[i] == before[i + 1]);
                    }
                    assert(retry_run_ends(*options, outcomes, reports, res));
                    assert(retry_run_calls(
                        *options,
                        start,
                        *runtime,
                        outcomes,
                        reports,
                        before,
                        after_attempt,
                        after_report,
                    ));
                }
                return res;
            },
            Err(error) => {
                let ghost e = error;
                match next_retry_step(options, attempts, error) {
                    RetryStep::GiveUp(m) => {
                        let res = Err::<String, String>(m);
                        proof {
                            assert forall|i: int| 0 <= i < outcomes.len() - 1 implies #[trigger] after_attempt[i].report_outcome(
                                reports[i],
                                after_report[i],
                            ) && after_report[i].sleep_outcome(options.retry_delay_ms, before[i + 1]) by {
                                assert(after_sleep[i] == before[i + 1]);
                            }
                            assert(outcomes.last() == Err::<String, ClientRunError>(e));
                            assert(retry_run_ends(*options, outcomes, reports, res));
                            assert(retry_run_calls(
                                *options,
                                start,
                                *runtime,
                                outcomes,
                                reports,
                                before,
                                after_attempt,
                                after_report,
                            ));
                        }
                        return res;
                    },
                    RetryStep::Retry(report) => {
                        runtime.report(&report);
                        let ghost reported = *runtime;
                        runtime.sleep(options.retry_delay_ms);
                        proof {
                            reports = reports.push(report);
                            after_report = after_report.push(reported);
                            after_sleep = after_sleep.push(*runtime);
                        }
                    },
                }
            },
        }
    }
}

/// A lost connection, an interrupted stream, a locked session or a
/// logged-out user ends the run with a failure that the client retries.
pub proof fn lemma_lock_logout_and_network_failures_are_retried(message: String)
    ensures
        spec_is_retriable(ClientRunError::Connection(message)),
        spec_is_retriable(ClientRunError::VideoStreamInterrupted(message)),
        spec_is_retriable(ClientRunError::HostStatus { code: ErrorCode::SessionLocked, message }),
        spec_is_retriable(ClientRunError::HostStatus { code: ErrorCode::NoUserLoggedIn, message }),
        !spec_is_retriable(ClientRunError::Fatal(message)),
{
}

/// Whether `s` starts with `prefix`.
pub open spec fn has_prefix(s: Seq<char>, prefix: Seq<char>) -> bool {
    prefix.len() <= s.len() && s.take(prefix.len() as int) == prefix
}

/// Whether `s` starts with `prefix`.
pub fn starts_with(s: &str, prefix: &str) -> (res: bool)
    ensures
        res == has_prefix(s@, prefix@),
{
    let n = prefix.unicode_len();
    let m = s.unicode_len();
    if n > m {
        return false;
    }
    let mut i: usize = 0;
    while i < n
        invariant
            n == prefix@.len(),
            m == s@.len(),
            n <= m,
            i <= n,
            forall|k: int| 0 <= k < i ==> s@[k] == prefix@[k],
        decreases n - i,
    {
        if s.get_char(i) != prefix.get_char(i) {
            assert(s@.take(n as int)[i as int] != prefix@[i as int]);
            return false;
        }
        i = i + 1;
    }
    assert(s@.take(n as int) =~= prefix@);
    true
}

/// `message` under `context`, unless it is already there: a message that
/// starts with the context and a colon (ASCII or full-width) is kept, any
/// other gets `context: ` in front.
pub open spec fn context_once_text(context: Seq<char>, message: Seq<char>) -> Seq<char> {
    if has_prefix(message, context + ": "@) || has_prefix(message, context + "："@) {
        message
    } else {
        context + ": "@ + message
    }
}

/// Puts `message` under `context` once.
pub fn prepend_context_once(context: &str, message: String) -> (res: String)
    ensures
        res@ == context_once_text(context@, message@),
{
    let ascii = concat2(context, ": ");
    let full_width = concat2(context, "：");
    if starts_with(message.as_str(), ascii.as_str()) || starts_with(
        message.as_str(),
        full_width.as_str(),
    ) {
        return message;
    }
    let mut res = ascii;
    res.append(message.as_str());
    res
}

/// The wording of a failed read of the encoded stream: a message that
/// already says the stream was interrupted is kept, any other is put under
/// that heading.
pub open spec fn h264_read_error_text(message: Seq<char>) -> Seq<char> {
    if has_prefix(message, "视频流中断: "@) || has_prefix(message, "视频流中断："@) {
        message
    } else {
        context_once_text("视频流中断"@, "读取宿主端 H.264 编码视频帧失败: "@ + message)
    }
}

/// The wording of a failed read of the encoded stream.
pub fn format_h264_encoded_read_error(message: &str) -> (res: String)
    ensures
        res@ == h264_read_error_text(message@),
{
    if starts_with(message, "视频流中断: ") || starts_with(message, "视频流中断：") {
        return owned(message);
    }
    prepend_context_once("视频流中断", concat2("读取宿主端 H.264 编码视频帧失败: ", message))
}

/// Classifies a stream failure: one whose message mentions an interrupted
/// stream can be retried, any other is fatal.
pub fn classify_video_stream_error(message: String) -> (res: ClientRunError)
    ensures
        contains_seq(message@, "视频流中断"@) ==> res == ClientRunError::VideoStreamInterrupted(
            message,
        ),
        !contains_seq(message@, "视频流中断"@) ==> res == ClientRunError::Fatal(message),
{
    if str_contains(message.as_str(), "视频流中断") {
        ClientRunError::VideoStreamInterrupted(message)
    } else {
        ClientRunError::Fatal(message)
    }
}

/// The message listing the Linux targets the client supports.
pub fn supported_targets_message() -> (res: String)
    ensures
        res@ == "客户端支持平台：Linux x86_64 ("@ + CLIENT_TARGET_X86_64@
            + ")；Linux aarch64/ARM64 ("@ + CLIENT_TARGET_AARCH64@ + ")"@,
{
    let mut res = concat3("客户端支持平台：Linux x86_64 (", CLIENT_TARGET_X86_64, ")；Linux aarch64/ARM64 (");
    res.append(CLIENT_TARGET_AARCH64);
    res.append(")");
    res
}

/// The summary printed when a client configuration is valid.
pub fn validate_summary_message(endpoint: &str) -> (res: String)
    ensures
        res@ == "客户端配置有效，smoke-test 摘要：host:port "@ + endpoint@ + "，支持目标 "@
            + CLIENT_TARGET_X86_64@ + ", "@ + CLIENT_TARGET_AARCH64@ + "。"@,
{
    let mut res = concat3("客户端配置有效，smoke-test 摘要：host:port ", endpoint, "，支持目标 ");
    res.append(CLIENT_TARGET_X86_64);
    res.append(", ");
    res.append(CLIENT_TARGET_AARCH64);
    res.append("。");
    res
}

/// The message printed once the control channel works and the first video
/// response passed the decoding checks.
pub fn control_channel_ready_message(endpoint: &str) -> (res: String)
    ensures
        res@ == "客户端配置有效，已建立宿主端控制通道 "@ + endpoint@
            + "，已发送会话启动请求。客户端已完成宿主端首个视频响应的解码边界校验；宿主端已接入基础 Windows 输入注入。"@,
{
    concat3(
        "客户端配置有效，已建立宿主端控制通道 ",
        endpoint,
        "，已发送会话启动请求。客户端已完成宿主端首个视频响应的解码边界校验；宿主端已接入基础 Windows 输入注入。",
    )
}

/// How the client shows the stream.
#[derive(Debug, Clone, Copy, PartialEq, Eq, Structural)]
pub enum ClientRenderMode {
    SdlWindow,
    ProtocolOnly,
}

impl ClientRenderMode {
    /// A window on Linux, where SDL rendering exists; protocol checks only elsewhere.
    pub fn for_platform(is_linux: bool) -> (res: Self)
        ensures
            res == if is_linux {
                ClientRenderMode::SdlWindow
            } else {
                ClientRenderMode::ProtocolOnly
            },
    {
        if is_linux {
            ClientRenderMode::SdlWindow
        } else {
            ClientRenderMode::ProtocolOnly
        }
    }
}

/// Why an encoded frame of the stream is refused, if it is: it must be
/// H.264, pass the protocol check, and not go back in sequence.
pub open spec fn frame_sequence_error(
    frame: EncodedVideoFrame,
    frame_check: Result<(), EncodedVideoFrameError>,
    last: Option<u64>,
) -> Option<Seq<char>> {
    if frame.codec != VideoCodec::H264 {
        Some("宿主端编码帧 codec 无效: "@ + codec_name(frame.codec))
    } else if frame_check is Err {
        Some("宿主端 H.264 编码帧无效: "@ + frame_check->Err_0.description@)
    } else if last is Some && frame.sequence_number < last->Some_0 {
        Some(
            "宿主端 H.264 编码帧序号回退: 上一帧 "@ + decimal(last->Some_0 as nat) + "，当前帧 "@
                + decimal(frame.sequence_number as nat),
        )
    } else {
        None
    }
}

/// Checks the next frame of the stream and, when it passes, records its
/// sequence number as the last one seen.
pub fn validate_h264_frame_sequence(
    frame: &EncodedVideoFrame,
    frame_check: Result<(), EncodedVideoFrameError>,
    last_sequence_number: &mut Option<u64>,
) -> (res: Result<(), String>)
    ensures
        match frame_sequence_error(*frame, frame_check, *old(last_sequence_number)) {
            None => res is Ok && *final(last_sequence_number) == Some(frame.sequence_number),
            Some(m) => (res matches Err(got) && got@ == m) && *final(last_sequence_number) == *old(
                last_sequence_number,
            ),
        },
{
    if frame.codec != VideoCodec::H264 {
        let name = codec_name_string(frame.codec);
        return Err(concat2("宿主端编码帧 codec 无效: ", name.as_str()));
    }
    match frame_check {
        Ok(()) => {},
        Err(e) => {
            return Err(concat2("宿主端 H.264 编码帧无效: ", e.description.as_str()));
        },
    }
    match *last_sequence_number {
        Some(previous) => {
            if frame.sequence_number < previous {
                let prev = decimal_string(previous);
                let cur = decimal_string(frame.sequence_number);
                let mut res = concat3("宿主端 H.264 编码帧序号回退: 上一帧 ", prev.as_str(), "，当前帧 ");
                res.append(cur.as_str());
                return Err(res);
            }
        },
        None => {},
    }
    *last_sequence_number = Some(frame.sequence_number);
    Ok(())
}

/// Every frame a stream check accepts carries a sequence number no smaller
/// than the last one accepted before it.
pub proof fn lemma_accepted_sequence_is_monotone(
    frame: EncodedVideoFrame,
    frame_check: Result<(), EncodedVideoFrameError>,
    last: u64,
)
    requires
        frame_sequence_error(frame, frame_check, Some(last)) is None,
    ensures
        frame.sequence_number >= last,
{
}

/// What was received of an encoded stream.
#[derive(Debug, Clone, Copy, PartialEq, Eq, Structural)]
pub struct EncodedVideoReceiveSummary {
    pub frames: usize,
    pub last_sequence_number: u64,
}

/// The summary of a stream, which needs at least one frame.
pub fn encoded_video_receive_summary(frames: usize, last_sequence_number: Option<u64>) -> (res: Result<
    EncodedVideoReceiveSummary,
    String,
>)
    ensures
        match last_sequence_number {
            Some(n) => res == Ok::<EncodedVideoReceiveSummary, String>(
                EncodedVideoReceiveSummary { frames, last_sequence_number: n },
            ),
            None => res matches Err(m) && m@ == "未收到 H.264 编码视频帧"@,
        },
{
    match last_sequence_number {
        Some(n) => Ok(EncodedVideoReceiveSummary { frames, last_sequence_number: n }),
        None => Err(owned("未收到 H.264 编码视频帧")),
    }
}

/// Why reading the encoded stream stopped.
#[derive(Debug, Clone, PartialEq, Eq)]
pub enum EncodedVideoStreamReadError {
    Host(String),
    InvalidControl(String),
    Interrupted(String),
}

/// The wording of a stream read failure: host and control errors as they
/// are, interruptions under the interrupted-stream heading.
pub fn format_h264_encoded_stream_error(error: EncodedVideoStreamReadError) -> (res: String)
    ensures
        match error {
            EncodedVideoStreamReadError::Host(m) => res@ == m@,
            EncodedVideoStreamReadError::InvalidControl(m) => res@ == m@,
            EncodedVideoStreamReadError::Interrupted(m) => res@ == h264_read_error_text(m@),
        },
{
    match error {
        EncodedVideoStreamReadError::Host(m) => m,
        EncodedVideoStreamReadError::InvalidControl(m) => m,
        EncodedVideoStreamReadError::Interrupted(m) => format_h264_encoded_read_error(m.as_str()),
    }
}

/// A control message received inside the encoded stream.
#[derive(Debug, Clone, PartialEq, Eq)]
pub enum StreamControlMessage {
    EncodedVideoFrame(EncodedVideoFrame),
    Error { code: ErrorCode, message: String },
    Goodbye,
    /// Any other message, by its debug rendering.
    Other(String),
}

/// What the stream yields next.
#[derive(Debug, Clone, PartialEq, Eq)]
pub enum NextEncodedVideoStreamItem {
    Frame(EncodedVideoFrame),
    HostProgramExited(String),
    Goodbye,
}

/// Interprets a message of the encoded stream: frames and goodbyes pass, a
/// program-exit error ends the stream with the host's words, other host
/// errors and any other message fail the read.
pub fn decode_h264_stream_message(message: StreamControlMessage) -> (res: Result<
    NextEncodedVideoStreamItem,
    EncodedVideoStreamReadError,
>)
    ensures
        match message {
            StreamControlMessage::EncodedVideoFrame(f) => res == Ok::<
                NextEncodedVideoStreamItem,
                EncodedVideoStreamReadError,
            >(NextEncodedVideoStreamItem::Frame(f)),
            StreamControlMessage::Error { code, message: m } => if code == ErrorCode::ProgramExited {
                res matches Ok(NextEncodedVideoStreamItem::HostProgramExited(t)) && t@
                    == host_error_prefix(code) + m@
            } else {
                res matches Err(EncodedVideoStreamReadError::Host(t)) && t@ == host_error_prefix(code)
                    + m@
            },
            StreamControlMessage::Goodbye => res == Ok::<
                NextEncodedVideoStreamItem,
                EncodedVideoStreamReadError,
            >(NextEncodedVideoStreamItem::Goodbye),
            StreamControlMessage::Other(d) => res matches Err(
                EncodedVideoStreamReadError::InvalidControl(t),
            ) && t@ == "宿主端 H.264 编码流中收到无效控制消息: "@ + d@,
        },
{
    match message {
        StreamControlMessage::EncodedVideoFrame(f) => Ok(NextEncodedVideoStreamItem::Frame(f)),
        StreamControlMessage::Error { code, message } => {
            let text = format_host_error(code, message.as_str());
            if code == ErrorCode::ProgramExited {
                Ok(NextEncodedVideoStreamItem::HostProgramExited(text))
            } else {
                Err(EncodedVideoStreamReadError::Host(text))
            }
        },
        StreamControlMessage::Goodbye => Ok(NextEncodedVideoStreamItem::Goodbye),
        StreamControlMessage::Other(d) => Err(
            EncodedVideoStreamReadError::InvalidControl(
                concat2("宿主端 H.264 编码流中收到无效控制消息: ", d.as_str()),
            ),
        ),
    }
}

/// The kind of control message the client failed to send.
#[derive(Debug, Clone, Copy, PartialEq, Eq, Structural)]
pub enum ClientControlMessageKind {
    InputEvent,
    Heartbeat,
    StopSession,
    Other,
}

/// The wording of a failed control write: what was being sent, then the error.
pub fn format_client_control_write_error(kind: ClientControlMessageKind, error: &str) -> (res: String)
    ensures
        res@ == match kind {
            ClientControlMessageKind::InputEvent => "发送客户端输入事件失败"@,
            ClientControlMessageKind::Heartbeat => "发送客户端心跳失败"@,
            ClientControlMessageKind::StopSession => "发送客户端停止会话消息失败"@,
            ClientControlMessageKind::Other => "发送客户端控制消息失败"@,
        } + ": "@ + error@,
{
    let action = match kind {
        ClientControlMessageKind::InputEvent => "发送客户端输入事件失败",
        ClientControlMessageKind::Heartbeat => "发送客户端心跳失败",
        ClientControlMessageKind::StopSession => "发送客户端停止会话消息失败",
        ClientControlMessageKind::Other => "发送客户端控制消息失败",
    };
    concat3(action, ": ", error)
}

/// How a received H.264 stream ended: after a number of frames (a goodbye
/// or the frame limit), or because the host's program exited, which the
/// client treats as a normal end of the session.
#[derive(Debug, Clone, PartialEq, Eq)]
pub enum VideoStreamEnd {
    Frames(EncodedVideoReceiveSummary),
    HostProgramExited(String),
}

/// What the client does with the next item of the encoded stream.
#[derive(Debug, PartialEq, Eq)]
pub enum H264StreamStep {
    /// Check and decode this frame, then read on.
    Decode(EncodedVideoFrame),
    /// Stop reading, with this result.
    Finish(Result<VideoStreamEnd, String>),
}

/// Refuses to receive zero frames.
pub fn check_h264_frame_count(frame_count: usize) -> (res: Result<(), String>)
    ensures
        frame_count != 0 ==> res is Ok,
        frame_count == 0 ==> (res matches Err(m) && m@ == "H.264 编码视频帧接收数量不能为 0"@),
{
    if frame_count == 0 {
        return Err(owned("H.264 编码视频帧接收数量不能为 0"));
    }
    Ok(())
}

/// The end of a stream after `frames` frames: their summary, which needs at
/// least one frame.
pub fn h264_stream_frames_end(frames: usize, last_sequence_number: Option<u64>) -> (res: Result<
    VideoStreamEnd,
    String,
>)
    ensures
        match last_sequence_number {
            Some(n) => res == Ok::<VideoStreamEnd, String>(
                VideoStreamEnd::Frames(EncodedVideoReceiveSummary { frames, last_sequence_number: n }),
            ),
            None => res matches Err(m) && m@ == "未收到 H.264 编码视频帧"@,
        },
{
    match encoded_video_receive_summary(frames, last_sequence_number) {
        Ok(summary) => Ok(VideoStreamEnd::Frames(summary)),
        Err(m) => Err(m),
    }
}

/// The step for the next stream item, after `frames` frames of which the
/// last had `last_sequence_number`: a frame is decoded; a goodbye ends the
/// stream with its summary; the exit of the host's program ends it normally
/// with the host's words.
pub fn next_h264_stream_step(
    item: NextEncodedVideoStreamItem,
    frames: usize,
    last_sequence_number: Option<u64>,
) -> (res: H264StreamStep)
    ensures
        match item {
            NextEncodedVideoStreamItem::Frame(f) => res == H264StreamStep::Decode(f),
            NextEncodedVideoStreamItem::Goodbye => match last_sequence_number {
                Some(n) => res == H264StreamStep::Finish(
                    Ok(
                        VideoStreamEnd::Frames(
                            EncodedVideoReceiveSummary { frames, last_sequence_number: n },
                        ),
                    ),
                ),
                None => res matches H264StreamStep::Finish(Err(m)) && m@
                    == "未收到 H.264 编码视频帧"@,
            },
            NextEncodedVideoStreamItem::HostProgramExited(m) => res == H264StreamStep::Finish(
                Ok(VideoStreamEnd::HostProgramExited(m)),
            ),
        },
{
    match item {
        NextEncodedVideoStreamItem::Frame(f) => H264StreamStep::Decode(f),
        NextEncodedVideoStreamItem::Goodbye => H264StreamStep::Finish(
            h264_stream_frames_end(frames, last_sequence_number),
        ),
        NextEncodedVideoStreamItem::HostProgramExited(m) => H264StreamStep::Finish(
            Ok(VideoStreamEnd::HostProgramExited(m)),
        ),
    }
}

/// What the windowed client loop does next: go on, or end the stream with
/// this result.
#[derive(Debug, PartialEq, Eq)]
pub enum RenderLoopStep {
    Continue,
    Finish(Result<VideoStreamEnd, String>),
}

/// Whether `step` ends the stream after `frames` frames: with their summary,
/// or with the no-frame error when none was received.
pub open spec fn is_frames_end_step(
    step: RenderLoopStep,
    frames: usize,
    last_sequence_number: Option<u64>,
) -> bool {
    match last_sequence_number {
        Some(n) => step == RenderLoopStep::Finish(
            Ok(VideoStreamEnd::Frames(EncodedVideoReceiveSummary { frames, last_sequence_number: n })),
        ),
        None => step matches RenderLoopStep::Finish(Err(m)) && m@ == "未收到 H.264 编码视频帧"@,
    }
}

fn frames_end(frames: usize, last_sequence_number: Option<u64>) -> (res: RenderLoopStep)
    ensures
        is_frames_end_step(res, frames, last_sequence_number),
{
    RenderLoopStep::Finish(h264_stream_frames_end(frames, last_sequence_number))
}

/// Before each round of the windowed loop: once `frames` frames have been
/// shown and the loop has a frame limit that they reach, the stream ends with
/// their summary.
pub fn render_frame_limit_step(
    frame_limit: Option<usize>,
    frames: usize,
    last_sequence_number: Option<u64>,
) -> (res: RenderLoopStep)
    ensures
        (frame_limit matches Some(l) && frames >= l) ==> is_frames_end_step(
            res,
            frames,
            last_sequence_number,
        ),
        !(frame_limit matches Some(l) && frames >= l) ==> res == RenderLoopStep::Continue,
{
    match frame_limit {
        Some(limit) => if frames >= limit {
            frames_end(frames, last_sequence_number)
        } else {
            RenderLoopStep::Continue
        },
        None => RenderLoopStep::Continue,
    }
}

/// After the window's input was polled: when the user closed the window, the
/// client sends a stop-session request (and no heartbeat after it) and the
/// stream ends with the summary of the frames shown; otherwise the loop sends
/// the input events and a heartbeat.
pub fn render_input_poll_step(quit: bool, frames: usize, last_sequence_number: Option<u64>) -> (res:
    RenderLoopStep)
    ensures
        quit ==> is_frames_end_step(res, frames, last_sequence_number),
        !quit ==> res == RenderLoopStep::Continue,
{
    if quit {
        frames_end(frames, last_sequence_number)
    } else {
        RenderLoopStep::Continue
    }
}

/// After writing an input event or a heartbeat: when the write found the
/// control stream closed by the host, the stream ends normally with the
/// summary of the frames shown.
pub fn render_control_write_step(closed: bool, frames: usize, last_sequence_number: Option<u64>) -> (res:
    RenderLoopStep)
    ensures
        closed ==> is_frames_end_step(res, frames, last_sequence_number),
        !closed ==> res == RenderLoopStep::Continue,
{
    if closed {
        frames_end(frames, last_sequence_number)
    } else {
        RenderLoopStep::Continue
    }
}

/// What the windowed loop does with what the stream has available.
#[derive(Debug, PartialEq, Eq)]
pub enum RenderStreamStep {
    /// Decode this frame and keep it as the latest one, replacing an earlier
    /// frame of this round that was not shown; then read on.
    Decode(EncodedVideoFrame),
    /// Show the latest decoded frame of this round, if any; then end the
    /// stream with this result, or go on with the loop when there is none.
    RenderLatest(Option<Result<VideoStreamEnd, String>>),
}

/// The step for what the stream has available (`None`: nothing for now),
/// after `frames` frames: frames are decoded and only the latest is shown;
/// a goodbye, or the exit of the host's program, shows the latest frame and
/// ends the stream; with nothing available the latest frame is shown and the
/// loop goes on.
pub fn next_render_stream_step(
    item: Option<NextEncodedVideoStreamItem>,
    frames: usize,
    last_sequence_number: Option<u64>,
) -> (res: RenderStreamStep)
    ensures
        match item {
            None => res == RenderStreamStep::RenderLatest(None),
            Some(NextEncodedVideoStreamItem::Frame(f)) => res == RenderStreamStep::Decode(f),
            Some(NextEncodedVideoStreamItem::Goodbye) => match last_sequence_number {
                Some(n) => res == RenderStreamStep::RenderLatest(
                    Some(
                        Ok(
                            VideoStreamEnd::Frames(
                                EncodedVideoReceiveSummary { frames, last_sequence_number: n },
                            ),
                        ),
                    ),
                ),
                None => res matches RenderStreamStep::RenderLatest(Some(Err(m))) && m@
                    == "未收到 H.264 编码视频帧"@,
            },
            Some(NextEncodedVideoStreamItem::HostProgramExited(m)) => res
                == RenderStreamStep::RenderLatest(Some(Ok(VideoStreamEnd::HostProgramExited(m)))),
        },
{
    match item {
        None => RenderStreamStep::RenderLatest(None),
        Some(item) => match next_h264_stream_step(item, frames, last_sequence_number) {
            H264StreamStep::Decode(f) => RenderStreamStep::Decode(f),
            H264StreamStep::Finish(end) => RenderStreamStep::RenderLatest(Some(end)),
        },
    }
}

} // verus!
