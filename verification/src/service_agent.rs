//! How the host service checks the agent's answers to its commands: each
//! command expects one kind of response, and session commands expect the
//! session they named.

use vstd::prelude::*;

use crate::protocol::SessionEndReason;
use crate::text::{concat2, concat3, decimal, decimal_string};

verus! {

/// One end of the service/agent channel over a transport.
#[derive(Debug)]
pub struct ServiceIpcEndpoint<T> {
    transport: T,
}

impl<T> ServiceIpcEndpoint<T> {
    /// The transport the endpoint talks over.
    pub closed spec fn spec_transport(&self) -> T {
        self.transport
    }

    /// An endpoint over `transport`.
    pub fn new(transport: T) -> (res: Self)
        ensures
            res.spec_transport() == transport,
    {
        ServiceIpcEndpoint { transport }
    }

    /// Gives the transport back.
    pub fn into_inner(self) -> (res: T)
        ensures
            res == self.spec_transport(),
    {
        self.transport
    }
}

/// The service's side of the conversation with the agent.
#[derive(Debug)]
pub struct ServiceAgentCoordinator<T> {
    endpoint: ServiceIpcEndpoint<T>,
}

impl<T> ServiceAgentCoordinator<T> {
    /// The endpoint the coordinator talks through.
    pub closed spec fn spec_endpoint(&self) -> ServiceIpcEndpoint<T> {
        self.endpoint
    }

    /// A coordinator over `endpoint`.
    pub fn new(endpoint: ServiceIpcEndpoint<T>) -> (res: Self)
        ensures
            res.spec_endpoint() == endpoint,
    {
        ServiceAgentCoordinator { endpoint }
    }

    /// Gives the endpoint back.
    pub fn into_endpoint(self) -> (res: ServiceIpcEndpoint<T>)
        ensures
            res == self.spec_endpoint(),
    {
        self.endpoint
    }
}

/// A message from the agent to the service; `S` is the agent status it
/// reports.
#[derive(Debug, Clone, PartialEq, Eq)]
pub enum AgentResponse<S> {
    StatusChanged(S),
    SessionStarted { session_id: u64 },
    SessionEnded { session_id: u64, reason: SessionEndReason },
    /// The agent refused, with its reason (by debug rendering) and message.
    Error { reason: String, message: String },
}

/// Why a command to the agent failed. Transport failures carry the
/// transport error's description; unexpected responses their debug rendering.
#[derive(Debug, Clone, PartialEq, Eq)]
pub enum ServiceAgentError {
    QueryWrite { source: String },
    QueryRead { source: String },
    UnexpectedStatusResponse { response: String },
    QueryAgentError { reason: String, message: String },
    StartWrite { source: String },
    StartRead { source: String },
    UnexpectedStartResponse { response: String },
    MismatchedStartSessionId { expected: u64, actual: u64 },
    StartAgentError { reason: String, message: String },
    StopWrite { source: String },
    StopRead { source: String },
    UnexpectedStopResponse { response: String },
    MismatchedStopSessionId { expected: u64, actual: u64 },
    StopAgentError { reason: String, message: String },
}

/// The user-facing description of a command failure.
pub open spec fn service_agent_error_text(e: ServiceAgentError) -> Seq<char> {
    match e {
        ServiceAgentError::QueryWrite { source: src } => "发送 Agent 状态查询失败："@ + src@,
        ServiceAgentError::QueryRead { source: src } => "读取 Agent 状态响应失败："@ + src@,
        ServiceAgentError::UnexpectedStatusResponse { response } =>
            "Agent 状态查询响应类型错误：期望 StatusChanged，实际收到 "@ + response@,
        ServiceAgentError::QueryAgentError { reason, message } => "Agent 状态查询失败："@ + reason@
            + "："@ + message@,
        ServiceAgentError::StartWrite { source: src } => "发送 Agent 会话启动命令失败："@ + src@,
        ServiceAgentError::StartRead { source: src } => "读取 Agent 会话启动响应失败："@ + src@,
        ServiceAgentError::UnexpectedStartResponse { response } =>
            "Agent 会话启动响应类型错误：期望 SessionStarted，实际收到 "@ + response@,
        ServiceAgentError::MismatchedStartSessionId { expected, actual } =>
            "Agent 会话启动确认 session_id 不一致"@ + "：期望 "@ + decimal(expected as nat) + "，实际 "@
            + decimal(actual as nat),
        ServiceAgentError::StartAgentError { reason, message } => "Agent 会话启动失败："@ + reason@
            + "："@ + message@,
        ServiceAgentError::StopWrite { source: src } => "发送 Agent 会话停止命令失败："@ + src@,
        ServiceAgentError::StopRead { source: src } => "读取 Agent 会话停止响应失败："@ + src@,
        ServiceAgentError::UnexpectedStopResponse { response } =>
            "Agent 会话停止响应类型错误：期望 SessionEnded，实际收到 "@ + response@,
        ServiceAgentError::MismatchedStopSessionId { expected, actual } =>
            "Agent 会话停止确认 session_id 不一致"@ + "：期望 "@ + decimal(expected as nat) + "，实际 "@
            + decimal(actual as nat),
        ServiceAgentError::StopAgentError { reason, message } => "Agent 会话停止失败："@ + reason@
            + "："@ + message@,
    }
}

fn mismatch_text(prefix: &str, expected: u64, actual: u64) -> (res: String)
    ensures
        res@ == prefix@ + "：期望 "@ + decimal(expected as nat) + "，实际 "@ + decimal(actual as nat),
{
    let expected = decimal_string(expected);
    let actual = decimal_string(actual);
    let mut res = concat3(prefix, "：期望 ", expected.as_str());
    res.append("，实际 ");
    res.append(actual.as_str());
    res
}

impl ServiceAgentError {
    /// The user-facing description of the failure.
    pub fn message(&self) -> (res: String)
        ensures
            res@ == service_agent_error_text(*self),
    {
        match self {
            ServiceAgentError::QueryWrite { source: src } => concat2("发送 Agent 状态查询失败：", src.as_str()),
            ServiceAgentError::QueryRead { source: src } => concat2("读取 Agent 状态响应失败：", src.as_str()),
            ServiceAgentError::UnexpectedStatusResponse { response } => concat2(
                "Agent 状态查询响应类型错误：期望 StatusChanged，实际收到 ",
                response.as_str(),
            ),
            ServiceAgentError::QueryAgentError { reason, message } => {
                let mut res = concat3("Agent 状态查询失败：", reason.as_str(), "：");
                res.append(message.as_str());
                res
            },
            ServiceAgentError::StartWrite { source: src } => concat2(
                "发送 Agent 会话启动命令失败：",
                src.as_str(),
            ),
            ServiceAgentError::StartRead { source: src } => concat2(
                "读取 Agent 会话启动响应失败：",
                src.as_str(),
            ),
            ServiceAgentError::UnexpectedStartResponse { response } => concat2(
                "Agent 会话启动响应类型错误：期望 SessionStarted，实际收到 ",
                response.as_str(),
            ),
            ServiceAgentError::MismatchedStartSessionId { expected, actual } => mismatch_text(
                "Agent 会话启动确认 session_id 不一致",
                *expected,
                *actual,
            ),
            ServiceAgentError::StartAgentError { reason, message } => {
                let mut res = concat3("Agent 会话启动失败：", reason.as_str(), "：");
                res.append(message.as_str());
                res
            },
            ServiceAgentError::StopWrite { source: src } => concat2(
                "发送 Agent 会话停止命令失败：",
                src.as_str(),
            ),
            ServiceAgentError::StopRead { source: src } => concat2(
                "读取 Agent 会话停止响应失败：",
                src.as_str(),
            ),
            ServiceAgentError::UnexpectedStopResponse { response } => concat2(
                "Agent 会话停止响应类型错误：期望 SessionEnded，实际收到 ",
                response.as_str(),
            ),
            ServiceAgentError::MismatchedStopSessionId { expected, actual } => mismatch_text(
                "Agent 会话停止确认 session_id 不一致",
                *expected,
                *actual,
            ),
            ServiceAgentError::StopAgentError { reason, message } => {
                let mut res = concat3("Agent 会话停止失败：", reason.as_str(), "：");
                res.append(message.as_str());
                res
            },
        }
    }

    /// Whether the failure has an underlying transport error: exactly the
    /// write and read failures do.
    pub fn has_source(&self) -> (res: bool)
        ensures
            res == (self is QueryWrite || self is QueryRead || self is StartWrite
                || self is StartRead || self is StopWrite || self is StopRead),
    {
        match self {
            ServiceAgentError::QueryWrite { .. } | ServiceAgentError::QueryRead { .. }
            | ServiceAgentError::StartWrite { .. } | ServiceAgentError::StartRead { .. }
            | ServiceAgentError::StopWrite { .. } | ServiceAgentError::StopRead { .. } => true,
            _ => false,
        }
    }
}

/// The outcome of a status query from the agent's answer: the status it
/// reports, the agent's refusal with its reason and message, or an
/// unexpected response.
pub fn query_status_outcome<S>(response: AgentResponse<S>, response_debug: String) -> (res: Result<
    S,
    ServiceAgentError,
>)
    ensures
        match response {
            AgentResponse::StatusChanged(s) => res matches Ok(got) && got == s,
            AgentResponse::Error { reason, message } => res == Err::<S, ServiceAgentError>(
                ServiceAgentError::QueryAgentError { reason, message },
            ),
            _ => res == Err::<S, ServiceAgentError>(
                ServiceAgentError::UnexpectedStatusResponse { response: response_debug },
            ),
        },
{
    match response {
        AgentResponse::StatusChanged(s) => Ok(s),
        AgentResponse::Error { reason, message } => Err(
            ServiceAgentError::QueryAgentError { reason, message },
        ),
        _ => Err(ServiceAgentError::UnexpectedStatusResponse { response: response_debug }),
    }
}

/// The outcome of starting session `session_id` from the agent's answer:
/// the confirmed id when it is the one asked for; a mismatch, the agent's
/// refusal or an unexpected response otherwise.
pub fn start_session_outcome<S>(
    session_id: u64,
    response: AgentResponse<S>,
    response_debug: String,
) -> (res: Result<u64, ServiceAgentError>)
    ensures
        match response {
            AgentResponse::SessionStarted { session_id: confirmed } => if confirmed == session_id {
                res == Ok::<u64, ServiceAgentError>(session_id)
            } else {
                res == Err::<u64, ServiceAgentError>(
                    ServiceAgentError::MismatchedStartSessionId {
                        expected: session_id,
                        actual: confirmed,
                    },
                )
            },
            AgentResponse::Error { reason, message } => res == Err::<u64, ServiceAgentError>(
                ServiceAgentError::StartAgentError { reason, message },
            ),
            _ => res == Err::<u64, ServiceAgentError>(
                ServiceAgentError::UnexpectedStartResponse { response: response_debug },
            ),
        },
{
    match response {
        AgentResponse::SessionStarted { session_id: confirmed } => {
            if confirmed == session_id {
                Ok(confirmed)
            } else {
                Err(
                    ServiceAgentError::MismatchedStartSessionId {
                        expected: session_id,
                        actual: confirmed,
                    },
                )
            }
        },
        AgentResponse::Error { reason, message } => Err(
            ServiceAgentError::StartAgentError { reason, message },
        ),
        _ => Err(ServiceAgentError::UnexpectedStartResponse { response: response_debug }),
    }
}

/// The outcome of stopping session `session_id` from the agent's answer:
/// the reason the agent confirmed, when it confirmed that session; a
/// mismatch, the agent's refusal or an unexpected response otherwise.
pub fn stop_session_outcome<S>(
    session_id: u64,
    response: AgentResponse<S>,
    response_debug: String,
) -> (res: Result<SessionEndReason, ServiceAgentError>)
    ensures
        match response {
            AgentResponse::SessionEnded { session_id: confirmed, reason } => if confirmed
                == session_id {
                res == Ok::<SessionEndReason, ServiceAgentError>(reason)
            } else {
                res == Err::<SessionEndReason, ServiceAgentError>(
                    ServiceAgentError::MismatchedStopSessionId {
                        expected: session_id,
                        actual: confirmed,
                    },
                )
            },
            AgentResponse::Error { reason, message } => res == Err::<
                SessionEndReason,
                ServiceAgentError,
            >(ServiceAgentError::StopAgentError { reason, message }),
            _ => res == Err::<SessionEndReason, ServiceAgentError>(
                ServiceAgentError::UnexpectedStopResponse { response: response_debug },
            ),
        },
{
    match response {
        AgentResponse::SessionEnded { session_id: confirmed, reason } => {
            if confirmed == session_id {
                Ok(reason)
            } else {
                Err(
                    ServiceAgentError::MismatchedStopSessionId {
                        expected: session_id,
                        actual: confirmed,
                    },
                )
            }
        },
        AgentResponse::Error { reason, message } => Err(
            ServiceAgentError::StopAgentError { reason, message },
        ),
        _ => Err(ServiceAgentError::UnexpectedStopResponse { response: response_debug }),
    }
}

} // verus!
