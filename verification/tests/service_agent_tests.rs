use wincast::protocol::SessionEndReason;
use wincast::service_agent::{
    query_status_outcome, start_session_outcome, stop_session_outcome, AgentResponse,
    ServiceAgentCoordinator, ServiceAgentError, ServiceIpcEndpoint,
};

#[test]
fn coordinator_hands_back_its_endpoint_and_transport() {
    let coordinator = ServiceAgentCoordinator::new(ServiceIpcEndpoint::new(vec![1u8, 2, 3]));
    let endpoint = coordinator.into_endpoint();

    assert_eq!(endpoint.into_inner(), vec![1u8, 2, 3]);
}

#[test]
fn start_session_accepts_only_the_requested_session() {
    assert_eq!(
        start_session_outcome::<u8>(7, AgentResponse::SessionStarted { session_id: 7 }, String::new()),
        Ok(7)
    );
    let error = start_session_outcome::<u8>(
        7,
        AgentResponse::SessionStarted { session_id: 8 },
        String::new(),
    )
    .expect_err("mismatched session id");
    assert_eq!(
        error,
        ServiceAgentError::MismatchedStartSessionId {
            expected: 7,
            actual: 8
        }
    );
    assert_eq!(
        error.message(),
        "Agent 会话启动确认 session_id 不一致：期望 7，实际 8"
    );
}

#[test]
fn start_session_rejects_unexpected_agent_response() {
    let error = start_session_outcome::<u8>(
        1,
        AgentResponse::StatusChanged(0),
        "StatusChanged { status: Idle }".to_owned(),
    )
    .expect_err("status is not a start confirmation");

    assert_eq!(
        error.message(),
        "Agent 会话启动响应类型错误：期望 SessionStarted，实际收到 StatusChanged { status: Idle }"
    );
    assert!(!error.has_source());
}

#[test]
fn stop_session_returns_agent_error_response_with_reason_and_message() {
    let error = stop_session_outcome::<u8>(
        3,
        AgentResponse::Error {
            reason: "SessionNotFound".to_owned(),
            message: "没有会话".to_owned(),
        },
        String::new(),
    )
    .expect_err("agent refused");

    assert_eq!(error.message(), "Agent 会话停止失败：SessionNotFound：没有会话");
}

#[test]
fn stop_session_returns_confirmed_reason() {
    assert_eq!(
        stop_session_outcome::<u8>(
            3,
            AgentResponse::SessionEnded {
                session_id: 3,
                reason: SessionEndReason::DesktopUnavailable
            },
            String::new()
        ),
        Ok(SessionEndReason::DesktopUnavailable)
    );
    assert_eq!(
        stop_session_outcome::<u8>(
            3,
            AgentResponse::SessionEnded {
                session_id: 4,
                reason: SessionEndReason::DesktopUnavailable
            },
            String::new()
        ),
        Err(ServiceAgentError::MismatchedStopSessionId {
            expected: 3,
            actual: 4
        })
    );
}

#[test]
fn query_status_returns_reported_status() {
    assert_eq!(query_status_outcome(AgentResponse::StatusChanged(5u8), String::new()), Ok(5));
    assert_eq!(
        query_status_outcome::<u8>(AgentResponse::SessionStarted { session_id: 1 }, "SessionStarted".to_owned()),
        Err(ServiceAgentError::UnexpectedStatusResponse {
            response: "SessionStarted".to_owned()
        })
    );
}

#[test]
fn transport_failures_name_the_step_and_keep_a_source() {
    let error = ServiceAgentError::StartWrite {
        source: "连接已断开".to_owned(),
    };

    assert!(error.has_source());
    assert_eq!(error.message(), "发送 Agent 会话启动命令失败：连接已断开");
}

#[test]
fn query_status_returns_agent_error_response_with_reason_and_message() {
    let error = query_status_outcome::<u8>(
        AgentResponse::Error {
            reason: "AgentFailed".to_owned(),
            message: "Agent 状态采集失败".to_owned(),
        },
        "Error { reason: AgentFailed, message: \"Agent 状态采集失败\" }".to_owned(),
    )
    .expect_err("agent error response should fail status query");

    assert!(error.message().contains("Agent 状态查询失败"));
    assert!(error.message().contains("AgentFailed"));
    assert!(error.message().contains("Agent 状态采集失败"));
    assert_eq!(error.message(), "Agent 状态查询失败：AgentFailed：Agent 状态采集失败");
    assert!(!error.has_source());
}

#[test]
fn query_status_rejects_unexpected_agent_response() {
    let error = query_status_outcome::<u8>(
        AgentResponse::SessionStarted { session_id: 7 },
        "SessionStarted { session_id: 7 }".to_owned(),
    )
    .expect_err("non-status response should fail");

    assert!(error.message().contains("Agent 状态查询响应类型错误"));
    assert!(error.message().contains("SessionStarted"));
}

#[test]
fn start_session_rejects_mismatched_session_id() {
    let error = start_session_outcome::<u8>(
        42,
        AgentResponse::SessionStarted { session_id: 7 },
        String::new(),
    )
    .expect_err("mismatched session id should fail");

    assert!(error.message().contains("Agent 会话启动确认 session_id 不一致"));
    assert!(error.message().contains("期望 42"));
    assert!(error.message().contains("实际 7"));
}

#[test]
fn stop_session_rejects_mismatched_session_id() {
    let error = stop_session_outcome::<u8>(
        42,
        AgentResponse::SessionEnded {
            session_id: 7,
            reason: SessionEndReason::ServiceRequested,
        },
        String::new(),
    )
    .expect_err("mismatched session id should fail");

    assert!(error.message().contains("Agent 会话停止确认 session_id 不一致"));
    assert!(error.message().contains("期望 42"));
    assert!(error.message().contains("实际 7"));
}

#[test]
fn start_session_returns_agent_error_response_with_reason_and_message() {
    let error = start_session_outcome::<u8>(
        42,
        AgentResponse::Error {
            reason: "Locked".to_owned(),
            message: "桌面已锁定".to_owned(),
        },
        String::new(),
    )
    .expect_err("agent error response should fail");

    assert!(error.message().contains("Agent 会话启动失败"));
    assert!(error.message().contains("Locked"));
    assert!(error.message().contains("桌面已锁定"));
}

#[test]
fn stop_session_rejects_unexpected_agent_response() {
    let error = stop_session_outcome::<u8>(
        42,
        AgentResponse::StatusChanged(1),
        "StatusChanged(Idle)".to_owned(),
    )
    .expect_err("non-session-ended response should fail");

    assert!(error.message().contains("Agent 会话停止响应类型错误"));
    assert!(error.message().contains("StatusChanged"));
}
