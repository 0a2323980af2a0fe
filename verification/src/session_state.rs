//! The host's desktop session state machine: whether a Windows user is logged
//! in, whether the desktop is locked, whether the agent runs, and what a client
//! asking for a remote session is answered.

use vstd::prelude::*;

use std::sync::Arc;
use vstd::rwlock::{RwLock, RwLockPredicate};

use crate::protocol::ErrorCode;

verus! {

/// The combined session state seen by clients.
#[derive(Debug, Clone, Copy, PartialEq, Eq, Structural)]
pub enum SessionState {
    NoUserLoggedIn,
    Unlocked,
    Locked,
    AgentUnavailable,
}

/// The interactive desktop's own state, independent of the agent.
#[derive(Debug, Clone, Copy, PartialEq, Eq, Structural)]
pub enum DesktopPhase {
    NoUserLoggedIn,
    Unlocked,
    Locked,
}

/// Events that move the session state machine.
#[derive(Debug, Clone, Copy, PartialEq, Eq, Structural)]
pub enum SessionEvent {
    UserLoggedIn,
    SessionUnlocked,
    SessionLocked,
    UserLoggedOut,
    AgentStarted,
    AgentExited,
}

/// Desktop events as the host observes them.
#[derive(Debug, Clone, Copy, PartialEq, Eq, Structural)]
pub enum HostDesktopEvent {
    UserLoggedIn,
    Locked,
    Unlocked,
    LoggedOut,
    AgentStarted,
    AgentExited,
}

/// The session event that a host desktop event stands for.
pub open spec fn session_event_of(event: HostDesktopEvent) -> SessionEvent {
    match event {
        HostDesktopEvent::UserLoggedIn => SessionEvent::UserLoggedIn,
        HostDesktopEvent::Locked => SessionEvent::SessionLocked,
        HostDesktopEvent::Unlocked => SessionEvent::SessionUnlocked,
        HostDesktopEvent::LoggedOut => SessionEvent::UserLoggedOut,
        HostDesktopEvent::AgentStarted => SessionEvent::AgentStarted,
        HostDesktopEvent::AgentExited => SessionEvent::AgentExited,
    }
}

impl SessionEvent {
    /// Converts a host desktop event into the session event it stands for.
    pub fn from_host_desktop_event(event: HostDesktopEvent) -> (res: SessionEvent)
        ensures
            res == session_event_of(event),
    {
        match event {
            HostDesktopEvent::UserLoggedIn => SessionEvent::UserLoggedIn,
            HostDesktopEvent::Locked => SessionEvent::SessionLocked,
            HostDesktopEvent::Unlocked => SessionEvent::SessionUnlocked,
            HostDesktopEvent::LoggedOut => SessionEvent::UserLoggedOut,
            HostDesktopEvent::AgentStarted => SessionEvent::AgentStarted,
            HostDesktopEvent::AgentExited => SessionEvent::AgentExited,
        }
    }
}

/// Why a remote session request is rejected.
#[derive(Debug, Clone, Copy, PartialEq, Eq, Structural)]
pub enum ClientSessionErrorCode {
    NoUserLoggedIn,
    SessionLocked,
    AgentUnavailable,
}

/// The answer to a client that asks for a remote session.
#[derive(Debug, Clone, Copy, PartialEq, Eq)]
pub enum RemoteSessionStatus {
    Allowed,
    Rejected { code: ClientSessionErrorCode, message: &'static str },
}

/// The message shown when no Windows user is logged in.
pub open spec fn no_user_message() -> &'static str {
    "当前没有 Windows 用户登录，无法启动远程会话。"
}

/// The message shown while the Windows session is locked.
pub open spec fn locked_message() -> &'static str {
    "Windows 会话已锁定，请先解锁后再启动远程会话。"
}

/// The message shown while the agent is not running.
pub open spec fn agent_unavailable_message() -> &'static str {
    "宿主端 Agent 不可用，正在等待重新拉起。"
}

/// The protocol error code for a rejection reason.
pub open spec fn protocol_error_code_of(code: ClientSessionErrorCode) -> ErrorCode {
    match code {
        ClientSessionErrorCode::NoUserLoggedIn => ErrorCode::NoUserLoggedIn,
        ClientSessionErrorCode::SessionLocked => ErrorCode::SessionLocked,
        ClientSessionErrorCode::AgentUnavailable => ErrorCode::AgentUnavailable,
    }
}

impl ClientSessionErrorCode {
    /// The protocol error code that reports this rejection reason.
    pub fn to_protocol_error_code(self) -> (res: ErrorCode)
        ensures
            res == protocol_error_code_of(self),
    {
        match self {
            ClientSessionErrorCode::NoUserLoggedIn => ErrorCode::NoUserLoggedIn,
            ClientSessionErrorCode::SessionLocked => ErrorCode::SessionLocked,
            ClientSessionErrorCode::AgentUnavailable => ErrorCode::AgentUnavailable,
        }
    }
}

impl RemoteSessionStatus {
    /// The protocol error a rejection is reported with; `None` when allowed.
    pub fn to_protocol_error(self) -> (res: Option<(ErrorCode, &'static str)>)
        ensures
            match self {
                RemoteSessionStatus::Allowed => res is None,
                RemoteSessionStatus::Rejected { code, message } => res == Some(
                    (protocol_error_code_of(code), message),
                ),
            },
    {
        match self {
            RemoteSessionStatus::Allowed => None,
            RemoteSessionStatus::Rejected { code, message } => Some(
                (code.to_protocol_error_code(), message),
            ),
        }
    }
}

/// The abstract state of a session state machine.
pub struct SessionModel {
    pub desktop: DesktopPhase,
    pub agent_running: bool,
}

impl SessionModel {
    /// The state after one event.
    pub open spec fn after(self, event: SessionEvent) -> SessionModel {
        match event {
            SessionEvent::UserLoggedIn | SessionEvent::SessionUnlocked => SessionModel {
                desktop: DesktopPhase::Unlocked,
                ..self
            },
            SessionEvent::SessionLocked => if self.desktop == DesktopPhase::NoUserLoggedIn {
                self
            } else {
                SessionModel { desktop: DesktopPhase::Locked, ..self }
            },
            SessionEvent::UserLoggedOut => SessionModel {
                desktop: DesktopPhase::NoUserLoggedIn,
                agent_running: false,
            },
            SessionEvent::AgentStarted => SessionModel { agent_running: true, ..self },
            SessionEvent::AgentExited => SessionModel { agent_running: false, ..self },
        }
    }

    /// The combined state that clients see.
    pub open spec fn state(self) -> SessionState {
        match self.desktop {
            DesktopPhase::NoUserLoggedIn => SessionState::NoUserLoggedIn,
            DesktopPhase::Locked => SessionState::Locked,
            DesktopPhase::Unlocked => if self.agent_running {
                SessionState::Unlocked
            } else {
                SessionState::AgentUnavailable
            },
        }
    }

    /// The answer to a remote session request in this state.
    pub open spec fn status(self) -> RemoteSessionStatus {
        match self.desktop {
            DesktopPhase::NoUserLoggedIn => RemoteSessionStatus::Rejected {
                code: ClientSessionErrorCode::NoUserLoggedIn,
                message: no_user_message(),
            },
            DesktopPhase::Locked => RemoteSessionStatus::Rejected {
                code: ClientSessionErrorCode::SessionLocked,
                message: locked_message(),
            },
            DesktopPhase::Unlocked => if self.agent_running {
                RemoteSessionStatus::Allowed
            } else {
                RemoteSessionStatus::Rejected {
                    code: ClientSessionErrorCode::AgentUnavailable,
                    message: agent_unavailable_message(),
                }
            },
        }
    }

    /// Whether the agent should be (re)started in this state.
    pub open spec fn wants_agent(self) -> bool {
        self.desktop == DesktopPhase::Unlocked && !self.agent_running
    }
}

/// The host's session state machine. A new machine has no user and no agent.
#[derive(Debug, Clone, Copy, PartialEq, Eq)]
pub struct SessionStateMachine {
    desktop_state: DesktopPhase,
    agent_running: bool,
}

impl View for SessionStateMachine {
    type V = SessionModel;

    closed spec fn view(&self) -> SessionModel {
        SessionModel { desktop: self.desktop_state, agent_running: self.agent_running }
    }
}

impl SessionStateMachine {
    /// A machine with no logged-in user and no running agent.
    pub fn new() -> (res: SessionStateMachine)
        ensures
            res@ == (SessionModel { desktop: DesktopPhase::NoUserLoggedIn, agent_running: false }),
    {
        SessionStateMachine { desktop_state: DesktopPhase::NoUserLoggedIn, agent_running: false }
    }

    /// The combined session state.
    pub fn state(&self) -> (res: SessionState)
        ensures
            res == self@.state(),
    {
        match self.desktop_state {
            DesktopPhase::NoUserLoggedIn => SessionState::NoUserLoggedIn,
            DesktopPhase::Locked => SessionState::Locked,
            DesktopPhase::Unlocked => if self.agent_running {
                SessionState::Unlocked
            } else {
                SessionState::AgentUnavailable
            },
        }
    }

    /// Applies one session event.
    pub fn apply(&mut self, event: SessionEvent)
        ensures
            final(self)@ == old(self)@.after(event),
    {
        match event {
            SessionEvent::UserLoggedIn | SessionEvent::SessionUnlocked => {
                self.desktop_state = DesktopPhase::Unlocked;
            },
            SessionEvent::SessionLocked => {
                if self.desktop_state != DesktopPhase::NoUserLoggedIn {
                    self.desktop_state = DesktopPhase::Locked;
                }
            },
            SessionEvent::UserLoggedOut => {
                self.desktop_state = DesktopPhase::NoUserLoggedIn;
                self.agent_running = false;
            },
            SessionEvent::AgentStarted => {
                self.agent_running = true;
            },
            SessionEvent::AgentExited => {
                self.agent_running = false;
            },
        }
    }

    /// Applies a host desktop event through the session event it stands for.
    pub fn apply_host_desktop_event(&mut self, event: HostDesktopEvent)
        ensures
            final(self)@ == old(self)@.after(session_event_of(event)),
    {
        self.apply(SessionEvent::from_host_desktop_event(event));
    }

    /// The answer to a client asking for a remote session now.
    pub fn remote_session_status(&self) -> (res: RemoteSessionStatus)
        ensures
            res == self@.status(),
    {
        match self.desktop_state {
            DesktopPhase::NoUserLoggedIn => RemoteSessionStatus::Rejected {
                code: ClientSessionErrorCode::NoUserLoggedIn,
                message: "当前没有 Windows 用户登录，无法启动远程会话。",
            },
            DesktopPhase::Locked => RemoteSessionStatus::Rejected {
                code: ClientSessionErrorCode::SessionLocked,
                message: "Windows 会话已锁定，请先解锁后再启动远程会话。",
            },
            DesktopPhase::Unlocked => if self.agent_running {
                RemoteSessionStatus::Allowed
            } else {
                RemoteSessionStatus::Rejected {
                    code: ClientSessionErrorCode::AgentUnavailable,
                    message: "宿主端 Agent 不可用，正在等待重新拉起。",
                }
            },
        }
    }

    /// Whether the agent should be started: a user is logged in and unlocked,
    /// and no agent runs.
    pub fn should_start_agent(&self) -> (res: bool)
        ensures
            res == self@.wants_agent(),
    {
        self.desktop_state == DesktopPhase::Unlocked && !self.agent_running
    }
}

/// The lock predicate of the shared session state: every machine may be
/// stored.
pub struct AnyMachine;

impl RwLockPredicate<SessionStateMachine> for AnyMachine {
    open spec fn inv(self, v: SessionStateMachine) -> bool {
        true
    }
}

/// `Arc::clone`: a second handle to the same allocation, so both handles
/// point to the one lock (the value is not copied).
#[verifier::external_body]
fn share_lock(lock: &Arc<RwLock<SessionStateMachine, AnyMachine>>) -> (res: Arc<
    RwLock<SessionStateMachine, AnyMachine>,
>)
    ensures
        res == *lock,
{
    Arc::clone(lock)
}

/// The host's session state shared by the session gate and the desktop
/// detector: one state machine behind a reader-writer lock. Every handle made
/// from another by `share` (or `clone`) holds the same lock, so an event
/// applied through one handle is seen through all of them.
///
/// Other handles may change the machine at any moment, so the contracts below
/// say which lock a handle holds and which machine it started from, not what
/// the lock holds now.
pub struct SharedSessionState {
    pub(crate) inner: Arc<RwLock<SessionStateMachine, AnyMachine>>,
    pub(crate) initial: Ghost<SessionModel>,
}

impl SharedSessionState {
    /// The lock that holds the machine; handles with the same lock share it.
    pub closed spec fn lock(&self) -> RwLock<SessionStateMachine, AnyMachine> {
        *self.inner
    }

    /// The state of the machine when the first handle to the lock was made.
    pub closed spec fn initial(&self) -> SessionModel {
        self.initial@
    }

    /// A shared state with no logged-in user and no running agent.
    pub fn new() -> (res: SharedSessionState)
        ensures
            res.initial() == (SessionModel { desktop: DesktopPhase::NoUserLoggedIn, agent_running: false }),
    {
        SharedSessionState::from_machine(SessionStateMachine::new())
    }

    /// A shared state that starts from (a copy of) the given machine.
    pub fn from_machine(machine: SessionStateMachine) -> (res: SharedSessionState)
        ensures
            res.initial() == machine@,
    {
        let ghost model = machine@;
        SharedSessionState {
            inner: Arc::new(RwLock::new(machine, Ghost(AnyMachine))),
            initial: Ghost(model),
        }
    }

    /// A second handle to the same machine.
    pub fn share(&self) -> (res: SharedSessionState)
        ensures
            res.lock() == self.lock(),
            res.initial() == self.initial(),
    {
        SharedSessionState { inner: share_lock(&self.inner), initial: Ghost(self.initial@) }
    }

    /// Applies one session event to the shared machine, under the write lock.
    pub fn apply(&self, event: SessionEvent) {
        let (mut machine, handle) = self.inner.acquire_write();
        machine.apply(event);
        handle.release_write(machine);
    }

    /// The answer to a client asking for a remote session now: the status of
    /// the machine as the read lock shows it.
    pub fn remote_session_status(&self) -> (res: RemoteSessionStatus)
        ensures
            exists|m: SessionModel| #[trigger] m.status() == res,
    {
        let handle = self.inner.acquire_read();
        let res = handle.borrow().remote_session_status();
        handle.release_read();
        res
    }
}


impl Clone for SharedSessionState {
    /// A second handle to the same machine.
    fn clone(&self) -> (res: SharedSessionState)
        ensures
            res.lock() == self.lock(),
            res.initial() == self.initial(),
    {
        self.share()
    }
}

/// A client is allowed a remote session exactly when the combined state is
/// `Unlocked`: a user is logged in, the desktop is unlocked and the agent runs.
pub proof fn lemma_allowed_iff_unlocked(m: SessionModel)
    ensures
        (m.status() == RemoteSessionStatus::Allowed) <==> (m.state() == SessionState::Unlocked),
        (m.status() == RemoteSessionStatus::Allowed) <==> (m.desktop == DesktopPhase::Unlocked
            && m.agent_running),
{
}

/// The agent should be started exactly when clients are told that it is
/// unavailable.
pub proof fn lemma_wants_agent_iff_agent_unavailable(m: SessionModel)
    ensures
        m.wants_agent() <==> (m.state() == SessionState::AgentUnavailable),
{
}

/// Agent events never change the desktop: starting the agent does not unlock a
/// locked desktop, and neither agent event logs a user in or out.
pub proof fn lemma_agent_events_keep_desktop(m: SessionModel)
    ensures
        m.after(SessionEvent::AgentStarted).desktop == m.desktop,
        m.after(SessionEvent::AgentExited).desktop == m.desktop,
        m.desktop == DesktopPhase::Locked ==> m.after(SessionEvent::AgentStarted).state()
            == SessionState::Locked,
{
}

/// Logging out releases the session from any state: no user is logged in, the
/// agent is considered stopped, nothing asks for it, and clients are rejected
/// until a new login.
pub proof fn lemma_logout_releases_session(m: SessionModel)
    ensures
        m.after(SessionEvent::UserLoggedOut).state() == SessionState::NoUserLoggedIn,
        !m.after(SessionEvent::UserLoggedOut).agent_running,
        !m.after(SessionEvent::UserLoggedOut).wants_agent(),
        m.after(SessionEvent::UserLoggedOut).status() == (RemoteSessionStatus::Rejected {
            code: ClientSessionErrorCode::NoUserLoggedIn,
            message: no_user_message(),
        }),
{
}

/// A lock notification without a logged-in user changes nothing.
pub proof fn lemma_lock_without_user_is_ignored(m: SessionModel)
    requires
        m.desktop == DesktopPhase::NoUserLoggedIn,
    ensures
        m.after(SessionEvent::SessionLocked) == m,
{
}

/// Applying the same event twice has the same effect as applying it once.
pub proof fn lemma_event_idempotent(m: SessionModel, event: SessionEvent)
    ensures
        m.after(event).after(event) == m.after(event),
{
}

/// Unlocking after a lock restores an unlocked session, agent state included.
pub proof fn lemma_lock_unlock_round_trip(m: SessionModel)
    requires
        m.desktop == DesktopPhase::Unlocked,
    ensures
        m.after(SessionEvent::SessionLocked).after(SessionEvent::SessionUnlocked) == m,
        m.after(SessionEvent::SessionLocked).status() == (RemoteSessionStatus::Rejected {
            code: ClientSessionErrorCode::SessionLocked,
            message: locked_message(),
        }),
{
}

/// When the agent exits the session becomes unavailable, and restarting the
/// agent restores exactly the state before the exit.
pub proof fn lemma_agent_restart_round_trip(m: SessionModel)
    requires
        m.agent_running,
    ensures
        m.after(SessionEvent::AgentExited).after(SessionEvent::AgentStarted) == m,
        m.desktop == DesktopPhase::Unlocked ==> m.after(SessionEvent::AgentExited).state()
            == SessionState::AgentUnavailable,
{
}

/// Agent events commute with login, unlock and lock events.
pub proof fn lemma_agent_and_desktop_events_commute(
    m: SessionModel,
    agent_event: SessionEvent,
    desktop_event: SessionEvent,
)
    requires
        agent_event == SessionEvent::AgentStarted || agent_event == SessionEvent::AgentExited,
        desktop_event != SessionEvent::UserLoggedOut,
        desktop_event != SessionEvent::AgentStarted,
        desktop_event != SessionEvent::AgentExited,
    ensures
        m.after(agent_event).after(desktop_event) == m.after(desktop_event).after(agent_event),
{
}

} // verus!
