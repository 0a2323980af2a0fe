//! Windows desktop session detection results and session-change
//! notifications, and how they drive the session state machine.

use vstd::prelude::*;

use crate::session_state::{
    DesktopPhase, HostDesktopEvent, SessionEvent, SessionModel, SessionStateMachine,
    SharedSessionState,
};
use crate::text::{concat2, decimal, decimal_string, owned};

verus! {

/// What a desktop probe found: whether a user is logged in and whether the
/// desktop is locked.
#[derive(Debug, Clone, Copy, PartialEq, Eq, Structural)]
pub struct DetectedDesktopSession {
    pub user_logged_in: bool,
    pub locked: bool,
}

/// Why probing the desktop session failed.
#[derive(Debug, Clone, Copy, PartialEq, Eq, Structural)]
pub enum DesktopSessionError {
    UnsupportedPlatform,
    QuerySessionInfoFailed { session_id: u32 },
    InvalidSessionInfoBuffer,
    InvalidSessionInfoLevel { level: u32 },
}

impl DesktopSessionError {
    /// The user-facing description of the error.
    pub fn message(&self) -> (res: String)
        ensures
            res@ == match *self {
                DesktopSessionError::UnsupportedPlatform => "运行时桌面状态探测只支持 Windows 平台"@,
                DesktopSessionError::QuerySessionInfoFailed { session_id } =>
                    "查询 Windows 会话扩展状态失败，session_id="@ + decimal(session_id as nat),
                DesktopSessionError::InvalidSessionInfoBuffer => "Windows 会话扩展状态返回数据无效"@,
                DesktopSessionError::InvalidSessionInfoLevel { level } =>
                    "Windows 会话扩展状态层级无效: "@ + decimal(level as nat),
            },
    {
        match *self {
            DesktopSessionError::UnsupportedPlatform => owned("运行时桌面状态探测只支持 Windows 平台"),
            DesktopSessionError::QuerySessionInfoFailed { session_id } => {
                let id = decimal_string(session_id as u64);
                concat2("查询 Windows 会话扩展状态失败，session_id=", id.as_str())
            },
            DesktopSessionError::InvalidSessionInfoBuffer => owned("Windows 会话扩展状态返回数据无效"),
            DesktopSessionError::InvalidSessionInfoLevel { level } => {
                let level = decimal_string(level as u64);
                concat2("Windows 会话扩展状态层级无效: ", level.as_str())
            },
        }
    }
}

/// Why registering for session-change notifications failed.
#[derive(Debug, Clone, Copy, PartialEq, Eq, Structural)]
pub enum SessionEventError {
    NotificationUnsupportedPlatform,
    RegisterNotificationFailed,
    UnregisterNotificationFailed,
}

impl SessionEventError {
    /// The user-facing description of the error.
    pub fn message(&self) -> (res: String)
        ensures
            res@ == match *self {
                SessionEventError::NotificationUnsupportedPlatform => "Windows 会话通知只支持 Windows 平台"@,
                SessionEventError::RegisterNotificationFailed => "注册 Windows 会话通知失败"@,
                SessionEventError::UnregisterNotificationFailed => "注销 Windows 会话通知失败"@,
            },
    {
        match *self {
            SessionEventError::NotificationUnsupportedPlatform => owned("Windows 会话通知只支持 Windows 平台"),
            SessionEventError::RegisterNotificationFailed => owned("注册 Windows 会话通知失败"),
            SessionEventError::UnregisterNotificationFailed => owned("注销 Windows 会话通知失败"),
        }
    }
}

/// The session state after a desktop probe found `detected`.
pub open spec fn after_detection(m: SessionModel, detected: DetectedDesktopSession) -> SessionModel {
    if !detected.user_logged_in {
        m.after(SessionEvent::UserLoggedOut)
    } else if detected.locked {
        m.after(SessionEvent::UserLoggedIn).after(SessionEvent::SessionLocked)
    } else {
        m.after(SessionEvent::UserLoggedIn).after(SessionEvent::SessionUnlocked)
    }
}

/// Something that probes the interactive desktop session.
/// Each detector states, through `detect_outcome`, which results it may give.
pub trait DesktopSessionDetector {
    /// Whether `res` is a result the probe may give. A detector that does not
    /// say admits every result.
    open spec fn detect_outcome(&self, res: Result<DetectedDesktopSession, DesktopSessionError>) -> bool {
        true
    }

    fn detect_desktop_session(&self) -> (res: Result<DetectedDesktopSession, DesktopSessionError>)
        ensures
            self.detect_outcome(res),
    ;
}

/// The probe of the running platform. Probing needs the Windows terminal
/// services API, which this build does not have, so it reports the platform
/// as unsupported.
#[derive(Debug, Clone, Copy, Default)]
pub struct PlatformDesktopSessionDetector;

impl DesktopSessionDetector for PlatformDesktopSessionDetector {
    /// The probe always reports the platform as unsupported.
    open spec fn detect_outcome(&self, res: Result<DetectedDesktopSession, DesktopSessionError>) -> bool {
        res == Err::<DetectedDesktopSession, DesktopSessionError>(
            DesktopSessionError::UnsupportedPlatform,
        )
    }

    fn detect_desktop_session(&self) -> (res: Result<DetectedDesktopSession, DesktopSessionError>)
        ensures
            res == Err::<DetectedDesktopSession, DesktopSessionError>(
                DesktopSessionError::UnsupportedPlatform,
            ),
    {
        Err(DesktopSessionError::UnsupportedPlatform)
    }
}

/// Probes the interactive desktop session of the running platform.
pub fn detect_desktop_session() -> (res: Result<DetectedDesktopSession, DesktopSessionError>)
    ensures
        res == Err::<DetectedDesktopSession, DesktopSessionError>(
            DesktopSessionError::UnsupportedPlatform,
        ),
{
    PlatformDesktopSessionDetector.detect_desktop_session()
}

/// Brings the machine in line with a desktop probe result: a logout when no
/// user is logged in, otherwise a login followed by a lock or an unlock.
pub fn apply_detected_desktop_session(
    machine: &mut SessionStateMachine,
    detected: DetectedDesktopSession,
)
    ensures
        final(machine)@ == after_detection(old(machine)@, detected),
{
    if !detected.user_logged_in {
        machine.apply(SessionEvent::UserLoggedOut);
        return ;
    }
    machine.apply(SessionEvent::UserLoggedIn);
    if detected.locked {
        machine.apply(SessionEvent::SessionLocked);
    } else {
        machine.apply(SessionEvent::SessionUnlocked);
    }
}

impl SharedSessionState {
    /// Brings the shared machine in line with a desktop probe result, under
    /// the write lock.
    pub fn apply_detected_desktop_session(&self, detected: DetectedDesktopSession) {
        let (mut machine, handle) = self.inner.acquire_write();
        apply_detected_desktop_session(&mut machine, detected);
        handle.release_write(machine);
    }
}

/// A fresh shared state that reflects a desktop probe result; the agent is not
/// running yet.
pub fn shared_session_state_from_detected_desktop_session(detected: DetectedDesktopSession) -> (res:
    SharedSessionState)
    ensures
        res.initial() == after_detection(
            SessionModel { desktop: DesktopPhase::NoUserLoggedIn, agent_running: false },
            detected,
        ),
{
    let mut machine = SessionStateMachine::new();
    apply_detected_desktop_session(&mut machine, detected);
    SharedSessionState::from_machine(machine)
}

/// A probe result sets the desktop phase alone: no user, locked or unlocked,
/// whatever the state before. The agent keeps running unless no user is
/// logged in.
pub proof fn lemma_detection_sets_desktop(m: SessionModel, detected: DetectedDesktopSession)
    ensures
        after_detection(m, detected).desktop == (if !detected.user_logged_in {
            DesktopPhase::NoUserLoggedIn
        } else if detected.locked {
            DesktopPhase::Locked
        } else {
            DesktopPhase::Unlocked
        }),
        after_detection(m, detected).agent_running == (detected.user_logged_in
            && m.agent_running),
{
}

/// Applying the same probe result twice has the effect of applying it once.
pub proof fn lemma_detection_idempotent(m: SessionModel, detected: DetectedDesktopSession)
    ensures
        after_detection(after_detection(m, detected), detected) == after_detection(m, detected),
{
}

/// Session-change notifications that Windows delivers to a window.
#[derive(Debug, Clone, Copy, PartialEq, Eq, Structural)]
pub enum WindowsSessionChange {
    ConsoleConnect,
    ConsoleDisconnect,
    SessionLock,
    SessionUnlock,
    SessionLogon,
    SessionLogoff,
    Other(u32),
}

/// `WTS_CONSOLE_CONNECT`.
pub const WTS_CONSOLE_CONNECT: u32 = 0x1;
/// `WTS_CONSOLE_DISCONNECT`.
pub const WTS_CONSOLE_DISCONNECT: u32 = 0x2;
/// `WTS_SESSION_LOGON`.
pub const WTS_SESSION_LOGON: u32 = 0x5;
/// `WTS_SESSION_LOGOFF`.
pub const WTS_SESSION_LOGOFF: u32 = 0x6;
/// `WTS_SESSION_LOCK`.
pub const WTS_SESSION_LOCK: u32 = 0x7;
/// `WTS_SESSION_UNLOCK`.
pub const WTS_SESSION_UNLOCK: u32 = 0x8;

/// The host desktop event a session change stands for, if any.
pub open spec fn host_desktop_event_of(change: WindowsSessionChange) -> Option<HostDesktopEvent> {
    match change {
        WindowsSessionChange::ConsoleConnect | WindowsSessionChange::Other(_) => None,
        WindowsSessionChange::ConsoleDisconnect | WindowsSessionChange::SessionLogoff => Some(
            HostDesktopEvent::LoggedOut,
        ),
        WindowsSessionChange::SessionLock => Some(HostDesktopEvent::Locked),
        WindowsSessionChange::SessionUnlock => Some(HostDesktopEvent::Unlocked),
        WindowsSessionChange::SessionLogon => Some(HostDesktopEvent::UserLoggedIn),
    }
}

/// The session change that a `WM_WTSSESSION_CHANGE` reason code reports.
pub open spec fn session_change_of(reason: u32) -> WindowsSessionChange {
    if reason == WTS_CONSOLE_CONNECT {
        WindowsSessionChange::ConsoleConnect
    } else if reason == WTS_CONSOLE_DISCONNECT {
        WindowsSessionChange::ConsoleDisconnect
    } else if reason == WTS_SESSION_LOCK {
        WindowsSessionChange::SessionLock
    } else if reason == WTS_SESSION_UNLOCK {
        WindowsSessionChange::SessionUnlock
    } else if reason == WTS_SESSION_LOGON {
        WindowsSessionChange::SessionLogon
    } else if reason == WTS_SESSION_LOGOFF {
        WindowsSessionChange::SessionLogoff
    } else {
        WindowsSessionChange::Other(reason)
    }
}

impl WindowsSessionChange {
    /// The host desktop event this change stands for; connects and unrelated
    /// changes stand for none.
    pub fn to_host_desktop_event(self) -> (res: Option<HostDesktopEvent>)
        ensures
            res == host_desktop_event_of(self),
    {
        match self {
            WindowsSessionChange::ConsoleConnect | WindowsSessionChange::Other(_) => None,
            WindowsSessionChange::ConsoleDisconnect | WindowsSessionChange::SessionLogoff => Some(
                HostDesktopEvent::LoggedOut,
            ),
            WindowsSessionChange::SessionLock => Some(HostDesktopEvent::Locked),
            WindowsSessionChange::SessionUnlock => Some(HostDesktopEvent::Unlocked),
            WindowsSessionChange::SessionLogon => Some(HostDesktopEvent::UserLoggedIn),
        }
    }

    /// Decodes a `WM_WTSSESSION_CHANGE` reason code.
    pub fn from_wts_session_change(reason: u32) -> (res: WindowsSessionChange)
        ensures
            res == session_change_of(reason),
    {
        if reason == WTS_CONSOLE_CONNECT {
            WindowsSessionChange::ConsoleConnect
        } else if reason == WTS_CONSOLE_DISCONNECT {
            WindowsSessionChange::ConsoleDisconnect
        } else if reason == WTS_SESSION_LOCK {
            WindowsSessionChange::SessionLock
        } else if reason == WTS_SESSION_UNLOCK {
            WindowsSessionChange::SessionUnlock
        } else if reason == WTS_SESSION_LOGON {
            WindowsSessionChange::SessionLogon
        } else if reason == WTS_SESSION_LOGOFF {
            WindowsSessionChange::SessionLogoff
        } else {
            WindowsSessionChange::Other(reason)
        }
    }
}

/// `WTSActive`.
pub const WINDOWS_SESSION_STATE_ACTIVE: i32 = 0;
/// `WTSConnected`.
pub const WINDOWS_SESSION_STATE_CONNECTED: i32 = 1;
/// A reason code decodes to the change that the Windows constant of the same
/// value names, and to no other: WTS_CONSOLE_CONNECT (1), WTS_CONSOLE_DISCONNECT
/// (2), WTS_SESSION_LOGON (5), WTS_SESSION_LOGOFF (6), WTS_SESSION_LOCK (7)
/// and WTS_SESSION_UNLOCK (8); any other code is kept as it is.
pub proof fn lemma_reason_codes_name_their_change(reason: u32)
    ensures
        (session_change_of(reason) == WindowsSessionChange::ConsoleConnect) <==> reason == 1,
        (session_change_of(reason) == WindowsSessionChange::ConsoleDisconnect) <==> reason == 2,
        (session_change_of(reason) == WindowsSessionChange::SessionLogon) <==> reason == 5,
        (session_change_of(reason) == WindowsSessionChange::SessionLogoff) <==> reason == 6,
        (session_change_of(reason) == WindowsSessionChange::SessionLock) <==> reason == 7,
        (session_change_of(reason) == WindowsSessionChange::SessionUnlock) <==> reason == 8,
        !(reason == 1 || reason == 2 || (5 <= reason && reason <= 8)) ==> session_change_of(reason)
            == WindowsSessionChange::Other(reason),
{
}

/// What a notification means for the host: a user logged in exactly on a
/// logon (5), logged out exactly on a logoff (6) or a console disconnect (2),
/// the desktop locked exactly on a lock (7) and unlocked exactly on an unlock
/// (8); every other reason code means nothing to the host.
pub proof fn lemma_notifications_drive_the_matching_host_event(reason: u32)
    ensures
        (host_desktop_event_of(session_change_of(reason)) == Some(HostDesktopEvent::UserLoggedIn))
            <==> reason == 5,
        (host_desktop_event_of(session_change_of(reason)) == Some(HostDesktopEvent::LoggedOut))
            <==> (reason == 6 || reason == 2),
        (host_desktop_event_of(session_change_of(reason)) == Some(HostDesktopEvent::Locked))
            <==> reason == 7,
        (host_desktop_event_of(session_change_of(reason)) == Some(HostDesktopEvent::Unlocked))
            <==> reason == 8,
        (host_desktop_event_of(session_change_of(reason)) is None) <==> !(reason == 2 || (5 <= reason
            && reason <= 8)),
{
}

/// `WTS_SESSIONSTATE_LOCK`.
pub const WINDOWS_SESSION_FLAG_LOCK: u32 = 0;
/// `WTS_SESSIONSTATE_UNLOCK`.
pub const WINDOWS_SESSION_FLAG_UNLOCK: u32 = 1;
/// `WTS_SESSIONSTATE_UNKNOWN`.
pub const WINDOWS_SESSION_FLAG_UNKNOWN: u32 = 0xffff_ffff;

/// What a `WTSINFOEX_LEVEL1` record says about the desktop: a user is logged
/// in when the user name is not empty; the desktop counts as locked unless a
/// user is logged in, the session is active or connected and the lock flag
/// says unlocked.
pub open spec fn detected_from_level1(
    session_state: i32,
    session_flags: u32,
    user_name: Seq<u16>,
) -> DetectedDesktopSession {
    let user_logged_in = user_name.len() > 0 && user_name[0] != 0;
    let connected = session_state == WINDOWS_SESSION_STATE_ACTIVE || session_state
        == WINDOWS_SESSION_STATE_CONNECTED;
    let flag_unlocked = session_flags == WINDOWS_SESSION_FLAG_UNLOCK;
    DetectedDesktopSession {
        user_logged_in,
        locked: !user_logged_in || !connected || !flag_unlocked,
    }
}

/// Reads a `WTSINFOEX_LEVEL1` record's state, flags and user name.
pub fn detected_desktop_session_from_session_info_ex_level1(
    session_state: i32,
    session_flags: u32,
    user_name: &[u16],
) -> (res: DetectedDesktopSession)
    ensures
        res == detected_from_level1(session_state, session_flags, user_name@),
{
    let user_logged_in = user_name.len() > 0 && user_name[0] != 0;
    let connected = session_state == WINDOWS_SESSION_STATE_ACTIVE || session_state
        == WINDOWS_SESSION_STATE_CONNECTED;
    let flag_locked = if session_flags == WINDOWS_SESSION_FLAG_UNLOCK {
        false
    } else {
        true
    };
    DetectedDesktopSession { user_logged_in, locked: !user_logged_in || !connected || flag_locked }
}

/// A record never reports an unlocked desktop without a logged-in user.
pub proof fn lemma_level1_without_user_is_locked(
    session_state: i32,
    session_flags: u32,
    user_name: Seq<u16>,
)
    ensures
        !detected_from_level1(session_state, session_flags, user_name).user_logged_in
            ==> detected_from_level1(session_state, session_flags, user_name).locked,
{
}

/// A record reports a logged-in user exactly when the user name starts with
/// a character other than NUL, and an unlocked desktop exactly when, on top
/// of that, the session is active (0) or connected (1) and the flags say
/// WTS_SESSIONSTATE_UNLOCK (1).
pub proof fn lemma_level1_unlocked_exactly_when_user_connected_and_flag_unlock(
    session_state: i32,
    session_flags: u32,
    user_name: Seq<u16>,
)
    ensures
        detected_from_level1(session_state, session_flags, user_name).user_logged_in <==> (
        user_name.len() > 0 && user_name[0] != 0),
        !detected_from_level1(session_state, session_flags, user_name).locked <==> (user_name.len()
            > 0 && user_name[0] != 0 && (session_state == 0 || session_state == 1) && session_flags
            == 1),
{
}

/// A window handle that session-change notifications are delivered to.
pub type SessionNotificationWindow = isize;

/// Registering and unregistering a window for session-change notifications.
/// Each API states, through `register_outcome` and `unregister_outcome`,
/// which answers it may give.
pub trait SessionNotificationApi {
    /// Whether `res` is an answer the API may give to registering `hwnd`. An
    /// API that does not say admits every answer.
    open spec fn register_outcome(&self, hwnd: SessionNotificationWindow, res: Result<(), SessionEventError>) -> bool {
        true
    }

    /// Whether `res` is an answer the API may give to unregistering `hwnd`.
    /// An API that does not say admits every answer.
    open spec fn unregister_outcome(&self, hwnd: SessionNotificationWindow, res: Result<(), SessionEventError>) -> bool {
        true
    }

    fn register(&self, hwnd: SessionNotificationWindow) -> (res: Result<(), SessionEventError>)
        ensures
            self.register_outcome(hwnd, res),
    ;

    fn unregister(&self, hwnd: SessionNotificationWindow) -> (res: Result<(), SessionEventError>)
        ensures
            self.unregister_outcome(hwnd, res),
    ;
}

/// A window's registration for session-change notifications, released at
/// most once. It is not released on its own when dropped: its owner calls
/// `release` (or `unregister`) when it is done with it.
pub struct SessionNotificationRegistrationInner<A: SessionNotificationApi> {
    hwnd: SessionNotificationWindow,
    api: A,
    registered: bool,
}

impl<A: SessionNotificationApi> SessionNotificationRegistrationInner<A> {
    /// Whether the registration is still in force.
    pub closed spec fn spec_registered(&self) -> bool {
        self.registered
    }

    /// The registered window.
    pub closed spec fn spec_hwnd(&self) -> SessionNotificationWindow {
        self.hwnd
    }

    /// The API the registration goes through.
    pub closed spec fn spec_api(&self) -> A {
        self.api
    }

    /// Registers `hwnd` through `api`: a registration in force over `api`
    /// when the API accepted it, the API's error otherwise.
    pub fn register_with_api(hwnd: SessionNotificationWindow, api: A) -> (res: Result<
        Self,
        SessionEventError,
    >)
        ensures
            exists|answer: Result<(), SessionEventError>|
                #[trigger] api.register_outcome(hwnd, answer) && match answer {
                    Ok(()) => res matches Ok(r) && r.spec_registered() && r.spec_hwnd() == hwnd
                        && r.spec_api() == api,
                    Err(e) => res matches Err(got) && got == e,
                },
    {
        match api.register(hwnd) {
            Ok(()) => Ok(SessionNotificationRegistrationInner { hwnd, api, registered: true }),
            Err(e) => Err(e),
        }
    }

    /// Releases the registration if it is in force: `Ok(true)` when this call
    /// released it, `Ok(false)` when it was already released, and the API's
    /// error (with the registration still in force) when releasing failed.
    pub fn unregister(&mut self) -> (res: Result<bool, SessionEventError>)
        ensures
            final(self).spec_hwnd() == old(self).spec_hwnd(),
            final(self).spec_api() == old(self).spec_api(),
            !old(self).spec_registered() ==> res == Ok::<bool, SessionEventError>(false)
                && !final(self).spec_registered(),
            old(self).spec_registered() ==> exists|answer: Result<(), SessionEventError>|
                #[trigger] old(self).spec_api().unregister_outcome(old(self).spec_hwnd(), answer)
                    && (answer is Ok ==> res == Ok::<bool, SessionEventError>(true)
                    && !final(self).spec_registered()) && (answer matches Err(e) ==> res
                    == Err::<bool, SessionEventError>(e) && final(self).spec_registered()),
    {
        if !self.registered {
            return Ok(false);
        }
        let answer = self.api.unregister(self.hwnd);
        assert(old(self).spec_api().unregister_outcome(old(self).spec_hwnd(), answer));
        match answer {
            Ok(()) => {
                self.registered = false;
                Ok(true)
            },
            Err(e) => Err(e),
        }
    }

    /// What is done when the registration goes away: release it if it is
    /// still in force, ignoring a failure. Owners call it before dropping
    /// the registration.
    pub fn release(&mut self)
        ensures
            final(self).spec_hwnd() == old(self).spec_hwnd(),
            final(self).spec_api() == old(self).spec_api(),
            !old(self).spec_registered() ==> !final(self).spec_registered(),
            old(self).spec_registered() ==> exists|answer: Result<(), SessionEventError>|
                #[trigger] old(self).spec_api().unregister_outcome(old(self).spec_hwnd(), answer)
                    && (answer is Ok ==> !final(self).spec_registered()) && (answer is Err
                    ==> final(self).spec_registered()),
    {
        if self.registered {
            let answer = self.api.unregister(self.hwnd);
            match answer {
                Ok(()) => {
                    self.registered = false;
                },
                Err(_) => {},
            }
            assert(old(self).spec_api().unregister_outcome(old(self).spec_hwnd(), answer));
        }
    }
}

/// The session-notification API of the running platform. Registering needs
/// the Windows terminal services API, which this build does not have, so
/// both operations report the platform as unsupported.
#[derive(Debug, Clone, Copy, Default)]
pub struct PlatformSessionNotificationApi;

impl SessionNotificationApi for PlatformSessionNotificationApi {
    /// Registering is refused as unsupported.
    open spec fn register_outcome(&self, hwnd: SessionNotificationWindow, res: Result<(), SessionEventError>) -> bool {
        res == Err::<(), SessionEventError>(SessionEventError::NotificationUnsupportedPlatform)
    }

    /// Unregistering is refused as unsupported.
    open spec fn unregister_outcome(&self, hwnd: SessionNotificationWindow, res: Result<(), SessionEventError>) -> bool {
        res == Err::<(), SessionEventError>(SessionEventError::NotificationUnsupportedPlatform)
    }

    fn register(&self, hwnd: SessionNotificationWindow) -> (res: Result<(), SessionEventError>) {
        Err(SessionEventError::NotificationUnsupportedPlatform)
    }

    fn unregister(&self, hwnd: SessionNotificationWindow) -> (res: Result<(), SessionEventError>) {
        Err(SessionEventError::NotificationUnsupportedPlatform)
    }
}

/// A window's registration for session-change notifications through the
/// platform API.
pub struct SessionNotificationRegistration {
    inner: SessionNotificationRegistrationInner<PlatformSessionNotificationApi>,
}

impl SessionNotificationRegistration {
    /// Registers `hwnd` for session-change notifications: on this platform
    /// the registration is refused as unsupported.
    pub fn register_session_notifications(hwnd: SessionNotificationWindow) -> (res: Result<
        Self,
        SessionEventError,
    >)
        ensures
            res matches Err(e) && e == SessionEventError::NotificationUnsupportedPlatform,
    {
        match SessionNotificationRegistrationInner::register_with_api(
            hwnd,
            PlatformSessionNotificationApi,
        ) {
            Ok(inner) => Ok(SessionNotificationRegistration { inner }),
            Err(e) => Err(e),
        }
    }

    /// Whether the registration is still in force.
    pub closed spec fn spec_registered(&self) -> bool {
        self.inner.spec_registered()
    }

    /// Releases the registration if it is in force (see
    /// `SessionNotificationRegistrationInner::unregister`); on this platform
    /// releasing a registration in force is refused as unsupported.
    pub fn unregister(&mut self) -> (res: Result<bool, SessionEventError>)
        ensures
            !old(self).spec_registered() ==> res == Ok::<bool, SessionEventError>(false)
                && !final(self).spec_registered(),
            old(self).spec_registered() ==> res == Err::<bool, SessionEventError>(
                SessionEventError::NotificationUnsupportedPlatform,
            ) && final(self).spec_registered(),
    {
        self.inner.unregister()
    }
}

/// Registers `hwnd` for session-change notifications through the platform
/// API: refused as unsupported on this platform.
pub fn register_session_notifications(hwnd: SessionNotificationWindow) -> (res: Result<
    SessionNotificationRegistration,
    SessionEventError,
>)
    ensures
        res matches Err(e) && e == SessionEventError::NotificationUnsupportedPlatform,
{
    SessionNotificationRegistration::register_session_notifications(hwnd)
}

} // verus!
