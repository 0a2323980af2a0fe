//! Plain values exchanged between host, agent and client that the library's
//! decisions read: error codes, codecs and input-button states.

use vstd::prelude::*;

verus! {

/// Error codes that the host reports to a client.
#[derive(Debug, Clone, Copy, PartialEq, Eq, Structural)]
pub enum ErrorCode {
    Busy,
    InvalidConfig,
    NoUserLoggedIn,
    SessionLocked,
    AgentUnavailable,
    ProgramLaunchFailed,
    ProgramExited,
    WindowNotFound,
    CaptureFailed,
    UnsupportedVersion,
    EncodingFailed,
    TransportFailed,
}

/// Video codecs named in configuration and on encoded frames.
#[derive(Debug, Clone, Copy, PartialEq, Eq, Structural)]
pub enum VideoCodec {
    H264,
    RawBgra,
}

/// Mouse buttons carried by input events.
#[derive(Debug, Clone, Copy, PartialEq, Eq, Structural)]
pub enum MouseButton {
    Left,
    Right,
    Middle,
}

/// Press state of a mouse button or key.
#[derive(Debug, Clone, Copy, PartialEq, Eq, Structural)]
pub enum ButtonState {
    Pressed,
    Released,
}

/// Keyboard modifier flags carried by key events.
#[derive(Debug, Clone, Copy, PartialEq, Eq, Structural)]
pub struct Modifiers {
    pub shift: bool,
    pub ctrl: bool,
    pub alt: bool,
    pub logo: bool,
}

/// Why a remote session ended, as reported from the agent to the service.
#[derive(Debug, Clone, Copy, PartialEq, Eq, Structural)]
pub enum SessionEndReason {
    ServiceRequested,
    DesktopUnavailable,
    SessionFailed,
}

/// What the host does with the monitor once the configured program started.
#[derive(Debug, Clone, Copy, PartialEq, Eq, Structural)]
pub enum MonitorPowerAfterLaunch {
    Disabled,
    WindowsPowerMessage,
    DdcCiPowerOff,
    DdcCiDim,
}

/// What the host captures: the whole desktop or the program's window.
#[derive(Debug, Clone, Copy, PartialEq, Eq, Structural)]
pub enum CaptureMode {
    Desktop,
    Window,
}

} // verus!
