//! Verified core of the WinCast remote-desktop suite: the host's desktop
//! session state machine and session-change mapping, main-window selection,
//! input mapping, media pipeline validation with the deterministic fake
//! codec, capture and service boundaries, the host session's decisions, and
//! the client's retry, framing and stream checks.

pub mod protocol;
pub mod text;
pub mod session_state;
pub mod session_events;
pub mod window;
pub mod input;
pub mod media;
pub mod capture;
pub mod service;
pub mod monitor_power;
pub mod client;
pub mod host_session;
pub mod service_agent;
pub mod program;
pub mod stream_framing;
pub mod config_paths;
