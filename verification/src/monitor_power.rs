//! What the host does to its monitor after launching the program: the policy
//! dispatch, the single-monitor rules of DDC/CI control and the errors
//! reported where monitor control is not available.

use vstd::prelude::*;

use crate::protocol::MonitorPowerAfterLaunch;
use crate::text::{concat3, decimal, decimal_string, owned};

verus! {

/// Why monitor power control failed.
#[derive(Debug, Clone, PartialEq, Eq)]
pub struct MonitorPowerError {
    message: String,
}

impl MonitorPowerError {
    /// The description carried by the error.
    pub closed spec fn spec_message(&self) -> Seq<char> {
        self.message@
    }

    /// An error with the given description.
    pub fn new(message: &str) -> (res: Self)
        ensures
            res.spec_message() == message@,
    {
        MonitorPowerError { message: owned(message) }
    }

    /// The description of the error.
    pub fn message(&self) -> (res: String)
        ensures
            res@ == self.spec_message(),
    {
        self.message.clone()
    }
}

/// An error with the given description.
pub fn monitor_power_error(message: &str) -> (res: MonitorPowerError)
    ensures
        res.spec_message() == message@,
{
    MonitorPowerError::new(message)
}

/// Applies a monitor power policy once the program has been launched.
pub trait MonitorPowerController {
    fn apply_after_launch(&mut self, policy: MonitorPowerAfterLaunch) -> Result<(), MonitorPowerError>;
}

/// Message of a refused monitor power-off where monitor control is unavailable.
pub open spec fn turn_off_unsupported_text() -> Seq<char> {
    "当前平台不支持关闭宿主端显示器：仅 Windows 支持显示器电源控制"@
}

/// Message of refused DDC/CI control where monitor control is unavailable.
pub open spec fn monitor_control_unsupported_text() -> Seq<char> {
    "当前平台不支持宿主端显示器控制：仅 Windows 支持显示器电源控制"@
}

/// Turning the monitor off needs the Windows power message, which this build
/// cannot send.
pub fn platform_turn_off_monitor() -> (res: Result<(), MonitorPowerError>)
    ensures
        res matches Err(e) && e.spec_message() == turn_off_unsupported_text(),
{
    Err(MonitorPowerError::new("当前平台不支持关闭宿主端显示器：仅 Windows 支持显示器电源控制"))
}

/// The refusal of DDC/CI control in this build.
pub fn unsupported_monitor_power_platform() -> (res: Result<(), MonitorPowerError>)
    ensures
        res matches Err(e) && e.spec_message() == monitor_control_unsupported_text(),
{
    Err(MonitorPowerError::new("当前平台不支持宿主端显示器控制：仅 Windows 支持显示器电源控制"))
}

/// Powering the monitor off over DDC/CI; not available in this build.
pub fn platform_ddc_ci_power_off() -> (res: Result<(), MonitorPowerError>)
    ensures
        res matches Err(e) && e.spec_message() == monitor_control_unsupported_text(),
{
    unsupported_monitor_power_platform()
}

/// Dimming the monitor over DDC/CI; not available in this build.
pub fn platform_ddc_ci_dim() -> (res: Result<(), MonitorPowerError>)
    ensures
        res matches Err(e) && e.spec_message() == monitor_control_unsupported_text(),
{
    unsupported_monitor_power_platform()
}

/// The outcome of applying `policy` in this build: nothing to do when it is
/// disabled, and the platform's refusal otherwise.
pub open spec fn apply_after_launch_text(policy: MonitorPowerAfterLaunch) -> Option<Seq<char>> {
    match policy {
        MonitorPowerAfterLaunch::Disabled => None,
        MonitorPowerAfterLaunch::WindowsPowerMessage => Some(turn_off_unsupported_text()),
        MonitorPowerAfterLaunch::DdcCiPowerOff => Some(monitor_control_unsupported_text()),
        MonitorPowerAfterLaunch::DdcCiDim => Some(monitor_control_unsupported_text()),
    }
}

/// Applies a monitor power policy: a disabled policy does nothing, each other
/// policy goes to its platform operation.
pub fn apply_after_launch(policy: MonitorPowerAfterLaunch) -> (res: Result<(), MonitorPowerError>)
    ensures
        match apply_after_launch_text(policy) {
            None => res is Ok,
            Some(m) => res matches Err(e) && e.spec_message() == m,
        },
{
    match policy {
        MonitorPowerAfterLaunch::Disabled => Ok(()),
        MonitorPowerAfterLaunch::WindowsPowerMessage => platform_turn_off_monitor(),
        MonitorPowerAfterLaunch::DdcCiPowerOff => platform_ddc_ci_power_off(),
        MonitorPowerAfterLaunch::DdcCiDim => platform_ddc_ci_dim(),
    }
}

/// The controller of the running platform.
#[derive(Debug, Default)]
pub struct StdMonitorPowerController;

impl MonitorPowerController for StdMonitorPowerController {
    fn apply_after_launch(&mut self, policy: MonitorPowerAfterLaunch) -> (res: Result<
        (),
        MonitorPowerError,
    >)
        ensures
            match apply_after_launch_text(policy) {
                None => res is Ok,
                Some(m) => res matches Err(e) && e.spec_message() == m,
            },
    {
        apply_after_launch(policy)
    }
}

/// DDC/CI control drives exactly one display; `count` displays were found.
pub fn check_single_display(count: usize) -> (res: Result<(), MonitorPowerError>)
    ensures
        count == 1 ==> res is Ok,
        count != 1 ==> (res matches Err(e) && e.spec_message() == "DDC/CI 显示器控制需要单显示器，当前检测到 "@
            + decimal(count as nat) + " 个显示器"@),
{
    if count == 1 {
        return Ok(());
    }
    let digits = decimal_string(count as u64);
    let message = concat3("DDC/CI 显示器控制需要单显示器，当前检测到 ", digits.as_str(), " 个显示器");
    Err(MonitorPowerError { message })
}

/// DDC/CI control drives exactly one physical monitor; `count` were found.
pub fn check_single_physical_monitor(count: usize) -> (res: Result<(), MonitorPowerError>)
    ensures
        count == 1 ==> res is Ok,
        count != 1 ==> (res matches Err(e) && e.spec_message()
            == "DDC/CI 显示器控制需要单个物理显示器，当前检测到 "@ + decimal(count as nat) + " 个物理显示器"@),
{
    if count == 1 {
        return Ok(());
    }
    let digits = decimal_string(count as u64);
    let message = concat3(
        "DDC/CI 显示器控制需要单个物理显示器，当前检测到 ",
        digits.as_str(),
        " 个物理显示器",
    );
    Err(MonitorPowerError { message })
}

/// The error for a failed system call: the action, then the system's description.
pub fn last_os_error(action: &str, os_error: &str) -> (res: MonitorPowerError)
    ensures
        res.spec_message() == action@ + ": "@ + os_error@,
{
    let message = concat3(action, ": ", os_error);
    MonitorPowerError { message }
}

} // verus!
