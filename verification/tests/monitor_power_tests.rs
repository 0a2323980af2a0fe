use wincast::monitor_power::{
    apply_after_launch, check_single_display, check_single_physical_monitor, last_os_error,
    monitor_power_error, platform_ddc_ci_dim, platform_turn_off_monitor, MonitorPowerController,
    StdMonitorPowerController,
};
use wincast::protocol::MonitorPowerAfterLaunch;

#[test]
fn non_windows_monitor_power_control_reports_clear_error() {
    let error = platform_turn_off_monitor().expect_err("non-Windows should fail");
    assert_eq!(
        error.message(),
        "当前平台不支持关闭宿主端显示器：仅 Windows 支持显示器电源控制"
    );
}

#[test]
fn disabled_policy_does_nothing_and_others_are_refused() {
    assert!(apply_after_launch(MonitorPowerAfterLaunch::Disabled).is_ok());
    assert_eq!(
        apply_after_launch(MonitorPowerAfterLaunch::DdcCiPowerOff)
            .expect_err("refused")
            .message(),
        "当前平台不支持宿主端显示器控制：仅 Windows 支持显示器电源控制"
    );
    assert_eq!(
        platform_ddc_ci_dim().expect_err("refused").message(),
        "当前平台不支持宿主端显示器控制：仅 Windows 支持显示器电源控制"
    );
    let mut controller = StdMonitorPowerController;
    assert!(controller
        .apply_after_launch(MonitorPowerAfterLaunch::WindowsPowerMessage)
        .is_err());
}

#[test]
fn ddc_ci_needs_exactly_one_display() {
    assert!(check_single_display(1).is_ok());
    assert_eq!(
        check_single_display(2).expect_err("two displays").message(),
        "DDC/CI 显示器控制需要单显示器，当前检测到 2 个显示器"
    );
    assert_eq!(
        check_single_physical_monitor(0).expect_err("none").message(),
        "DDC/CI 显示器控制需要单个物理显示器，当前检测到 0 个物理显示器"
    );
}

#[test]
fn errors_keep_their_description() {
    assert_eq!(monitor_power_error("x").message(), "x");
    assert_eq!(
        last_os_error("读取显示器亮度范围失败", "denied").message(),
        "读取显示器亮度范围失败: denied"
    );
}
