use wincast::config_paths::{xdg_config_path, xdg_host_config_path};
use wincast::host_session::{run_host_message, runtime_status_message};

const HOME: &str = "/home/tester";

#[test]
fn xdg_config_path_falls_back_when_xdg_config_home_is_empty() {
    assert_eq!(
        xdg_config_path(Some(""), Some(HOME)),
        "/home/tester/.config/wincast/client.toml"
    );
}

#[test]
fn xdg_config_path_ignores_relative_xdg_config_home() {
    assert_eq!(
        xdg_config_path(Some("relative-config"), Some(HOME)),
        "/home/tester/.config/wincast/client.toml"
    );
}

#[test]
fn xdg_host_config_path_falls_back_when_xdg_config_home_is_empty() {
    assert_eq!(
        xdg_host_config_path(Some(""), Some(HOME)),
        "/home/tester/.config/wincast/host.toml"
    );
}

#[test]
fn xdg_host_config_path_ignores_relative_xdg_config_home() {
    assert_eq!(
        xdg_host_config_path(Some("relative-config"), Some(HOME)),
        "/home/tester/.config/wincast/host.toml"
    );
}

#[test]
fn absolute_xdg_config_home_is_used_and_paths_match_std() {
    assert_eq!(
        xdg_config_path(Some("/etc/xdg/"), Some(HOME)),
        "/etc/xdg/wincast/client.toml"
    );
    assert_eq!(xdg_host_config_path(None, None), "./.config/wincast/host.toml");
    let expected = std::path::PathBuf::from(HOME)
        .join(".config")
        .join("wincast")
        .join("client.toml");
    assert_eq!(
        std::path::PathBuf::from(xdg_config_path(None, Some(HOME))),
        expected
    );
}

#[test]
fn executable_startup_message_names_listen_and_program() {
    let startup = runtime_status_message("127.0.0.1:0", "C:\\Program Files\\SomeApp\\app.exe");
    assert_eq!(
        run_host_message(&startup, "127.0.0.1:49152"),
        "宿主端已启动，监听 127.0.0.1:0，程序 C:\\Program Files\\SomeApp\\app.exe。收到客户端会话请求后会直接启动配置程序，并通过 H.264 编码链路传输画面。 控制通道已进入持续监听，实际监听 127.0.0.1:49152。"
    );
}
