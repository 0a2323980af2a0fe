use wincast::window::{
    eligible_windows, find_main_window, select_main_window, WindowCandidate, WindowLookupError,
    WindowRect,
};

fn window(
    handle: isize,
    process_id: u32,
    title: &str,
    visible: bool,
    tool_window: bool,
    rect: WindowRect,
) -> WindowCandidate {
    WindowCandidate {
        handle,
        process_id,
        title: title.to_owned(),
        visible,
        tool_window,
        rect,
        monitor_rect: rect,
    }
}

fn rect(left: i32, top: i32, right: i32, bottom: i32) -> WindowRect {
    WindowRect {
        left,
        top,
        right,
        bottom,
    }
}

#[test]
fn filters_windows_by_process_visibility_tool_style_size_and_title() {
    let windows = [
        window(1, 42, "Main Editor", true, false, rect(0, 0, 1280, 720)),
        window(2, 7, "Other Process", true, false, rect(0, 0, 1280, 720)),
        window(3, 42, "Hidden Main", false, false, rect(0, 0, 1280, 720)),
        window(4, 42, "Tool Main", true, true, rect(0, 0, 1280, 720)),
        window(5, 42, "Tiny Main", true, false, rect(0, 0, 16, 16)),
        window(6, 42, "Settings", true, false, rect(0, 0, 1280, 720)),
    ];

    let matches = eligible_windows(&windows, 42, Some("Main"));

    assert_eq!(matches, vec![windows[0].duplicate()]);
}

#[test]
fn selects_largest_eligible_window_as_main_window() {
    let windows = [
        window(1, 42, "Splash", true, false, rect(0, 0, 300, 200)),
        window(2, 42, "Application", true, false, rect(0, 0, 1024, 768)),
        window(3, 42, "Dialog", true, false, rect(0, 0, 640, 480)),
    ];

    let selected = select_main_window(&windows, 42, None).expect("main window should match");

    assert_eq!(selected.handle, 2);
}

#[test]
fn reports_no_matching_window_with_chinese_message() {
    let error = select_main_window(&[], 42, Some("不存在"))
        .expect_err("empty window list should not match");

    assert_eq!(error.message(), "未找到进程 42 的主窗口，标题需包含 不存在");
}

#[test]
fn non_windows_find_main_window_returns_clear_chinese_error() {
    let error = find_main_window(42, None).expect_err("non-windows should fail");

    assert_eq!(
        error.message(),
        "当前平台不支持主窗口定位：仅 Windows 支持按进程枚举顶层窗口"
    );
}

#[test]
fn equal_areas_choose_the_last_largest_window() {
    let windows = [
        window(1, 42, "First", true, false, rect(0, 0, 800, 600)),
        window(2, 42, "Second", true, false, rect(10, 10, 810, 610)),
    ];

    let selected = select_main_window(&windows, 42, None).expect("main window should match");

    assert_eq!(selected.handle, 2);
}

#[test]
fn blank_title_filter_matches_every_title() {
    let windows = [window(9, 42, "Anything", true, false, rect(0, 0, 200, 200))];

    let selected = select_main_window(&windows, 42, Some("   ")).expect("blank filter matches");

    assert_eq!(selected.handle, 9);
}

#[test]
fn missing_window_without_filter_has_plain_message() {
    let error = select_main_window(&[], 5, None).expect_err("nothing to select");

    assert_eq!(
        error,
        WindowLookupError::NotFound {
            process_id: 5,
            title_contains: None
        }
    );
    assert_eq!(error.message(), "未找到进程 5 的主窗口");
}

#[test]
fn window_rect_size_and_area() {
    let r = rect(10, 20, 110, 70);

    assert_eq!(r.width(), 100);
    assert_eq!(r.height(), 50);
    assert_eq!(r.area(), 5000);
    assert!(!r.has_normal_size());
}
