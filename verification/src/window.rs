//! Choosing the main window of the program the host launched from the list of
//! top-level windows.

use vstd::prelude::*;

use crate::text::{
    concat2, concat4, contains_seq, decimal, decimal_string, owned, str_contains, str_trim,
    trimmed,
};

verus! {

/// Smallest width of a window that counts as a main window.
pub const MIN_WINDOW_WIDTH: i32 = 64;
/// Smallest height of a window that counts as a main window.
pub const MIN_WINDOW_HEIGHT: i32 = 64;

/// A screen rectangle in pixels.
#[derive(Debug, Clone, Copy, PartialEq, Eq, Structural)]
pub struct WindowRect {
    pub left: i32,
    pub top: i32,
    pub right: i32,
    pub bottom: i32,
}

impl WindowRect {
    /// Whether width and height fit in an `i32`.
    pub open spec fn well_sized(self) -> bool {
        i32::MIN <= self.right - self.left <= i32::MAX && i32::MIN <= self.bottom - self.top
            <= i32::MAX
    }

    /// The width, `right - left`.
    pub open spec fn spec_width(self) -> int {
        self.right - self.left
    }

    /// The height, `bottom - top`.
    pub open spec fn spec_height(self) -> int {
        self.bottom - self.top
    }

    /// The signed area, width times height.
    pub open spec fn spec_area(self) -> int {
        self.spec_width() * self.spec_height()
    }

    /// Whether the rectangle is at least the minimum main-window size.
    pub open spec fn spec_has_normal_size(self) -> bool {
        self.spec_width() >= MIN_WINDOW_WIDTH && self.spec_height() >= MIN_WINDOW_HEIGHT
    }

    /// The width, `right - left`.
    pub fn width(self) -> (res: i32)
        requires
            self.well_sized(),
        ensures
            res == self.spec_width(),
    {
        self.right - self.left
    }

    /// The height, `bottom - top`.
    pub fn height(self) -> (res: i32)
        requires
            self.well_sized(),
        ensures
            res == self.spec_height(),
    {
        self.bottom - self.top
    }

    /// The signed area, width times height.
    pub fn area(self) -> (res: i64)
        requires
            self.well_sized(),
        ensures
            res == self.spec_area(),
    {
        let width = self.width() as i64;
        let height = self.height() as i64;
        assert(-0x8000_0000 * 0x8000_0000 <= width * height <= 0x8000_0000 * 0x8000_0000)
            by (nonlinear_arith)
            requires
                -0x8000_0000 <= width <= 0x7fff_ffff,
                -0x8000_0000 <= height <= 0x7fff_ffff,
        ;
        width * height
    }

    /// Whether the rectangle is at least the minimum main-window size.
    pub fn has_normal_size(self) -> (res: bool)
        requires
            self.well_sized(),
        ensures
            res == self.spec_has_normal_size(),
    {
        self.width() >= MIN_WINDOW_WIDTH && self.height() >= MIN_WINDOW_HEIGHT
    }
}

/// A top-level window as the window enumeration reports it.
#[derive(Debug, PartialEq, Eq)]
pub struct WindowCandidate {
    pub handle: isize,
    pub process_id: u32,
    pub title: String,
    pub visible: bool,
    pub tool_window: bool,
    pub rect: WindowRect,
    pub monitor_rect: WindowRect,
}

/// The plain values of a window candidate.
pub struct WindowCandidateView {
    pub handle: isize,
    pub process_id: u32,
    pub title: Seq<char>,
    pub visible: bool,
    pub tool_window: bool,
    pub rect: WindowRect,
    pub monitor_rect: WindowRect,
}

impl View for WindowCandidate {
    type V = WindowCandidateView;

    open spec fn view(&self) -> WindowCandidateView {
        WindowCandidateView {
            handle: self.handle,
            process_id: self.process_id,
            title: self.title@,
            visible: self.visible,
            tool_window: self.tool_window,
            rect: self.rect,
            monitor_rect: self.monitor_rect,
        }
    }
}

impl WindowCandidate {
    /// A copy of the candidate.
    pub fn duplicate(&self) -> (res: WindowCandidate)
        ensures
            res@ == self@,
    {
        WindowCandidate {
            handle: self.handle,
            process_id: self.process_id,
            title: self.title.clone(),
            visible: self.visible,
            tool_window: self.tool_window,
            rect: self.rect,
            monitor_rect: self.monitor_rect,
        }
    }
}

/// Why no main window was found.
#[derive(Debug, Clone, PartialEq, Eq)]
pub enum WindowLookupError {
    NotFound { process_id: u32, title_contains: Option<String> },
    UnsupportedPlatform,
    EnumerationFailed(String),
}

impl WindowLookupError {
    /// The user-facing description of the error.
    pub fn message(&self) -> (res: String)
        ensures
            res@ == match self {
                WindowLookupError::NotFound { process_id, title_contains } => match title_contains {
                    Some(t) => "未找到进程 "@ + decimal(*process_id as nat) + " 的主窗口"@
                        + "，标题需包含 "@ + t@,
                    None => "未找到进程 "@ + decimal(*process_id as nat) + " 的主窗口"@,
                },
                WindowLookupError::UnsupportedPlatform =>
                    "当前平台不支持主窗口定位：仅 Windows 支持按进程枚举顶层窗口"@,
                WindowLookupError::EnumerationFailed(m) => "枚举 Windows 顶层窗口失败: "@ + m@,
            },
    {
        match self {
            WindowLookupError::NotFound { process_id, title_contains } => {
                let id = decimal_string(*process_id as u64);
                match title_contains {
                    Some(t) => concat4(
                        concat2("未找到进程 ", id.as_str()).as_str(),
                        " 的主窗口",
                        "，标题需包含 ",
                        t.as_str(),
                    ),
                    None => {
                        let mut res = concat2("未找到进程 ", id.as_str());
                        res.append(" 的主窗口");
                        res
                    },
                }
            },
            WindowLookupError::UnsupportedPlatform => owned(
                "当前平台不支持主窗口定位：仅 Windows 支持按进程枚举顶层窗口",
            ),
            WindowLookupError::EnumerationFailed(m) => concat2(
                "枚举 Windows 顶层窗口失败: ",
                m.as_str(),
            ),
        }
    }
}

/// The view of an optional string.
pub open spec fn opt_str_view(s: Option<&str>) -> Option<Seq<char>> {
    match s {
        Some(s) => Some(s@),
        None => None,
    }
}

/// The title filter in force: the trimmed filter when it is not empty.
pub open spec fn title_filter_of(filter: Option<Seq<char>>) -> Option<Seq<char>> {
    match filter {
        Some(f) => if trimmed(f).len() == 0 {
            None
        } else {
            Some(trimmed(f))
        },
        None => None,
    }
}

/// Whether a title passes a title filter.
pub open spec fn title_passes(title: Seq<char>, filter: Option<Seq<char>>) -> bool {
    match filter {
        Some(f) => contains_seq(title, f),
        None => true,
    }
}

/// A title passes a filter exactly when the filter occurs somewhere in it as
/// a contiguous run of characters, not only at its start; no filter passes
/// every title.
pub proof fn lemma_title_filter_is_a_substring_test(title: Seq<char>, filter: Seq<char>)
    ensures
        title_passes(title, Some(filter)) <==> exists|i: int|
            0 <= i && i + filter.len() <= title.len() && #[trigger] title.subrange(
                i,
                i + filter.len(),
            ) =~= filter,
        title_passes(title, None),
{
}

/// A title that holds the filter anywhere, after any text, passes it.
pub proof fn lemma_filter_anywhere_in_title_passes(before: Seq<char>, filter: Seq<char>, after: Seq<char>)
    ensures
        title_passes(before + filter + after, Some(filter)),
{
    let t = before + filter + after;
    assert(t.subrange(before.len() as int, (before.len() + filter.len()) as int) =~= filter);
}

/// Whether a window can be the main window of `process_id` under the filter
/// in force: it belongs to the process, is visible, is no tool window, has at
/// least the minimum size and its title passes the filter.
pub open spec fn is_eligible(w: WindowCandidateView, process_id: u32, filter: Option<Seq<char>>) -> bool {
    w.process_id == process_id && w.visible && !w.tool_window && w.rect.spec_has_normal_size()
        && title_passes(w.title, filter)
}

/// A window can be the main window exactly when it belongs to the process,
/// is visible, is not a tool window, is at least 64 by 64 pixels, and its
/// title holds the filter somewhere as a contiguous run (or no filter is in
/// force).
pub proof fn lemma_eligibility_conditions(
    w: WindowCandidateView,
    process_id: u32,
    filter: Option<Seq<char>>,
)
    ensures
        is_eligible(w, process_id, filter) <==> (w.process_id == process_id && w.visible
            && !w.tool_window && w.rect.right - w.rect.left >= 64 && w.rect.bottom - w.rect.top
            >= 64 && match filter {
            Some(f) => exists|i: int|
                0 <= i && i + f.len() <= w.title.len() && #[trigger] w.title.subrange(
                    i,
                    i + f.len(),
                ) =~= f,
            None => true,
        }),
{
}

/// The eligible windows, in enumeration order.
pub open spec fn eligible_of(
    windows: Seq<WindowCandidateView>,
    process_id: u32,
    filter: Option<Seq<char>>,
) -> Seq<WindowCandidateView> {
    windows.filter(|w: WindowCandidateView| is_eligible(w, process_id, title_filter_of(filter)))
}

/// The views of a slice of candidates.
pub open spec fn views_of(windows: Seq<WindowCandidate>) -> Seq<WindowCandidateView> {
    windows.map_values(|w: WindowCandidate| w@)
}

/// Whether every candidate's rectangle has a width and height that fit.
pub open spec fn all_well_sized(windows: Seq<WindowCandidate>) -> bool {
    forall|i: int| 0 <= i < windows.len() ==> (#[trigger] windows[i]).rect.well_sized()
}

/// Whether `k` is the last position of a largest-area window in `s`.
pub open spec fn is_last_largest(s: Seq<WindowCandidateView>, k: int) -> bool {
    &&& 0 <= k < s.len()
    &&& forall|j: int| 0 <= j < s.len() ==> (#[trigger] s[j]).rect.spec_area() <= s[k].rect.spec_area()
    &&& forall|j: int| k < j < s.len() ==> (#[trigger] s[j]).rect.spec_area() < s[k].rect.spec_area()
}

/// The chosen position holds a window whose area, width times height, is at
/// least that of every window, and larger than that of every window after it.
pub proof fn lemma_last_largest_has_the_largest_area(s: Seq<WindowCandidateView>, k: int)
    requires
        is_last_largest(s, k),
    ensures
        forall|j: int|
            0 <= j < s.len() ==> (#[trigger] s[j]).rect.spec_width() * s[j].rect.spec_height()
                <= (s[k].rect.right - s[k].rect.left) * (s[k].rect.bottom - s[k].rect.top),
        forall|j: int|
            k < j < s.len() ==> (#[trigger] s[j]).rect.spec_width() * s[j].rect.spec_height() < (
            s[k].rect.right - s[k].rect.left) * (s[k].rect.bottom - s[k].rect.top),
        forall|j: int|
            0 <= j < s.len() ==> (#[trigger] s[j]).rect.spec_width() == s[j].rect.right
                - s[j].rect.left && s[j].rect.spec_height() == s[j].rect.bottom - s[j].rect.top,
{
}

/// The title filter in force: the trimmed filter, when it is not empty.
pub fn normalized_title_filter<'a>(title_contains: Option<&'a str>) -> (res: Option<&'a str>)
    ensures
        opt_str_view(res) == title_filter_of(opt_str_view(title_contains)),
{
    match title_contains {
        Some(t) => {
            let t = str_trim(t);
            if t.unicode_len() == 0 {
                None
            } else {
                Some(t)
            }
        },
        None => None,
    }
}

/// Whether a title passes a title filter.
pub fn title_matches(title: &str, title_contains: Option<&str>) -> (res: bool)
    ensures
        res == title_passes(title@, opt_str_view(title_contains)),
{
    match title_contains {
        Some(filter) => str_contains(title, filter),
        None => true,
    }
}

/// Whether a window can be the main window of `process_id` under the filter.
pub fn is_eligible_window(window: &WindowCandidate, process_id: u32, title_contains: Option<&str>) -> (res:
    bool)
    requires
        window.rect.well_sized(),
    ensures
        res == is_eligible(window@, process_id, opt_str_view(title_contains)),
{
    window.process_id == process_id && window.visible && !window.tool_window
        && window.rect.has_normal_size() && title_matches(window.title.as_str(), title_contains)
}

/// The windows that can be the main window of `process_id`, in order.
pub fn eligible_windows(windows: &[WindowCandidate], process_id: u32, title_contains: Option<&str>) -> (res:
    Vec<WindowCandidate>)
    requires
        all_well_sized(windows@),
    ensures
        views_of(res@) == eligible_of(views_of(windows@), process_id, opt_str_view(title_contains)),
        all_well_sized(res@),
{
    let filter = normalized_title_filter(title_contains);
    let ghost pred = |w: WindowCandidateView|
        is_eligible(w, process_id, title_filter_of(opt_str_view(title_contains)));
    let mut res: Vec<WindowCandidate> = Vec::new();
    let mut i: usize = 0;
    while i < windows.len()
        invariant
            0 <= i <= windows.len(),
            all_well_sized(windows@),
            opt_str_view(filter) == title_filter_of(opt_str_view(title_contains)),
            pred == (|w: WindowCandidateView|
                is_eligible(w, process_id, title_filter_of(opt_str_view(title_contains)))),
            views_of(res@) == views_of(windows@).take(i as int).filter(pred),
            all_well_sized(res@),
        decreases windows.len() - i,
    {
        let ghost before = views_of(res@);
        proof {
            assert(views_of(windows@).take(i as int + 1) =~= views_of(windows@).take(
                i as int,
            ).push(windows@[i as int]@));
            views_of(windows@).take(i as int).lemma_filter_push(windows@[i as int]@, pred);
        }
        if is_eligible_window(&windows[i], process_id, filter) {
            res.push(windows[i].duplicate());
            assert(views_of(res@) =~= before.push(windows@[i as int]@));
            assert(windows@[i as int].rect.well_sized());
        }
        i += 1;
    }
    assert(views_of(windows@).take(windows.len() as int) =~= views_of(windows@));
    res
}

/// The view of an optional owned string.
pub open spec fn opt_string_view(s: Option<String>) -> Option<Seq<char>> {
    match s {
        Some(s) => Some(s@),
        None => None,
    }
}

/// Chooses the main window of `process_id`: among the eligible windows the
/// one with the largest area, the last one where several are largest. Fails
/// with `NotFound`, carrying the filter in force, when no window is eligible.
pub fn select_main_window(windows: &[WindowCandidate], process_id: u32, title_contains: Option<&str>) -> (res:
    Result<WindowCandidate, WindowLookupError>)
    requires
        all_well_sized(windows@),
    ensures
        ({
            let s = eligible_of(views_of(windows@), process_id, opt_str_view(title_contains));
            match res {
                Ok(w) => exists|k: int| is_last_largest(s, k) && w@ == s[k],
                Err(e) => s.len() == 0 && (e matches WindowLookupError::NotFound {
                    process_id: p,
                    title_contains: t,
                } && p == process_id && opt_string_view(t) == title_filter_of(
                    opt_str_view(title_contains),
                )),
            }
        }),
{
    let eligible = eligible_windows(windows, process_id, title_contains);
    let ghost s = views_of(eligible@);
    if eligible.len() == 0 {
        let filter = normalized_title_filter(title_contains);
        let title_contains = match filter {
            Some(t) => Some(owned(t)),
            None => None,
        };
        return Err(WindowLookupError::NotFound { process_id, title_contains });
    }
    assert(eligible@[0].rect.well_sized());
    let mut best: usize = 0;
    let mut best_area = eligible[0].rect.area();
    let mut j: usize = 1;
    while j < eligible.len()
        invariant
            0 <= best < j <= eligible.len(),
            s == views_of(eligible@),
            all_well_sized(eligible@),
            best_area == s[best as int].rect.spec_area(),
            forall|m: int| 0 <= m < j ==> (#[trigger] s[m]).rect.spec_area() <= best_area,
            forall|m: int| best < m < j ==> (#[trigger] s[m]).rect.spec_area() < best_area,
        decreases eligible.len() - j,
    {
        assert(eligible@[j as int].rect.well_sized());
        let area = eligible[j].rect.area();
        if area >= best_area {
            best = j;
            best_area = area;
        }
        j += 1;
    }
    assert(is_last_largest(s, best as int));
    Ok(eligible[best].duplicate())
}

/// The main-window lookup where the platform offers no enumeration of
/// top-level windows: it always fails with `UnsupportedPlatform`.
pub fn find_main_window(process_id: u32, title_contains: Option<&str>) -> (res: Result<
    WindowCandidate,
    WindowLookupError,
>)
    ensures
        res == Err::<WindowCandidate, WindowLookupError>(WindowLookupError::UnsupportedPlatform),
{
    Err(WindowLookupError::UnsupportedPlatform)
}

} // verus!
