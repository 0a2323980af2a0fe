//! Screen capture boundary: capture targets, frame metadata, capture errors,
//! the choice of the desktop output to duplicate, and the decision step of
//! waiting for the first frame.

use vstd::prelude::*;

use crate::media::{size_string, size_text};
use crate::text::{concat2, decimal, decimal_string, owned};

verus! {

/// Why screen capture fails.
#[derive(Debug, Clone, PartialEq, Eq)]
pub enum CaptureError {
    WindowsCaptureNotImplemented,
    WindowsGraphicsCaptureUnsupported,
    WindowsGraphicsCaptureSupportCheckFailed(String),
    WindowsDesktopOutputEnumerationFailed(String),
    WindowsD3dInitializationFailed(String),
    WindowsCaptureSessionCreateFailed(String),
    WindowsFrameReadFailed(String),
    UnsupportedPlatform { platform: String },
}

/// The user-facing description of a capture error.
pub open spec fn capture_error_text(e: CaptureError) -> Seq<char> {
    match e {
        CaptureError::WindowsCaptureNotImplemented =>
            "Windows 画面捕获实现未完成：尚未接入 Windows Graphics Capture"@,
        CaptureError::WindowsGraphicsCaptureUnsupported =>
            "当前 Windows 系统不支持 Windows Graphics Capture"@,
        CaptureError::WindowsGraphicsCaptureSupportCheckFailed(detail) =>
            "检测 Windows Graphics Capture 支持状态失败: "@ + detail@,
        CaptureError::WindowsDesktopOutputEnumerationFailed(detail) =>
            "枚举 Windows 桌面复制输出失败: "@ + detail@,
        CaptureError::WindowsD3dInitializationFailed(detail) => "初始化 Direct3D 捕获设备失败: "@
            + detail@,
        CaptureError::WindowsCaptureSessionCreateFailed(detail) =>
            "创建 Windows 桌面复制会话失败: "@ + detail@,
        CaptureError::WindowsFrameReadFailed(detail) => "读取 Windows 捕获帧失败: "@ + detail@,
        CaptureError::UnsupportedPlatform { platform } =>
            "当前平台不支持画面捕获：仅 Windows 支持宿主端捕获，当前平台 "@ + platform@,
    }
}

impl CaptureError {
    /// Capture on Windows is not wired up yet.
    pub fn windows_capture_not_implemented() -> (res: Self)
        ensures
            res == CaptureError::WindowsCaptureNotImplemented,
    {
        CaptureError::WindowsCaptureNotImplemented
    }

    /// The running Windows has no Windows Graphics Capture.
    pub fn windows_graphics_capture_unsupported() -> (res: Self)
        ensures
            res == CaptureError::WindowsGraphicsCaptureUnsupported,
    {
        CaptureError::WindowsGraphicsCaptureUnsupported
    }

    /// Asking whether Windows Graphics Capture is available failed.
    pub fn windows_graphics_capture_support_check_failed(error: &str) -> (res: Self)
        ensures
            res matches CaptureError::WindowsGraphicsCaptureSupportCheckFailed(d) && d@ == error@,
    {
        CaptureError::WindowsGraphicsCaptureSupportCheckFailed(owned(error))
    }

    /// Listing the desktop outputs failed.
    pub fn windows_desktop_output_enumeration_failed(error: &str) -> (res: Self)
        ensures
            res matches CaptureError::WindowsDesktopOutputEnumerationFailed(d) && d@ == error@,
    {
        CaptureError::WindowsDesktopOutputEnumerationFailed(owned(error))
    }

    /// Creating the Direct3D device failed.
    pub fn windows_d3d_initialization_failed(error: &str) -> (res: Self)
        ensures
            res matches CaptureError::WindowsD3dInitializationFailed(d) && d@ == error@,
    {
        CaptureError::WindowsD3dInitializationFailed(owned(error))
    }

    /// Creating the duplication session failed.
    pub fn windows_capture_session_create_failed(error: &str) -> (res: Self)
        ensures
            res matches CaptureError::WindowsCaptureSessionCreateFailed(d) && d@ == error@,
    {
        CaptureError::WindowsCaptureSessionCreateFailed(owned(error))
    }

    /// Reading a frame failed.
    pub fn windows_frame_read_failed(error: &str) -> (res: Self)
        ensures
            res matches CaptureError::WindowsFrameReadFailed(d) && d@ == error@,
    {
        CaptureError::WindowsFrameReadFailed(owned(error))
    }

    /// Capture is not available on `platform`.
    pub fn unsupported_platform(platform: &str) -> (res: Self)
        ensures
            res matches CaptureError::UnsupportedPlatform { platform: p } && p@ == platform@,
    {
        CaptureError::UnsupportedPlatform { platform: owned(platform) }
    }

    /// The user-facing description of the error.
    pub fn message(&self) -> (res: String)
        ensures
            res@ == capture_error_text(*self),
    {
        match self {
            CaptureError::WindowsCaptureNotImplemented => owned(
                "Windows 画面捕获实现未完成：尚未接入 Windows Graphics Capture",
            ),
            CaptureError::WindowsGraphicsCaptureUnsupported => owned(
                "当前 Windows 系统不支持 Windows Graphics Capture",
            ),
            CaptureError::WindowsGraphicsCaptureSupportCheckFailed(detail) => concat2(
                "检测 Windows Graphics Capture 支持状态失败: ",
                detail.as_str(),
            ),
            CaptureError::WindowsDesktopOutputEnumerationFailed(detail) => concat2(
                "枚举 Windows 桌面复制输出失败: ",
                detail.as_str(),
            ),
            CaptureError::WindowsD3dInitializationFailed(detail) => concat2(
                "初始化 Direct3D 捕获设备失败: ",
                detail.as_str(),
            ),
            CaptureError::WindowsCaptureSessionCreateFailed(detail) => concat2(
                "创建 Windows 桌面复制会话失败: ",
                detail.as_str(),
            ),
            CaptureError::WindowsFrameReadFailed(detail) => concat2(
                "读取 Windows 捕获帧失败: ",
                detail.as_str(),
            ),
            CaptureError::UnsupportedPlatform { platform } => concat2(
                "当前平台不支持画面捕获：仅 Windows 支持宿主端捕获，当前平台 ",
                platform.as_str(),
            ),
        }
    }
}

/// What to capture.
#[derive(Debug, Clone, PartialEq, Eq)]
pub enum CaptureTarget {
    /// The whole interactive desktop the host streams.
    Screen,
    /// The whole desktop.
    Desktop,
    /// One window, by handle, with its size and title.
    Window { handle: u64, width: u32, height: u32, title: Option<String> },
}

/// The description of a capture target shown to users.
pub open spec fn capture_target_text(t: CaptureTarget) -> Seq<char> {
    match t {
        CaptureTarget::Screen => "当前交互桌面整屏"@,
        CaptureTarget::Desktop => "整个桌面"@,
        CaptureTarget::Window { handle, width, height, title } => {
            let base = "窗口 "@ + decimal(handle as nat) + "，尺寸 "@ + size_text(width, height);
            match title {
                Some(t) => base + "，标题 "@ + t@,
                None => base,
            }
        },
    }
}

impl CaptureTarget {
    /// The description of the target shown to users.
    pub fn describe(&self) -> (res: String)
        ensures
            res@ == capture_target_text(*self),
    {
        match self {
            CaptureTarget::Screen => owned("当前交互桌面整屏"),
            CaptureTarget::Desktop => owned("整个桌面"),
            CaptureTarget::Window { handle, width, height, title } => {
                let handle_text = decimal_string(*handle);
                let size = size_string(*width, *height);
                let mut res = concat2("窗口 ", handle_text.as_str());
                res.append("，尺寸 ");
                res.append(size.as_str());
                match title {
                    Some(t) => {
                        res.append("，标题 ");
                        res.append(t.as_str());
                    },
                    None => {},
                }
                res
            },
        }
    }
}

/// Pixel layouts of captured frames.
#[derive(Debug, Clone, Copy, PartialEq, Eq, Structural)]
pub enum FramePixelFormat {
    Bgra8Unorm,
}

/// Metadata of one captured frame, without its pixels.
#[derive(Debug, Clone, Copy, PartialEq, Eq, Structural)]
pub struct CapturedFrame {
    pub width: u32,
    pub height: u32,
    pub stride_bytes: u32,
    pub pixel_format: FramePixelFormat,
    pub sequence_number: u64,
    pub timestamp_ns: u64,
}

/// Metadata of the texture a frame was captured into.
#[derive(Debug, Clone, Copy, PartialEq, Eq, Structural)]
pub struct CapturedTextureMetadata {
    pub frame: CapturedFrame,
    pub texture_width: u32,
    pub texture_height: u32,
    pub mip_levels: u32,
    pub array_size: u32,
    pub sample_count: u32,
}

/// A captured frame with its BGRA pixels.
#[derive(Debug, Clone, PartialEq, Eq)]
pub struct CapturedBgraFrame {
    pub metadata: CapturedTextureMetadata,
    pub row_pitch: u32,
    pub bytes: Vec<u8>,
}

/// Number of bytes of a mapped readback of `height` rows of `row_pitch`
/// bytes: refused when the product does not fit in a `usize`, or exceeds
/// `isize::MAX`.
pub fn mapped_byte_len(height: u32, row_pitch: u32) -> (res: Result<usize, CaptureError>)
    ensures
        height * row_pitch > usize::MAX ==> (res matches Err(
            CaptureError::WindowsFrameReadFailed(d),
        ) && d@ == "readback 字节长度溢出"@),
        usize::MAX >= height * row_pitch > isize::MAX ==> (res matches Err(
            CaptureError::WindowsFrameReadFailed(d),
        ) && d@ == "readback 字节长度超过 isize::MAX"@),
        height * row_pitch <= isize::MAX ==> res == Ok::<usize, CaptureError>(
            (height * row_pitch) as usize,
        ),
{
    let byte_len = match (height as usize).checked_mul(row_pitch as usize) {
        Some(n) => n,
        None => {
            return Err(CaptureError::windows_frame_read_failed("readback 字节长度溢出"));
        },
    };
    if byte_len > isize::MAX as usize {
        return Err(CaptureError::windows_frame_read_failed("readback 字节长度超过 isize::MAX"));
    }
    Ok(byte_len)
}

/// The sequence number of the next captured frame after a read: it moves
/// on by one (stopping at the largest value) only when the read returned a
/// frame, so frames are numbered without gaps.
pub fn sequence_number_after_read(sequence_number: u64, frame_returned: bool) -> (res: u64)
    ensures
        res == if frame_returned && sequence_number < u64::MAX {
            sequence_number + 1
        } else {
            sequence_number as int
        },
{
    if frame_returned {
        sequence_number.saturating_add(1)
    } else {
        sequence_number
    }
}

/// One desktop output as the duplication API lists it.
#[derive(Debug, Clone, Copy, PartialEq, Eq, Structural)]
pub struct OutputCandidateInfo {
    pub adapter_index: u32,
    pub output_index: u32,
    pub attached_to_desktop: bool,
    pub width: u32,
    pub height: u32,
}

/// Whether an output can be captured: attached to the desktop, with a
/// non-zero size.
pub open spec fn is_usable_output(o: OutputCandidateInfo) -> bool {
    o.attached_to_desktop && o.width > 0 && o.height > 0
}

/// Positions of the usable outputs, in list order.
pub open spec fn usable_output_indices(outputs: Seq<OutputCandidateInfo>) -> Seq<int>
    decreases outputs.len(),
{
    if outputs.len() == 0 {
        Seq::empty()
    } else {
        let prev = usable_output_indices(outputs.drop_last());
        if is_usable_output(outputs.last()) {
            prev.push(outputs.len() - 1)
        } else {
            prev
        }
    }
}

/// How an output is named in messages: `adapter A/output O WxH`.
pub open spec fn output_detail_text(o: OutputCandidateInfo) -> Seq<char> {
    "adapter "@ + decimal(o.adapter_index as nat) + "/output "@ + decimal(o.output_index as nat)
        + " "@ + size_text(o.width, o.height)
}

/// The outputs at `indices`, named and joined with `; `.
pub open spec fn output_details_text(outputs: Seq<OutputCandidateInfo>, indices: Seq<int>) -> Seq<
    char,
>
    decreases indices.len(),
{
    if indices.len() == 0 {
        Seq::empty()
    } else if indices.len() == 1 {
        output_detail_text(outputs[indices[0]])
    } else {
        output_details_text(outputs, indices.drop_last()) + "; "@ + output_detail_text(
            outputs[indices.last()],
        )
    }
}

proof fn lemma_usable_indices_in_range(outputs: Seq<OutputCandidateInfo>)
    ensures
        forall|k: int|
            0 <= k < usable_output_indices(outputs).len() ==> 0 <= #[trigger] usable_output_indices(
                outputs,
            )[k] < outputs.len(),
        usable_output_indices(outputs).len() <= outputs.len(),
    decreases outputs.len(),
{
    if outputs.len() > 0 {
        lemma_usable_indices_in_range(outputs.drop_last());
    }
}

proof fn lemma_usable_indices_prefix(outputs: Seq<OutputCandidateInfo>, i: int)
    requires
        0 <= i < outputs.len(),
    ensures
        usable_output_indices(outputs.take(i + 1)) == if is_usable_output(outputs[i]) {
            usable_output_indices(outputs.take(i)).push(i)
        } else {
            usable_output_indices(outputs.take(i))
        },
{
    assert(outputs.take(i + 1).drop_last() =~= outputs.take(i));
}

fn output_detail_string(o: OutputCandidateInfo) -> (res: String)
    ensures
        res@ == output_detail_text(o),
{
    let adapter = decimal_string(o.adapter_index as u64);
    let output = decimal_string(o.output_index as u64);
    let size = size_string(o.width, o.height);
    let mut res = concat2("adapter ", adapter.as_str());
    res.append("/output ");
    res.append(output.as_str());
    res.append(" ");
    res.append(size.as_str());
    res
}

/// Picks the single usable desktop output and returns its position. Fails
/// when there is none, or when there are several, naming each of them.
pub fn select_single_attached_desktop_output(outputs: &[OutputCandidateInfo]) -> (res: Result<
    usize,
    CaptureError,
>)
    ensures
        ({
            let idx = usable_output_indices(outputs@);
            if idx.len() == 0 {
                res matches Err(CaptureError::WindowsDesktopOutputEnumerationFailed(d)) && d@
                    == "没有找到可用桌面输出"@
            } else if idx.len() == 1 {
                res == Ok::<usize, CaptureError>(idx[0] as usize)
            } else {
                res matches Err(CaptureError::WindowsDesktopOutputEnumerationFailed(d)) && d@
                    == "检测到 "@ + decimal(idx.len()) + " 个可用桌面输出，当前稳定版只支持单显示器: "@
                    + output_details_text(outputs@, idx)
            }
        }),
{
    let mut attached: Vec<usize> = Vec::new();
    let mut i: usize = 0;
    while i < outputs.len()
        invariant
            i <= outputs.len(),
            attached@.len() == usable_output_indices(outputs@.take(i as int)).len(),
            forall|k: int|
                0 <= k < attached@.len() ==> attached@[k] as int == #[trigger] usable_output_indices(
                    outputs@.take(i as int),
                )[k],
        decreases outputs.len() - i,
    {
        proof {
            lemma_usable_indices_prefix(outputs@, i as int);
        }
        let o = outputs[i];
        if o.attached_to_desktop && o.width > 0 && o.height > 0 {
            attached.push(i);
        }
        i = i + 1;
    }
    assert(outputs@.take(outputs.len() as int) =~= outputs@);
    let ghost idx = usable_output_indices(outputs@);
    proof {
        lemma_usable_indices_in_range(outputs@);
        assert forall|k: int| 0 <= k < attached@.len() implies #[trigger] attached@[k] < outputs@.len() by {
            assert(attached@[k] as int == idx[k]);
        }
    }
    if attached.len() == 0 {
        return Err(CaptureError::windows_desktop_output_enumeration_failed("没有找到可用桌面输出"));
    }
    if attached.len() == 1 {
        return Ok(attached[0]);
    }
    let mut details = output_detail_string(outputs[attached[0]]);
    let mut j: usize = 1;
    while j < attached.len()
        invariant
            1 <= j <= attached@.len(),
            attached@.len() == idx.len(),
            forall|k: int| 0 <= k < attached@.len() ==> #[trigger] attached@[k] as int == idx[k],
            forall|k: int| 0 <= k < attached@.len() ==> #[trigger] attached@[k] < outputs@.len(),
            details@ == output_details_text(outputs@, idx.take(j as int)),
        decreases attached.len() - j,
    {
        let next = output_detail_string(outputs[attached[j]]);
        details.append("; ");
        details.append(next.as_str());
        proof {
            assert(idx.take(j + 1).drop_last() =~= idx.take(j as int));
            assert(idx.take(j + 1).last() == idx[j as int]);
        }
        j = j + 1;
    }
    assert(idx.take(attached.len() as int) =~= idx);
    let count = decimal_string(attached.len() as u64);
    let mut message = concat2("检测到 ", count.as_str());
    message.append(" 个可用桌面输出，当前稳定版只支持单显示器: ");
    message.append(details.as_str());
    Err(CaptureError::WindowsDesktopOutputEnumerationFailed(message))
}

/// What to do after one attempt to read the first frame.
pub enum CaptureWaitStep<T> {
    /// Stop waiting with this outcome.
    Finish(Result<T, CaptureError>),
    /// Sleep briefly and try again.
    Retry,
}

/// The decision after one attempt to read a frame while waiting for it: a
/// frame or an error ends the wait; with nothing yet, the wait ends with a
/// timeout error once the deadline has passed, and goes on otherwise.
pub fn next_capture_wait_step<T>(attempt: Result<Option<T>, CaptureError>, deadline_reached: bool) -> (res:
    CaptureWaitStep<T>)
    ensures
        match attempt {
            Ok(Some(frame)) => res matches CaptureWaitStep::Finish(Ok(got)) && got == frame,
            Err(e) => res matches CaptureWaitStep::Finish(Err(got)) && got == e,
            Ok(None) => if deadline_reached {
                res matches CaptureWaitStep::Finish(Err(CaptureError::WindowsFrameReadFailed(d)))
                    && d@ == "等待 Windows 捕获首帧超时"@
            } else {
                res is Retry
            },
        },
{
    match attempt {
        Ok(Some(frame)) => CaptureWaitStep::Finish(Ok(frame)),
        Err(e) => CaptureWaitStep::Finish(Err(e)),
        Ok(None) => {
            if deadline_reached {
                CaptureWaitStep::Finish(
                    Err(CaptureError::windows_frame_read_failed("等待 Windows 捕获首帧超时")),
                )
            } else {
                CaptureWaitStep::Retry
            }
        },
    }
}

/// A running capture of one target.
#[derive(Debug)]
pub struct CaptureSession {
    target: CaptureTarget,
}

/// Whether `platform` names Windows.
pub open spec fn is_windows_platform(platform: Seq<char>) -> bool {
    platform == "windows"@
}

impl CaptureSession {
    /// The target being captured.
    pub closed spec fn spec_target(&self) -> CaptureTarget {
        self.target
    }

    /// Starts capturing `target` on `platform` (the operating system's name).
    /// No capture backend is available: on Windows the start reports the
    /// backend as not implemented, elsewhere the platform as unsupported.
    pub fn start(target: CaptureTarget, platform: &str) -> (res: Result<Self, CaptureError>)
        ensures
            is_windows_platform(platform@) ==> (res matches Err(e) && e
                == CaptureError::WindowsCaptureNotImplemented),
            !is_windows_platform(platform@) ==> (res matches Err(
                CaptureError::UnsupportedPlatform { platform: p },
            ) && p@ == platform@),
    {
        let name = owned(platform);
        let windows = owned("windows");
        proof {
            reveal_strlit("windows");
        }
        if name == windows {
            Err(CaptureError::windows_capture_not_implemented())
        } else {
            Err(CaptureError::unsupported_platform(platform))
        }
    }

    /// The target being captured.
    pub fn target(&self) -> (res: &CaptureTarget)
        ensures
            *res == self.spec_target(),
    {
        &self.target
    }

    /// Whether the capture still delivers frames; without a backend it never does.
    pub fn is_active(&self) -> (res: bool)
        ensures
            !res,
    {
        false
    }

    /// The next frame's metadata if one is ready; without a backend none ever is.
    pub fn try_next_frame_metadata(&mut self) -> (res: Result<Option<CapturedFrame>, CaptureError>)
        ensures
            res == Ok::<Option<CapturedFrame>, CaptureError>(None),
            final(self).spec_target() == old(self).spec_target(),
    {
        Ok(None)
    }

    /// The next frame's texture metadata if one is ready; without a backend none ever is.
    pub fn try_next_texture_metadata(&mut self) -> (res: Result<
        Option<CapturedTextureMetadata>,
        CaptureError,
    >)
        ensures
            res == Ok::<Option<CapturedTextureMetadata>, CaptureError>(None),
            final(self).spec_target() == old(self).spec_target(),
    {
        Ok(None)
    }

    /// The next frame with its pixels if one is ready; without a backend none ever is.
    pub fn try_next_bgra_frame(&mut self) -> (res: Result<Option<CapturedBgraFrame>, CaptureError>)
        ensures
            res matches Ok(None),
            final(self).spec_target() == old(self).spec_target(),
    {
        Ok(None)
    }
}

} // verus!
