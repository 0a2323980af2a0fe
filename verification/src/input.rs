//! Mapping client input events to Windows input actions: keys, buttons, wheel
//! steps and relative moves, and the normalisation of absolute pointer
//! positions onto the virtual desktop.

use vstd::prelude::*;

use crate::protocol::{ButtonState, Modifiers, MouseButton};
use crate::text::{concat3, decimal, decimal_string, owned};

verus! {

/// Wheel distance Windows uses for one wheel notch.
pub const WINDOWS_WHEEL_DELTA: i32 = 120;

/// The capture region on the host and the size of the client's view of it.
#[derive(Debug, Clone, Copy, PartialEq, Eq, Structural)]
pub struct CaptureInputBounds {
    pub origin_x: i32,
    pub origin_y: i32,
    pub width: u32,
    pub height: u32,
    pub client_width: u32,
    pub client_height: u32,
}

impl CaptureInputBounds {
    /// Bounds of a capture region whose client view has the same size.
    pub fn from_capture_size(origin_x: i32, origin_y: i32, width: u32, height: u32) -> (res:
        CaptureInputBounds)
        ensures
            res == (CaptureInputBounds {
                origin_x,
                origin_y,
                width,
                height,
                client_width: width,
                client_height: height,
            }),
    {
        CaptureInputBounds {
            origin_x,
            origin_y,
            width,
            height,
            client_width: width,
            client_height: height,
        }
    }

    /// The same bounds with another client view size.
    pub fn with_client_size(self, client_width: u32, client_height: u32) -> (res:
        CaptureInputBounds)
        ensures
            res == (CaptureInputBounds { client_width, client_height, ..self }),
    {
        CaptureInputBounds { client_width, client_height, ..self }
    }

    /// Whether absolute pointer positions can be mapped: the capture region
    /// and the client view both have a width and a height.
    pub open spec fn spec_maps_pointer(self) -> bool {
        self.width != 0 && self.height != 0 && self.client_width != 0 && self.client_height != 0
    }

    /// Checks that absolute pointer positions can be mapped.
    pub fn check_pointer_bounds(&self) -> (res: Result<(), InputInjectionError>)
        ensures
            res is Ok <==> self.spec_maps_pointer(),
            res is Err ==> res == Err::<(), InputInjectionError>(
                InputInjectionError::InvalidCaptureBounds,
            ),
    {
        if self.width == 0 || self.height == 0 || self.client_width == 0 || self.client_height
            == 0 {
            Err(InputInjectionError::InvalidCaptureBounds)
        } else {
            Ok(())
        }
    }
}

/// Why an input event could not be injected.
#[derive(Debug, Clone, Copy, PartialEq, Eq, Structural)]
pub enum InputInjectionError {
    InvalidCaptureBounds,
    InvalidMouseCoordinate,
    UnsupportedKeyCode(u32),
    UnsupportedPlatform,
    WindowsSendInputFailed,
}

impl InputInjectionError {
    /// The user-facing description of the error.
    pub fn message(&self) -> (res: String)
        ensures
            res@ == match *self {
                InputInjectionError::InvalidCaptureBounds => "输入映射失败：捕获区域宽高必须大于 0"@,
                InputInjectionError::InvalidMouseCoordinate => "输入映射失败：鼠标坐标必须是有效数字"@,
                InputInjectionError::UnsupportedKeyCode(code) => "输入映射失败：按键码 "@ + decimal(
                    code as nat,
                ) + " 超出 Windows virtual-key 范围"@,
                InputInjectionError::UnsupportedPlatform => "当前平台不支持输入注入：仅 Windows 支持 SendInput"@,
                InputInjectionError::WindowsSendInputFailed =>
                    "Windows 输入注入失败：SendInput 未接受全部输入事件"@,
            },
    {
        match *self {
            InputInjectionError::InvalidCaptureBounds => owned("输入映射失败：捕获区域宽高必须大于 0"),
            InputInjectionError::InvalidMouseCoordinate => owned("输入映射失败：鼠标坐标必须是有效数字"),
            InputInjectionError::UnsupportedKeyCode(code) => {
                let code = decimal_string(code as u64);
                concat3("输入映射失败：按键码 ", code.as_str(), " 超出 Windows virtual-key 范围")
            },
            InputInjectionError::UnsupportedPlatform => owned(
                "当前平台不支持输入注入：仅 Windows 支持 SendInput",
            ),
            InputInjectionError::WindowsSendInputFailed => owned(
                "Windows 输入注入失败：SendInput 未接受全部输入事件",
            ),
        }
    }
}

/// One Windows input action.
#[derive(Debug, Clone, Copy, PartialEq, Eq, Structural)]
pub enum WindowsInputAction {
    MoveAbsolute { x: i32, y: i32 },
    MoveRelative { delta_x: i32, delta_y: i32 },
    MouseButton { button: MouseButton, state: ButtonState },
    VerticalWheel { delta: i32 },
    HorizontalWheel { delta: i32 },
    Keyboard { virtual_key: u16, state: ButtonState, modifiers: Modifiers },
}

/// A client input event with integral payload: relative pointer moves,
/// buttons, wheel steps and keys.
#[derive(Debug, Clone, Copy, PartialEq, Eq, Structural)]
pub enum InputEvent {
    MouseMoveDelta { delta_x: i32, delta_y: i32 },
    MouseButton { button: MouseButton, state: ButtonState },
    MouseWheel { delta_x: i32, delta_y: i32 },
    Key { code: u32, state: ButtonState, modifiers: Modifiers },
}

/// The Windows virtual-key code for an SDL keycode: letters, digits and a
/// handful of named keys are translated; other codes that fit in 16 bits pass
/// through unchanged; larger codes have none.
pub open spec fn sdl_key_to_virtual_key(code: u32) -> Option<u16> {
    if 97 <= code <= 122 {
        Some((code - 32) as u16)
    } else if 48 <= code <= 57 {
        Some(code as u16)
    } else if code == 8 {
        Some(0x08)
    } else if code == 9 {
        Some(0x09)
    } else if code == 13 {
        Some(0x0D)
    } else if code == 27 {
        Some(0x1B)
    } else if code == 32 {
        Some(0x20)
    } else if code == 127 {
        Some(0x2E)
    } else if code == 1_073_741_897 {
        Some(0x2D)
    } else if code == 1_073_741_898 {
        Some(0x24)
    } else if code == 1_073_741_899 {
        Some(0x21)
    } else if code == 1_073_741_901 {
        Some(0x23)
    } else if code == 1_073_741_902 {
        Some(0x22)
    } else if code == 1_073_741_903 {
        Some(0x27)
    } else if code == 1_073_741_904 {
        Some(0x25)
    } else if code == 1_073_741_905 {
        Some(0x28)
    } else if code == 1_073_741_906 {
        Some(0x26)
    } else if 1_073_741_882 <= code <= 1_073_741_893 {
        Some((0x70 + (code - 1_073_741_882)) as u16)
    } else if code == 1_073_742_048 {
        Some(0xA2)
    } else if code == 1_073_742_049 {
        Some(0xA0)
    } else if code == 1_073_742_050 {
        Some(0xA4)
    } else if code == 1_073_742_052 {
        Some(0xA3)
    } else if code == 1_073_742_053 {
        Some(0xA1)
    } else if code == 1_073_742_054 {
        Some(0xA5)
    } else if code <= 0xFFFF {
        Some(code as u16)
    } else {
        None
    }
}

/// The SDL arrow keys keep their direction: among the named SDL keys (those
/// with the scancode bit `1 << 30` set), exactly SDLK_LEFT (`1 << 30 | 80`)
/// gives VK_LEFT (0x25), SDLK_UP (`| 82`) gives VK_UP (0x26), SDLK_RIGHT
/// (`| 79`) gives VK_RIGHT (0x27) and SDLK_DOWN (`| 81`) gives VK_DOWN (0x28).
pub proof fn lemma_arrow_keys_keep_their_direction(code: u32)
    requires
        code >= 0x4000_0000,
    ensures
        (sdl_key_to_virtual_key(code) == Some(0x25u16)) <==> code == 0x4000_0050,
        (sdl_key_to_virtual_key(code) == Some(0x26u16)) <==> code == 0x4000_0052,
        (sdl_key_to_virtual_key(code) == Some(0x27u16)) <==> code == 0x4000_004F,
        (sdl_key_to_virtual_key(code) == Some(0x28u16)) <==> code == 0x4000_0051,
{
}

/// Distinct named SDL keys (those with the scancode bit `1 << 30` set) that
/// have a virtual key never share it: no named key is injected as another.
pub proof fn lemma_named_keys_are_distinct(a: u32, b: u32)
    requires
        a >= 0x4000_0000,
        b >= 0x4000_0000,
        a != b,
        sdl_key_to_virtual_key(a) is Some,
        sdl_key_to_virtual_key(b) is Some,
    ensures
        sdl_key_to_virtual_key(a) != sdl_key_to_virtual_key(b),
{
}

/// Keys whose code fits in 16 bits keep their code as the virtual key,
/// except that a lowercase letter gives the virtual key of its uppercase
/// letter (the same as the uppercase code) and Delete (127) gives VK_DELETE
/// (0x2E).
pub proof fn lemma_plain_keys_keep_their_code(code: u32)
    requires
        code <= 0xFFFF,
    ensures
        97 <= code <= 122 ==> sdl_key_to_virtual_key(code) == Some((code - 32) as u16)
            && sdl_key_to_virtual_key((code - 32) as u32) == sdl_key_to_virtual_key(code),
        code == 127 ==> sdl_key_to_virtual_key(code) == Some(0x2Eu16),
        !(97 <= code <= 122) && code != 127 ==> sdl_key_to_virtual_key(code) == Some(code as u16),
{
}

/// The named SDL keys give the Windows virtual keys of the same key, and no
/// other named key gives them: F1..F12 (SDL scancodes 58..69 with bit
/// `1 << 30`) give VK_F1..VK_F12 (0x70..0x7B) in order; Insert, Home, Page Up,
/// End and Page Down give 0x2D, 0x24, 0x21, 0x23, 0x22; left and right
/// Control, Shift and Alt give VK_LCONTROL (0xA2), VK_RCONTROL (0xA3),
/// VK_LSHIFT (0xA0), VK_RSHIFT (0xA1), VK_LMENU (0xA4) and VK_RMENU (0xA5).
pub proof fn lemma_named_keys_give_their_virtual_keys(code: u32)
    requires
        code >= 0x4000_0000,
    ensures
        0x4000_003A <= code <= 0x4000_0045 ==> sdl_key_to_virtual_key(code) == Some(
            (0x70 + (code - 0x4000_003A)) as u16,
        ),
        (sdl_key_to_virtual_key(code) matches Some(v) && 0x70 <= v <= 0x7B) ==> 0x4000_003A <= code
            <= 0x4000_0045,
        (sdl_key_to_virtual_key(code) == Some(0x2Du16)) <==> code == 0x4000_0049,
        (sdl_key_to_virtual_key(code) == Some(0x24u16)) <==> code == 0x4000_004A,
        (sdl_key_to_virtual_key(code) == Some(0x21u16)) <==> code == 0x4000_004B,
        (sdl_key_to_virtual_key(code) == Some(0x23u16)) <==> code == 0x4000_004D,
        (sdl_key_to_virtual_key(code) == Some(0x22u16)) <==> code == 0x4000_004E,
        (sdl_key_to_virtual_key(code) == Some(0xA2u16)) <==> code == 0x4000_00E0,
        (sdl_key_to_virtual_key(code) == Some(0xA0u16)) <==> code == 0x4000_00E1,
        (sdl_key_to_virtual_key(code) == Some(0xA4u16)) <==> code == 0x4000_00E2,
        (sdl_key_to_virtual_key(code) == Some(0xA3u16)) <==> code == 0x4000_00E4,
        (sdl_key_to_virtual_key(code) == Some(0xA1u16)) <==> code == 0x4000_00E5,
        (sdl_key_to_virtual_key(code) == Some(0xA5u16)) <==> code == 0x4000_00E6,
{
}

/// Translates an SDL keycode into a Windows virtual-key code.
pub fn map_sdl_keycode_to_windows_virtual_key(code: u32) -> (res: Option<u16>)
    ensures
        res == sdl_key_to_virtual_key(code),
{
    if 97 <= code && code <= 122 {
        Some((code - 32) as u16)
    } else if 48 <= code && code <= 57 {
        Some(code as u16)
    } else if code == 8 {
        Some(0x08)
    } else if code == 9 {
        Some(0x09)
    } else if code == 13 {
        Some(0x0D)
    } else if code == 27 {
        Some(0x1B)
    } else if code == 32 {
        Some(0x20)
    } else if code == 127 {
        Some(0x2E)
    } else if code == 1_073_741_897 {
        Some(0x2D)
    } else if code == 1_073_741_898 {
        Some(0x24)
    } else if code == 1_073_741_899 {
        Some(0x21)
    } else if code == 1_073_741_901 {
        Some(0x23)
    } else if code == 1_073_741_902 {
        Some(0x22)
    } else if code == 1_073_741_903 {
        Some(0x27)
    } else if code == 1_073_741_904 {
        Some(0x25)
    } else if code == 1_073_741_905 {
        Some(0x28)
    } else if code == 1_073_741_906 {
        Some(0x26)
    } else if 1_073_741_882 <= code && code <= 1_073_741_893 {
        Some((0x70 + (code - 1_073_741_882)) as u16)
    } else if code == 1_073_742_048 {
        Some(0xA2)
    } else if code == 1_073_742_049 {
        Some(0xA0)
    } else if code == 1_073_742_050 {
        Some(0xA4)
    } else if code == 1_073_742_052 {
        Some(0xA3)
    } else if code == 1_073_742_053 {
        Some(0xA1)
    } else if code == 1_073_742_054 {
        Some(0xA5)
    } else if code <= 0xFFFF {
        Some(code as u16)
    } else {
        None
    }
}

/// `x` limited to the range of `i32`.
pub open spec fn saturate_i32(x: int) -> i32 {
    if x < i32::MIN {
        i32::MIN
    } else if x > i32::MAX {
        i32::MAX
    } else {
        x as i32
    }
}

/// `i32::saturating_mul`: the product, limited to the range of `i32`.
pub fn saturating_mul_i32(a: i32, b: i32) -> (res: i32)
    ensures
        res == saturate_i32(a * b),
{
    let wide_a = a as i64;
    let wide_b = b as i64;
    assert(-0x8000_0000 * 0x8000_0000 <= wide_a * wide_b <= 0x8000_0000 * 0x8000_0000)
        by (nonlinear_arith)
        requires
            -0x8000_0000 <= wide_a <= 0x7fff_ffff,
            -0x8000_0000 <= wide_b <= 0x7fff_ffff,
    ;
    let product = wide_a * wide_b;
    if product < i32::MIN as i64 {
        i32::MIN
    } else if product > i32::MAX as i64 {
        i32::MAX
    } else {
        product as i32
    }
}

/// The wheel actions for a wheel event: a vertical step when `delta_y` is not
/// zero, then a horizontal step when `delta_x` is not zero, each scaled to
/// Windows wheel units.
pub open spec fn wheel_actions(delta_x: i32, delta_y: i32) -> Seq<WindowsInputAction> {
    let vertical = if delta_y != 0 {
        seq![
            WindowsInputAction::VerticalWheel { delta: saturate_i32(delta_y * WINDOWS_WHEEL_DELTA) },
        ]
    } else {
        Seq::empty()
    };
    let horizontal = if delta_x != 0 {
        seq![
            WindowsInputAction::HorizontalWheel {
                delta: saturate_i32(delta_x * WINDOWS_WHEEL_DELTA),
            },
        ]
    } else {
        Seq::empty()
    };
    vertical + horizontal
}

/// The Windows actions an input event maps to, or the error it is rejected
/// with.
pub open spec fn actions_of(event: InputEvent) -> Result<Seq<WindowsInputAction>, InputInjectionError> {
    match event {
        InputEvent::MouseMoveDelta { delta_x, delta_y } => Ok(
            seq![WindowsInputAction::MoveRelative { delta_x, delta_y }],
        ),
        InputEvent::MouseButton { button, state } => Ok(
            seq![WindowsInputAction::MouseButton { button, state }],
        ),
        InputEvent::MouseWheel { delta_x, delta_y } => Ok(wheel_actions(delta_x, delta_y)),
        InputEvent::Key { code, state, modifiers } => match sdl_key_to_virtual_key(code) {
            Some(virtual_key) => Ok(
                seq![WindowsInputAction::Keyboard { virtual_key, state, modifiers }],
            ),
            None => Err(InputInjectionError::UnsupportedKeyCode(code)),
        },
    }
}

/// Maps an input event to Windows input actions. Relative moves, buttons and
/// keys do not depend on the capture bounds.
pub fn map_input_event_to_windows_actions(event: InputEvent, bounds: CaptureInputBounds) -> (res:
    Result<Vec<WindowsInputAction>, InputInjectionError>)
    ensures
        match (res, actions_of(event)) {
            (Ok(actions), Ok(expected)) => actions@ == expected,
            (Err(e), Err(expected)) => e == expected,
            _ => false,
        },
{
    match event {
        InputEvent::MouseMoveDelta { delta_x, delta_y } => {
            let mut actions = Vec::new();
            actions.push(WindowsInputAction::MoveRelative { delta_x, delta_y });
            Ok(actions)
        },
        InputEvent::MouseButton { button, state } => {
            let mut actions = Vec::new();
            actions.push(WindowsInputAction::MouseButton { button, state });
            Ok(actions)
        },
        InputEvent::MouseWheel { delta_x, delta_y } => {
            let mut actions = Vec::new();
            if delta_y != 0 {
                actions.push(
                    WindowsInputAction::VerticalWheel {
                        delta: saturating_mul_i32(delta_y, WINDOWS_WHEEL_DELTA),
                    },
                );
            }
            if delta_x != 0 {
                actions.push(
                    WindowsInputAction::HorizontalWheel {
                        delta: saturating_mul_i32(delta_x, WINDOWS_WHEEL_DELTA),
                    },
                );
            }
            assert(actions@ =~= wheel_actions(delta_x, delta_y));
            Ok(actions)
        },
        InputEvent::Key { code, state, modifiers } => {
            match map_sdl_keycode_to_windows_virtual_key(code) {
                Some(virtual_key) => {
                    let mut actions = Vec::new();
                    actions.push(WindowsInputAction::Keyboard { virtual_key, state, modifiers });
                    Ok(actions)
                },
                None => Err(InputInjectionError::UnsupportedKeyCode(code)),
            }
        },
    }
}

/// A wheel event yields one action per non-zero axis, vertical first, and
/// every other mapped event yields exactly one action.
pub proof fn lemma_action_counts(event: InputEvent)
    ensures
        match (event, actions_of(event)) {
            (InputEvent::MouseWheel { delta_x, delta_y }, Ok(actions)) => actions.len() == (if delta_y
                != 0 {
                1int
            } else {
                0
            }) + (if delta_x != 0 {
                1int
            } else {
                0
            }),
            (_, Ok(actions)) => actions.len() == 1,
            (_, Err(_)) => true,
        },
{
}

/// Only key events are rejected, and exactly those whose code has no
/// virtual key.
pub proof fn lemma_only_unmapped_keys_fail(event: InputEvent)
    ensures
        actions_of(event) is Err <==> (event matches InputEvent::Key { code, .. }
            && sdl_key_to_virtual_key(code) is None),
{
}

/// The virtual desktop spanned by all monitors.
#[derive(Debug, Clone, Copy, PartialEq, Eq, Structural)]
pub struct VirtualDesktop {
    pub origin_x: i32,
    pub origin_y: i32,
    pub width: i32,
    pub height: i32,
}

/// `x` limited to `[lo, hi]`.
pub open spec fn clamp_int(x: int, lo: int, hi: int) -> int {
    if x < lo {
        lo
    } else if x > hi {
        hi
    } else {
        x
    }
}

/// The normalised absolute coordinate (0..=65535) of `v` on an axis that
/// starts at `origin` and has `size` pixels: `v` is first limited to the axis
/// (a size below one counts as one pixel, and the far end is limited to
/// `i32::MAX`), then scaled so that the first pixel maps to 0 and the last to
/// 65535.
pub open spec fn normalized_axis(v: i32, origin: i32, size: i32) -> int {
    let span = if size < 1 {
        1int
    } else {
        size as int
    };
    let hi = if origin + span - 1 > i32::MAX {
        i32::MAX as int
    } else {
        origin + span - 1
    };
    let c = clamp_int(v as int, origin as int, hi);
    let divisor = if span - 1 < 1 {
        1int
    } else {
        span - 1
    };
    (c - origin) * 65535 / divisor
}

/// One axis of the normalisation.
fn normalize_axis(v: i32, origin: i32, size: i32) -> (res: i32)
    ensures
        res == normalized_axis(v, origin, size),
        0 <= res <= 65535,
{
    let span: i32 = if size < 1 {
        1
    } else {
        size
    };
    let hi: i32 = if origin as i64 + span as i64 - 1 > i32::MAX as i64 {
        i32::MAX
    } else {
        origin + (span - 1)
    };
    let c: i32 = if v < origin {
        origin
    } else if v > hi {
        hi
    } else {
        v
    };
    let divisor: i32 = if span - 1 < 1 {
        1
    } else {
        span - 1
    };
    let offset: i64 = c as i64 - origin as i64;
    assert(0 <= offset <= divisor);
    let scaled: i64 = offset * 65535;
    assert(0 <= scaled <= divisor as int * 65535) by (nonlinear_arith)
        requires
            0 <= offset <= divisor,
            scaled == offset * 65535,
    ;
    let q: i64 = scaled / divisor as i64;
    assert(0 <= q <= 65535) by (nonlinear_arith)
        requires
            0 <= scaled <= divisor as int * 65535,
            divisor >= 1,
            q == scaled as int / divisor as int,
    ;
    q as i32
}

impl VirtualDesktop {
    /// The `SendInput` absolute coordinates (0..=65535 on each axis) of a
    /// desktop pixel; pixels outside the desktop are first moved onto its
    /// nearest edge.
    pub fn normalize_absolute(&self, x: i32, y: i32) -> (res: (i32, i32))
        ensures
            res.0 == normalized_axis(x, self.origin_x, self.width),
            res.1 == normalized_axis(y, self.origin_y, self.height),
            0 <= res.0 <= 65535,
            0 <= res.1 <= 65535,
    {
        (normalize_axis(x, self.origin_x, self.width), normalize_axis(y, self.origin_y, self.height))
    }
}

/// The desktop's first pixel on an axis maps to 0, and pixels before it too.
pub proof fn lemma_normalized_origin(v: i32, origin: i32, size: i32)
    requires
        v <= origin,
    ensures
        normalized_axis(v, origin, size) == 0,
{
}

/// Normalisation keeps the order of pixels on an axis.
pub proof fn lemma_normalized_monotone(a: i32, b: i32, origin: i32, size: i32)
    requires
        a <= b,
    ensures
        normalized_axis(a, origin, size) <= normalized_axis(b, origin, size),
{
    let span = if size < 1 {
        1int
    } else {
        size as int
    };
    let hi = if origin + span - 1 > i32::MAX {
        i32::MAX as int
    } else {
        origin + span - 1
    };
    let ca = clamp_int(a as int, origin as int, hi);
    let cb = clamp_int(b as int, origin as int, hi);
    let divisor = if span - 1 < 1 {
        1int
    } else {
        span - 1
    };
    assert((ca - origin) * 65535 <= (cb - origin) * 65535) by (nonlinear_arith)
        requires
            ca <= cb,
    ;
    vstd::arithmetic::div_mod::lemma_div_is_ordered(
        (ca - origin) * 65535,
        (cb - origin) * 65535,
        divisor,
    );
}

/// The sink that turns client input events into Windows input actions for one
/// capture region.
#[derive(Debug, Clone, Copy)]
pub struct WindowsInputEventSink {
    bounds: CaptureInputBounds,
}

impl WindowsInputEventSink {
    /// A sink for the given capture region.
    pub fn new(bounds: CaptureInputBounds) -> (res: WindowsInputEventSink)
        ensures
            res.spec_bounds() == bounds,
    {
        WindowsInputEventSink { bounds }
    }

    /// The capture region of the sink.
    pub closed spec fn spec_bounds(&self) -> CaptureInputBounds {
        self.bounds
    }

    /// The capture region of the sink.
    pub fn bounds(&self) -> (res: CaptureInputBounds)
        ensures
            res == self.spec_bounds(),
    {
        self.bounds
    }

    /// The Windows actions for an event under the sink's bounds.
    pub fn actions_for(&self, event: InputEvent) -> (res: Result<Vec<WindowsInputAction>, InputInjectionError>)
        ensures
            match (res, actions_of(event)) {
                (Ok(actions), Ok(expected)) => actions@ == expected,
                (Err(e), Err(expected)) => e == expected,
                _ => false,
            },
    {
        map_input_event_to_windows_actions(event, self.bounds)
    }

    /// Injects an event: maps it, then hands the actions to the system.
    /// Mapping failures are reported as they are; injection needs Windows
    /// `SendInput`, which this build does not have.
    pub fn inject(&mut self, event: InputEvent) -> (res: Result<(), InputInjectionError>)
        ensures
            final(self).spec_bounds() == old(self).spec_bounds(),
            match actions_of(event) {
                Err(e) => res == Err::<(), InputInjectionError>(e),
                Ok(_) => res == Err::<(), InputInjectionError>(InputInjectionError::UnsupportedPlatform),
            },
    {
        let actions = match map_input_event_to_windows_actions(event, self.bounds) {
            Ok(actions) => actions,
            Err(e) => {
                return Err(e);
            },
        };
        inject_windows_actions(actions.as_slice())
    }
}

/// Hands actions to the system. Injection needs Windows `SendInput`, which
/// this build does not have.
pub fn inject_windows_actions(actions: &[WindowsInputAction]) -> (res: Result<(), InputInjectionError>)
    ensures
        res == Err::<(), InputInjectionError>(InputInjectionError::UnsupportedPlatform),
{
    Err(InputInjectionError::UnsupportedPlatform)
}


/// `MOUSEEVENTF_LEFTDOWN`.
pub const MOUSEEVENTF_LEFTDOWN: u32 = 0x0002;
/// `MOUSEEVENTF_LEFTUP`.
pub const MOUSEEVENTF_LEFTUP: u32 = 0x0004;
/// `MOUSEEVENTF_RIGHTDOWN`.
pub const MOUSEEVENTF_RIGHTDOWN: u32 = 0x0008;
/// `MOUSEEVENTF_RIGHTUP`.
pub const MOUSEEVENTF_RIGHTUP: u32 = 0x0010;
/// `MOUSEEVENTF_MIDDLEDOWN`.
pub const MOUSEEVENTF_MIDDLEDOWN: u32 = 0x0020;
/// `MOUSEEVENTF_MIDDLEUP`.
pub const MOUSEEVENTF_MIDDLEUP: u32 = 0x0040;
/// `KEYEVENTF_KEYUP`.
pub const KEYEVENTF_KEYUP: u32 = 0x0002;

/// The `SendInput` mouse flag for pressing or releasing a button.
pub fn mouse_button_flags(button: MouseButton, state: ButtonState) -> (res: u32)
    ensures
        res == match (button, state) {
            (MouseButton::Left, ButtonState::Pressed) => MOUSEEVENTF_LEFTDOWN,
            (MouseButton::Left, ButtonState::Released) => MOUSEEVENTF_LEFTUP,
            (MouseButton::Right, ButtonState::Pressed) => MOUSEEVENTF_RIGHTDOWN,
            (MouseButton::Right, ButtonState::Released) => MOUSEEVENTF_RIGHTUP,
            (MouseButton::Middle, ButtonState::Pressed) => MOUSEEVENTF_MIDDLEDOWN,
            (MouseButton::Middle, ButtonState::Released) => MOUSEEVENTF_MIDDLEUP,
        },
{
    match (button, state) {
        (MouseButton::Left, ButtonState::Pressed) => MOUSEEVENTF_LEFTDOWN,
        (MouseButton::Left, ButtonState::Released) => MOUSEEVENTF_LEFTUP,
        (MouseButton::Right, ButtonState::Pressed) => MOUSEEVENTF_RIGHTDOWN,
        (MouseButton::Right, ButtonState::Released) => MOUSEEVENTF_RIGHTUP,
        (MouseButton::Middle, ButtonState::Pressed) => MOUSEEVENTF_MIDDLEDOWN,
        (MouseButton::Middle, ButtonState::Released) => MOUSEEVENTF_MIDDLEUP,
    }
}

/// The `SendInput` keyboard flags: none for a press, key-up for a release.
pub fn key_flags(state: ButtonState) -> (res: u32)
    ensures
        res == match state {
            ButtonState::Pressed => 0,
            ButtonState::Released => KEYEVENTF_KEYUP,
        },
{
    match state {
        ButtonState::Pressed => 0,
        ButtonState::Released => KEYEVENTF_KEYUP,
    }
}

/// `MOUSEEVENTF_MOVE`.
pub const MOUSEEVENTF_MOVE: u32 = 0x0001;
/// `MOUSEEVENTF_WHEEL`.
pub const MOUSEEVENTF_WHEEL: u32 = 0x0800;
/// `MOUSEEVENTF_HWHEEL`.
pub const MOUSEEVENTF_HWHEEL: u32 = 0x1000;
/// `MOUSEEVENTF_VIRTUALDESK`.
pub const MOUSEEVENTF_VIRTUALDESK: u32 = 0x4000;
/// `MOUSEEVENTF_ABSOLUTE`.
pub const MOUSEEVENTF_ABSOLUTE: u32 = 0x8000;
/// The flags of an absolute move over the whole virtual desktop.
pub const MOUSEEVENTF_ABSOLUTE_MOVE: u32 = 0xc001;

/// One `SendInput` record, by the fields the host fills in.
#[derive(Debug, Clone, Copy, PartialEq, Eq, Structural)]
pub enum SendInputRecord {
    Mouse { dx: i32, dy: i32, flags: u32, mouse_data: u32 },
    Keyboard { virtual_key: u16, flags: u32 },
}

/// The record for one action: an absolute move is normalised over the
/// virtual desktop; a relative move carries its deltas; a button carries its
/// flag; a wheel step carries its delta (as the unsigned word Windows reads);
/// a key carries its virtual key and press or release flag.
pub open spec fn send_input_record_of(action: WindowsInputAction, desktop: VirtualDesktop) -> SendInputRecord {
    match action {
        WindowsInputAction::MoveAbsolute { x, y } => SendInputRecord::Mouse {
            dx: normalized_axis(x, desktop.origin_x, desktop.width) as i32,
            dy: normalized_axis(y, desktop.origin_y, desktop.height) as i32,
            flags: MOUSEEVENTF_ABSOLUTE_MOVE,
            mouse_data: 0,
        },
        WindowsInputAction::MoveRelative { delta_x, delta_y } => SendInputRecord::Mouse {
            dx: delta_x,
            dy: delta_y,
            flags: MOUSEEVENTF_MOVE,
            mouse_data: 0,
        },
        WindowsInputAction::MouseButton { button, state } => SendInputRecord::Mouse {
            dx: 0,
            dy: 0,
            flags: match (button, state) {
                (MouseButton::Left, ButtonState::Pressed) => MOUSEEVENTF_LEFTDOWN,
                (MouseButton::Left, ButtonState::Released) => MOUSEEVENTF_LEFTUP,
                (MouseButton::Right, ButtonState::Pressed) => MOUSEEVENTF_RIGHTDOWN,
                (MouseButton::Right, ButtonState::Released) => MOUSEEVENTF_RIGHTUP,
                (MouseButton::Middle, ButtonState::Pressed) => MOUSEEVENTF_MIDDLEDOWN,
                (MouseButton::Middle, ButtonState::Released) => MOUSEEVENTF_MIDDLEUP,
            },
            mouse_data: 0,
        },
        WindowsInputAction::VerticalWheel { delta } => SendInputRecord::Mouse {
            dx: 0,
            dy: 0,
            flags: MOUSEEVENTF_WHEEL,
            mouse_data: delta as u32,
        },
        WindowsInputAction::HorizontalWheel { delta } => SendInputRecord::Mouse {
            dx: 0,
            dy: 0,
            flags: MOUSEEVENTF_HWHEEL,
            mouse_data: delta as u32,
        },
        WindowsInputAction::Keyboard { virtual_key, state, .. } => SendInputRecord::Keyboard {
            virtual_key,
            flags: match state {
                ButtonState::Pressed => 0,
                ButtonState::Released => KEYEVENTF_KEYUP,
            },
        },
    }
}

/// The `SendInput` record for one action.
pub fn send_input_record(action: WindowsInputAction, desktop: &VirtualDesktop) -> (res: SendInputRecord)
    ensures
        res == send_input_record_of(action, *desktop),
{
    match action {
        WindowsInputAction::MoveAbsolute { x, y } => {
            let (dx, dy) = desktop.normalize_absolute(x, y);
            assert(0x0001u32 | 0x8000u32 | 0x4000u32 == 0xc001u32) by (bit_vector);
            SendInputRecord::Mouse {
                dx,
                dy,
                flags: MOUSEEVENTF_MOVE | MOUSEEVENTF_ABSOLUTE | MOUSEEVENTF_VIRTUALDESK,
                mouse_data: 0,
            }
        },
        WindowsInputAction::MoveRelative { delta_x, delta_y } => SendInputRecord::Mouse {
            dx: delta_x,
            dy: delta_y,
            flags: MOUSEEVENTF_MOVE,
            mouse_data: 0,
        },
        WindowsInputAction::MouseButton { button, state } => SendInputRecord::Mouse {
            dx: 0,
            dy: 0,
            flags: mouse_button_flags(button, state),
            mouse_data: 0,
        },
        WindowsInputAction::VerticalWheel { delta } => SendInputRecord::Mouse {
            dx: 0,
            dy: 0,
            flags: MOUSEEVENTF_WHEEL,
            mouse_data: delta as u32,
        },
        WindowsInputAction::HorizontalWheel { delta } => SendInputRecord::Mouse {
            dx: 0,
            dy: 0,
            flags: MOUSEEVENTF_HWHEEL,
            mouse_data: delta as u32,
        },
        WindowsInputAction::Keyboard { virtual_key, state, .. } => SendInputRecord::Keyboard {
            virtual_key,
            flags: key_flags(state),
        },
    }
}

/// The `SendInput` records for a list of actions, one per action, in order.
pub fn send_input_records(actions: &[WindowsInputAction], desktop: &VirtualDesktop) -> (res: Vec<
    SendInputRecord,
>)
    ensures
        res@.len() == actions@.len(),
        forall|i: int|
            0 <= i < actions@.len() ==> #[trigger] res@[i] == send_input_record_of(
                actions@[i],
                *desktop,
            ),
{
    let mut res: Vec<SendInputRecord> = Vec::new();
    let mut i: usize = 0;
    while i < actions.len()
        invariant
            i <= actions@.len(),
            res@.len() == i,
            forall|j: int|
                0 <= j < i ==> #[trigger] res@[j] == send_input_record_of(actions@[j], *desktop),
        decreases actions@.len() - i,
    {
        res.push(send_input_record(actions[i], desktop));
        i = i + 1;
    }
    res
}

/// Whether `SendInput` is called at all: not for an empty list.
pub fn send_input_needed(records: &[SendInputRecord]) -> (res: bool)
    ensures
        res == (records@.len() > 0),
{
    records.len() > 0
}

/// The outcome of handing `requested` records to `SendInput`, which reports
/// how many it inserted: success when it took them all (or when there was
/// nothing to hand over), a failure otherwise.
pub fn send_input_outcome(requested: usize, sent: u32) -> (res: Result<(), InputInjectionError>)
    ensures
        res == if requested == 0 || sent == requested as u32 {
            Ok::<(), InputInjectionError>(())
        } else {
            Err::<(), InputInjectionError>(InputInjectionError::WindowsSendInputFailed)
        },
{
    if requested == 0 || sent == requested as u32 {
        Ok(())
    } else {
        Err(InputInjectionError::WindowsSendInputFailed)
    }
}

} // verus!
