use vstd::prelude::*;
use crate::platform::generic::application::PlatformRect;
use crate::platform::generic::application_message_handler::{zone_index, WindowZone};
use crate::platform::generic::window_definition::{WindowSettings, WindowTransparency, WindowType};
use crate::platform::windows::win32::{
    HTBOTTOM, HTBOTTOMLEFT, HTBOTTOMRIGHT, HTCAPTION, HTCLIENT, HTCLOSE, HTLEFT, HTMAXBUTTON,
    HTMINBUTTON, HTNOWHERE, HTRIGHT, HTSYSMENU, HTTOP, HTTOPLEFT, HTTOPRIGHT, IMN_CHANGECANDIDATE,
    IMN_CLOSECANDIDATE, IMN_CLOSESTATUSWINDOW, IMN_GUIDELINE, IMN_OPENCANDIDATE,
    IMN_OPENSTATUSWINDOW, IMN_PRIVATE, IMN_SETCANDIDATEPOS, IMN_SETCOMPOSITIONFONT,
    IMN_SETCOMPOSITIONWINDOW, IMN_SETCONVERSIONMODE, IMN_SETOPENSTATUS, IMN_SETSENTENCEMODE,
    IMN_SETSTATUSWINDOWPOS, IMR_CANDIDATEWINDOW, IMR_COMPOSITIONFONT, IMR_COMPOSITIONWINDOW,
    IMR_CONFIRMRECONVERTSTRING, IMR_DOCUMENTFEED, IMR_QUERYCHARPOSITION, IMR_RECONVERTSTRING,
    WMSZ_BOTTOM, WMSZ_BOTTOMLEFT, WMSZ_BOTTOMRIGHT, WMSZ_LEFT, WMSZ_RIGHT, WMSZ_TOP, WMSZ_TOPLEFT,
    WMSZ_TOPRIGHT, WM_CHAR, WM_DESTROY, WM_GETMINMAXINFO, WM_IME_CHAR, WM_IME_COMPOSITION,
    WM_IME_ENDCOMPOSITION, WM_IME_NOTIFY, WM_IME_REQUEST, WM_IME_SETCONTEXT,
    WM_IME_STARTCOMPOSITION, WM_INPUT, WM_INPUTLANGCHANGE, WM_INPUTLANGCHANGEREQUEST,
    WM_INPUT_DEVICE_CHANGE, WM_KEYDOWN, WM_KEYUP, WM_LBUTTONDBLCLK, WM_LBUTTONDOWN, WM_LBUTTONUP,
    WM_MBUTTONDBLCLK, WM_MBUTTONDOWN, WM_MBUTTONUP, WM_MOUSEHOVER, WM_MOUSEHWHEEL, WM_MOUSELEAVE,
    WM_MOUSEMOVE, WM_MOUSEWHEEL, WM_NCCALCSIZE, WM_NCMBUTTONDBLCLK, WM_NCMBUTTONDOWN,
    WM_NCMBUTTONUP, WM_NCMOUSEHOVER, WM_NCMOUSELEAVE, WM_NCMOUSEMOVE, WM_NCRBUTTONDBLCLK,
    WM_NCRBUTTONDOWN, WM_NCRBUTTONUP, WM_NCXBUTTONDBLCLK, WM_NCXBUTTONDOWN, WM_NCXBUTTONUP,
    WM_RBUTTONDBLCLK, WM_RBUTTONDOWN, WM_RBUTTONUP, WM_SIZING, WM_SYSCHAR, WM_SYSCOMMAND,
    WM_SYSKEYDOWN, WM_SYSKEYUP, WM_XBUTTONDBLCLK, WM_XBUTTONDOWN, WM_XBUTTONUP,
};
use crate::platform::windows::window::{in_i32, rect_height, rect_width};

verus! {

/// State of a taskbar progress indicator.
#[derive(Clone, Copy, Debug, PartialEq, Eq, Structural)]
pub enum TaskbarProgressState {
    /// No progress is shown; the button is in its normal state.
    NoProgress,
    /// The indicator cycles along the button without stating how much is done.
    Indeterminate,
    /// The indicator grows in proportion to the work done.
    Normal,
    /// The indicator turns red: an error occurred.
    Error,
    /// The indicator turns yellow: progress is paused.
    Paused,
}

impl TaskbarProgressState {
    /// The flag value of the state: 0, 1, 2, 4 and 8 in declaration order.
    pub fn value(&self) -> (v: u32)
        ensures
            v == match *self {
                TaskbarProgressState::NoProgress => 0u32,
                TaskbarProgressState::Indeterminate => 1u32,
                TaskbarProgressState::Normal => 2u32,
                TaskbarProgressState::Error => 4u32,
                TaskbarProgressState::Paused => 8u32,
            },
    {
        match *self {
            TaskbarProgressState::NoProgress => 0,
            TaskbarProgressState::Indeterminate => 1,
            TaskbarProgressState::Normal => 2,
            TaskbarProgressState::Error => 4,
            TaskbarProgressState::Paused => 8,
        }
    }
}

/// The stages of a drag-and-drop operation.
#[derive(Clone, Copy, Debug, PartialEq, Eq, Structural)]
pub enum WindowsDragDropOperationType {
    DragEnter,
    DragOver,
    DragLeave,
    Drop,
}

/// The kinds of data a drag-and-drop operation carries, as bits 0 (none),
/// 1 (text) and 2 (files).
#[derive(Clone, Copy, Debug, PartialEq, Eq, Structural)]
pub enum WindowsOLEDataType {
    NoData,
    Text,
    Files,
}

/// The data carried by a drag-and-drop operation.
#[derive(Clone, Debug)]
pub struct DragDropOLEData {
    operation_text: String,
    operation_filenames: Vec<String>,
    data_type: u8,
}

/// Modifier keys whose state is tracked, in the order of their indices.
#[derive(Clone, Copy, Debug, PartialEq, Eq, Structural)]
pub enum ModifierKey {
    LeftShift,
    RightShift,
    LeftControl,
    RightControl,
    LeftAlt,
    RightAlt,
    CapsLock,
    Count,
}

/// Keyboard input notification messages.
pub open spec fn spec_is_keyboard_input_message(msg: u32) -> bool {
    msg == WM_CHAR || msg == WM_SYSCHAR || msg == WM_SYSKEYDOWN || msg == WM_KEYDOWN || msg
        == WM_SYSKEYUP || msg == WM_KEYUP || msg == WM_SYSCOMMAND
}

/// Mouse input notification messages.
pub open spec fn spec_is_mouse_input_message(msg: u32) -> bool {
    msg == WM_MOUSEHWHEEL || msg == WM_MOUSEWHEEL || msg == WM_MOUSEHOVER || msg == WM_MOUSELEAVE
        || msg == WM_MOUSEMOVE || msg == WM_NCMOUSEHOVER || msg == WM_NCMOUSELEAVE || msg
        == WM_NCMOUSEMOVE || msg == WM_NCMBUTTONDBLCLK || msg == WM_NCMBUTTONDOWN || msg
        == WM_NCMBUTTONUP || msg == WM_NCRBUTTONDBLCLK || msg == WM_NCRBUTTONDOWN || msg
        == WM_NCRBUTTONUP || msg == WM_NCXBUTTONDBLCLK || msg == WM_NCXBUTTONDOWN || msg
        == WM_NCXBUTTONUP || msg == WM_LBUTTONDBLCLK || msg == WM_LBUTTONDOWN || msg
        == WM_LBUTTONUP || msg == WM_MBUTTONDBLCLK || msg == WM_MBUTTONDOWN || msg == WM_MBUTTONUP
        || msg == WM_RBUTTONDBLCLK || msg == WM_RBUTTONDOWN || msg == WM_RBUTTONUP || msg
        == WM_XBUTTONDBLCLK || msg == WM_XBUTTONDOWN || msg == WM_XBUTTONUP
}

/// Input messages: keyboard, mouse and raw input notifications.
pub open spec fn spec_is_input_message(msg: u32) -> bool {
    spec_is_keyboard_input_message(msg) || spec_is_mouse_input_message(msg) || msg == WM_INPUT
        || msg == WM_INPUT_DEVICE_CHANGE
}

/// Whether a message is a keyboard input notification.
pub fn is_keyboard_input_message(msg: u32) -> (r: bool)
    ensures
        r == spec_is_keyboard_input_message(msg),
{
    msg == WM_CHAR || msg == WM_SYSCHAR || msg == WM_SYSKEYDOWN || msg == WM_KEYDOWN || msg
        == WM_SYSKEYUP || msg == WM_KEYUP || msg == WM_SYSCOMMAND
}

/// Whether a message is a mouse input notification.
pub fn is_mouse_input_message(msg: u32) -> (r: bool)
    ensures
        r == spec_is_mouse_input_message(msg),
{
    msg == WM_MOUSEHWHEEL || msg == WM_MOUSEWHEEL || msg == WM_MOUSEHOVER || msg == WM_MOUSELEAVE
        || msg == WM_MOUSEMOVE || msg == WM_NCMOUSEHOVER || msg == WM_NCMOUSELEAVE || msg
        == WM_NCMOUSEMOVE || msg == WM_NCMBUTTONDBLCLK || msg == WM_NCMBUTTONDOWN || msg
        == WM_NCMBUTTONUP || msg == WM_NCRBUTTONDBLCLK || msg == WM_NCRBUTTONDOWN || msg
        == WM_NCRBUTTONUP || msg == WM_NCXBUTTONDBLCLK || msg == WM_NCXBUTTONDOWN || msg
        == WM_NCXBUTTONUP || msg == WM_LBUTTONDBLCLK || msg == WM_LBUTTONDOWN || msg
        == WM_LBUTTONUP || msg == WM_MBUTTONDBLCLK || msg == WM_MBUTTONDOWN || msg == WM_MBUTTONUP
        || msg == WM_RBUTTONDBLCLK || msg == WM_RBUTTONDOWN || msg == WM_RBUTTONUP || msg
        == WM_XBUTTONDBLCLK || msg == WM_XBUTTONDOWN || msg == WM_XBUTTONUP
}

/// Whether a message is an input notification: keyboard, mouse or raw input.
pub fn is_input_message(msg: u32) -> (r: bool)
    ensures
        r == spec_is_input_message(msg),
{
    if is_keyboard_input_message(msg) || is_mouse_input_message(msg) {
        return true;
    }
    msg == WM_INPUT || msg == WM_INPUT_DEVICE_CHANGE
}

/// No message is both a keyboard and a mouse notification, and both kinds
/// are input messages.
pub proof fn lemma_input_message_kinds(msg: u32)
    ensures
        !(spec_is_keyboard_input_message(msg) && spec_is_mouse_input_message(msg)),
        spec_is_keyboard_input_message(msg) ==> spec_is_input_message(msg),
        spec_is_mouse_input_message(msg) ==> spec_is_input_message(msg),
{
}

/// The name of an input-language or input-method window message, or `None`
/// for any other message.
pub fn windows_message_name(msg: u32) -> (r: Option<&'static str>)
    ensures
        r is Some <==> (msg == WM_INPUTLANGCHANGEREQUEST || msg == WM_INPUTLANGCHANGE || msg
            == WM_IME_SETCONTEXT || msg == WM_IME_NOTIFY || msg == WM_IME_REQUEST || msg
            == WM_IME_STARTCOMPOSITION || msg == WM_IME_COMPOSITION || msg == WM_IME_ENDCOMPOSITION
            || msg == WM_IME_CHAR),
        msg == WM_INPUTLANGCHANGEREQUEST ==> r == Some("WM_INPUTLANGCHANGEREQUEST"),
        msg == WM_INPUTLANGCHANGE ==> r == Some("WM_INPUTLANGCHANGE"),
        msg == WM_IME_SETCONTEXT ==> r == Some("WM_IME_SETCONTEXT"),
        msg == WM_IME_NOTIFY ==> r == Some("WM_IME_NOTIFY"),
        msg == WM_IME_REQUEST ==> r == Some("WM_IME_REQUEST"),
        msg == WM_IME_STARTCOMPOSITION ==> r == Some("WM_IME_STARTCOMPOSITION"),
        msg == WM_IME_COMPOSITION ==> r == Some("WM_IME_COMPOSITION"),
        msg == WM_IME_ENDCOMPOSITION ==> r == Some("WM_IME_ENDCOMPOSITION"),
        msg == WM_IME_CHAR ==> r == Some("WM_IME_CHAR"),
{
    if msg == WM_INPUTLANGCHANGEREQUEST {
        Some("WM_INPUTLANGCHANGEREQUEST")
    } else if msg == WM_INPUTLANGCHANGE {
        Some("WM_INPUTLANGCHANGE")
    } else if msg == WM_IME_SETCONTEXT {
        Some("WM_IME_SETCONTEXT")
    } else if msg == WM_IME_NOTIFY {
        Some("WM_IME_NOTIFY")
    } else if msg == WM_IME_REQUEST {
        Some("WM_IME_REQUEST")
    } else if msg == WM_IME_STARTCOMPOSITION {
        Some("WM_IME_STARTCOMPOSITION")
    } else if msg == WM_IME_COMPOSITION {
        Some("WM_IME_COMPOSITION")
    } else if msg == WM_IME_ENDCOMPOSITION {
        Some("WM_IME_ENDCOMPOSITION")
    } else if msg == WM_IME_CHAR {
        Some("WM_IME_CHAR")
    } else {
        None
    }
}

/// The name of an input-method notification, or `None` for an unknown one.
pub fn ime_notification_name(command: u32) -> (r: Option<&'static str>)
    ensures
        r is Some <==> (command == IMN_CLOSESTATUSWINDOW || command == IMN_OPENSTATUSWINDOW || command == IMN_CHANGECANDIDATE || command == IMN_CLOSECANDIDATE || command == IMN_OPENCANDIDATE || command == IMN_SETCONVERSIONMODE || command == IMN_SETSENTENCEMODE || command == IMN_SETOPENSTATUS || command == IMN_SETCANDIDATEPOS || command == IMN_SETCOMPOSITIONFONT || command == IMN_SETCOMPOSITIONWINDOW || command == IMN_SETSTATUSWINDOWPOS || command == IMN_GUIDELINE || command == IMN_PRIVATE),
        command == IMN_CLOSESTATUSWINDOW ==> r == Some("IMN_CLOSESTATUSWINDOW"),
        command == IMN_OPENSTATUSWINDOW ==> r == Some("IMN_OPENSTATUSWINDOW"),
        command == IMN_CHANGECANDIDATE ==> r == Some("IMN_CHANGECANDIDATE"),
        command == IMN_CLOSECANDIDATE ==> r == Some("IMN_CLOSECANDIDATE"),
        command == IMN_OPENCANDIDATE ==> r == Some("IMN_OPENCANDIDATE"),
        command == IMN_SETCONVERSIONMODE ==> r == Some("IMN_SETCONVERSIONMODE"),
        command == IMN_SETSENTENCEMODE ==> r == Some("IMN_SETSENTENCEMODE"),
        command == IMN_SETOPENSTATUS ==> r == Some("IMN_SETOPENSTATUS"),
        command == IMN_SETCANDIDATEPOS ==> r == Some("IMN_SETCANDIDATEPOS"),
        command == IMN_SETCOMPOSITIONFONT ==> r == Some("IMN_SETCOMPOSITIONFONT"),
        command == IMN_SETCOMPOSITIONWINDOW ==> r == Some("IMN_SETCOMPOSITIONWINDOW"),
        command == IMN_SETSTATUSWINDOWPOS ==> r == Some("IMN_SETSTATUSWINDOWPOS"),
        command == IMN_GUIDELINE ==> r == Some("IMN_GUIDELINE"),
        command == IMN_PRIVATE ==> r == Some("IMN_PRIVATE"),
{
    if command == IMN_CLOSESTATUSWINDOW {
        Some("IMN_CLOSESTATUSWINDOW")
    } else if command == IMN_OPENSTATUSWINDOW {
        Some("IMN_OPENSTATUSWINDOW")
    } else if command == IMN_CHANGECANDIDATE {
        Some("IMN_CHANGECANDIDATE")
    } else if command == IMN_CLOSECANDIDATE {
        Some("IMN_CLOSECANDIDATE")
    } else if command == IMN_OPENCANDIDATE {
        Some("IMN_OPENCANDIDATE")
    } else if command == IMN_SETCONVERSIONMODE {
        Some("IMN_SETCONVERSIONMODE")
    } else if command == IMN_SETSENTENCEMODE {
        Some("IMN_SETSENTENCEMODE")
    } else if command == IMN_SETOPENSTATUS {
        Some("IMN_SETOPENSTATUS")
    } else if command == IMN_SETCANDIDATEPOS {
        Some("IMN_SETCANDIDATEPOS")
    } else if command == IMN_SETCOMPOSITIONFONT {
        Some("IMN_SETCOMPOSITIONFONT")
    } else if command == IMN_SETCOMPOSITIONWINDOW {
        Some("IMN_SETCOMPOSITIONWINDOW")
    } else if command == IMN_SETSTATUSWINDOWPOS {
        Some("IMN_SETSTATUSWINDOWPOS")
    } else if command == IMN_GUIDELINE {
        Some("IMN_GUIDELINE")
    } else if command == IMN_PRIVATE {
        Some("IMN_PRIVATE")
    } else {
        None
    }
}

/// The name of an input-method request, or `None` for an unknown one.
pub fn ime_request_name(request: u32) -> (r: Option<&'static str>)
    ensures
        r is Some <==> (request == IMR_CANDIDATEWINDOW || request == IMR_COMPOSITIONFONT || request == IMR_COMPOSITIONWINDOW || request == IMR_CONFIRMRECONVERTSTRING || request == IMR_DOCUMENTFEED || request == IMR_QUERYCHARPOSITION || request == IMR_RECONVERTSTRING),
        request == IMR_CANDIDATEWINDOW ==> r == Some("IMR_CANDIDATEWINDOW"),
        request == IMR_COMPOSITIONFONT ==> r == Some("IMR_COMPOSITIONFONT"),
        request == IMR_COMPOSITIONWINDOW ==> r == Some("IMR_COMPOSITIONWINDOW"),
        request == IMR_CONFIRMRECONVERTSTRING ==> r == Some("IMR_CONFIRMRECONVERTSTRING"),
        request == IMR_DOCUMENTFEED ==> r == Some("IMR_DOCUMENTFEED"),
        request == IMR_QUERYCHARPOSITION ==> r == Some("IMR_QUERYCHARPOSITION"),
        request == IMR_RECONVERTSTRING ==> r == Some("IMR_RECONVERTSTRING"),
{
    if request == IMR_CANDIDATEWINDOW {
        Some("IMR_CANDIDATEWINDOW")
    } else if request == IMR_COMPOSITIONFONT {
        Some("IMR_COMPOSITIONFONT")
    } else if request == IMR_COMPOSITIONWINDOW {
        Some("IMR_COMPOSITIONWINDOW")
    } else if request == IMR_CONFIRMRECONVERTSTRING {
        Some("IMR_CONFIRMRECONVERTSTRING")
    } else if request == IMR_DOCUMENTFEED {
        Some("IMR_DOCUMENTFEED")
    } else if request == IMR_QUERYCHARPOSITION {
        Some("IMR_QUERYCHARPOSITION")
    } else if request == IMR_RECONVERTSTRING {
        Some("IMR_RECONVERTSTRING")
    } else {
        None
    }
}

/// The hit-test result the system expects for each window zone.
pub open spec fn spec_hit_test_result(zone: WindowZone) -> u32 {
    match zone {
        WindowZone::NotInWindow => HTNOWHERE,
        WindowZone::TopLeftBorder => HTTOPLEFT,
        WindowZone::TopBorder => HTTOP,
        WindowZone::TopRightBorder => HTTOPRIGHT,
        WindowZone::LeftBorder => HTLEFT,
        WindowZone::ClientArea => HTCLIENT,
        WindowZone::RightBorder => HTRIGHT,
        WindowZone::BottomLeftBorder => HTBOTTOMLEFT,
        WindowZone::BottomBorder => HTBOTTOM,
        WindowZone::BottomRightBorder => HTBOTTOMRIGHT,
        WindowZone::TitleBar => HTCAPTION,
        WindowZone::MinimizeButton => HTMINBUTTON,
        WindowZone::MaximizeButton => HTMAXBUTTON,
        WindowZone::CloseButton => HTCLOSE,
        WindowZone::SysMenu => HTSYSMENU,
    }
}

/// The hit-test result for a window zone, read from the table of results
/// indexed by zone.
pub fn hit_test_result(zone: WindowZone) -> (r: u32)
    ensures
        r == spec_hit_test_result(zone),
{
    let hit_results: [u32; 15] = [
        HTNOWHERE,
        HTTOPLEFT,
        HTTOP,
        HTTOPRIGHT,
        HTLEFT,
        HTCLIENT,
        HTRIGHT,
        HTBOTTOMLEFT,
        HTBOTTOM,
        HTBOTTOMRIGHT,
        HTCAPTION,
        HTMINBUTTON,
        HTMAXBUTTON,
        HTCLOSE,
        HTSYSMENU,
    ];
    let i = zone.to_usize();
    hit_results[i]
}

/// The hit-test code of each window zone is the system's code for that part
/// of a window: with the zones in their declared order, the codes are
/// nowhere 0, top-left 13, top 12, top-right 14, left 10, client 1, right 11,
/// bottom-left 16, bottom 15, bottom-right 17, caption 2, minimize 8,
/// maximize 9, close 20 and system menu 3.
pub proof fn lemma_hit_test_codes(z: WindowZone)
    ensures
        spec_hit_test_result(z) == seq![0u32, 13, 12, 14, 10, 1, 11, 16, 15, 17, 2, 8, 9, 20, 3][zone_index(
            z,
        ) as int],
        zone_index(z) < 15,
{
}

/// Distinct window zones have distinct hit-test results.
pub proof fn lemma_hit_test_result_injective(a: WindowZone, b: WindowZone)
    ensures
        spec_hit_test_result(a) == spec_hit_test_result(b) ==> a == b,
{
}

/// How a window message is handled.
#[derive(Clone, Copy, Debug, PartialEq, Eq, Structural)]
pub enum MessageRoute {
    /// Apply the window's size limits to the tracking sizes.
    MinMaxInfo,
    /// Read raw input.
    RawInput,
    /// Compute the non-client area.
    NonClientCalcSize,
    /// Keep the aspect ratio while the user sizes the window.
    Sizing,
    /// Forget the destroyed window.
    Destroy,
    /// Hand the message to the default window procedure.
    DefaultProcessing,
}

/// The route of a message for a window: messages for a window the
/// application knows, while it knows any, go to their handler; all others
/// get default processing.
pub open spec fn spec_route_message(msg: u32, window_count: nat, window_found: bool) -> MessageRoute {
    if window_count != 0 && window_found {
        if msg == WM_GETMINMAXINFO {
            MessageRoute::MinMaxInfo
        } else if msg == WM_INPUT {
            MessageRoute::RawInput
        } else if msg == WM_NCCALCSIZE {
            MessageRoute::NonClientCalcSize
        } else if msg == WM_SIZING {
            MessageRoute::Sizing
        } else if msg == WM_DESTROY {
            MessageRoute::Destroy
        } else {
            MessageRoute::DefaultProcessing
        }
    } else {
        MessageRoute::DefaultProcessing
    }
}

/// A message is handled by the application only for a window it knows, and
/// then by the handler of its kind: the size-limit query (0x0024) applies
/// the size limits, raw input (0x00FF) is read, the non-client size
/// calculation (0x0083) computes the client area, sizing (0x0214) keeps the
/// aspect ratio, destruction (0x0002) forgets the window; every other
/// message, and every message for an unknown window, gets default processing.
pub proof fn lemma_message_routes(msg: u32, window_count: nat, window_found: bool)
    ensures
        ({
            let known = window_count != 0 && window_found;
            let r = spec_route_message(msg, window_count, window_found);
            &&& (r == MessageRoute::MinMaxInfo) <==> (known && msg == 0x0024)
            &&& (r == MessageRoute::RawInput) <==> (known && msg == 0x00FF)
            &&& (r == MessageRoute::NonClientCalcSize) <==> (known && msg == 0x0083)
            &&& (r == MessageRoute::Sizing) <==> (known && msg == 0x0214)
            &&& (r == MessageRoute::Destroy) <==> (known && msg == 0x0002)
            &&& (r == MessageRoute::DefaultProcessing) <==> !(known && (msg == 0x0024 || msg == 0x00FF
                || msg == 0x0083 || msg == 0x0214 || msg == 0x0002))
        }),
{
}

/// Routes a message, given how many windows the application knows and
/// whether the message's window is one of them.
pub fn route_message(msg: u32, window_count: usize, window_found: bool) -> (r: MessageRoute)
    ensures
        r == spec_route_message(msg, window_count as nat, window_found),
{
    if window_count != 0 && window_found {
        if msg == WM_GETMINMAXINFO {
            MessageRoute::MinMaxInfo
        } else if msg == WM_INPUT {
            MessageRoute::RawInput
        } else if msg == WM_NCCALCSIZE {
            MessageRoute::NonClientCalcSize
        } else if msg == WM_SIZING {
            MessageRoute::Sizing
        } else if msg == WM_DESTROY {
            MessageRoute::Destroy
        } else {
            MessageRoute::DefaultProcessing
        }
    } else {
        MessageRoute::DefaultProcessing
    }
}

/// Size limits of a window in whole pixels; `None` where no limit is set.
#[derive(Clone, Copy, Debug, PartialEq, Eq, Structural)]
pub struct TrackLimits {
    pub min_width: Option<i32>,
    pub min_height: Option<i32>,
    pub max_width: Option<i32>,
    pub max_height: Option<i32>,
}

/// The minimum and maximum tracking sizes of a window being sized.
#[derive(Clone, Copy, Debug, PartialEq, Eq, Structural)]
pub struct TrackSizes {
    pub min_x: i32,
    pub min_y: i32,
    pub max_x: i32,
    pub max_y: i32,
}

/// A limit where one is set, the current value otherwise.
pub open spec fn limit_or(limit: Option<i32>, current: i32) -> int {
    match limit {
        Some(v) => v as int,
        None => current as int,
    }
}

/// The size of the OS border around a client area: the extent of the border
/// rectangle with the OS border, nothing without it.
pub fn border_extent(has_os_window_border: bool, border: PlatformRect) -> (r: (i32, i32))
    requires
        has_os_window_border ==> in_i32(rect_width(border)) && in_i32(rect_height(border)),
    ensures
        has_os_window_border ==> r.0 == rect_width(border) && r.1 == rect_height(border),
        !has_os_window_border ==> r == (0i32, 0i32),
{
    if has_os_window_border {
        (border.right - border.left, border.bottom - border.top)
    } else {
        (0, 0)
    }
}

/// The tracking sizes after the window's limits: each minimum becomes the
/// limit where one is set; each maximum becomes the limit where one is set,
/// grown by the border size, since limits speak of the client area.
pub fn apply_track_limits(current: TrackSizes, limits: TrackLimits, border_width: i32, border_height: i32) -> (r:
    TrackSizes)
    requires
        in_i32(limit_or(limits.max_width, current.max_x) + border_width),
        in_i32(limit_or(limits.max_height, current.max_y) + border_height),
    ensures
        r.min_x == limit_or(limits.min_width, current.min_x),
        r.min_y == limit_or(limits.min_height, current.min_y),
        r.max_x == limit_or(limits.max_width, current.max_x) + border_width,
        r.max_y == limit_or(limits.max_height, current.max_y) + border_height,
{
    let min_x = match limits.min_width {
        Some(v) => v,
        None => current.min_x,
    };
    let min_y = match limits.min_height {
        Some(v) => v,
        None => current.min_y,
    };
    let max_w = match limits.max_width {
        Some(v) => v,
        None => current.max_x,
    };
    let max_h = match limits.max_height {
        Some(v) => v,
        None => current.max_y,
    };
    TrackSizes { min_x, min_y, max_x: max_w + border_width, max_y: max_h + border_height }
}

/// How a non-client size calculation is answered.
#[derive(Clone, Copy, Debug, PartialEq, Eq, Structural)]
pub enum NcCalcSizeAction {
    /// Hand the message to the default window procedure.
    DefaultProcessing,
    /// Answer 0: the client area covers the whole window.
    ClientIsWindow,
    /// Pull the maximized window in by its border so it fits the monitor,
    /// and answer that the rectangles were rewritten.
    FitMaximizedToMonitor,
}

/// The answer to a non-client size calculation: with a rectangle to compute
/// (`wparam` not 0) a window without the OS border makes its client area the
/// whole window, and a maximized game window among them is pulled into the
/// monitor; otherwise the default procedure handles it.
pub fn nc_calc_size_action(wparam: usize, settings: &WindowSettings, is_maximized: bool) -> (r:
    NcCalcSizeAction)
    ensures
        r == if wparam != 0 && !settings.has_os_window_border {
            if settings.window_type == WindowType::GameWindow && is_maximized {
                NcCalcSizeAction::FitMaximizedToMonitor
            } else {
                NcCalcSizeAction::ClientIsWindow
            }
        } else {
            NcCalcSizeAction::DefaultProcessing
        },
{
    if wparam != 0 && !settings.has_os_window_border {
        if settings.window_type == WindowType::GameWindow && is_maximized {
            NcCalcSizeAction::FitMaximizedToMonitor
        } else {
            NcCalcSizeAction::ClientIsWindow
        }
    } else {
        NcCalcSizeAction::DefaultProcessing
    }
}

/// A window position and size.
#[derive(Clone, Copy, Debug, PartialEq, Eq, Structural)]
pub struct WindowPos {
    pub x: i32,
    pub y: i32,
    pub cx: i32,
    pub cy: i32,
}

/// The rectangles and position of a maximized borderless window pulled in
/// by its border on all sides so that it fits the monitor.
#[derive(Clone, Copy, Debug, PartialEq, Eq, Structural)]
pub struct FittedWindow {
    /// The new client rectangle.
    pub client: PlatformRect,
    /// Where the previous client content is copied to: the new client rectangle.
    pub destination: PlatformRect,
    /// The new window position and size.
    pub pos: WindowPos,
}

/// Pulls a maximized borderless window in by `border` on every side: the
/// client rectangle shrinks by it on each side and becomes the destination
/// rectangle, the position moves in by it and the size shrinks by twice it.
pub fn fit_maximized_to_monitor(client: PlatformRect, pos: WindowPos, border: i32) -> (r: FittedWindow)
    requires
        in_i32(client.left + border),
        in_i32(client.top + border),
        in_i32(client.right - border),
        in_i32(client.bottom - border),
        in_i32(pos.x + border),
        in_i32(pos.y + border),
        in_i32(2 * border),
        in_i32(pos.cx - 2 * border),
        in_i32(pos.cy - 2 * border),
    ensures
        r.client.left == client.left + border,
        r.client.top == client.top + border,
        r.client.right == client.right - border,
        r.client.bottom == client.bottom - border,
        r.destination == r.client,
        r.pos.x == pos.x + border,
        r.pos.y == pos.y + border,
        r.pos.cx == pos.cx - 2 * border,
        r.pos.cy == pos.cy - 2 * border,
{
    let fitted = PlatformRect {
        left: client.left + border,
        top: client.top + border,
        right: client.right - border,
        bottom: client.bottom - border,
    };
    FittedWindow {
        client: fitted,
        destination: fitted,
        pos: WindowPos {
            x: pos.x + border,
            y: pos.y + border,
            cx: pos.cx - 2 * border,
            cy: pos.cy - 2 * border,
        },
    }
}

/// The transparency the application supports, from whether desktop
/// composition is enabled (`None` when that could not be learned):
/// per-pixel with composition, per-window otherwise.
pub fn transparency_support_from_composition(composition_enabled: Option<bool>) -> (r:
    WindowTransparency)
    ensures
        r == if composition_enabled == Some(true) {
            WindowTransparency::PerPixel
        } else {
            WindowTransparency::PerWindow
        },
{
    match composition_enabled {
        None => WindowTransparency::PerWindow,
        Some(enabled) => {
            if enabled {
                WindowTransparency::PerPixel
            } else {
                WindowTransparency::PerWindow
            }
        },
    }
}

/// Division rounding toward zero, as integer division does.
pub open spec fn trunc_div(x: int, d: int) -> int {
    if (x >= 0) == (d > 0) {
        if x >= 0 {
            x / d
        } else {
            (-x) / (-d)
        }
    } else {
        if x >= 0 {
            -(x / (-d))
        } else {
            -((-x) / d)
        }
    }
}

/// Whether `edge` names a left or right edge of a window being sized.
pub open spec fn is_side_edge(edge: usize) -> bool {
    edge == WMSZ_LEFT || edge == WMSZ_RIGHT
}

/// Whether `edge` names a top or bottom edge of a window being sized.
pub open spec fn is_end_edge(edge: usize) -> bool {
    edge == WMSZ_TOP || edge == WMSZ_BOTTOM
}

/// Whether `edge` names a top corner of a window being sized.
pub open spec fn is_top_corner(edge: usize) -> bool {
    edge == WMSZ_TOPLEFT || edge == WMSZ_TOPRIGHT
}

/// Whether `edge` names a bottom corner of a window being sized.
pub open spec fn is_bottom_corner(edge: usize) -> bool {
    edge == WMSZ_BOTTOMLEFT || edge == WMSZ_BOTTOMRIGHT
}

/// The client rectangle inside a window rectangle: each side moved by the
/// corresponding side of the frame rectangle (the frame of an empty client
/// area).
pub open spec fn client_sides(rect: PlatformRect, frame: PlatformRect) -> (int, int, int, int) {
    (rect.left - frame.left, rect.top - frame.top, rect.right - frame.right, rect.bottom
        - frame.bottom)
}

/// The height that keeps the aspect ratio `aspect_width`:`aspect_height`
/// at width `w`, rounded toward zero.
pub open spec fn ratio_height(w: int, aspect_width: i32, aspect_height: i32) -> int {
    trunc_div(w * aspect_height, aspect_width as int)
}

/// The width that keeps the aspect ratio `aspect_width`:`aspect_height` at
/// height `h`, rounded toward zero.
pub open spec fn ratio_width(h: int, aspect_width: i32, aspect_height: i32) -> int {
    trunc_div(h * aspect_width, aspect_height as int)
}

/// The client rectangle while sizing a window that keeps the aspect ratio
/// `aspect_width`:`aspect_height`. Dragging a side edge sets the height that
/// keeps the ratio at the new width, spread evenly above and below;
/// dragging the top or bottom edge sets the width that keeps the ratio at
/// the new height, spread evenly left and right; dragging a top corner moves
/// the top, a bottom corner the bottom. Shares round toward zero. Without a
/// ratio (a term not positive) the client rectangle stays as it is.
pub open spec fn spec_sizing_rect(
    edge: usize,
    rect: PlatformRect,
    frame: PlatformRect,
    aspect_width: i32,
    aspect_height: i32,
) -> (int, int, int, int) {
    let (l, t, r, b) = client_sides(rect, frame);
    let w = r - l;
    let h = b - t;
    if aspect_width <= 0 || aspect_height <= 0 {
        (l, t, r, b)
    } else if is_side_edge(edge) {
        let d = trunc_div(ratio_height(w, aspect_width, aspect_height) - h, 2);
        (l, t - d, r, b + d)
    } else if is_end_edge(edge) {
        let d = trunc_div(ratio_width(h, aspect_width, aspect_height) - w, 2);
        (l - d, t, r + d, b)
    } else if is_top_corner(edge) {
        (l, t - (ratio_height(w, aspect_width, aspect_height) - h), r, b)
    } else if is_bottom_corner(edge) {
        (l, t, r, b + (ratio_height(w, aspect_width, aspect_height) - h))
    } else {
        (l, t, r, b)
    }
}

/// Whether the client rectangle, its size and the sized rectangle of
/// `spec_sizing_rect` all lie in the `i32` range.
pub open spec fn sizing_fits(
    edge: usize,
    rect: PlatformRect,
    frame: PlatformRect,
    aspect_width: i32,
    aspect_height: i32,
) -> bool {
    let (l, t, r, b) = client_sides(rect, frame);
    let (nl, nt, nr, nb) = spec_sizing_rect(edge, rect, frame, aspect_width, aspect_height);
    &&& in_i32(l) && in_i32(t) && in_i32(r) && in_i32(b)
    &&& in_i32(r - l) && in_i32(b - t)
    &&& in_i32(nl) && in_i32(nt) && in_i32(nr) && in_i32(nb)
}

/// Whether an `i64` value fits in an `i32`.
fn fits_i32(v: i64) -> (r: bool)
    ensures
        r == in_i32(v as int),
{
    i32::MIN as i64 <= v && v <= i32::MAX as i64
}

/// Divides by a positive divisor, rounding toward zero.
fn div_positive(a: i64, d: i64) -> (r: i64)
    requires
        d > 0,
    ensures
        r == trunc_div(a as int, d as int),
{
    let q = a / d;
    proof {
        if a < 0 {
            let m: int = -(a as int);
            let n: int = d as int;
            assert(m / n <= m) by (nonlinear_arith)
                requires
                    m > 0,
                    n >= 1,
            ;
        }
    }
    q
}

/// The client rectangle of `spec_sizing_rect` for a window being sized by
/// `edge`, from the window rectangle `rect`, the frame rectangle `frame` (the
/// frame of an empty client area) and the kept aspect ratio; `None` where
/// the client rectangle, its size or the result leaves the `i32` range.
pub fn sizing_rect(
    edge: usize,
    rect: PlatformRect,
    frame: PlatformRect,
    aspect_width: i32,
    aspect_height: i32,
) -> (r: Option<PlatformRect>)
    ensures
        r is None <==> !sizing_fits(edge, rect, frame, aspect_width, aspect_height),
        r matches Some(out) ==> (out.left as int, out.top as int, out.right as int, out.bottom as int)
            == spec_sizing_rect(edge, rect, frame, aspect_width, aspect_height),
{
    let l: i64 = rect.left as i64 - frame.left as i64;
    let t: i64 = rect.top as i64 - frame.top as i64;
    let r: i64 = rect.right as i64 - frame.right as i64;
    let b: i64 = rect.bottom as i64 - frame.bottom as i64;
    if !(fits_i32(l) && fits_i32(t) && fits_i32(r) && fits_i32(b)) {
        return None;
    }
    let w: i64 = r - l;
    let h: i64 = b - t;
    if !(fits_i32(w) && fits_i32(h)) {
        return None;
    }
    let aw: i64 = aspect_width as i64;
    let ah: i64 = aspect_height as i64;
    let side = edge == WMSZ_LEFT || edge == WMSZ_RIGHT;
    let end = edge == WMSZ_TOP || edge == WMSZ_BOTTOM;
    let top_corner = edge == WMSZ_TOPLEFT || edge == WMSZ_TOPRIGHT;
    let bottom_corner = edge == WMSZ_BOTTOMLEFT || edge == WMSZ_BOTTOMRIGHT;
    let (nl, nt, nr, nb): (i64, i64, i64, i64) = if aw <= 0 || ah <= 0 {
        (l, t, r, b)
    } else if side || top_corner || bottom_corner {
        assert(-0x4000_0000_0000_0000 <= w * ah <= 0x4000_0000_0000_0000) by (nonlinear_arith)
            requires
                -0x8000_0000 <= w <= 0x7fff_ffff,
                0 < ah <= 0x7fff_ffff,
        ;
        let adj: i64 = div_positive(w * ah, aw);
        assert(-0x4000_0000_0000_0000 <= adj <= 0x4000_0000_0000_0000) by (nonlinear_arith)
            requires
                adj == trunc_div(w * ah, aw as int),
                -0x4000_0000_0000_0000 <= w * ah <= 0x4000_0000_0000_0000,
                aw >= 1,
        ;
        let dh: i64 = adj - h;
        if side {
            let d: i64 = div_positive(dh, 2);
            (l, t - d, r, b + d)
        } else if top_corner {
            (l, t - dh, r, b)
        } else {
            (l, t, r, b + dh)
        }
    } else if end {
        assert(-0x4000_0000_0000_0000 <= h * aw <= 0x4000_0000_0000_0000) by (nonlinear_arith)
            requires
                -0x8000_0000 <= h <= 0x7fff_ffff,
                0 < aw <= 0x7fff_ffff,
        ;
        let adj: i64 = div_positive(h * aw, ah);
        assert(-0x4000_0000_0000_0000 <= adj <= 0x4000_0000_0000_0000) by (nonlinear_arith)
            requires
                adj == trunc_div(h * aw, ah as int),
                -0x4000_0000_0000_0000 <= h * aw <= 0x4000_0000_0000_0000,
                ah >= 1,
        ;
        let d: i64 = div_positive(adj - w, 2);
        (l - d, t, r + d, b)
    } else {
        (l, t, r, b)
    };
    if !(fits_i32(nl) && fits_i32(nt) && fits_i32(nr) && fits_i32(nb)) {
        return None;
    }
    Some(PlatformRect { left: nl as i32, top: nt as i32, right: nr as i32, bottom: nb as i32 })
}

/// Dragging a corner moves only the dragged side of the client area: a
/// bottom corner keeps its left, top and right, a top corner its left, right
/// and bottom, whatever the sign of the height change. With a ratio `aw`:`ah`
/// and a width `w` not negative, the new height `nh` is the height that
/// keeps the ratio, rounded down: `nh * aw <= w * ah < (nh + 1) * aw`.
pub proof fn lemma_corner_sizing_moves_only_the_dragged_side(
    edge: usize,
    rect: PlatformRect,
    frame: PlatformRect,
    aspect_width: i32,
    aspect_height: i32,
)
    ensures
        ({
            let (nl, nt, nr, nb) = spec_sizing_rect(edge, rect, frame, aspect_width, aspect_height);
            let l = rect.left - frame.left;
            let t = rect.top - frame.top;
            let r = rect.right - frame.right;
            let b = rect.bottom - frame.bottom;
            let w = r - l;
            let bottom_corner = edge == WMSZ_BOTTOMLEFT || edge == WMSZ_BOTTOMRIGHT;
            let top_corner = edge == WMSZ_TOPLEFT || edge == WMSZ_TOPRIGHT;
            &&& bottom_corner ==> nl == l && nt == t && nr == r
            &&& top_corner ==> nl == l && nr == r && nb == b
            &&& (bottom_corner || top_corner) && aspect_width > 0 && aspect_height > 0 && w >= 0
                ==> (nb - nt) * aspect_width <= w * aspect_height < (nb - nt + 1) * aspect_width
        }),
{
    let (l, t, r, b) = client_sides(rect, frame);
    let w = r - l;
    let aw = aspect_width as int;
    let ah = aspect_height as int;
    if (is_top_corner(edge) || is_bottom_corner(edge)) && aw > 0 && ah > 0 && w >= 0 {
        let x = w * ah;
        assert(x >= 0) by (nonlinear_arith)
            requires
                w >= 0,
                ah > 0,
                x == w * ah,
        ;
        let q = x / aw;
        assert(q * aw <= x < (q + 1) * aw) by (nonlinear_arith)
            requires
                x >= 0,
                aw > 0,
                q == x / aw,
        ;
        assert(ratio_height(w, aspect_width, aspect_height) == q);
    }
}

/// Dragging a side edge keeps the left and right of the client area, and
/// with a ratio `aw`:`ah` and a width `w` not negative gives it a height
/// `nh` within a pixel of the one that keeps the ratio:
/// `(nh - 1) * aw <= w * ah < (nh + 2) * aw`. Dragging the top or bottom
/// edge keeps the top and bottom, and likewise gives a width `nw` with
/// `(nw - 1) * ah <= h * aw < (nw + 2) * ah` for a height `h` not negative.
pub proof fn lemma_edge_sizing_keeps_the_ratio(
    edge: usize,
    rect: PlatformRect,
    frame: PlatformRect,
    aspect_width: i32,
    aspect_height: i32,
)
    requires
        aspect_width > 0,
        aspect_height > 0,
    ensures
        ({
            let (nl, nt, nr, nb) = spec_sizing_rect(edge, rect, frame, aspect_width, aspect_height);
            let l = rect.left - frame.left;
            let t = rect.top - frame.top;
            let r = rect.right - frame.right;
            let b = rect.bottom - frame.bottom;
            let w = r - l;
            let h = b - t;
            &&& (edge == WMSZ_LEFT || edge == WMSZ_RIGHT) ==> nl == l && nr == r
            &&& (edge == WMSZ_LEFT || edge == WMSZ_RIGHT) && w >= 0 ==> (nb - nt - 1) * aspect_width
                <= w * aspect_height < (nb - nt + 2) * aspect_width
            &&& (edge == WMSZ_TOP || edge == WMSZ_BOTTOM) ==> nt == t && nb == b
            &&& (edge == WMSZ_TOP || edge == WMSZ_BOTTOM) && h >= 0 ==> (nr - nl - 1) * aspect_height
                <= h * aspect_width < (nr - nl + 2) * aspect_height
        }),
{
    let (l, t, r, b) = client_sides(rect, frame);
    let w = r - l;
    let h = b - t;
    let aw = aspect_width as int;
    let ah = aspect_height as int;
    let (nl, nt, nr, nb) = spec_sizing_rect(edge, rect, frame, aspect_width, aspect_height);
    if is_side_edge(edge) && w >= 0 {
        let x = w * ah;
        assert(x >= 0) by (nonlinear_arith)
            requires
                w >= 0,
                ah > 0,
                x == w * ah,
        ;
        let q = x / aw;
        assert(q * aw <= x < (q + 1) * aw) by (nonlinear_arith)
            requires
                x >= 0,
                aw > 0,
                q == x / aw,
        ;
        assert(ratio_height(w, aspect_width, aspect_height) == q);
        let nh = nb - nt;
        assert(q - 1 <= nh <= q + 1);
        assert((nh - 1) * aw <= q * aw) by (nonlinear_arith)
            requires
                nh - 1 <= q,
                aw > 0,
        ;
        assert((q + 1) * aw <= (nh + 2) * aw) by (nonlinear_arith)
            requires
                q + 1 <= nh + 2,
                aw > 0,
        ;
    }
    if is_end_edge(edge) && h >= 0 {
        let x = h * aw;
        assert(x >= 0) by (nonlinear_arith)
            requires
                h >= 0,
                aw > 0,
                x == h * aw,
        ;
        let q = x / ah;
        assert(q * ah <= x < (q + 1) * ah) by (nonlinear_arith)
            requires
                x >= 0,
                ah > 0,
                q == x / ah,
        ;
        assert(ratio_width(h, aspect_width, aspect_height) == q);
        let nw = nr - nl;
        assert(q - 1 <= nw <= q + 1);
        assert((nw - 1) * ah <= q * ah) by (nonlinear_arith)
            requires
                nw - 1 <= q,
                ah > 0,
        ;
        assert((q + 1) * ah <= (nw + 2) * ah) by (nonlinear_arith)
            requires
                q + 1 <= nw + 2,
                ah > 0,
        ;
    }
}

/// Dragging a side edge keeps the left and right of the client area, and
/// dragging the top or bottom edge keeps its top and bottom.
pub proof fn lemma_sizing_keeps_dragged_axis(
    edge: usize,
    rect: PlatformRect,
    frame: PlatformRect,
    aspect_width: i32,
    aspect_height: i32,
)
    ensures
        is_side_edge(edge) ==> spec_sizing_rect(edge, rect, frame, aspect_width, aspect_height).0
            == client_sides(rect, frame).0 && spec_sizing_rect(
            edge,
            rect,
            frame,
            aspect_width,
            aspect_height,
        ).2 == client_sides(rect, frame).2,
        is_end_edge(edge) ==> spec_sizing_rect(edge, rect, frame, aspect_width, aspect_height).1
            == client_sides(rect, frame).1 && spec_sizing_rect(
            edge,
            rect,
            frame,
            aspect_width,
            aspect_height,
        ).3 == client_sides(rect, frame).3,
{
}

/// Sizing keeps the aspect ratio: dragging a corner gives the client the
/// height that keeps the ratio at its width, dragging a side edge gives it
/// that height to within one pixel, and dragging the top or bottom edge
/// gives it the width that keeps the ratio at its height to within one pixel.
pub proof fn lemma_sizing_keeps_aspect_ratio(
    edge: usize,
    rect: PlatformRect,
    frame: PlatformRect,
    aspect_width: i32,
    aspect_height: i32,
)
    requires
        aspect_width > 0,
        aspect_height > 0,
    ensures
        ({
            let (l, t, r, b) = client_sides(rect, frame);
            let (nl, nt, nr, nb) = spec_sizing_rect(edge, rect, frame, aspect_width, aspect_height);
            let want_h = ratio_height(r - l, aspect_width, aspect_height);
            let want_w = ratio_width(b - t, aspect_width, aspect_height);
            &&& (is_top_corner(edge) || is_bottom_corner(edge)) ==> nb - nt == want_h && nr - nl == r
                - l
            &&& is_side_edge(edge) ==> -1 <= (nb - nt) - want_h <= 1 && nr - nl == r - l
            &&& is_end_edge(edge) ==> -1 <= (nr - nl) - want_w <= 1 && nb - nt == b - t
        }),
{
}

} // verus!
