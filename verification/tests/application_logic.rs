use seraph::generic::application::PlatformRect;
use seraph::generic::application_message_handler::WindowZone;
use seraph::generic::window_definition::{WindowSettings, WindowTransparency, WindowType};
use seraph::windows::application::{
    apply_track_limits, border_extent, fit_maximized_to_monitor, hit_test_result,
    ime_notification_name, ime_request_name, is_input_message, is_keyboard_input_message,
    is_mouse_input_message, nc_calc_size_action, route_message, sizing_rect,
    transparency_support_from_composition, windows_message_name, MessageRoute, NcCalcSizeAction,
    TaskbarProgressState, TrackLimits, TrackSizes, WindowPos,
};
use seraph::windows::win32;

fn rect(left: i32, top: i32, right: i32, bottom: i32) -> PlatformRect {
    PlatformRect { left, top, right, bottom }
}

#[test]
fn keyboard_and_mouse_messages() {
    assert!(is_keyboard_input_message(win32::WM_KEYDOWN));
    assert!(is_keyboard_input_message(win32::WM_SYSCOMMAND));
    assert!(!is_keyboard_input_message(win32::WM_MOUSEMOVE));
    assert!(is_mouse_input_message(win32::WM_MOUSEMOVE));
    assert!(is_mouse_input_message(win32::WM_NCXBUTTONDBLCLK));
    assert!(is_mouse_input_message(win32::WM_MOUSELEAVE));
    assert!(!is_mouse_input_message(win32::WM_CHAR));
    assert!(is_input_message(win32::WM_CHAR));
    assert!(is_input_message(win32::WM_LBUTTONDOWN));
    assert!(is_input_message(win32::WM_INPUT));
    assert!(is_input_message(win32::WM_INPUT_DEVICE_CHANGE));
    assert!(!is_input_message(win32::WM_DESTROY));
    assert!(!is_input_message(win32::WM_SIZING));
}

#[test]
fn message_names() {
    assert_eq!(windows_message_name(win32::WM_IME_CHAR), Some("WM_IME_CHAR"));
    assert_eq!(windows_message_name(win32::WM_INPUTLANGCHANGE), Some("WM_INPUTLANGCHANGE"));
    assert_eq!(windows_message_name(win32::WM_DESTROY), None);
    assert_eq!(ime_notification_name(win32::IMN_GUIDELINE), Some("IMN_GUIDELINE"));
    assert_eq!(ime_notification_name(99), None);
    assert_eq!(ime_request_name(win32::IMR_DOCUMENTFEED), Some("IMR_DOCUMENTFEED"));
    assert_eq!(ime_request_name(0), None);
}

#[test]
fn hit_test_results_per_zone() {
    assert_eq!(hit_test_result(WindowZone::NotInWindow), win32::HTNOWHERE);
    assert_eq!(hit_test_result(WindowZone::TopLeftBorder), win32::HTTOPLEFT);
    assert_eq!(hit_test_result(WindowZone::ClientArea), win32::HTCLIENT);
    assert_eq!(hit_test_result(WindowZone::TitleBar), win32::HTCAPTION);
    assert_eq!(hit_test_result(WindowZone::CloseButton), win32::HTCLOSE);
    assert_eq!(hit_test_result(WindowZone::SysMenu), win32::HTSYSMENU);
}

#[test]
fn taskbar_progress_values() {
    assert_eq!(TaskbarProgressState::NoProgress.value(), 0);
    assert_eq!(TaskbarProgressState::Indeterminate.value(), 1);
    assert_eq!(TaskbarProgressState::Normal.value(), 2);
    assert_eq!(TaskbarProgressState::Error.value(), 4);
    assert_eq!(TaskbarProgressState::Paused.value(), 8);
}

#[test]
fn message_routes() {
    assert_eq!(route_message(win32::WM_GETMINMAXINFO, 1, true), MessageRoute::MinMaxInfo);
    assert_eq!(route_message(win32::WM_INPUT, 2, true), MessageRoute::RawInput);
    assert_eq!(route_message(win32::WM_NCCALCSIZE, 1, true), MessageRoute::NonClientCalcSize);
    assert_eq!(route_message(win32::WM_SIZING, 1, true), MessageRoute::Sizing);
    assert_eq!(route_message(win32::WM_DESTROY, 1, true), MessageRoute::Destroy);
    assert_eq!(route_message(win32::WM_CHAR, 1, true), MessageRoute::DefaultProcessing);
    assert_eq!(route_message(win32::WM_DESTROY, 1, false), MessageRoute::DefaultProcessing);
    assert_eq!(route_message(win32::WM_DESTROY, 0, true), MessageRoute::DefaultProcessing);
}

#[test]
fn track_limits() {
    let current = TrackSizes { min_x: 10, min_y: 20, max_x: 3000, max_y: 2000 };
    let limits = TrackLimits {
        min_width: Some(50),
        min_height: None,
        max_width: Some(1366),
        max_height: None,
    };
    assert_eq!(
        apply_track_limits(current, limits, 16, 39),
        TrackSizes { min_x: 50, min_y: 20, max_x: 1382, max_y: 2039 }
    );
    assert_eq!(border_extent(true, rect(-8, -31, 8, 8)), (16, 39));
    assert_eq!(border_extent(false, rect(-8, -31, 8, 8)), (0, 0));
}

#[test]
fn non_client_size_calculation() {
    let framed = WindowSettings::default();
    let borderless = WindowSettings { has_os_window_border: false, ..framed };
    let game = WindowSettings { window_type: WindowType::GameWindow, ..borderless };
    assert_eq!(nc_calc_size_action(1, &framed, false), NcCalcSizeAction::DefaultProcessing);
    assert_eq!(nc_calc_size_action(0, &borderless, false), NcCalcSizeAction::DefaultProcessing);
    assert_eq!(nc_calc_size_action(1, &borderless, true), NcCalcSizeAction::ClientIsWindow);
    assert_eq!(nc_calc_size_action(1, &game, false), NcCalcSizeAction::ClientIsWindow);
    assert_eq!(nc_calc_size_action(1, &game, true), NcCalcSizeAction::FitMaximizedToMonitor);
}

#[test]
fn fitting_a_maximized_window() {
    let fitted = fit_maximized_to_monitor(
        rect(-8, -8, 1928, 1088),
        WindowPos { x: -8, y: -8, cx: 1936, cy: 1096 },
        8,
    );
    assert_eq!(fitted.client, rect(0, 0, 1920, 1080));
    assert_eq!(fitted.destination, fitted.client);
    assert_eq!(fitted.pos, WindowPos { x: 0, y: 0, cx: 1920, cy: 1080 });
}

#[test]
fn sizing_keeps_the_aspect_ratio() {
    let frame = rect(0, 0, 0, 0);
    // A 4:1 window: dragging the right edge to 400 wide gives a height of 100 (from 200).
    assert_eq!(sizing_rect(win32::WMSZ_RIGHT, rect(0, 0, 400, 200), frame, 4, 1), Some(rect(0, 50, 400, 150)));
    // An 800x600 window dragged to 800 wide keeps 600 high.
    assert_eq!(sizing_rect(win32::WMSZ_RIGHT, rect(0, 0, 800, 600), frame, 800, 600), Some(rect(0, 0, 800, 600)));
    // An 800x600 window dragged at its right edge to 400 wide gets 300 high.
    assert_eq!(sizing_rect(win32::WMSZ_RIGHT, rect(0, 0, 400, 600), frame, 800, 600), Some(rect(0, 150, 400, 450)));
    // Dragging the bottom edge of a 2:1 window to 150 high gives a width of 300 (from 100).
    assert_eq!(sizing_rect(win32::WMSZ_BOTTOM, rect(0, 0, 100, 150), frame, 2, 1), Some(rect(-100, 0, 200, 150)));
    // A ratio below one: 1:2, the top edge dragged to 200 high gives 100 wide.
    assert_eq!(sizing_rect(win32::WMSZ_TOP, rect(0, 0, 300, 200), frame, 1, 2), Some(rect(100, 0, 200, 200)));
    assert_eq!(sizing_rect(win32::WMSZ_TOPLEFT, rect(0, 0, 400, 100), frame, 2, 1), Some(rect(0, -100, 400, 100)));
    assert_eq!(sizing_rect(win32::WMSZ_BOTTOMRIGHT, rect(0, 0, 400, 100), frame, 2, 1), Some(rect(0, 0, 400, 200)));
    // An edge that is no edge, or no ratio, leaves the client rectangle as it is.
    assert_eq!(sizing_rect(0, rect(1, 2, 3, 4), frame, 2, 1), Some(rect(1, 2, 3, 4)));
    assert_eq!(sizing_rect(win32::WMSZ_LEFT, rect(1, 2, 3, 4), frame, 0, 1), Some(rect(1, 2, 3, 4)));
}

#[test]
fn sizing_rounds_toward_zero_and_removes_the_frame() {
    // 101 * 1 / 2 = 50, shrinking height 101 to 50: (50 - 101) / 2 = -25 (toward zero).
    assert_eq!(sizing_rect(win32::WMSZ_LEFT, rect(0, 0, 101, 101), rect(0, 0, 0, 0), 2, 1), Some(rect(0, 25, 101, 76)));
    // Height 3 * 1 / 2 = 1 for width 3 at 2:1.
    assert_eq!(sizing_rect(win32::WMSZ_TOPRIGHT, rect(0, 0, 3, 10), rect(0, 0, 0, 0), 2, 1), Some(rect(0, 9, 3, 10)));
    assert_eq!(sizing_rect(7, rect(-8, -31, 408, 108), rect(-8, -31, 8, 8), 1, 1), Some(rect(0, 0, 400, 400)));
}

#[test]
fn sizing_that_cannot_be_computed_gives_none() {
    let frame = rect(0, 0, 0, 0);
    // The top edge at a huge ratio leaves the i32 range.
    assert_eq!(sizing_rect(win32::WMSZ_TOP, rect(0, 0, 100, 100), frame, i32::MAX, 1), None);
    // A width past the i32 range.
    assert_eq!(sizing_rect(win32::WMSZ_RIGHT, rect(i32::MIN, 0, i32::MAX, 10), frame, 1, 1), None);
    // The client rectangle past the i32 range once the frame is taken off.
    assert_eq!(sizing_rect(0, rect(i32::MIN, 0, 0, 0), rect(1, 0, 0, 0), 1, 1), None);
}

#[test]
fn transparency_support() {
    assert_eq!(transparency_support_from_composition(Some(true)), WindowTransparency::PerPixel);
    assert_eq!(transparency_support_from_composition(Some(false)), WindowTransparency::PerWindow);
    assert_eq!(transparency_support_from_composition(None), WindowTransparency::PerWindow);
}
