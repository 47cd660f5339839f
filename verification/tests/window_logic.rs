use seraph::generic::application::PlatformRect;
use seraph::generic::window::WindowMode;
use seraph::generic::window_definition::{
    WindowActivationPolicy, WindowSettings, WindowTransparency, WindowType,
};
use seraph::windows::win32::{
    SWP_NOACTIVATE, SWP_NOMOVE, SWP_NOOWNERZORDER, SWP_NOSIZE, SW_MAXIMIZE, SW_MINIMIZE, SW_SHOW,
    SW_SHOWMAXIMIZED, SW_SHOWMINNOACTIVE, SW_SHOWNOACTIVATE, WS_BORDER, WS_CAPTION,
    WS_CLIPCHILDREN, WS_CLIPSIBLINGS, WS_EX_APPWINDOW, WS_EX_COMPOSITED, WS_EX_LAYERED,
    WS_EX_TOOLWINDOW, WS_EX_TOPMOST, WS_EX_TRANSPARENT, WS_EX_WINDOWEDGE, WS_MAXIMIZEBOX,
    WS_MINIMIZEBOX, WS_OVERLAPPED, WS_POPUP, WS_SYSMENU, WS_THICKFRAME,
};
use seraph::windows::window::{
    compute_windowed_mode_style, fullscreen_target_size, grow_by_border, initial_window_styles,
    point_in_window_answer, rect_position_and_size, regular_borderless_window_style,
    window_border_size, BringToFront, CachedSizeSource, RegionShape, TransparencyChange,
    WindowModeChange, WindowState,
};

fn rect(left: i32, top: i32, right: i32, bottom: i32) -> PlatformRect {
    PlatformRect { left, top, right, bottom }
}

fn borderless() -> WindowSettings {
    WindowSettings { has_os_window_border: false, ..WindowSettings::default() }
}

#[test]
fn framed_style_of_regular_and_special_windows() {
    let s = WindowSettings::default();
    assert_eq!(
        compute_windowed_mode_style(&s),
        WS_OVERLAPPED | WS_SYSMENU | WS_CAPTION | WS_MAXIMIZEBOX | WS_MINIMIZEBOX | WS_THICKFRAME
    );
    let fixed = WindowSettings { has_sizing_frame: false, supports_maximize: false, ..s };
    assert_eq!(
        compute_windowed_mode_style(&fixed),
        WS_OVERLAPPED | WS_SYSMENU | WS_CAPTION | WS_MINIMIZEBOX | WS_BORDER
    );
    let tooltip = WindowSettings { is_regular_window: false, ..s };
    assert_eq!(
        compute_windowed_mode_style(&tooltip),
        WS_OVERLAPPED | WS_SYSMENU | WS_CAPTION | WS_POPUP | WS_BORDER
    );
}

#[test]
fn initial_styles_with_os_border() {
    let s = WindowSettings::default();
    let (ex, style) = initial_window_styles(&s, true);
    assert_eq!(ex, WS_EX_APPWINDOW);
    assert_eq!(style, compute_windowed_mode_style(&s));
}

#[test]
fn initial_styles_without_os_border() {
    let s = borderless();
    let (ex, style) = initial_window_styles(&s, false);
    assert_eq!(ex, WS_EX_WINDOWEDGE | WS_EX_LAYERED | WS_EX_APPWINDOW | WS_EX_TOPMOST);
    assert_eq!(style, WS_POPUP | WS_CLIPCHILDREN | WS_CLIPSIBLINGS);

    let tip = WindowSettings {
        transparency_support: WindowTransparency::PerPixel,
        appears_in_taskbar: false,
        is_topmost_window: false,
        accepts_input: false,
        ..borderless()
    };
    let (ex, _) = initial_window_styles(&tip, true);
    assert_eq!(ex, WS_EX_WINDOWEDGE | WS_EX_COMPOSITED | WS_EX_TOOLWINDOW | WS_EX_TRANSPARENT);
    let (ex, _) = initial_window_styles(&tip, false);
    assert_eq!(ex, WS_EX_WINDOWEDGE | WS_EX_TOOLWINDOW | WS_EX_TRANSPARENT);
}

#[test]
fn regular_borderless_windows_gain_a_frame() {
    let s = borderless();
    let base = WS_POPUP | WS_CLIPCHILDREN | WS_CLIPSIBLINGS;
    assert_eq!(
        regular_borderless_window_style(&s, base),
        Some(base | WS_CAPTION | WS_SYSMENU | WS_MAXIMIZEBOX | WS_MINIMIZEBOX | WS_THICKFRAME)
    );
    assert_eq!(regular_borderless_window_style(&WindowSettings::default(), base), None);
    let special = WindowSettings { is_regular_window: false, ..s };
    assert_eq!(regular_borderless_window_style(&special, base), None);
}

#[test]
fn growing_by_the_border() {
    assert_eq!(grow_by_border(100, 50, 800, 600, rect(-8, -31, 8, 8)), (92, 19, 816, 639));
}

#[test]
fn position_and_size_of_a_rect() {
    assert_eq!(rect_position_and_size(rect(10, 20, 110, 220)), (10, 20, 100, 200));
}

#[test]
fn fullscreen_sizes() {
    let monitor = rect(0, 0, 1920, 1080);
    let client = rect(0, 0, 1280, 1400);
    assert_eq!(fullscreen_target_size(true, monitor, client), (1280, 1080));
    assert_eq!(fullscreen_target_size(false, monitor, client), (1920, 1080));
}

#[test]
fn border_size_of_borderless_game_windows_is_zero() {
    let game = WindowSettings { window_type: WindowType::GameWindow, ..borderless() };
    assert_eq!(window_border_size(&game, 8), 0);
    assert_eq!(window_border_size(&WindowSettings::default(), 8), 8);
    let framed_game = WindowSettings { window_type: WindowType::GameWindow, ..WindowSettings::default() };
    assert_eq!(window_border_size(&framed_game, 8), 8);
}

#[test]
fn point_in_window_answer_is_the_negation() {
    assert!(!point_in_window_answer(true));
    assert!(point_in_window_answer(false));
}

#[test]
fn new_window_state() {
    let w = WindowState::new(WindowSettings::default());
    assert_eq!(w.get_hwnd(), 0);
    assert_eq!((w.region_width, w.region_height), (-1, -1));
    assert_eq!(w.get_window_mode(), WindowMode::Windowed);
    assert!(!w.is_visible());
    assert!(w.is_first_time_visible);
    assert!(!w.is_manual_manage_dpi_change());
}

#[test]
fn show_and_hide() {
    let mut w = WindowState::new(WindowSettings::default());
    assert_eq!(w.show(), Some(SW_SHOW));
    assert!(w.is_visible());
    assert!(!w.is_first_time_visible);
    assert_eq!(w.show(), None);
    assert!(w.hide_window());
    assert!(!w.is_visible());
    assert!(!w.hide_window());
    assert_eq!(w.show(), Some(SW_SHOW));
}

#[test]
fn first_showing_restores_initial_state() {
    let mut w = WindowState::new(WindowSettings::default());
    w.initially_minimized = true;
    assert_eq!(w.show(), Some(SW_MINIMIZE));
    w.hide_window();
    assert_eq!(w.show(), Some(SW_SHOW));

    let passive = WindowSettings { accepts_input: false, ..WindowSettings::default() };
    let mut w = WindowState::new(passive);
    w.initially_minimized = true;
    assert_eq!(w.show(), Some(SW_SHOWMINNOACTIVE));

    let mut w = WindowState::new(passive);
    w.initially_maximized = true;
    assert_eq!(w.show(), Some(SW_MAXIMIZE));

    let mut w = WindowState::new(WindowSettings::default());
    w.initially_maximized = true;
    assert_eq!(w.show(), Some(SW_SHOWMAXIMIZED));
}

#[test]
fn first_shown_policy_activates_once() {
    let s = WindowSettings {
        activation_policy: WindowActivationPolicy::FirstShown,
        ..WindowSettings::default()
    };
    let mut w = WindowState::new(s);
    assert_eq!(w.show(), Some(SW_SHOW));
    w.hide_window();
    assert_eq!(w.show(), Some(SW_SHOWNOACTIVATE));

    let never = WindowSettings { activation_policy: WindowActivationPolicy::Never, ..s };
    let mut w = WindowState::new(never);
    assert_eq!(w.show(), Some(SW_SHOWNOACTIVATE));
}

#[test]
fn window_mode_changes() {
    let s = WindowSettings::default();
    let windowed = compute_windowed_mode_style(&s);
    let mut w = WindowState::new(s);
    assert_eq!(w.set_window_mode(WindowMode::Windowed, windowed), None);
    let full = w.set_window_mode(WindowMode::Fullscreen, windowed | 0x10);
    assert_eq!(
        full,
        Some(WindowModeChange { style: WS_POPUP | 0x10, fullscreen: true, true_fullscreen: true })
    );
    assert_eq!(w.get_window_mode(), WindowMode::Fullscreen);
    let back = w.set_window_mode(WindowMode::Windowed, WS_POPUP | 0x10);
    assert_eq!(
        back,
        Some(WindowModeChange { style: windowed | 0x10, fullscreen: false, true_fullscreen: false })
    );
}

#[test]
fn borderless_game_window_keeps_its_frame_in_windowed_fullscreen() {
    let s = WindowSettings { window_type: WindowType::GameWindow, ..borderless() };
    let windowed = compute_windowed_mode_style(&s);
    let mut w = WindowState::new(s);
    let change = w.set_window_mode(WindowMode::WindowedFullscreen, WS_POPUP);
    assert_eq!(
        change,
        Some(WindowModeChange { style: windowed, fullscreen: true, true_fullscreen: false })
    );
    let change = w.set_window_mode(WindowMode::Fullscreen, windowed);
    assert_eq!(change, Some(WindowModeChange { style: WS_POPUP, fullscreen: true, true_fullscreen: true }));
}

#[test]
fn reshape_with_os_border() {
    let mut w = WindowState::new(WindowSettings::default());
    let out = w.reshape(100, 100, 800, 600, rect(-8, -31, 8, 8), rect(0, 0, 0, 0));
    assert_eq!((out.x, out.y, out.width, out.height), (92, 69, 816, 639));
    assert_eq!((w.virtual_width, w.virtual_height), (816, 639));
    assert!(!out.no_send_changing);
    assert!(!out.update_region);
}

#[test]
fn reshape_of_a_window_whose_size_changes_often() {
    let s = WindowSettings {
        size_will_change_often: true,
        expected_max_width: -1,
        expected_max_height: 300,
        ..borderless()
    };
    let mut w = WindowState::new(s);
    let out = w.reshape(0, 0, 200, 100, rect(-8, -8, 8, 8), rect(0, 0, 500, 400));
    assert_eq!((out.x, out.y), (0, 0));
    assert_eq!((out.width, out.height), (500, 300));
    assert_eq!((w.virtual_width, w.virtual_height), (200, 100));
    assert!(out.update_region);
    assert_eq!((w.region_width, w.region_height), (200, 100));
    let again = w.reshape(0, 0, 200, 100, rect(0, 0, 0, 0), rect(0, 0, 500, 400));
    assert!(!again.update_region);
}

#[test]
fn reshape_in_true_fullscreen_sends_no_changing_message() {
    let mut w = WindowState::new(borderless());
    w.set_window_mode(WindowMode::Fullscreen, 0);
    let out = w.reshape(0, 0, 1920, 1080, rect(0, 0, 0, 0), rect(0, 0, 0, 0));
    assert!(out.no_send_changing);
}

#[test]
fn region_shapes() {
    let mut w = WindowState::new(WindowSettings::default());
    assert_eq!(
        w.region_shape(false, 8, rect(10, 10, 110, 60)),
        Some(RegionShape::Rect { left: 0, top: 0, right: 100, bottom: 50 })
    );
    w.adjust_window_region(640, 480);
    assert_eq!(
        w.region_shape(false, 8, rect(0, 0, 0, 0)),
        Some(RegionShape::RoundRect { left: 0, top: 0, right: 641, bottom: 481, width: 1, height: 1 })
    );
    assert_eq!(
        w.region_shape(true, 8, rect(0, 0, 0, 0)),
        Some(RegionShape::Rect { left: 8, top: 8, right: 632, bottom: 472 })
    );
    let mut game = WindowState::new(WindowSettings { window_type: WindowType::GameWindow, ..borderless() });
    game.adjust_window_region(640, 480);
    assert_eq!(
        game.region_shape(true, 8, rect(0, 0, 0, 0)),
        Some(RegionShape::Rect { left: 8, top: 8, right: 648, bottom: 488 })
    );
    let mut square = WindowState::new(WindowSettings { corner_radius: 0, ..WindowSettings::default() });
    square.adjust_window_region(640, 480);
    assert_eq!(
        square.region_shape(false, 8, rect(0, 0, 0, 0)),
        Some(RegionShape::Rect { left: 0, top: 0, right: 640, bottom: 480 })
    );
}

#[test]
fn bringing_to_front() {
    let w = WindowState::new(WindowSettings::default());
    assert_eq!(w.bring_to_front_action(true, false), BringToFront::Restore);
    assert_eq!(w.bring_to_front_action(false, false), BringToFront::Activate);
    let tip = WindowState::new(WindowSettings { is_regular_window: false, ..WindowSettings::default() });
    assert_eq!(
        tip.bring_to_front_action(false, false),
        BringToFront::Reorder {
            topmost: true,
            flags: SWP_NOMOVE | SWP_NOSIZE | SWP_NOOWNERZORDER | SWP_NOACTIVATE,
        }
    );
    assert_eq!(
        tip.bring_to_front_action(false, true),
        BringToFront::Reorder { topmost: true, flags: SWP_NOMOVE | SWP_NOSIZE | SWP_NOOWNERZORDER }
    );
}

#[test]
fn cached_size_sources() {
    let mut w = WindowState::new(WindowSettings::default());
    assert_eq!(w.cached_size_source(), CachedSizeSource::Unchanged);
    w.created(42, 800, 600);
    assert_eq!(w.get_hwnd(), 42);
    assert_eq!(w.cached_size_source(), CachedSizeSource::ClientRect);
    let mut often = WindowState::new(WindowSettings { size_will_change_often: true, ..WindowSettings::default() });
    often.created(7, 320, 240);
    assert_eq!(often.cached_size_source(), CachedSizeSource::Virtual(320, 240));
}

#[test]
fn moving_focus_drag_drop_and_transparency() {
    let mut w = WindowState::new(WindowSettings::default());
    w.created(5, 10, 10);
    assert_eq!(w.move_target(10, 20, rect(-8, -31, 8, 8)), Some((2, -11)));
    let b = WindowState::new(borderless());
    assert_eq!(b.move_target(10, 20, rect(-8, -31, 8, 8)), None);
    assert!(w.needs_focus(6));
    assert!(!w.needs_focus(5));
    assert!(!w.should_revoke_drag_drop(true));
    w.ole_reference_count = 1;
    assert!(w.should_revoke_drag_drop(true));
    assert!(!w.should_revoke_drag_drop(false));
    w.set_manual_manage_dpi_change(true);
    assert!(w.is_manual_manage_dpi_change());

    assert_eq!(w.transparency_change(WindowTransparency::PerPixel, 0x100), None);
    let pp = WindowState::new(WindowSettings {
        transparency_support: WindowTransparency::PerPixel,
        ..WindowSettings::default()
    });
    assert_eq!(
        pp.transparency_change(WindowTransparency::PerPixel, 0x100),
        Some(TransparencyChange { ex_style: 0x100 | WS_EX_COMPOSITED, extend_frame: true })
    );
    assert_eq!(
        pp.transparency_change(WindowTransparency::PerWindow, 0x100 | WS_EX_COMPOSITED),
        Some(TransparencyChange { ex_style: 0x100, extend_frame: false })
    );
}

#[test]
fn region_out_of_range_gives_none() {
    let mut w = WindowState::new(WindowSettings::default());
    w.adjust_window_region(i32::MAX, 480);
    // The rounded corner one past the width leaves the i32 range.
    assert_eq!(w.region_shape(false, 8, rect(0, 0, 0, 0)), None);
    // The maximized region cuts the border off and stays in range.
    assert_eq!(
        w.region_shape(true, 8, rect(0, 0, 0, 0)),
        Some(RegionShape::Rect { left: 8, top: 8, right: i32::MAX - 8, bottom: 472 })
    );
    // Without a region size only the window rectangle counts.
    let fresh = WindowState::new(WindowSettings::default());
    assert_eq!(fresh.region_shape(false, i32::MAX, rect(i32::MIN, 0, i32::MAX, 0)), None);
}

#[test]
fn reshape_records_the_aspect_ratio() {
    let mut w = WindowState::new(WindowSettings::default());
    assert_eq!(w.aspect_ratio(), (1, 1));
    w.reshape(100, 100, 800, 600, rect(-8, -31, 8, 8), rect(0, 0, 0, 0));
    assert_eq!(w.aspect_ratio(), (800, 600));
}

#[test]
fn reshape_ignores_the_old_window_unless_the_size_changes_often() {
    let mut w = WindowState::new(WindowSettings::default());
    let out = w.reshape(0, 0, 800, 600, rect(0, 0, 0, 0), rect(i32::MIN, 0, i32::MAX, 0));
    assert_eq!((out.width, out.height), (800, 600));
}
