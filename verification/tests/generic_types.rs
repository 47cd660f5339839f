use seraph::generic::application::{
    ModifierKey, MonitorInfo, PlatformRect, ALT, COMMAND, CONTROL, NONE, SHIFT,
};
use seraph::generic::application_message_handler::{
    GamepadKeyNames, WindowAction, WindowZone, DPAD_UP, INVALID, LEFT_ANALOG_X,
    MOTION_CONTROLLER_RIGHT_GRIP2_AXIS,
};
use seraph::generic::cursor::{MouseCursor, CURSOR_COUNT};
use seraph::generic::window_definition::{
    WindowActivationPolicy, WindowSettings, WindowTransparency, WindowType,
};
use seraph::is_in_game_thread;

#[test]
fn game_thread_is_always_reported() {
    assert!(is_in_game_thread());
}

#[test]
fn modifier_flags_set_their_bits() {
    assert_eq!(ModifierKey::from_bools(false, false, false, false).bits(), NONE);
    assert_eq!(ModifierKey::from_bools(true, false, false, false).bits(), CONTROL);
    assert_eq!(ModifierKey::from_bools(false, true, false, false).bits(), ALT);
    assert_eq!(ModifierKey::from_bools(false, false, true, false).bits(), SHIFT);
    assert_eq!(ModifierKey::from_bools(false, false, false, true).bits(), COMMAND);
    assert_eq!(ModifierKey::from_bools(true, false, true, false).bits(), 5);
    assert_eq!(ModifierKey::from_bools(true, true, true, true).bits(), 15);
}

#[test]
fn modifier_masks_are_distinct() {
    let mut seen = Vec::new();
    for m in 0..16u8 {
        let k = ModifierKey::from_bools(m & 1 != 0, m & 2 != 0, m & 4 != 0, m & 8 != 0);
        assert_eq!(k.bits(), m);
        assert!(!seen.contains(&k.bits()));
        seen.push(k.bits());
    }
}

#[test]
fn cursor_index_round_trip() {
    for n in 0..CURSOR_COUNT {
        assert_eq!(MouseCursor::from_usize(n).to_usize(), n);
    }
    let c = MouseCursor::GrabHandClosed;
    assert_eq!(MouseCursor::from_usize(c.to_usize()), c);
}

#[test]
fn cursor_indices_follow_declaration_order() {
    assert_eq!(MouseCursor::NoCursor.to_usize(), 0);
    assert_eq!(MouseCursor::Default.to_usize(), 1);
    assert_eq!(MouseCursor::Hand.to_usize(), 9);
    assert_eq!(MouseCursor::Custom.to_usize(), 14);
    assert_eq!(MouseCursor::from_usize(12), MouseCursor::SlashedCircle);
}

#[test]
fn out_of_range_cursor_index_is_default() {
    assert_eq!(MouseCursor::from_usize(15), MouseCursor::Default);
    assert_eq!(MouseCursor::from_usize(usize::MAX), MouseCursor::Default);
}

#[test]
fn window_zone_indices() {
    assert_eq!(WindowZone::NotInWindow.to_usize(), 0);
    assert_eq!(WindowZone::ClientArea.to_usize(), 5);
    assert_eq!(WindowZone::TitleBar.to_usize(), 10);
    assert_eq!(WindowZone::SysMenu.to_usize(), 14);
}

#[test]
fn window_action_values() {
    assert_eq!(WindowAction::ClickedNonClientArea.value(), 1);
    assert_eq!(WindowAction::Maximize.value(), 2);
    assert_eq!(WindowAction::Restore.value(), 3);
    assert_eq!(WindowAction::WindowMenu.value(), 4);
}

#[test]
fn gamepad_key_names() {
    assert_eq!(GamepadKeyNames(LEFT_ANALOG_X).0, "Gamepad_LeftX");
    assert_eq!(DPAD_UP, "Gamepad_DPad_Up");
    assert_eq!(INVALID, "");
    assert_eq!(MOTION_CONTROLLER_RIGHT_GRIP2_AXIS, "MotionController_Right_Grip2Axis");
}

#[test]
fn defaults() {
    let r = PlatformRect::default();
    assert_eq!(r, PlatformRect { left: 0, top: 0, right: 0, bottom: 0 });
    let m = MonitorInfo::default();
    assert_eq!(m.name, "");
    assert_eq!(m.id, "");
    assert_eq!(m.native_width, 0);
    assert!(!m.is_primary);
    let s = WindowSettings::default();
    assert_eq!(s.window_type, WindowType::Normal);
    assert_eq!((s.client_width, s.client_height), (800, 600));
    assert_eq!(s.transparency_support, WindowTransparency::PerWindow);
    assert_eq!(s.activation_policy, WindowActivationPolicy::Always);
    assert_eq!((s.expected_max_width, s.expected_max_height), (1280, 640));
    assert_eq!(s.corner_radius, 1);
    assert!(s.has_os_window_border && s.is_regular_window && s.has_sizing_frame);
    assert!(!s.is_borderless_game_window());
}

#[test]
fn modifier_sets_combine_as_sets() {
    let ctrl = ModifierKey::from_bools(true, false, false, false);
    let ctrl_alt = ModifierKey::from_bools(true, true, false, false);
    let shift = ModifierKey::from_bools(false, false, true, false);
    assert!(ModifierKey::empty().is_empty());
    assert_eq!(ModifierKey::all().bits(), CONTROL | ALT | SHIFT | COMMAND);
    assert!(ModifierKey::all().is_all());
    assert!(ctrl_alt.contains(ctrl));
    assert!(!ctrl.contains(ctrl_alt));
    assert!(ctrl_alt.intersects(ctrl));
    assert!(!ctrl_alt.intersects(shift));
    assert_eq!(ctrl_alt.union(shift).bits(), CONTROL | ALT | SHIFT);
    assert_eq!(ctrl_alt.intersection(ctrl).bits(), CONTROL);
    assert_eq!(ctrl_alt.difference(ctrl).bits(), ALT);
    assert_eq!(ctrl_alt.symmetric_difference(ModifierKey::from_bools(true, false, true, false)).bits(), ALT | SHIFT);
    assert_eq!(ctrl.complement().bits(), ALT | SHIFT | COMMAND);
    assert_eq!(ModifierKey::from_bits(5).map(|m| m.bits()), Some(CONTROL | SHIFT));
    assert!(ModifierKey::from_bits(16).is_none());
    assert_eq!(ModifierKey::from_bits_truncate(0xf3).bits(), CONTROL | ALT);
    let mut m = ModifierKey::empty();
    m.insert(ctrl_alt);
    assert_eq!(m.bits(), CONTROL | ALT);
    m.remove(ctrl);
    assert_eq!(m.bits(), ALT);
    m.toggle(ctrl_alt);
    assert_eq!(m.bits(), CONTROL);
}
