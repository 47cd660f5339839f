use vstd::prelude::*;

verus! {

/// The purpose of a window.
#[derive(Clone, Copy, Debug, PartialEq, Eq, Structural)]
pub enum WindowType {
    /// A standard, general-purpose window.
    Normal,
    /// A window used for a popup menu.
    Menu,
    /// A window used for a tooltip.
    ToolTip,
    /// A window used for a notification toast.
    Notification,
    /// A window used for a cursor decorator.
    CursorDecorator,
    /// A game window.
    GameWindow,
}

/// The level of transparency a window supports, in the order of their
/// indices.
#[derive(Clone, Copy, Debug, PartialEq, Eq, Structural)]
pub enum WindowTransparency {
    /// The window does not support transparency.
    NoTransparency,
    /// One opacity applies to the entire window.
    PerWindow,
    /// Per-pixel alpha blended transparency.
    PerPixel,
}

/// When a window is activated as it is shown.
#[derive(Clone, Copy, Debug, PartialEq, Eq, Structural)]
pub enum WindowActivationPolicy {
    /// The window is never activated when shown.
    Never,
    /// The window is activated every time it is shown.
    Always,
    /// The window is activated the first time it is shown.
    FirstShown,
}

/// The part of a window definition that window management decides on: the
/// desired client rectangle in whole pixels, and the flags and sizes that
/// select styles, regions and activation.
#[derive(Clone, Copy, Debug, PartialEq, Eq, Structural)]
pub struct WindowSettings {
    pub window_type: WindowType,
    /// Desired horizontal screen position of the client area.
    pub client_x: i32,
    /// Desired vertical screen position of the client area.
    pub client_y: i32,
    /// Desired client width.
    pub client_width: i32,
    /// Desired client height.
    pub client_height: i32,
    pub transparency_support: WindowTransparency,
    /// The window uses the OS window border instead of a drawn one.
    pub has_os_window_border: bool,
    pub appears_in_taskbar: bool,
    pub is_topmost_window: bool,
    pub accepts_input: bool,
    pub activation_policy: WindowActivationPolicy,
    pub supports_minimize: bool,
    pub supports_maximize: bool,
    /// A vanilla window, not one used for a special purpose such as a
    /// tooltip or a menu.
    pub is_regular_window: bool,
    /// A user-sized window with a thick edge.
    pub has_sizing_frame: bool,
    /// The size of the window is expected to change often.
    pub size_will_change_often: bool,
    pub should_preserve_aspect_ratio: bool,
    /// Expected maximum width, or -1 for none.
    pub expected_max_width: i32,
    /// Expected maximum height, or -1 for none.
    pub expected_max_height: i32,
    /// Radius of the corner rounding.
    pub corner_radius: i32,
}

impl WindowSettings {
    /// A borderless game window: a game window drawn without the OS border.
    pub open spec fn spec_is_borderless_game_window(&self) -> bool {
        self.window_type == WindowType::GameWindow && !self.has_os_window_border
    }

    /// Whether this is a game window drawn without the OS border.
    pub fn is_borderless_game_window(&self) -> (r: bool)
        ensures
            r == self.spec_is_borderless_game_window(),
    {
        self.window_type == WindowType::GameWindow && !self.has_os_window_border
    }
}

impl Default for WindowSettings {
    /// The settings of the default window definition: an 800 by 600 regular,
    /// resizable window at the origin with the OS border.
    fn default() -> (s: WindowSettings)
        ensures
            s.window_type == WindowType::Normal,
            s.client_x == 0 && s.client_y == 0,
            s.client_width == 800 && s.client_height == 600,
            s.transparency_support == WindowTransparency::PerWindow,
            s.has_os_window_border && s.appears_in_taskbar && s.is_topmost_window,
            s.accepts_input,
            s.activation_policy == WindowActivationPolicy::Always,
            s.supports_minimize && s.supports_maximize,
            s.is_regular_window && s.has_sizing_frame,
            !s.size_will_change_often,
            s.should_preserve_aspect_ratio,
            s.expected_max_width == 1280 && s.expected_max_height == 640,
            s.corner_radius == 1,
    {
        WindowSettings {
            window_type: WindowType::Normal,
            client_x: 0,
            client_y: 0,
            client_width: 800,
            client_height: 600,
            transparency_support: WindowTransparency::PerWindow,
            has_os_window_border: true,
            appears_in_taskbar: true,
            is_topmost_window: true,
            accepts_input: true,
            activation_policy: WindowActivationPolicy::Always,
            supports_minimize: true,
            supports_maximize: true,
            is_regular_window: true,
            has_sizing_frame: true,
            size_will_change_often: false,
            should_preserve_aspect_ratio: true,
            expected_max_width: 1280,
            expected_max_height: 640,
            corner_radius: 1,
        }
    }
}

} // verus!
