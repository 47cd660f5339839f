use vstd::prelude::*;
use crate::platform::generic::application::PlatformRect;
use crate::platform::generic::window::WindowMode;
use crate::platform::generic::window_definition::{
    WindowActivationPolicy, WindowSettings, WindowTransparency,
};
use crate::platform::windows::win32::{
    SWP_NOACTIVATE, SWP_NOMOVE, SWP_NOOWNERZORDER, SWP_NOSIZE, SW_MAXIMIZE, SW_MINIMIZE, SW_SHOW, SW_SHOWMAXIMIZED, SW_SHOWMINNOACTIVE, SW_SHOWNOACTIVATE, WS_BORDER, WS_CAPTION, WS_CLIPCHILDREN, WS_CLIPSIBLINGS, WS_EX_APPWINDOW, WS_EX_COMPOSITED, WS_EX_LAYERED, WS_EX_TOOLWINDOW, WS_EX_TOPMOST, WS_EX_TRANSPARENT, WS_EX_WINDOWEDGE, WS_MAXIMIZEBOX, WS_MINIMIZEBOX, WS_OVERLAPPED, WS_POPUP, WS_SYSMENU, WS_THICKFRAME,
};

verus! {

/// Whether a mathematical integer fits in an `i32`.
pub open spec fn in_i32(v: int) -> bool {
    i32::MIN <= v <= i32::MAX
}

/// Width of a rectangle.
pub open spec fn rect_width(r: PlatformRect) -> int {
    r.right - r.left
}

/// Height of a rectangle.
pub open spec fn rect_height(r: PlatformRect) -> int {
    r.bottom - r.top
}

/// `f` when `c` holds, no bits otherwise.
pub open spec fn flag_if(c: bool, f: u32) -> u32 {
    if c {
        f
    } else {
        0
    }
}

/// The style of a window shown with a frame: overlapped with a caption and
/// a system menu; a regular window adds the maximize and minimize boxes it
/// supports and a sizing frame or a thin border, any other window is a
/// bordered popup.
pub open spec fn windowed_mode_style(s: WindowSettings) -> u32 {
    WS_OVERLAPPED | WS_SYSMENU | WS_CAPTION | if s.is_regular_window {
        flag_if(s.supports_maximize, WS_MAXIMIZEBOX) | flag_if(s.supports_minimize, WS_MINIMIZEBOX)
            | (if s.has_sizing_frame {
            WS_THICKFRAME
        } else {
            WS_BORDER
        })
    } else {
        WS_POPUP | WS_BORDER
    }
}

/// The extended style bit a borderless window takes for its transparency:
/// layered for per-window transparency, composited for per-pixel
/// transparency where the system supports per-pixel blending.
pub open spec fn transparency_ex_style(s: WindowSettings, per_pixel_supported: bool) -> u32 {
    if s.transparency_support == WindowTransparency::PerWindow {
        WS_EX_LAYERED
    } else if s.transparency_support == WindowTransparency::PerPixel && per_pixel_supported {
        WS_EX_COMPOSITED
    } else {
        0
    }
}

/// The extended style a window is created with.
pub open spec fn initial_ex_style(s: WindowSettings, per_pixel_supported: bool) -> u32 {
    if !s.has_os_window_border {
        WS_EX_WINDOWEDGE | transparency_ex_style(s, per_pixel_supported) | (if s.appears_in_taskbar {
            WS_EX_APPWINDOW
        } else {
            WS_EX_TOOLWINDOW
        }) | flag_if(s.is_topmost_window, WS_EX_TOPMOST) | flag_if(
            !s.accepts_input,
            WS_EX_TRANSPARENT,
        )
    } else {
        WS_EX_APPWINDOW
    }
}

/// The style a window is created with: a clipping popup without the OS
/// border, the framed style with it.
pub open spec fn initial_style(s: WindowSettings) -> u32 {
    if !s.has_os_window_border {
        WS_POPUP | WS_CLIPCHILDREN | WS_CLIPSIBLINGS
    } else {
        windowed_mode_style(s)
    }
}

/// The style a regular borderless window takes once created: the given style
/// with a caption, a system menu, the boxes it supports and a sizing frame
/// when it has one.
pub open spec fn regular_borderless_style(s: WindowSettings, style: u32) -> u32 {
    style | WS_OVERLAPPED | WS_CAPTION | WS_SYSMENU | flag_if(s.supports_maximize, WS_MAXIMIZEBOX)
        | flag_if(s.supports_minimize, WS_MINIMIZEBOX) | flag_if(s.has_sizing_frame, WS_THICKFRAME)
}

/// Computes the framed style of `windowed_mode_style`.
pub fn compute_windowed_mode_style(s: &WindowSettings) -> (style: u32)
    ensures
        style == windowed_mode_style(*s),
{
    let extra: u32 = if s.is_regular_window {
        let maximize: u32 = if s.supports_maximize { WS_MAXIMIZEBOX } else { 0 };
        let minimize: u32 = if s.supports_minimize { WS_MINIMIZEBOX } else { 0 };
        let frame: u32 = if s.has_sizing_frame { WS_THICKFRAME } else { WS_BORDER };
        maximize | minimize | frame
    } else {
        WS_POPUP | WS_BORDER
    };
    WS_OVERLAPPED | WS_SYSMENU | WS_CAPTION | extra
}

/// The extended style and the style a window is created with, given whether
/// the system supports per-pixel blending.
pub fn initial_window_styles(s: &WindowSettings, per_pixel_supported: bool) -> (r: (u32, u32))
    ensures
        r.0 == initial_ex_style(*s, per_pixel_supported),
        r.1 == initial_style(*s),
{
    if !s.has_os_window_border {
        let transparency: u32 = if s.transparency_support == WindowTransparency::PerWindow {
            WS_EX_LAYERED
        } else if s.transparency_support == WindowTransparency::PerPixel && per_pixel_supported {
            WS_EX_COMPOSITED
        } else {
            0
        };
        let taskbar: u32 = if s.appears_in_taskbar { WS_EX_APPWINDOW } else { WS_EX_TOOLWINDOW };
        let topmost: u32 = if s.is_topmost_window { WS_EX_TOPMOST } else { 0 };
        let input: u32 = if !s.accepts_input { WS_EX_TRANSPARENT } else { 0 };
        let ex_style = WS_EX_WINDOWEDGE | transparency | taskbar | topmost | input;
        (ex_style, WS_POPUP | WS_CLIPCHILDREN | WS_CLIPSIBLINGS)
    } else {
        (WS_EX_APPWINDOW, compute_windowed_mode_style(s))
    }
}

/// The style a regular window drawn without the OS border takes after it is
/// created; `None` for any other window, whose style stays.
pub fn regular_borderless_window_style(s: &WindowSettings, style: u32) -> (r: Option<u32>)
    ensures
        r == (if s.is_regular_window && !s.has_os_window_border {
            Some(regular_borderless_style(*s, style))
        } else {
            None
        }),
{
    if s.is_regular_window && !s.has_os_window_border {
        let maximize: u32 = if s.supports_maximize { WS_MAXIMIZEBOX } else { 0 };
        let minimize: u32 = if s.supports_minimize { WS_MINIMIZEBOX } else { 0 };
        let frame: u32 = if s.has_sizing_frame { WS_THICKFRAME } else { 0 };
        Some(style | WS_OVERLAPPED | WS_CAPTION | WS_SYSMENU | maximize | minimize | frame)
    } else {
        None
    }
}

/// Whether `x`, `y`, `width`, `height` grown by the border rectangle `b`
/// stay within `i32`.
pub open spec fn border_growth_fits(x: i32, y: i32, width: i32, height: i32, b: PlatformRect) -> bool {
    &&& in_i32(x + b.left)
    &&& in_i32(y + b.top)
    &&& in_i32(rect_width(b))
    &&& in_i32(rect_height(b))
    &&& in_i32(width + rect_width(b))
    &&& in_i32(height + rect_height(b))
}

/// The window rectangle that holds a client rectangle: the client origin
/// moved by the border's top-left corner (negative for a real border) and the
/// client size grown by the border's size.
pub fn grow_by_border(x: i32, y: i32, width: i32, height: i32, border: PlatformRect) -> (r: (
    i32,
    i32,
    i32,
    i32,
))
    requires
        border_growth_fits(x, y, width, height, border),
    ensures
        r.0 == x + border.left,
        r.1 == y + border.top,
        r.2 == width + rect_width(border),
        r.3 == height + rect_height(border),
{
    (
        x + border.left,
        y + border.top,
        width + (border.right - border.left),
        height + (border.bottom - border.top),
    )
}

/// Position and size of a rectangle.
pub fn rect_position_and_size(r: PlatformRect) -> (d: (i32, i32, i32, i32))
    requires
        in_i32(rect_width(r)),
        in_i32(rect_height(r)),
    ensures
        d.0 == r.left,
        d.1 == r.top,
        d.2 == rect_width(r),
        d.3 == rect_height(r),
{
    (r.left, r.top, r.right - r.left, r.bottom - r.top)
}

/// The size a fullscreen window asks for: in true fullscreen the smaller of
/// the monitor's and the current client area's size (the current resolution
/// is kept where the monitor allows), in windowed fullscreen the monitor's.
pub fn fullscreen_target_size(
    true_fullscreen: bool,
    monitor: PlatformRect,
    client: PlatformRect,
) -> (r: (i32, i32))
    requires
        in_i32(rect_width(monitor)),
        in_i32(rect_height(monitor)),
        in_i32(rect_width(client)),
        in_i32(rect_height(client)),
    ensures
        true_fullscreen ==> r.0 == if rect_width(monitor) <= rect_width(client) {
            rect_width(monitor)
        } else {
            rect_width(client)
        },
        true_fullscreen ==> r.1 == if rect_height(monitor) <= rect_height(client) {
            rect_height(monitor)
        } else {
            rect_height(client)
        },
        !true_fullscreen ==> r.0 == rect_width(monitor) && r.1 == rect_height(monitor),
        r.0 <= rect_width(monitor),
        r.1 <= rect_height(monitor),
{
    let monitor_width = monitor.right - monitor.left;
    let monitor_height = monitor.bottom - monitor.top;
    if true_fullscreen {
        let client_width = client.right - client.left;
        let client_height = client.bottom - client.top;
        let w = if monitor_width <= client_width { monitor_width } else { client_width };
        let h = if monitor_height <= client_height { monitor_height } else { client_height };
        (w, h)
    } else {
        (monitor_width, monitor_height)
    }
}

/// The border size a window reports: zero for a borderless game window,
/// which draws over its sizing border, the system's border width otherwise.
pub fn window_border_size(s: &WindowSettings, system_border: u32) -> (r: u32)
    ensures
        r == if s.spec_is_borderless_game_window() {
            0
        } else {
            system_border
        },
{
    if s.is_borderless_game_window() {
        0
    } else {
        system_border
    }
}

/// The answer a window gives when asked whether a point lies in it, from
/// whether the point lies in the window's region: the comparison of that
/// fact with `false`.
pub fn point_in_window_answer(in_region: bool) -> (r: bool)
    ensures
        r == !in_region,
{
    let result = false;
    result == in_region
}

/// The shape of a window region.
#[derive(Clone, Copy, Debug, PartialEq, Eq, Structural)]
pub enum RegionShape {
    /// A rectangle.
    Rect { left: i32, top: i32, right: i32, bottom: i32 },
    /// A rectangle with rounded corners of the given ellipse size.
    RoundRect { left: i32, top: i32, right: i32, bottom: i32, width: i32, height: i32 },
}

/// What bringing a window to the front does.
#[derive(Clone, Copy, Debug, PartialEq, Eq, Structural)]
pub enum BringToFront {
    /// Restore the minimized regular window.
    Restore,
    /// Activate the regular window.
    Activate,
    /// Move the window to the top of the z-order, or of the topmost windows,
    /// with these positioning flags.
    Reorder { topmost: bool, flags: u32 },
}

/// Where the cached size of a window comes from.
#[derive(Clone, Copy, Debug, PartialEq, Eq, Structural)]
pub enum CachedSizeSource {
    /// The virtual size the window last asked for.
    Virtual(i32, i32),
    /// The current client rectangle of the window.
    ClientRect,
    /// The size passed in stays.
    Unchanged,
}

/// The outcome of reshaping a window.
#[derive(Clone, Copy, Debug, PartialEq, Eq, Structural)]
pub struct ReshapeOutcome {
    /// Window position to move to.
    pub x: i32,
    pub y: i32,
    /// Window size to take.
    pub width: i32,
    pub height: i32,
    /// The move must not send a position-changing message (true fullscreen).
    pub no_send_changing: bool,
    /// The window region must be rebuilt from the updated region size.
    pub update_region: bool,
}

/// A change of window mode to apply.
#[derive(Clone, Copy, Debug, PartialEq, Eq, Structural)]
pub struct WindowModeChange {
    /// The new window style.
    pub style: u32,
    /// The window goes to a fullscreen mode (true or windowed fullscreen).
    pub fullscreen: bool,
    /// The window goes to true fullscreen.
    pub true_fullscreen: bool,
}

/// A change of extended style after the system's transparency support changed.
#[derive(Clone, Copy, Debug, PartialEq, Eq, Structural)]
pub struct TransparencyChange {
    /// The new extended style.
    pub ex_style: u32,
    /// The frame is to be extended into the whole client area.
    pub extend_frame: bool,
}

/// The show command for a window being shown: a window that accepts input
/// is activated under the `Always` policy, and under `FirstShown` the first
/// time; the first showing restores the initial minimized or maximized state.
pub open spec fn show_command(
    s: WindowSettings,
    first_time: bool,
    initially_minimized: bool,
    initially_maximized: bool,
) -> u32 {
    let activate = s.accepts_input && (s.activation_policy == WindowActivationPolicy::Always || (
    first_time && s.activation_policy == WindowActivationPolicy::FirstShown));
    if first_time && initially_minimized {
        if activate {
            SW_MINIMIZE
        } else {
            SW_SHOWMINNOACTIVE
        }
    } else if first_time && initially_maximized {
        if activate {
            SW_SHOWMAXIMIZED
        } else {
            SW_MAXIMIZE
        }
    } else if activate {
        SW_SHOW
    } else {
        SW_SHOWNOACTIVATE
    }
}

/// The state that window management keeps for one native window.
#[derive(Clone, Copy, Debug, PartialEq, Eq, Structural)]
pub struct WindowState {
    /// The native window handle, 0 before the window is created.
    pub hwnd: isize,
    /// Width of the window region, -1 while unset.
    pub region_width: i32,
    /// Height of the window region, -1 while unset.
    pub region_height: i32,
    pub window_mode: WindowMode,
    /// Number of drag-and-drop registrations held.
    pub ole_reference_count: u32,
    /// The window size last asked for.
    pub virtual_width: i32,
    pub virtual_height: i32,
    pub is_visible: bool,
    pub is_first_time_visible: bool,
    pub initially_minimized: bool,
    pub initially_maximized: bool,
    pub handle_manual_dpi_changes: bool,
    /// The aspect ratio the window keeps while the user sizes it, as the
    /// width and height of the client area it was last reshaped to.
    pub aspect_width: i32,
    pub aspect_height: i32,
    pub settings: WindowSettings,
}

impl WindowState {
    /// A window that is not created yet: no handle, no region, windowed,
    /// hidden and never shown, with the given settings.
    pub fn new(settings: WindowSettings) -> (w: WindowState)
        ensures
            w.hwnd == 0,
            w.region_width == -1 && w.region_height == -1,
            w.window_mode == WindowMode::Windowed,
            w.ole_reference_count == 0,
            w.virtual_width == 0 && w.virtual_height == 0,
            !w.is_visible,
            w.is_first_time_visible,
            !w.initially_minimized && !w.initially_maximized,
            !w.handle_manual_dpi_changes,
            w.aspect_width == 1 && w.aspect_height == 1,
            w.settings == settings,
    {
        WindowState {
            hwnd: 0,
            region_width: -1,
            region_height: -1,
            window_mode: WindowMode::Windowed,
            ole_reference_count: 0,
            virtual_width: 0,
            virtual_height: 0,
            is_visible: false,
            is_first_time_visible: true,
            initially_minimized: false,
            initially_maximized: false,
            handle_manual_dpi_changes: false,
            aspect_width: 1,
            aspect_height: 1,
            settings,
        }
    }

    /// The aspect ratio the window keeps while sized, as a width and a height.
    pub fn aspect_ratio(&self) -> (r: (i32, i32))
        ensures
            r == (self.aspect_width, self.aspect_height),
    {
        (self.aspect_width, self.aspect_height)
    }

    /// The native window handle.
    pub fn get_hwnd(&self) -> (h: isize)
        ensures
            h == self.hwnd,
    {
        self.hwnd
    }

    /// Whether the window is a regular one.
    pub fn is_regular_window(&self) -> (r: bool)
        ensures
            r == self.settings.is_regular_window,
    {
        self.settings.is_regular_window
    }

    /// The current window mode.
    pub fn get_window_mode(&self) -> (m: WindowMode)
        ensures
            m == self.window_mode,
    {
        self.window_mode
    }

    /// Whether the window was last shown and not hidden since.
    pub fn is_visible(&self) -> (v: bool)
        ensures
            v == self.is_visible,
    {
        self.is_visible
    }

    /// Whether the window handles DPI changes itself.
    pub fn is_manual_manage_dpi_change(&self) -> (r: bool)
        ensures
            r == self.handle_manual_dpi_changes,
    {
        self.handle_manual_dpi_changes
    }

    /// Sets whether the window handles DPI changes itself.
    pub fn set_manual_manage_dpi_change(&mut self, manual_dpi_changes: bool)
        ensures
            *final(self) == (WindowState {
                handle_manual_dpi_changes: manual_dpi_changes,
                ..*old(self)
            }),
    {
        self.handle_manual_dpi_changes = manual_dpi_changes;
    }

    /// Records the handle of the created native window and the size the
    /// window was created for.
    pub fn created(&mut self, hwnd: isize, client_width: i32, client_height: i32)
        ensures
            *final(self) == (WindowState {
                hwnd,
                virtual_width: client_width,
                virtual_height: client_height,
                ..*old(self)
            }),
    {
        self.hwnd = hwnd;
        self.virtual_width = client_width;
        self.virtual_height = client_height;
    }

    /// Records the size of the window region.
    pub fn adjust_window_region(&mut self, width: i32, height: i32)
        ensures
            *final(self) == (WindowState { region_width: width, region_height: height, ..*old(self) }),
    {
        self.region_width = width;
        self.region_height = height;
    }

    /// Shows the window: a hidden window becomes visible and the show command
    /// to issue is returned; a visible window stays as it is and `None` is
    /// returned. The first showing clears the first-time flag.
    pub fn show(&mut self) -> (cmd: Option<u32>)
        ensures
            old(self).is_visible ==> cmd is None && *final(self) == *old(self),
            !old(self).is_visible ==> {
                &&& cmd == Some(
                    show_command(
                        old(self).settings,
                        old(self).is_first_time_visible,
                        old(self).initially_minimized,
                        old(self).initially_maximized,
                    ),
                )
                &&& *final(self) == (WindowState {
                    is_visible: true,
                    is_first_time_visible: false,
                    ..*old(self)
                })
            },
    {
        if !self.is_visible {
            self.is_visible = true;
            let mut should_activate = false;
            if self.settings.accepts_input {
                should_activate = self.settings.activation_policy == WindowActivationPolicy::Always;
                if self.is_first_time_visible && self.settings.activation_policy
                    == WindowActivationPolicy::FirstShown {
                    should_activate = true;
                }
            }
            let mut show_window_cmd = if should_activate {
                SW_SHOW
            } else {
                SW_SHOWNOACTIVATE
            };
            if self.is_first_time_visible {
                self.is_first_time_visible = false;
                if self.initially_minimized {
                    show_window_cmd = if should_activate {
                        SW_MINIMIZE
                    } else {
                        SW_SHOWMINNOACTIVE
                    };
                } else if self.initially_maximized {
                    show_window_cmd = if should_activate {
                        SW_SHOWMAXIMIZED
                    } else {
                        SW_MAXIMIZE
                    };
                }
            }
            Some(show_window_cmd)
        } else {
            None
        }
    }

    /// Hides the window: a visible window becomes hidden and `true` is
    /// returned (the window is to be hidden); a hidden one stays as it is.
    pub fn hide_window(&mut self) -> (hidden: bool)
        ensures
            hidden == old(self).is_visible,
            *final(self) == (WindowState { is_visible: false, ..*old(self) }),
    {
        if self.is_visible {
            self.is_visible = false;
            true
        } else {
            false
        }
    }

    /// Switches the window mode, given the current window style. Switching to
    /// the current mode changes nothing and returns `None`. Otherwise the mode
    /// is recorded and the new style is returned: a borderless game window
    /// going to windowed fullscreen, and a window going back to windowed mode,
    /// take the framed style in place of the popup bit; any other window going
    /// fullscreen drops the framed style for the popup bit.
    pub fn set_window_mode(&mut self, new_window_mode: WindowMode, current_style: u32) -> (r:
        Option<WindowModeChange>)
        ensures
            new_window_mode == old(self).window_mode ==> r is None && *final(self) == *old(self),
            new_window_mode != old(self).window_mode ==> {
                let windowed = windowed_mode_style(old(self).settings);
                let true_fullscreen = new_window_mode == WindowMode::Fullscreen;
                let fullscreen = new_window_mode != WindowMode::Windowed;
                &&& *final(self) == (WindowState { window_mode: new_window_mode, ..*old(self) })
                &&& r == Some(
                    WindowModeChange {
                        style: if fullscreen && (true_fullscreen
                            || !old(self).settings.spec_is_borderless_game_window()) {
                            (current_style & !windowed) | WS_POPUP
                        } else {
                            (current_style & !WS_POPUP) | windowed
                        },
                        fullscreen,
                        true_fullscreen,
                    },
                )
            },
    {
        if new_window_mode != self.window_mode {
            self.window_mode = new_window_mode;
            let true_fullscreen = new_window_mode == WindowMode::Fullscreen;
            let fullscreen_mode_style = WS_POPUP;
            let windowed_mode_style = compute_windowed_mode_style(&self.settings);
            if new_window_mode == WindowMode::WindowedFullscreen || new_window_mode
                == WindowMode::Fullscreen {
                let is_borderless_game_window = self.settings.is_borderless_game_window();
                let style = if is_borderless_game_window && !true_fullscreen {
                    (current_style & !fullscreen_mode_style) | windowed_mode_style
                } else {
                    (current_style & !windowed_mode_style) | fullscreen_mode_style
                };
                Some(WindowModeChange { style, fullscreen: true, true_fullscreen })
            } else {
                let style = (current_style & !fullscreen_mode_style) | windowed_mode_style;
                Some(WindowModeChange { style, fullscreen: false, true_fullscreen: false })
            }
        } else {
            None
        }
    }

    /// Reshapes the window to the client rectangle `x`, `y`, `width`,
    /// `height`. With the OS border the rectangle is grown by the border
    /// rectangle `border`. The client size asked for becomes the aspect ratio
    /// the window keeps while sized, the grown size its virtual size. A window
    /// whose size changes often keeps at least the smaller of its old size and
    /// its expected maximum size (its old size where no maximum is set), and
    /// rebuilds its region from the virtual size when that changed.
    pub fn reshape(
        &mut self,
        x: i32,
        y: i32,
        width: i32,
        height: i32,
        border: PlatformRect,
        old_window: PlatformRect,
    ) -> (r: ReshapeOutcome)
        requires
            old(self).settings.has_os_window_border ==> border_growth_fits(
                x,
                y,
                width,
                height,
                border,
            ),
            old(self).settings.size_will_change_often ==> in_i32(rect_width(old_window)) && in_i32(
                rect_height(old_window),
            ),
        ensures
            ({
                let s = old(self).settings;
                let nx = if s.has_os_window_border {
                    x + border.left
                } else {
                    x as int
                };
                let ny = if s.has_os_window_border {
                    y + border.top
                } else {
                    y as int
                };
                let nw = if s.has_os_window_border {
                    width + rect_width(border)
                } else {
                    width as int
                };
                let nh = if s.has_os_window_border {
                    height + rect_height(border)
                } else {
                    height as int
                };
                let changed = nw != old(self).virtual_width || nh != old(self).virtual_height;
                let keep_w = if s.expected_max_width != -1 {
                    s.expected_max_width as int
                } else {
                    rect_width(old_window)
                };
                let keep_h = if s.expected_max_height != -1 {
                    s.expected_max_height as int
                } else {
                    rect_height(old_window)
                };
                let min_w = if rect_width(old_window) <= keep_w {
                    rect_width(old_window)
                } else {
                    keep_w
                };
                let min_h = if rect_height(old_window) <= keep_h {
                    rect_height(old_window)
                } else {
                    keep_h
                };
                &&& r.x == nx && r.y == ny
                &&& s.size_will_change_often ==> r.width == if nw >= min_w {
                    nw
                } else {
                    min_w
                } && r.height == if nh >= min_h {
                    nh
                } else {
                    min_h
                }
                &&& !s.size_will_change_often ==> r.width == nw && r.height == nh
                &&& r.no_send_changing == (old(self).window_mode == WindowMode::Fullscreen)
                &&& r.update_region == (s.size_will_change_often && changed)
                &&& final(self).virtual_width == nw && final(self).virtual_height == nh
                &&& r.update_region ==> final(self).region_width == nw
                    && final(self).region_height == nh
                &&& !r.update_region ==> final(self).region_width == old(self).region_width
                    && final(self).region_height == old(self).region_height
                &&& final(self).hwnd == old(self).hwnd
                &&& final(self).window_mode == old(self).window_mode
                &&& final(self).settings == old(self).settings
                &&& final(self).is_visible == old(self).is_visible
                &&& final(self).is_first_time_visible == old(self).is_first_time_visible
                &&& final(self).ole_reference_count == old(self).ole_reference_count
                &&& final(self).initially_minimized == old(self).initially_minimized
                &&& final(self).initially_maximized == old(self).initially_maximized
                &&& final(self).handle_manual_dpi_changes == old(self).handle_manual_dpi_changes
                &&& final(self).aspect_width == width && final(self).aspect_height == height
            }),
            r.width >= final(self).virtual_width,
            r.height >= final(self).virtual_height,
    {
        let mut new_x = x;
        let mut new_y = y;
        let mut new_width = width;
        let mut new_height = height;
        if self.settings.has_os_window_border {
            let grown = grow_by_border(x, y, width, height, border);
            new_x = grown.0;
            new_y = grown.1;
            new_width = grown.2;
            new_height = grown.3;
        }
        self.aspect_width = width;
        self.aspect_height = height;
        let virtual_size_changed = new_width != self.virtual_width || new_height
            != self.virtual_height;
        self.virtual_width = new_width;
        self.virtual_height = new_height;
        if self.settings.size_will_change_often {
            let old_width = old_window.right - old_window.left;
            let old_height = old_window.bottom - old_window.top;
            let min_retained_width = if self.settings.expected_max_width != -1 {
                self.settings.expected_max_width
            } else {
                old_width
            };
            let min_retained_height = if self.settings.expected_max_height != -1 {
                self.settings.expected_max_height
            } else {
                old_height
            };
            let floor_width = if old_width <= min_retained_width {
                old_width
            } else {
                min_retained_width
            };
            let floor_height = if old_height <= min_retained_height {
                old_height
            } else {
                min_retained_height
            };
            if new_width < floor_width {
                new_width = floor_width;
            }
            if new_height < floor_height {
                new_height = floor_height;
            }
        }
        let update_region = self.settings.size_will_change_often && virtual_size_changed;
        if update_region {
            let vw = self.virtual_width;
            let vh = self.virtual_height;
            self.adjust_window_region(vw, vh);
        }
        ReshapeOutcome {
            x: new_x,
            y: new_y,
            width: new_width,
            height: new_height,
            no_send_changing: self.window_mode == WindowMode::Fullscreen,
            update_region,
        }
    }

    /// Whether the region takes rounded corners: a windowed window without
    /// per-pixel transparency and with a corner radius.
    pub open spec fn spec_rounded_region(&self) -> bool {
        self.window_mode == WindowMode::Windowed && self.settings.transparency_support
            != WindowTransparency::PerPixel && self.settings.corner_radius > 0
    }

    /// Whether the corner of the region that `region_shape` builds lies in
    /// the `i32` range.
    pub open spec fn region_fits(&self, is_maximized: bool, system_border: i32, window_rect: PlatformRect) -> bool {
        if self.region_width != -1 && self.region_height != -1 {
            if is_maximized {
                if self.settings.spec_is_borderless_game_window() {
                    in_i32(self.region_width + system_border) && in_i32(self.region_height + system_border)
                } else {
                    in_i32(self.region_width - system_border) && in_i32(self.region_height - system_border)
                }
            } else if self.spec_rounded_region() {
                in_i32(self.region_width + 1) && in_i32(self.region_height + 1)
            } else {
                true
            }
        } else {
            in_i32(rect_width(window_rect)) && in_i32(rect_height(window_rect))
        }
    }

    /// The shape of the window region. Without a recorded region size the
    /// region is the window rectangle moved to the origin. A maximized
    /// borderless game window shows only the part inside the screen (the
    /// region moved in by the system border); another maximized window cuts
    /// its border off. A windowed window without per-pixel transparency and
    /// with a corner radius has rounded corners.
    pub open spec fn spec_region_shape(&self, is_maximized: bool, system_border: i32, window_rect: PlatformRect) -> RegionShape {
        if self.region_width != -1 && self.region_height != -1 {
            if is_maximized {
                if self.settings.spec_is_borderless_game_window() {
                    RegionShape::Rect {
                        left: system_border,
                        top: system_border,
                        right: (self.region_width + system_border) as i32,
                        bottom: (self.region_height + system_border) as i32,
                    }
                } else {
                    RegionShape::Rect {
                        left: system_border,
                        top: system_border,
                        right: (self.region_width - system_border) as i32,
                        bottom: (self.region_height - system_border) as i32,
                    }
                }
            } else if self.spec_rounded_region() {
                RegionShape::RoundRect {
                    left: 0,
                    top: 0,
                    right: (self.region_width + 1) as i32,
                    bottom: (self.region_height + 1) as i32,
                    width: self.settings.corner_radius,
                    height: self.settings.corner_radius,
                }
            } else {
                RegionShape::Rect { left: 0, top: 0, right: self.region_width, bottom: self.region_height }
            }
        } else {
            RegionShape::Rect {
                left: 0,
                top: 0,
                right: rect_width(window_rect) as i32,
                bottom: rect_height(window_rect) as i32,
            }
        }
    }

    /// The shape of the window region (`spec_region_shape`), or `None` where
    /// its corner would leave the `i32` range.
    pub fn region_shape(&self, is_maximized: bool, system_border: i32, window_rect: PlatformRect) -> (r:
        Option<RegionShape>)
        ensures
            r is None <==> !self.region_fits(is_maximized, system_border, window_rect),
            r matches Some(shape) ==> shape == self.spec_region_shape(
                is_maximized,
                system_border,
                window_rect,
            ),
    {
        let rw = self.region_width as i64;
        let rh = self.region_height as i64;
        let sb = system_border as i64;
        let (right, bottom, rounded): (i64, i64, bool) = if self.region_width != -1
            && self.region_height != -1 {
            if is_maximized {
                if self.settings.is_borderless_game_window() {
                    (rw + sb, rh + sb, false)
                } else {
                    (rw - sb, rh - sb, false)
                }
            } else {
                let use_corner_radius = self.window_mode == WindowMode::Windowed
                    && self.settings.transparency_support != WindowTransparency::PerPixel
                    && self.settings.corner_radius > 0;
                if use_corner_radius {
                    (rw + 1, rh + 1, true)
                } else {
                    (rw, rh, false)
                }
            }
        } else {
            (
                window_rect.right as i64 - window_rect.left as i64,
                window_rect.bottom as i64 - window_rect.top as i64,
                false,
            )
        };
        if !(i32::MIN as i64 <= right && right <= i32::MAX as i64 && i32::MIN as i64 <= bottom
            && bottom <= i32::MAX as i64) {
            return None;
        }
        let left: i32 = if self.region_width != -1 && self.region_height != -1 && is_maximized {
            system_border
        } else {
            0
        };
        if rounded {
            Some(
                RegionShape::RoundRect {
                    left: 0,
                    top: 0,
                    right: right as i32,
                    bottom: bottom as i32,
                    width: self.settings.corner_radius,
                    height: self.settings.corner_radius,
                },
            )
        } else {
            Some(RegionShape::Rect { left, top: left, right: right as i32, bottom: bottom as i32 })
        }
    }

    /// What bringing the window to the front does: a regular window is
    /// restored when minimized and activated otherwise; any other window is
    /// moved up the z-order without moving, resizing or changing its owner's
    /// order, and without activation unless forced.
    pub fn bring_to_front_action(&self, is_iconic: bool, force: bool) -> (r: BringToFront)
        ensures
            r == if self.settings.is_regular_window {
                if is_iconic {
                    BringToFront::Restore
                } else {
                    BringToFront::Activate
                }
            } else {
                BringToFront::Reorder {
                    topmost: self.settings.is_topmost_window,
                    flags: SWP_NOMOVE | SWP_NOSIZE | SWP_NOOWNERZORDER | flag_if(
                        !force,
                        SWP_NOACTIVATE,
                    ),
                }
            },
    {
        if self.is_regular_window() {
            if is_iconic {
                BringToFront::Restore
            } else {
                BringToFront::Activate
            }
        } else {
            let activate: u32 = if !force { SWP_NOACTIVATE } else { 0 };
            let flags: u32 = SWP_NOMOVE | SWP_NOSIZE | SWP_NOOWNERZORDER | activate;
            BringToFront::Reorder { topmost: self.settings.is_topmost_window, flags }
        }
    }

    /// Where the cached size of the window comes from: the virtual size for a
    /// window whose size changes often, else the client rectangle once the
    /// window exists, else the size stays.
    pub fn cached_size_source(&self) -> (r: CachedSizeSource)
        ensures
            r == if self.settings.size_will_change_often {
                CachedSizeSource::Virtual(self.virtual_width, self.virtual_height)
            } else if self.hwnd != 0 {
                CachedSizeSource::ClientRect
            } else {
                CachedSizeSource::Unchanged
            },
    {
        if self.settings.size_will_change_often {
            CachedSizeSource::Virtual(self.virtual_width, self.virtual_height)
        } else if self.hwnd != 0 {
            CachedSizeSource::ClientRect
        } else {
            CachedSizeSource::Unchanged
        }
    }

    /// Where the window moves when asked to move its client area to `x`, `y`:
    /// with the OS border, to that point moved by the border's top-left
    /// corner; without it the window does not move.
    pub fn move_target(&self, x: i32, y: i32, border: PlatformRect) -> (r: Option<(i32, i32)>)
        requires
            self.settings.has_os_window_border ==> in_i32(x + border.left) && in_i32(
                y + border.top,
            ),
        ensures
            r == if self.settings.has_os_window_border {
                Some(((x + border.left) as i32, (y + border.top) as i32))
            } else {
                None
            },
    {
        if self.settings.has_os_window_border {
            Some((x + border.left, y + border.top))
        } else {
            None
        }
    }

    /// Whether the window must take the focus, given the window that has it.
    pub fn needs_focus(&self, focused: isize) -> (r: bool)
        ensures
            r == (focused != self.hwnd),
    {
        focused != self.hwnd
    }

    /// Whether destroying the window must first revoke its drag-and-drop
    /// registration: it holds one and the handle still names a window.
    pub fn should_revoke_drag_drop(&self, is_window: bool) -> (r: bool)
        ensures
            r == (self.ole_reference_count > 0 && is_window),
    {
        self.ole_reference_count > 0 && is_window
    }

    /// The change of `transparency_change`.
    pub open spec fn spec_transparency_change(&self, new_transparency: WindowTransparency, ex_style: u32) -> Option<
        TransparencyChange,
    > {
        if self.settings.transparency_support == WindowTransparency::PerPixel {
            if new_transparency == WindowTransparency::PerPixel {
                Some(TransparencyChange { ex_style: ex_style | WS_EX_COMPOSITED, extend_frame: true })
            } else {
                Some(TransparencyChange { ex_style: ex_style & !WS_EX_COMPOSITED, extend_frame: false })
            }
        } else {
            None
        }
    }

    /// The extended style after the system's transparency support changed to
    /// `new_transparency`, for a window defined with per-pixel transparency:
    /// composited, with the frame extended into the client area, when
    /// per-pixel transparency is supported, not composited otherwise. Other
    /// windows keep their style (`None`).
    pub fn transparency_change(&self, new_transparency: WindowTransparency, ex_style: u32) -> (r:
        Option<TransparencyChange>)
        ensures
            r == self.spec_transparency_change(new_transparency, ex_style),
    {
        if self.settings.transparency_support == WindowTransparency::PerPixel {
            if new_transparency == WindowTransparency::PerPixel {
                Some(TransparencyChange { ex_style: ex_style | WS_EX_COMPOSITED, extend_frame: true })
            } else {
                Some(TransparencyChange { ex_style: ex_style & !WS_EX_COMPOSITED, extend_frame: false })
            }
        } else {
            None
        }
    }
}

/// Once a window has been shown, later showings no longer restore its
/// initial minimized or maximized state: it is shown, activated or not.
pub proof fn lemma_later_showings_plain(s: WindowSettings, initially_minimized: bool, initially_maximized: bool)
    ensures
        show_command(s, false, initially_minimized, initially_maximized) == if s.accepts_input
            && s.activation_policy == WindowActivationPolicy::Always {
            SW_SHOW
        } else {
            SW_SHOWNOACTIVATE
        },
{
}

/// A window that does not accept input is never activated when shown.
pub proof fn lemma_no_input_no_activation(
    s: WindowSettings,
    first_time: bool,
    initially_minimized: bool,
    initially_maximized: bool,
)
    requires
        !s.accepts_input,
    ensures
        show_command(s, first_time, initially_minimized, initially_maximized) != SW_SHOW,
        show_command(s, first_time, initially_minimized, initially_maximized) != SW_MINIMIZE,
{
}

/// Every framed style has a caption and a system menu.
pub proof fn lemma_windowed_style_has_frame(s: WindowSettings)
    ensures
        windowed_mode_style(s) & (WS_CAPTION | WS_SYSMENU) == WS_CAPTION | WS_SYSMENU,
{
    let extra: u32 = if s.is_regular_window {
        flag_if(s.supports_maximize, WS_MAXIMIZEBOX) | flag_if(s.supports_minimize, WS_MINIMIZEBOX)
            | (if s.has_sizing_frame {
            WS_THICKFRAME
        } else {
            WS_BORDER
        })
    } else {
        WS_POPUP | WS_BORDER
    };
    assert(windowed_mode_style(s) == 0u32 | 0x0008_0000u32 | 0x00C0_0000u32 | extra);
    assert((0u32 | 0x0008_0000u32 | 0x00C0_0000u32 | extra) & 0x00C8_0000u32 == 0x00C8_0000u32)
        by (bit_vector);
    assert(0x00C0_0000u32 | 0x0008_0000u32 == 0x00C8_0000u32) by (bit_vector);
}

/// A window going fullscreen with the popup style keeps no bit of its framed
/// style but the popup bit, and a window going back to windowed mode has its
/// whole framed style and, beyond it, only the bits it had that are not the
/// popup bit.
pub proof fn lemma_mode_styles(current: u32, windowed: u32)
    ensures
        ((current & !windowed) | WS_POPUP) & WS_POPUP == WS_POPUP,
        ((current & !windowed) | WS_POPUP) & windowed == windowed & WS_POPUP,
        ((current & !WS_POPUP) | windowed) & windowed == windowed,
        ((current & !WS_POPUP) | windowed) & WS_POPUP == windowed & WS_POPUP,
{
    assert(((current & !windowed) | 0x8000_0000u32) & 0x8000_0000u32 == 0x8000_0000u32)
        by (bit_vector);
    assert(((current & !windowed) | 0x8000_0000u32) & windowed == windowed & 0x8000_0000u32)
        by (bit_vector);
    assert(((current & !0x8000_0000u32) | windowed) & windowed == windowed) by (bit_vector);
    assert(((current & !0x8000_0000u32) | windowed) & 0x8000_0000u32 == windowed
        & 0x8000_0000u32) by (bit_vector);
}

/// A window created without the OS border is a clipping popup without a
/// caption; a window created with it has a caption and a system menu and is
/// listed on the taskbar.
pub proof fn lemma_initial_styles(s: WindowSettings, per_pixel_supported: bool)
    ensures
        !s.has_os_window_border ==> initial_style(s) & WS_POPUP == WS_POPUP && initial_style(s)
            & WS_CAPTION == 0,
        s.has_os_window_border ==> initial_style(s) & (WS_CAPTION | WS_SYSMENU) == WS_CAPTION
            | WS_SYSMENU && initial_ex_style(s, per_pixel_supported) == WS_EX_APPWINDOW,
{
    if !s.has_os_window_border {
        assert((0x8000_0000u32 | 0x0200_0000u32 | 0x0400_0000u32) & 0x8000_0000u32 == 0x8000_0000u32)
            by (bit_vector);
        assert((0x8000_0000u32 | 0x0200_0000u32 | 0x0400_0000u32) & 0x00C0_0000u32 == 0u32)
            by (bit_vector);
    } else {
        lemma_windowed_style_has_frame(s);
    }
}

/// The framed style carries each box and the sizing frame exactly when the
/// window supports it: the minimize box for a regular window that can be
/// minimized, the maximize box for a regular window that can be maximized,
/// the sizing frame for a regular window with one; only a window that is not
/// regular is a popup, and every framed window has a caption, a system menu
/// and a border.
pub proof fn lemma_windowed_style_features(s: WindowSettings)
    ensures
        (windowed_mode_style(s) & WS_MINIMIZEBOX != 0) <==> (s.is_regular_window && s.supports_minimize),
        (windowed_mode_style(s) & WS_MAXIMIZEBOX != 0) <==> (s.is_regular_window && s.supports_maximize),
        (windowed_mode_style(s) & WS_THICKFRAME != 0) <==> (s.is_regular_window && s.has_sizing_frame),
        (windowed_mode_style(s) & WS_POPUP != 0) <==> !s.is_regular_window,
        windowed_mode_style(s) & (WS_CAPTION | WS_SYSMENU | WS_BORDER) == 0x00C8_0000u32,
        windowed_mode_style(s) & !(WS_MINIMIZEBOX | WS_MAXIMIZEBOX | WS_THICKFRAME | WS_POPUP | WS_CAPTION
            | WS_SYSMENU | WS_BORDER) == 0,
{
    let reg = s.is_regular_window;
    let mx = s.supports_maximize;
    let mn = s.supports_minimize;
    let fr = s.has_sizing_frame;
    let x: u32 = windowed_mode_style(s);
    assert(x == (0u32 | 0x0008_0000u32 | 0x00C0_0000u32 | if reg {
        (if mx { 0x0001_0000u32 } else { 0u32 }) | (if mn { 0x0002_0000u32 } else { 0u32 }) | (if fr {
            0x0004_0000u32
        } else {
            0x0080_0000u32
        })
    } else {
        0x8000_0000u32 | 0x0080_0000u32
    }));
    assert({
        &&& (x & 0x0002_0000u32 != 0) == (reg && mn)
        &&& (x & 0x0001_0000u32 != 0) == (reg && mx)
        &&& (x & 0x0004_0000u32 != 0) == (reg && fr)
        &&& (x & 0x8000_0000u32 != 0) == !reg
        &&& x & 0x00C8_0000u32 == 0x00C8_0000u32
        &&& x & !0x80CF_0000u32 == 0
    }) by (bit_vector)
        requires
            x == (0u32 | 0x0008_0000u32 | 0x00C0_0000u32 | if reg {
                (if mx { 0x0001_0000u32 } else { 0u32 }) | (if mn { 0x0002_0000u32 } else { 0u32 })
                    | (if fr {
                    0x0004_0000u32
                } else {
                    0x0080_0000u32
                })
            } else {
                0x8000_0000u32 | 0x0080_0000u32
            }),
    ;
    assert((0x0002_0000u32 | 0x0001_0000u32 | 0x0004_0000u32 | 0x8000_0000u32 | 0x00C0_0000u32
        | 0x0008_0000u32 | 0x0080_0000u32) == 0x80CF_0000u32) by (bit_vector);
    assert((0x00C0_0000u32 | 0x0008_0000u32 | 0x0080_0000u32) == 0x00C8_0000u32) by (bit_vector);
}

/// A window created without the OS border takes, beside the window edge,
/// exactly the extended style bits its settings ask for: layered for
/// per-window transparency, composited for per-pixel transparency where the
/// system blends per pixel, listed on the taskbar or a tool window, topmost
/// when asked, and transparent to input when it takes none.
pub proof fn lemma_borderless_ex_style_features(s: WindowSettings, per_pixel_supported: bool)
    requires
        !s.has_os_window_border,
    ensures
        ({
            let x = initial_ex_style(s, per_pixel_supported);
            &&& x & WS_EX_WINDOWEDGE != 0
            &&& (x & WS_EX_LAYERED != 0) <==> s.transparency_support == WindowTransparency::PerWindow
            &&& (x & WS_EX_COMPOSITED != 0) <==> (s.transparency_support == WindowTransparency::PerPixel
                && per_pixel_supported)
            &&& (x & WS_EX_APPWINDOW != 0) <==> s.appears_in_taskbar
            &&& (x & WS_EX_TOOLWINDOW != 0) <==> !s.appears_in_taskbar
            &&& (x & WS_EX_TOPMOST != 0) <==> s.is_topmost_window
            &&& (x & WS_EX_TRANSPARENT != 0) <==> !s.accepts_input
        }),
{
    let lay = s.transparency_support == WindowTransparency::PerWindow;
    let comp = s.transparency_support == WindowTransparency::PerPixel && per_pixel_supported;
    let task = s.appears_in_taskbar;
    let top = s.is_topmost_window;
    let inp = s.accepts_input;
    let x: u32 = initial_ex_style(s, per_pixel_supported);
    assert(!(lay && comp));
    assert(x == (0x0000_0100u32 | (if lay { 0x0008_0000u32 } else if comp { 0x0200_0000u32 } else {
        0u32
    }) | (if task { 0x0004_0000u32 } else { 0x0000_0080u32 }) | (if top { 0x0000_0008u32 } else {
        0u32
    }) | (if !inp { 0x0000_0020u32 } else { 0u32 })));
    assert({
        &&& x & 0x0000_0100u32 != 0
        &&& (x & 0x0008_0000u32 != 0) == lay
        &&& (x & 0x0200_0000u32 != 0) == comp
        &&& (x & 0x0004_0000u32 != 0) == task
        &&& (x & 0x0000_0080u32 != 0) == !task
        &&& (x & 0x0000_0008u32 != 0) == top
        &&& (x & 0x0000_0020u32 != 0) == !inp
    }) by (bit_vector)
        requires
            !(lay && comp),
            x == (0x0000_0100u32 | (if lay { 0x0008_0000u32 } else if comp { 0x0200_0000u32 } else {
                0u32
            }) | (if task { 0x0004_0000u32 } else { 0x0000_0080u32 }) | (if top { 0x0000_0008u32 } else {
                0u32
            }) | (if !inp { 0x0000_0020u32 } else { 0u32 })),
    ;
}

/// Only a windowed window has rounded corners. A region with rounded corners
/// belongs to a windowed window that is not maximized, has a recorded region
/// size, a corner radius and no per-pixel transparency, and reaches one pixel
/// past that size with the radius as its corner size. A window in a
/// fullscreen mode that is not maximized gets the plain rectangle of its
/// region size, and a maximized window's region starts at the system border.
pub proof fn lemma_region_corners(w: WindowState, is_maximized: bool, system_border: i32, window_rect: PlatformRect)
    ensures
        w.spec_region_shape(is_maximized, system_border, window_rect) is RoundRect ==> {
            &&& w.window_mode == WindowMode::Windowed
            &&& !is_maximized
            &&& w.region_width != -1 && w.region_height != -1
            &&& w.settings.corner_radius > 0
            &&& w.settings.transparency_support != WindowTransparency::PerPixel
        },
        w.window_mode == WindowMode::Windowed && !is_maximized && w.region_width != -1
            && w.region_height != -1 && w.settings.corner_radius > 0 && w.settings.transparency_support
            != WindowTransparency::PerPixel ==> w.spec_region_shape(
            is_maximized,
            system_border,
            window_rect,
        ) == (RegionShape::RoundRect {
            left: 0,
            top: 0,
            right: (w.region_width + 1) as i32,
            bottom: (w.region_height + 1) as i32,
            width: w.settings.corner_radius,
            height: w.settings.corner_radius,
        }),
        w.window_mode != WindowMode::Windowed && !is_maximized && w.region_width != -1
            && w.region_height != -1 ==> w.spec_region_shape(is_maximized, system_border, window_rect)
            == (RegionShape::Rect { left: 0, top: 0, right: w.region_width, bottom: w.region_height }),
        is_maximized && w.region_width != -1 && w.region_height != -1 ==> (w.spec_region_shape(
            is_maximized,
            system_border,
            window_rect,
        ) matches RegionShape::Rect { left, top, .. } && left == system_border && top == system_border),
        (w.region_width == -1 || w.region_height == -1) ==> (w.spec_region_shape(
            is_maximized,
            system_border,
            window_rect,
        ) matches RegionShape::Rect { left, top, .. } && left == 0 && top == 0),
{
}

/// Only a window defined with per-pixel transparency reacts to a change of
/// the system's transparency support. It is then composited, with its frame
/// extended, exactly when per-pixel transparency is supported, and keeps
/// every other bit of its extended style.
pub proof fn lemma_transparency_change(w: WindowState, new_transparency: WindowTransparency, ex_style: u32)
    ensures
        w.settings.transparency_support != WindowTransparency::PerPixel ==> w.spec_transparency_change(
            new_transparency,
            ex_style,
        ) is None,
        w.settings.transparency_support == WindowTransparency::PerPixel ==> (w.spec_transparency_change(
            new_transparency,
            ex_style,
        ) matches Some(c) && {
            &&& (c.ex_style & WS_EX_COMPOSITED != 0) <==> new_transparency == WindowTransparency::PerPixel
            &&& c.extend_frame <==> new_transparency == WindowTransparency::PerPixel
            &&& c.ex_style & !WS_EX_COMPOSITED == ex_style & !WS_EX_COMPOSITED
        }),
{
    assert((ex_style | 0x0200_0000u32) & 0x0200_0000u32 != 0) by (bit_vector);
    assert((ex_style & !0x0200_0000u32) & 0x0200_0000u32 == 0) by (bit_vector);
    assert((ex_style | 0x0200_0000u32) & !0x0200_0000u32 == ex_style & !0x0200_0000u32) by (bit_vector);
    assert((ex_style & !0x0200_0000u32) & !0x0200_0000u32 == ex_style & !0x0200_0000u32) by (bit_vector);
}

/// The first showing restores the window's initial state: an initially
/// minimized window is minimized, an initially maximized one maximized. A
/// window that takes input and is activated when first shown is shown and
/// activated the first time, and one always activated is shown, minimized
/// or maximized with activation whenever it is shown.
pub proof fn lemma_first_showing(s: WindowSettings, first_time: bool, initially_minimized: bool, initially_maximized: bool)
    ensures
        ({
            let cmd = show_command(s, first_time, initially_minimized, initially_maximized);
            &&& first_time && initially_minimized ==> cmd == SW_MINIMIZE || cmd == SW_SHOWMINNOACTIVE
            &&& first_time && !initially_minimized && initially_maximized ==> cmd == SW_SHOWMAXIMIZED
                || cmd == SW_MAXIMIZE
            &&& first_time && !initially_minimized && !initially_maximized && s.accepts_input
                && s.activation_policy == WindowActivationPolicy::FirstShown ==> cmd == SW_SHOW
            &&& s.accepts_input && s.activation_policy == WindowActivationPolicy::Always ==> cmd == SW_SHOW
                || cmd == SW_MINIMIZE || cmd == SW_SHOWMAXIMIZED
            &&& s.activation_policy == WindowActivationPolicy::Never ==> cmd == SW_SHOWNOACTIVATE || cmd
                == SW_SHOWMINNOACTIVE || cmd == SW_MAXIMIZE
        }),
{
}

} // verus!
