use vstd::prelude::*;

verus! {

/// How a window occupies the screen.
#[derive(Clone, Copy, Debug, PartialEq, Eq, Structural)]
pub enum WindowMode {
    /// The window is in true fullscreen mode.
    Fullscreen,
    /// The window has no border and takes up the entire area of the screen.
    WindowedFullscreen,
    /// The window has a border and may not take up the entire screen area.
    Windowed,
}

/// A request to draw the user's attention to a window.
#[derive(Clone, Copy, Debug, PartialEq, Eq, Structural)]
pub enum WindowDrawAttentionRequestType {
    /// The attention-drawing behavior continues until the application or
    /// window is activated.
    UntilActivated,
    /// The attention-drawing behavior, if any, should stop.
    Stop,
}

} // verus!
