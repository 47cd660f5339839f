use vstd::prelude::*;

verus! {

/// Mouse buttons, in the order of their indices.
#[derive(Clone, Copy, Debug, PartialEq, Eq, Structural)]
pub enum MouseButtons {
    Left,
    Middle,
    Right,
    Thumb01,
    Thumb02,
    Invalid,
}

/// The name of a gamepad or motion-controller key; the constants below
/// hold the names that controllers report.
#[derive(Clone, Copy, Debug)]
pub struct GamepadKeyNames(pub &'static str);

/// The empty key name.
pub const INVALID: &'static str = "";
/// Key name `Gamepad_LeftX`.
pub const LEFT_ANALOG_X: &'static str = "Gamepad_LeftX";
/// Key name `Gamepad_LeftY`.
pub const LEFT_ANALOG_Y: &'static str = "Gamepad_LeftY";
/// Key name `Gamepad_RightX`.
pub const RIGHT_ANALOG_X: &'static str = "Gamepad_RightX";
/// Key name `Gamepad_RightY`.
pub const RIGHT_ANALOG_Y: &'static str = "Gamepad_RightY";
/// Key name `Gamepad_LeftTriggerAxis`.
pub const LEFT_TRIGGER_ANALOG: &'static str = "Gamepad_LeftTriggerAxis";
/// Key name `Gamepad_RightTriggerAxis`.
pub const RIGHT_TRIGGER_ANALOG: &'static str = "Gamepad_RightTriggerAxis";
/// Key name `Gamepad_LeftThumbstick`.
pub const LEFT_THUMB: &'static str = "Gamepad_LeftThumbstick";
/// Key name `Gamepad_RightThumbstick`.
pub const RIGHT_THUMB: &'static str = "Gamepad_RightThumbstick";
/// Key name `Gamepad_Special_Left`.
pub const SPECIAL_LEFT: &'static str = "Gamepad_Special_Left";
/// Key name `Gamepad_Special_Left_X`.
pub const SPECIAL_LEFT_X: &'static str = "Gamepad_Special_Left_X";
/// Key name `Gamepad_Special_Left_Y`.
pub const SPECIAL_LEFT_Y: &'static str = "Gamepad_Special_Left_Y";
/// Key name `Gamepad_Special_Right`.
pub const SPECIAL_RIGHT: &'static str = "Gamepad_Special_Right";
/// Key name `Gamepad_FaceButton_Bottom`.
pub const FACE_BUTTON_BOTTOM: &'static str = "Gamepad_FaceButton_Bottom";
/// Key name `Gamepad_FaceButton_Right`.
pub const FACE_BUTTON_RIGHT: &'static str = "Gamepad_FaceButton_Right";
/// Key name `Gamepad_FaceButton_Left`.
pub const FACE_BUTTON_LEFT: &'static str = "Gamepad_FaceButton_Left";
/// Key name `Gamepad_FaceButton_Top`.
pub const FACE_BUTTON_TOP: &'static str = "Gamepad_FaceButton_Top";
/// Key name `Gamepad_LeftShoulder`.
pub const LEFT_SHOULDER: &'static str = "Gamepad_LeftShoulder";
/// Key name `Gamepad_RightShoulder`.
pub const RIGHT_SHOULDER: &'static str = "Gamepad_RightShoulder";
/// Key name `Gamepad_LeftTrigger`.
pub const LEFT_TRIGGER_THRESHOLD: &'static str = "Gamepad_LeftTrigger";
/// Key name `Gamepad_RightTrigger`.
pub const RIGHT_TRIGGER_THRESHOLD: &'static str = "Gamepad_RightTrigger";
/// Key name `Gamepad_DPad_Up`.
pub const DPAD_UP: &'static str = "Gamepad_DPad_Up";
/// Key name `Gamepad_DPad_Down`.
pub const DPAD_DOWN: &'static str = "Gamepad_DPad_Down";
/// Key name `Gamepad_DPad_Right`.
pub const DPAD_RIGHT: &'static str = "Gamepad_DPad_Right";
/// Key name `Gamepad_DPad_Left`.
pub const DPAD_LEFT: &'static str = "Gamepad_DPad_Left";
/// Key name `Gamepad_LeftStick_Up`.
pub const LEFT_STICK_UP: &'static str = "Gamepad_LeftStick_Up";
/// Key name `Gamepad_LeftStick_Down`.
pub const LEFT_STICK_DOWN: &'static str = "Gamepad_LeftStick_Down";
/// Key name `Gamepad_LeftStick_Right`.
pub const LEFT_STICK_RIGHT: &'static str = "Gamepad_LeftStick_Right";
/// Key name `Gamepad_LeftStick_Left`.
pub const LEFT_STICK_LEFT: &'static str = "Gamepad_LeftStick_Left";
/// Key name `Gamepad_RightStick_Up`.
pub const RIGHT_STICK_UP: &'static str = "Gamepad_RightStick_Up";
/// Key name `Gamepad_RightStick_Down`.
pub const RIGHT_STICK_DOWN: &'static str = "Gamepad_RightStick_Down";
/// Key name `Gamepad_RightStick_Right`.
pub const RIGHT_STICK_RIGHT: &'static str = "Gamepad_RightStick_Right";
/// Key name `Gamepad_RightStick_Left`.
pub const RIGHT_STICK_LEFT: &'static str = "Gamepad_RightStick_Left";
/// Key name `MotionController_Left_FaceButton1`.
pub const MOTION_CONTROLLER_LEFT_FACE_BUTTON1: &'static str = "MotionController_Left_FaceButton1";
/// Key name `MotionController_Left_FaceButton2`.
pub const MOTION_CONTROLLER_LEFT_FACE_BUTTON2: &'static str = "MotionController_Left_FaceButton2";
/// Key name `MotionController_Left_FaceButton3`.
pub const MOTION_CONTROLLER_LEFT_FACE_BUTTON3: &'static str = "MotionController_Left_FaceButton3";
/// Key name `MotionController_Left_FaceButton4`.
pub const MOTION_CONTROLLER_LEFT_FACE_BUTTON4: &'static str = "MotionController_Left_FaceButton4";
/// Key name `MotionController_Left_FaceButton5`.
pub const MOTION_CONTROLLER_LEFT_FACE_BUTTON5: &'static str = "MotionController_Left_FaceButton5";
/// Key name `MotionController_Left_FaceButton6`.
pub const MOTION_CONTROLLER_LEFT_FACE_BUTTON6: &'static str = "MotionController_Left_FaceButton6";
/// Key name `MotionController_Left_FaceButton7`.
pub const MOTION_CONTROLLER_LEFT_FACE_BUTTON7: &'static str = "MotionController_Left_FaceButton7";
/// Key name `MotionController_Left_FaceButton8`.
pub const MOTION_CONTROLLER_LEFT_FACE_BUTTON8: &'static str = "MotionController_Left_FaceButton8";
/// Key name `MotionController_Left_Shoulder`.
pub const MOTION_CONTROLLER_LEFT_SHOULDER: &'static str = "MotionController_Left_Shoulder";
/// Key name `MotionController_Left_Trigger`.
pub const MOTION_CONTROLLER_LEFT_TRIGGER: &'static str = "MotionController_Left_Trigger";
/// Key name `MotionController_Left_Grip1`.
pub const MOTION_CONTROLLER_LEFT_GRIP1: &'static str = "MotionController_Left_Grip1";
/// Key name `MotionController_Left_Grip2`.
pub const MOTION_CONTROLLER_LEFT_GRIP2: &'static str = "MotionController_Left_Grip2";
/// Key name `MotionController_Left_Thumbstick`.
pub const MOTION_CONTROLLER_LEFT_THUMBSTICK: &'static str = "MotionController_Left_Thumbstick";
/// Key name `MotionController_Left_Thumbstick_Up`.
pub const MOTION_CONTROLLER_LEFT_THUMBSTICK_UP: &'static str = "MotionController_Left_Thumbstick_Up";
/// Key name `MotionController_Left_Thumbstick_Down`.
pub const MOTION_CONTROLLER_LEFT_THUMBSTICK_DOWN: &'static str = "MotionController_Left_Thumbstick_Down";
/// Key name `MotionController_Left_Thumbstick_Left`.
pub const MOTION_CONTROLLER_LEFT_THUMBSTICK_LEFT: &'static str = "MotionController_Left_Thumbstick_Left";
/// Key name `MotionController_Left_Thumbstick_Right`.
pub const MOTION_CONTROLLER_LEFT_THUMBSTICK_RIGHT: &'static str = "MotionController_Left_Thumbstick_Right";
/// Key name `MotionController_Right_FaceButton1`.
pub const MOTION_CONTROLLER_RIGHT_FACE_BUTTON1: &'static str = "MotionController_Right_FaceButton1";
/// Key name `MotionController_Right_FaceButton2`.
pub const MOTION_CONTROLLER_RIGHT_FACE_BUTTON2: &'static str = "MotionController_Right_FaceButton2";
/// Key name `MotionController_Right_FaceButton3`.
pub const MOTION_CONTROLLER_RIGHT_FACE_BUTTON3: &'static str = "MotionController_Right_FaceButton3";
/// Key name `MotionController_Right_FaceButton4`.
pub const MOTION_CONTROLLER_RIGHT_FACE_BUTTON4: &'static str = "MotionController_Right_FaceButton4";
/// Key name `MotionController_Right_FaceButton5`.
pub const MOTION_CONTROLLER_RIGHT_FACE_BUTTON5: &'static str = "MotionController_Right_FaceButton5";
/// Key name `MotionController_Right_FaceButton6`.
pub const MOTION_CONTROLLER_RIGHT_FACE_BUTTON6: &'static str = "MotionController_Right_FaceButton6";
/// Key name `MotionController_Right_FaceButton7`.
pub const MOTION_CONTROLLER_RIGHT_FACE_BUTTON7: &'static str = "MotionController_Right_FaceButton7";
/// Key name `MotionController_Right_FaceButton8`.
pub const MOTION_CONTROLLER_RIGHT_FACE_BUTTON8: &'static str = "MotionController_Right_FaceButton8";
/// Key name `MotionController_Right_Shoulder`.
pub const MOTION_CONTROLLER_RIGHT_SHOULDER: &'static str = "MotionController_Right_Shoulder";
/// Key name `MotionController_Right_Trigger`.
pub const MOTION_CONTROLLER_RIGHT_TRIGGER: &'static str = "MotionController_Right_Trigger";
/// Key name `MotionController_Right_Grip1`.
pub const MOTION_CONTROLLER_RIGHT_GRIP1: &'static str = "MotionController_Right_Grip1";
/// Key name `MotionController_Right_Grip2`.
pub const MOTION_CONTROLLER_RIGHT_GRIP2: &'static str = "MotionController_Right_Grip2";
/// Key name `MotionController_Right_Thumbstick`.
pub const MOTION_CONTROLLER_RIGHT_THUMBSTICK: &'static str = "MotionController_Right_Thumbstick";
/// Key name `MotionController_Right_Thumbstick_Up`.
pub const MOTION_CONTROLLER_RIGHT_THUMBSTICK_UP: &'static str = "MotionController_Right_Thumbstick_Up";
/// Key name `MotionController_Right_Thumbstick_Down`.
pub const MOTION_CONTROLLER_RIGHT_THUMBSTICK_DOWN: &'static str = "MotionController_Right_Thumbstick_Down";
/// Key name `MotionController_Right_Thumbstick_Left`.
pub const MOTION_CONTROLLER_RIGHT_THUMBSTICK_LEFT: &'static str = "MotionController_Right_Thumbstick_Left";
/// Key name `MotionController_Right_Thumbstick_Right`.
pub const MOTION_CONTROLLER_RIGHT_THUMBSTICK_RIGHT: &'static str = "MotionController_Right_Thumbstick_Right";
/// Key name `MotionController_Left_Thumbstick_X`.
pub const MOTION_CONTROLLER_LEFT_THUMBSTICK_X: &'static str = "MotionController_Left_Thumbstick_X";
/// Key name `MotionController_Left_Thumbstick_Y`.
pub const MOTION_CONTROLLER_LEFT_THUMBSTICK_Y: &'static str = "MotionController_Left_Thumbstick_Y";
/// Key name `MotionController_Left_TriggerAxis`.
pub const MOTION_CONTROLLER_LEFT_TRIGGER_AXIS: &'static str = "MotionController_Left_TriggerAxis";
/// Key name `MotionController_Left_Grip1Axis`.
pub const MOTION_CONTROLLER_LEFT_GRIP1_AXIS: &'static str = "MotionController_Left_Grip1Axis";
/// Key name `MotionController_Left_Grip2Axis`.
pub const MOTION_CONTROLLER_LEFT_GRIP2_AXIS: &'static str = "MotionController_Left_Grip2Axis";
/// Key name `MotionController_Right_Thumbstick_X`.
pub const MOTION_CONTROLLER_RIGHT_THUMBSTICK_X: &'static str = "MotionController_Right_Thumbstick_X";
/// Key name `MotionController_Right_Thumbstick_Y`.
pub const MOTION_CONTROLLER_RIGHT_THUMBSTICK_Y: &'static str = "MotionController_Right_Thumbstick_Y";
/// Key name `MotionController_Right_TriggerAxis`.
pub const MOTION_CONTROLLER_RIGHT_TRIGGER_AXIS: &'static str = "MotionController_Right_TriggerAxis";
/// Key name `MotionController_Right_Grip1Axis`.
pub const MOTION_CONTROLLER_RIGHT_GRIP1_AXIS: &'static str = "MotionController_Right_Grip1Axis";
/// Key name `MotionController_Right_Grip2Axis`.
pub const MOTION_CONTROLLER_RIGHT_GRIP2_AXIS: &'static str = "MotionController_Right_Grip2Axis";

/// How a window was activated or deactivated, in the order of their indices.
#[derive(Clone, Copy, Debug, PartialEq, Eq, Structural)]
pub enum WindowActivation {
    Activate,
    ActivateByMouse,
    Deactivate,
}

/// The zone of a window that a point falls in.
#[derive(Clone, Copy, Debug, PartialEq, Eq, Structural)]
pub enum WindowZone {
    NotInWindow,
    TopLeftBorder,
    TopBorder,
    TopRightBorder,
    LeftBorder,
    ClientArea,
    RightBorder,
    BottomLeftBorder,
    BottomBorder,
    BottomRightBorder,
    TitleBar,
    MinimizeButton,
    MaximizeButton,
    CloseButton,
    SysMenu,
}

/// Number of window zones; their indices are `0..WINDOW_ZONE_COUNT`.
pub const WINDOW_ZONE_COUNT: usize = 15;

/// The index of each window zone, in declaration order.
pub open spec fn zone_index(z: WindowZone) -> nat {
    match z {
        WindowZone::NotInWindow => 0,
        WindowZone::TopLeftBorder => 1,
        WindowZone::TopBorder => 2,
        WindowZone::TopRightBorder => 3,
        WindowZone::LeftBorder => 4,
        WindowZone::ClientArea => 5,
        WindowZone::RightBorder => 6,
        WindowZone::BottomLeftBorder => 7,
        WindowZone::BottomBorder => 8,
        WindowZone::BottomRightBorder => 9,
        WindowZone::TitleBar => 10,
        WindowZone::MinimizeButton => 11,
        WindowZone::MaximizeButton => 12,
        WindowZone::CloseButton => 13,
        WindowZone::SysMenu => 14,
    }
}

impl WindowZone {
    /// The index of this zone.
    pub fn to_usize(&self) -> (n: usize)
        ensures
            n == zone_index(*self),
            n < WINDOW_ZONE_COUNT,
    {
        match *self {
            WindowZone::NotInWindow => 0,
            WindowZone::TopLeftBorder => 1,
            WindowZone::TopBorder => 2,
            WindowZone::TopRightBorder => 3,
            WindowZone::LeftBorder => 4,
            WindowZone::ClientArea => 5,
            WindowZone::RightBorder => 6,
            WindowZone::BottomLeftBorder => 7,
            WindowZone::BottomBorder => 8,
            WindowZone::BottomRightBorder => 9,
            WindowZone::TitleBar => 10,
            WindowZone::MinimizeButton => 11,
            WindowZone::MaximizeButton => 12,
            WindowZone::CloseButton => 13,
            WindowZone::SysMenu => 14,
        }
    }
}

/// Distinct zones have distinct indices.
pub proof fn lemma_zone_index_injective(a: WindowZone, b: WindowZone)
    ensures
        zone_index(a) == zone_index(b) ==> a == b,
        zone_index(a) < WINDOW_ZONE_COUNT,
{
}

/// An action taken on a window.
#[derive(Clone, Copy, Debug, PartialEq, Eq, Structural)]
pub enum WindowAction {
    ClickedNonClientArea,
    Maximize,
    Restore,
    WindowMenu,
}

impl WindowAction {
    /// The numeric code of the action: 1 to 4 in declaration order.
    pub fn value(&self) -> (v: u32)
        ensures
            v == match *self {
                WindowAction::ClickedNonClientArea => 1u32,
                WindowAction::Maximize => 2u32,
                WindowAction::Restore => 3u32,
                WindowAction::WindowMenu => 4u32,
            },
    {
        match *self {
            WindowAction::ClickedNonClientArea => 1,
            WindowAction::Maximize => 2,
            WindowAction::Restore => 3,
            WindowAction::WindowMenu => 4,
        }
    }
}

/// The effect of a drop, in the order of their indices.
#[derive(Clone, Copy, Debug, PartialEq, Eq, Structural)]
pub enum DropEffect {
    NoEffect,
    Copy,
    Move,
    Link,
}

/// Kinds of touch gestures.
#[derive(Clone, Copy, Debug, PartialEq, Eq, Structural)]
pub enum GestureEvent {
    NoGesture,
    Scroll,
    Magnify,
    Swipe,
    Rotate,
    Count,
}

} // verus!
