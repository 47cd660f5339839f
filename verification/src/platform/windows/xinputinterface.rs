use vstd::prelude::*;

verus! {

/// Number of XInput controllers the system supports.
pub const MAX_NUM_XINPUT_CONTROLLERS: usize = 4;

/// Number of buttons tracked per controller.
pub const MAX_NUM_CONTROLLER_BUTTONS: usize = 24;

} // verus!
