//! Platform layer for windowing: the decisions that a Windows windowing
//! backend takes (window styles, regions, message routing, cursor and
//! monitor bookkeeping), stated and proved over plain values.
pub mod platform;

pub use platform::generic;
pub use platform::windows;

use vstd::prelude::*;

verus! {

/// Reports whether the caller runs on the game thread. Every caller is
/// treated as running on it.
pub fn is_in_game_thread() -> (r: bool)
    ensures
        r,
{
    true
}

} // verus!
