use vstd::prelude::*;

verus! {

/// The force-feedback motors of a controller.
#[allow(non_camel_case_types)]
#[derive(Clone, Copy, Debug, PartialEq, Eq, Structural)]
pub enum ForceFeedbackChannelType {
    LEFT_LARGE,
    LEFT_SMALL,
    RIGHT_LARGE,
    RIGHT_SMALL,
}

} // verus!
