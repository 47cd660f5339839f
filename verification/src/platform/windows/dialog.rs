use vstd::prelude::*;

verus! {

/// The button a message box was closed with.
#[derive(Clone, Copy, Debug, PartialEq, Eq, Structural)]
pub enum MessageBoxResult {
    OkButton,
    Cancel,
    Abort,
    Retry,
    Ignore,
    Yes,
    No,
    TryAgain,
    Continue,
}

/// A message box result code that names no button.
#[derive(Clone, Copy, Debug, PartialEq, Eq, Structural)]
pub struct UnexpectedMessageBoxResult {
    pub code: i32,
}

/// The code the system uses for each message box result.
pub open spec fn result_code(r: MessageBoxResult) -> i32 {
    match r {
        MessageBoxResult::OkButton => 1,
        MessageBoxResult::Cancel => 2,
        MessageBoxResult::Abort => 3,
        MessageBoxResult::Retry => 4,
        MessageBoxResult::Ignore => 5,
        MessageBoxResult::Yes => 6,
        MessageBoxResult::No => 7,
        MessageBoxResult::TryAgain => 10,
        MessageBoxResult::Continue => 11,
    }
}

/// Whether a code names a message box result.
pub open spec fn is_result_code(code: i32) -> bool {
    (1 <= code <= 7) || code == 10 || code == 11
}

impl MessageBoxResult {
    /// The code of this result.
    pub fn code(&self) -> (c: i32)
        ensures
            c == result_code(*self),
    {
        match *self {
            MessageBoxResult::OkButton => 1,
            MessageBoxResult::Cancel => 2,
            MessageBoxResult::Abort => 3,
            MessageBoxResult::Retry => 4,
            MessageBoxResult::Ignore => 5,
            MessageBoxResult::Yes => 6,
            MessageBoxResult::No => 7,
            MessageBoxResult::TryAgain => 10,
            MessageBoxResult::Continue => 11,
        }
    }

    /// The result a code names, or an error carrying a code that names none.
    pub fn try_from_code(value: i32) -> (r: Result<MessageBoxResult, UnexpectedMessageBoxResult>)
        ensures
            r is Ok <==> is_result_code(value),
            r matches Ok(res) ==> result_code(res) == value,
            r matches Err(e) ==> e.code == value,
    {
        match value {
            3 => Ok(MessageBoxResult::Abort),
            2 => Ok(MessageBoxResult::Cancel),
            11 => Ok(MessageBoxResult::Continue),
            5 => Ok(MessageBoxResult::Ignore),
            7 => Ok(MessageBoxResult::No),
            1 => Ok(MessageBoxResult::OkButton),
            4 => Ok(MessageBoxResult::Retry),
            10 => Ok(MessageBoxResult::TryAgain),
            6 => Ok(MessageBoxResult::Yes),
            _ => Err(UnexpectedMessageBoxResult { code: value }),
        }
    }
}

/// Reading back the code of a result gives the result, and distinct results
/// have distinct codes.
pub proof fn lemma_result_code_round_trip(r: MessageBoxResult, s: MessageBoxResult)
    ensures
        is_result_code(result_code(r)),
        result_code(r) == result_code(s) ==> r == s,
{
}

} // verus!
