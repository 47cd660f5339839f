use vstd::prelude::*;

verus! {

/// The shapes a mouse cursor can take.
#[derive(Clone, Copy, Debug, PartialEq, Eq, Structural)]
pub enum MouseCursor {
    /// Causes no mouse cursor to be visible.
    NoCursor,
    /// Default cursor (arrow).
    Default,
    /// Text edit beam.
    TextEditBeam,
    /// Resize horizontal.
    ResizeLeftRight,
    /// Resize vertical.
    ResizeUpDown,
    /// Resize diagonal.
    ResizeSouthEast,
    /// Resize other diagonal.
    ResizeSouthWest,
    /// Move item.
    CardinalCross,
    /// Target cross.
    Crosshairs,
    /// Hand cursor.
    Hand,
    /// Grab hand cursor.
    GrabHand,
    /// Grab hand cursor, closed.
    GrabHandClosed,
    /// A circle with a diagonal line through it.
    SlashedCircle,
    /// Eye-dropper cursor for picking colors.
    EyeDropper,
    /// Custom cursor shape for platforms that support setting a native
    /// cursor shape. Same as `NoCursor` while no shape is set.
    Custom,
}

/// Number of cursor shapes; the indices of the shapes are `0..CURSOR_COUNT`.
pub const CURSOR_COUNT: usize = 15;

/// The index of each cursor shape, in declaration order.
pub open spec fn cursor_index(c: MouseCursor) -> nat {
    match c {
        MouseCursor::NoCursor => 0,
        MouseCursor::Default => 1,
        MouseCursor::TextEditBeam => 2,
        MouseCursor::ResizeLeftRight => 3,
        MouseCursor::ResizeUpDown => 4,
        MouseCursor::ResizeSouthEast => 5,
        MouseCursor::ResizeSouthWest => 6,
        MouseCursor::CardinalCross => 7,
        MouseCursor::Crosshairs => 8,
        MouseCursor::Hand => 9,
        MouseCursor::GrabHand => 10,
        MouseCursor::GrabHandClosed => 11,
        MouseCursor::SlashedCircle => 12,
        MouseCursor::EyeDropper => 13,
        MouseCursor::Custom => 14,
    }
}

/// The cursor shape with a given index; indices past the last shape give
/// the default arrow.
pub open spec fn cursor_at_index(n: int) -> MouseCursor {
    if n == 0 {
        MouseCursor::NoCursor
    } else if n == 1 {
        MouseCursor::Default
    } else if n == 2 {
        MouseCursor::TextEditBeam
    } else if n == 3 {
        MouseCursor::ResizeLeftRight
    } else if n == 4 {
        MouseCursor::ResizeUpDown
    } else if n == 5 {
        MouseCursor::ResizeSouthEast
    } else if n == 6 {
        MouseCursor::ResizeSouthWest
    } else if n == 7 {
        MouseCursor::CardinalCross
    } else if n == 8 {
        MouseCursor::Crosshairs
    } else if n == 9 {
        MouseCursor::Hand
    } else if n == 10 {
        MouseCursor::GrabHand
    } else if n == 11 {
        MouseCursor::GrabHandClosed
    } else if n == 12 {
        MouseCursor::SlashedCircle
    } else if n == 13 {
        MouseCursor::EyeDropper
    } else if n == 14 {
        MouseCursor::Custom
    } else {
        MouseCursor::Default
    }
}

impl MouseCursor {
    /// The cursor shape with index `n`; an index past the last shape gives
    /// `Default`.
    pub fn from_usize(n: usize) -> (c: MouseCursor)
        ensures
            c == cursor_at_index(n as int),
            n < CURSOR_COUNT ==> cursor_index(c) == n,
            n >= CURSOR_COUNT ==> c == MouseCursor::Default,
    {
        match n {
            0 => MouseCursor::NoCursor,
            1 => MouseCursor::Default,
            2 => MouseCursor::TextEditBeam,
            3 => MouseCursor::ResizeLeftRight,
            4 => MouseCursor::ResizeUpDown,
            5 => MouseCursor::ResizeSouthEast,
            6 => MouseCursor::ResizeSouthWest,
            7 => MouseCursor::CardinalCross,
            8 => MouseCursor::Crosshairs,
            9 => MouseCursor::Hand,
            10 => MouseCursor::GrabHand,
            11 => MouseCursor::GrabHandClosed,
            12 => MouseCursor::SlashedCircle,
            13 => MouseCursor::EyeDropper,
            14 => MouseCursor::Custom,
            _ => MouseCursor::Default,
        }
    }

    /// The index of this cursor shape.
    pub fn to_usize(&self) -> (n: usize)
        ensures
            n == cursor_index(*self),
            n < CURSOR_COUNT,
    {
        match *self {
            MouseCursor::NoCursor => 0,
            MouseCursor::Default => 1,
            MouseCursor::TextEditBeam => 2,
            MouseCursor::ResizeLeftRight => 3,
            MouseCursor::ResizeUpDown => 4,
            MouseCursor::ResizeSouthEast => 5,
            MouseCursor::ResizeSouthWest => 6,
            MouseCursor::CardinalCross => 7,
            MouseCursor::Crosshairs => 8,
            MouseCursor::Hand => 9,
            MouseCursor::GrabHand => 10,
            MouseCursor::GrabHandClosed => 11,
            MouseCursor::SlashedCircle => 12,
            MouseCursor::EyeDropper => 13,
            MouseCursor::Custom => 14,
        }
    }
}

/// Turning a cursor shape into its index and back gives the same shape.
pub proof fn lemma_cursor_index_round_trip(c: MouseCursor)
    ensures
        cursor_at_index(cursor_index(c) as int) == c,
        cursor_index(c) < CURSOR_COUNT,
{
}

/// Turning an index below the number of shapes into a shape and back gives
/// the same index.
pub proof fn lemma_cursor_shape_round_trip(n: int)
    requires
        0 <= n < CURSOR_COUNT,
    ensures
        cursor_index(cursor_at_index(n)) == n,
{
}

/// Distinct cursor shapes have distinct indices.
pub proof fn lemma_cursor_index_injective(a: MouseCursor, b: MouseCursor)
    ensures
        cursor_index(a) == cursor_index(b) ==> a == b,
{
    lemma_cursor_index_round_trip(a);
    lemma_cursor_index_round_trip(b);
}

/// Cursor shapes are numbered in their declared order: hidden 0, default 1,
/// text beam 2, left-right 3, up-down 4, south-east 5, south-west 6,
/// cardinal cross 7, crosshairs 8, hand 9, grab hand 10, closed grab hand 11,
/// slashed circle 12, eye dropper 13 and custom 14.
pub proof fn lemma_cursor_indices()
    ensures
        cursor_index(MouseCursor::NoCursor) == 0,
        cursor_index(MouseCursor::Default) == 1,
        cursor_index(MouseCursor::TextEditBeam) == 2,
        cursor_index(MouseCursor::ResizeLeftRight) == 3,
        cursor_index(MouseCursor::ResizeUpDown) == 4,
        cursor_index(MouseCursor::ResizeSouthEast) == 5,
        cursor_index(MouseCursor::ResizeSouthWest) == 6,
        cursor_index(MouseCursor::CardinalCross) == 7,
        cursor_index(MouseCursor::Crosshairs) == 8,
        cursor_index(MouseCursor::Hand) == 9,
        cursor_index(MouseCursor::GrabHand) == 10,
        cursor_index(MouseCursor::GrabHandClosed) == 11,
        cursor_index(MouseCursor::SlashedCircle) == 12,
        cursor_index(MouseCursor::EyeDropper) == 13,
        cursor_index(MouseCursor::Custom) == 14,
{
}

} // verus!
