use vstd::prelude::*;
use crate::platform::generic::cursor::{cursor_index, MouseCursor};

verus! {

/// The system cursors the platform loads by identifier.
#[derive(Clone, Copy, Debug, PartialEq, Eq, Structural)]
pub enum SystemCursor {
    Arrow,
    IBeam,
    SizeWestEast,
    SizeNorthSouth,
    SizeNorthWestSouthEast,
    SizeNorthEastSouthWest,
    SizeAll,
    Cross,
    Hand,
    No,
}

/// The cursor files the platform loads.
#[derive(Clone, Copy, Debug, PartialEq, Eq, Structural)]
pub enum CursorFile {
    GrabHand,
    GrabHandClosed,
    EyeDropper,
}

/// Where the handle for a cursor shape comes from.
#[derive(Clone, Copy, Debug, PartialEq, Eq, Structural)]
pub enum CursorResource {
    /// The shape has no handle of its own.
    NoHandle,
    /// A system cursor.
    System(SystemCursor),
    /// A cursor file, and the system cursor to fall back on when the file
    /// gives no valid handle.
    File { file: CursorFile, fallback: Option<SystemCursor> },
}

/// The resource of each cursor shape.
pub open spec fn spec_cursor_resource(c: MouseCursor) -> CursorResource {
    match c {
        MouseCursor::NoCursor => CursorResource::NoHandle,
        MouseCursor::Custom => CursorResource::NoHandle,
        MouseCursor::Default => CursorResource::System(SystemCursor::Arrow),
        MouseCursor::TextEditBeam => CursorResource::System(SystemCursor::IBeam),
        MouseCursor::ResizeLeftRight => CursorResource::System(SystemCursor::SizeWestEast),
        MouseCursor::ResizeUpDown => CursorResource::System(SystemCursor::SizeNorthSouth),
        MouseCursor::ResizeSouthEast => CursorResource::System(SystemCursor::SizeNorthWestSouthEast),
        MouseCursor::ResizeSouthWest => CursorResource::System(SystemCursor::SizeNorthEastSouthWest),
        MouseCursor::CardinalCross => CursorResource::System(SystemCursor::SizeAll),
        MouseCursor::Crosshairs => CursorResource::System(SystemCursor::Cross),
        MouseCursor::Hand => CursorResource::System(SystemCursor::Hand),
        MouseCursor::GrabHand => CursorResource::File {
            file: CursorFile::GrabHand,
            fallback: Some(SystemCursor::Hand),
        },
        MouseCursor::GrabHandClosed => CursorResource::File {
            file: CursorFile::GrabHandClosed,
            fallback: Some(SystemCursor::Hand),
        },
        MouseCursor::SlashedCircle => CursorResource::System(SystemCursor::No),
        MouseCursor::EyeDropper => CursorResource::File { file: CursorFile::EyeDropper, fallback: None },
    }
}

/// Where the handle for a cursor shape comes from.
pub fn cursor_resource(c: MouseCursor) -> (r: CursorResource)
    ensures
        r == spec_cursor_resource(c),
{
    match c {
        MouseCursor::NoCursor | MouseCursor::Custom => CursorResource::NoHandle,
        MouseCursor::Default => CursorResource::System(SystemCursor::Arrow),
        MouseCursor::TextEditBeam => CursorResource::System(SystemCursor::IBeam),
        MouseCursor::ResizeLeftRight => CursorResource::System(SystemCursor::SizeWestEast),
        MouseCursor::ResizeUpDown => CursorResource::System(SystemCursor::SizeNorthSouth),
        MouseCursor::ResizeSouthEast => CursorResource::System(SystemCursor::SizeNorthWestSouthEast),
        MouseCursor::ResizeSouthWest => CursorResource::System(SystemCursor::SizeNorthEastSouthWest),
        MouseCursor::CardinalCross => CursorResource::System(SystemCursor::SizeAll),
        MouseCursor::Crosshairs => CursorResource::System(SystemCursor::Cross),
        MouseCursor::Hand => CursorResource::System(SystemCursor::Hand),
        MouseCursor::GrabHand => CursorResource::File {
            file: CursorFile::GrabHand,
            fallback: Some(SystemCursor::Hand),
        },
        MouseCursor::GrabHandClosed => CursorResource::File {
            file: CursorFile::GrabHandClosed,
            fallback: Some(SystemCursor::Hand),
        },
        MouseCursor::SlashedCircle => CursorResource::System(SystemCursor::No),
        MouseCursor::EyeDropper => CursorResource::File { file: CursorFile::EyeDropper, fallback: None },
    }
}

/// Each cursor shape uses the cursor named for it: the arrow by default, the
/// text beam for text, the west-east double arrow for resizing left and
/// right, the north-south one for up and down, the northwest-southeast one
/// for the south-east corner, the northeast-southwest one for the south-west
/// corner, the four-headed arrow for the cardinal cross, the cross for
/// crosshairs, the hand, the slashed circle; the grab hands and the eye
/// dropper come from their cursor files, the grab hands falling back on the
/// hand. Only the hidden and custom shapes have no handle of their own.
pub proof fn lemma_cursor_shapes_use_their_cursors(c: MouseCursor)
    ensures
        spec_cursor_resource(MouseCursor::Default) == CursorResource::System(SystemCursor::Arrow),
        spec_cursor_resource(MouseCursor::TextEditBeam) == CursorResource::System(SystemCursor::IBeam),
        spec_cursor_resource(MouseCursor::ResizeLeftRight) == CursorResource::System(
            SystemCursor::SizeWestEast,
        ),
        spec_cursor_resource(MouseCursor::ResizeUpDown) == CursorResource::System(
            SystemCursor::SizeNorthSouth,
        ),
        spec_cursor_resource(MouseCursor::ResizeSouthEast) == CursorResource::System(
            SystemCursor::SizeNorthWestSouthEast,
        ),
        spec_cursor_resource(MouseCursor::ResizeSouthWest) == CursorResource::System(
            SystemCursor::SizeNorthEastSouthWest,
        ),
        spec_cursor_resource(MouseCursor::CardinalCross) == CursorResource::System(SystemCursor::SizeAll),
        spec_cursor_resource(MouseCursor::Crosshairs) == CursorResource::System(SystemCursor::Cross),
        spec_cursor_resource(MouseCursor::Hand) == CursorResource::System(SystemCursor::Hand),
        spec_cursor_resource(MouseCursor::SlashedCircle) == CursorResource::System(SystemCursor::No),
        spec_cursor_resource(MouseCursor::GrabHand) == (CursorResource::File {
            file: CursorFile::GrabHand,
            fallback: Some(SystemCursor::Hand),
        }),
        spec_cursor_resource(MouseCursor::GrabHandClosed) == (CursorResource::File {
            file: CursorFile::GrabHandClosed,
            fallback: Some(SystemCursor::Hand),
        }),
        spec_cursor_resource(MouseCursor::EyeDropper) == (CursorResource::File {
            file: CursorFile::EyeDropper,
            fallback: None,
        }),
        (spec_cursor_resource(c) == CursorResource::NoHandle) <==> (c == MouseCursor::NoCursor || c
            == MouseCursor::Custom),
{
}

/// Distinct shapes that use system cursors use distinct ones.
pub proof fn lemma_system_cursors_distinct(a: MouseCursor, b: MouseCursor)
    ensures
        spec_cursor_resource(a) is System && spec_cursor_resource(a) == spec_cursor_resource(b) ==> a == b,
{
}

/// Whether a cursor handle names no cursor: it is 0 or -1.
pub open spec fn spec_handle_is_invalid(handle: isize) -> bool {
    handle == -1 || handle == 0
}

/// Whether a cursor handle names no cursor.
pub fn handle_is_invalid(handle: isize) -> (r: bool)
    ensures
        r == spec_handle_is_invalid(handle),
{
    handle == -1 || handle == 0
}

/// Whether showing or hiding the cursor has taken effect, given the display
/// count the system returned: a shown cursor needs a count of at least 0, a
/// hidden one a negative count.
pub fn cursor_visibility_settled(show: bool, display_count: i32) -> (r: bool)
    ensures
        r == if show {
            display_count >= 0
        } else {
            display_count < 0
        },
{
    if show {
        display_count >= 0
    } else {
        display_count < 0
    }
}

/// The cursor of a window: the shape in use, and for each shape its loaded
/// handle and an overriding handle (0 where none is set).
#[derive(Clone, Copy, Debug)]
pub struct WindowsCursor {
    pub current_type: MouseCursor,
    pub cursor_handles: [isize; 15],
    pub cursor_override_handles: [isize; 15],
}

impl WindowsCursor {
    /// A cursor with the given handle for each shape, showing the default
    /// arrow, with no overrides.
    pub fn new(cursor_handles: [isize; 15]) -> (c: WindowsCursor)
        ensures
            c.current_type == MouseCursor::Default,
            c.cursor_handles@ == cursor_handles@,
            forall|i: int| 0 <= i < 15 ==> #[trigger] c.cursor_override_handles@[i] == 0,
    {
        WindowsCursor {
            current_type: MouseCursor::Default,
            cursor_handles,
            cursor_override_handles: [0isize; 15],
        }
    }

    /// The handle to show for the shape `c`: its override where that is a
    /// valid handle, its loaded handle otherwise.
    pub open spec fn handle_for(&self, c: MouseCursor) -> isize {
        let i = cursor_index(c) as int;
        if !spec_handle_is_invalid(self.cursor_override_handles@[i]) {
            self.cursor_override_handles@[i]
        } else {
            self.cursor_handles@[i]
        }
    }

    /// Sets the handle of the custom shape.
    pub fn set_custom_shape(&mut self, cursor_handle: isize)
        ensures
            final(self).cursor_handles@ == old(self).cursor_handles@.update(
                cursor_index(MouseCursor::Custom) as int,
                cursor_handle,
            ),
            final(self).cursor_override_handles == old(self).cursor_override_handles,
            final(self).current_type == old(self).current_type,
    {
        let mouse_cursor = MouseCursor::Custom;
        let i = mouse_cursor.to_usize();
        self.cursor_handles[i] = cursor_handle;
    }

    /// Makes `new_cursor` the shape in use and returns the handle to show.
    pub fn set_type(&mut self, new_cursor: MouseCursor) -> (handle: isize)
        ensures
            final(self).current_type == new_cursor,
            final(self).cursor_handles == old(self).cursor_handles,
            final(self).cursor_override_handles == old(self).cursor_override_handles,
            handle == old(self).handle_for(new_cursor),
    {
        self.current_type = new_cursor;
        let i = new_cursor.to_usize();
        if !handle_is_invalid(self.cursor_override_handles[i]) {
            self.cursor_override_handles[i]
        } else {
            self.cursor_handles[i]
        }
    }

    /// The shape in use.
    pub fn get_type(&self) -> (c: MouseCursor)
        ensures
            c == self.current_type,
    {
        self.current_type
    }

    /// The width and height of the cursor.
    pub fn get_size(&self) -> (r: (i32, i32))
        ensures
            r == (16i32, 16i32),
    {
        (16, 16)
    }

    /// Overrides the handle of `cursor_type`; when that shape is in use, it
    /// is set again and the handle to show is returned.
    pub fn set_type_shape(&mut self, cursor_type: MouseCursor, cursor_handle: isize) -> (r: Option<
        isize,
    >)
        ensures
            final(self).cursor_override_handles@ == old(self).cursor_override_handles@.update(
                cursor_index(cursor_type) as int,
                cursor_handle,
            ),
            final(self).cursor_handles == old(self).cursor_handles,
            final(self).current_type == old(self).current_type,
            old(self).current_type == cursor_type ==> r == Some(final(self).handle_for(cursor_type)),
            old(self).current_type != cursor_type ==> r is None,
            old(self).current_type == cursor_type && !spec_handle_is_invalid(cursor_handle) ==> r
                == Some(cursor_handle),
    {
        let i = cursor_type.to_usize();
        self.cursor_override_handles[i] = cursor_handle;
        if self.current_type == cursor_type {
            let current = self.current_type;
            Some(self.set_type(current))
        } else {
            None
        }
    }
}

} // verus!
