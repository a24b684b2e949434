//! Snapshots of the system cursor.

use vstd::prelude::*;

verus! {

/// The flag word with which the platform reports a cursor that is shown.
pub const CURSOR_SHOWING: u32 = 1;

/// Why no cursor snapshot could be had.
#[derive(Clone, Copy, Debug, PartialEq, Eq, Structural)]
pub enum CursorError {
    /// The platform's query failed.
    Unavailable,
}

impl CursorError {
    /// The text that goes with the error.
    pub fn message(&self) -> (text: &'static str)
        ensures
            text@ == "unable to get cursor info"@,
    {
        "unable to get cursor info"
    }
}

/// What one query of the platform's cursor state handed back, as plain values.
#[derive(Clone, Copy, Debug)]
pub struct CursorInfo {
    /// The query's own return value: zero says that it failed.
    pub status: i32,
    /// The cursor's state flags.
    pub flags: u32,
    /// The cursor's handle, as an integer.
    pub handle: u64,
    /// Horizontal screen coordinate.
    pub x: i32,
    /// Vertical screen coordinate.
    pub y: i32,
}

/// The mathematical value of a [`Cursor`].
pub ghost struct CursorView {
    pub is_visible: bool,
    pub cursor_id: u32,
    pub x: i32,
    pub y: i32,
}

/// The cursor at one instant: whether it is shown, an opaque token that
/// identifies it, and where it is, in screen coordinates.
///
/// A snapshot never changes once made, and two snapshots are the same exactly
/// when their fields are.
#[derive(Clone, Copy, Debug, PartialEq, Eq, Structural)]
pub struct Cursor {
    is_visible: bool,
    cursor_id: u32,
    x: i32,
    y: i32,
}

impl View for Cursor {
    type V = CursorView;

    closed spec fn view(&self) -> CursorView {
        CursorView {
            is_visible: self.is_visible,
            cursor_id: self.cursor_id,
            x: self.x,
            y: self.y,
        }
    }
}

/// The low 32 bits of a handle: the token by which a cursor is told from another.
pub open spec fn identity_of(handle: u64) -> u32 {
    (handle as int % 0x1_0000_0000) as u32
}

/// The snapshot that a platform reading stands for, or the failure that it reports.
pub open spec fn state_of(info: CursorInfo) -> Result<CursorView, CursorError> {
    if info.status != 0 {
        Ok(
            CursorView {
                is_visible: info.flags == CURSOR_SHOWING,
                cursor_id: identity_of(info.handle),
                x: info.x,
                y: info.y,
            },
        )
    } else {
        Err(CursorError::Unavailable)
    }
}

impl Cursor {
    /// A hidden cursor at the origin, with the identity zero.
    pub fn new() -> (cursor: Self)
        ensures
            cursor@ == (CursorView { is_visible: false, cursor_id: 0, x: 0, y: 0 }),
    {
        Self { is_visible: false, cursor_id: 0, x: 0, y: 0 }
    }

    /// A snapshot with the given fields.
    pub fn from_parts(is_visible: bool, cursor_id: u32, x: i32, y: i32) -> (cursor: Self)
        ensures
            cursor@ == (CursorView { is_visible, cursor_id, x, y }),
    {
        Self { is_visible, cursor_id, x, y }
    }

    /// Whether the cursor was shown.
    pub fn is_visible(&self) -> (shown: bool)
        ensures
            shown == self@.is_visible,
    {
        self.is_visible
    }

    /// The token that identifies the cursor. It is good for comparing and for
    /// nothing else.
    pub fn cursor_id(&self) -> (id: u32)
        ensures
            id == self@.cursor_id,
    {
        self.cursor_id
    }

    /// The cursor's place on the screen, horizontal coordinate first.
    pub fn position(&self) -> (at: (i32, i32))
        ensures
            at == (self@.x, self@.y),
    {
        (self.x, self.y)
    }
}

impl Default for Cursor {
    fn default() -> (cursor: Self)
        ensures
            cursor@ == (CursorView { is_visible: false, cursor_id: 0, x: 0, y: 0 }),
    {
        Self::new()
    }
}

/// Turns one platform reading into a snapshot.
///
/// A reading whose status is zero is a failed query and gives
/// [`CursorError::Unavailable`]. Any other reading gives a snapshot that is
/// visible exactly when the flags are [`CURSOR_SHOWING`], carries the low 32
/// bits of the handle as its identity, and has the reading's coordinates.
pub fn get_state(info: &CursorInfo) -> (state: Result<Cursor, CursorError>)
    ensures
        state is Ok <==> info.status != 0,
        match state {
            Ok(cursor) => state_of(*info) == Ok::<CursorView, CursorError>(cursor@),
            Err(e) => state_of(*info) == Err::<CursorView, CursorError>(e),
        },
{
    if info.status != 0 {
        let id: u32 = (info.handle % 0x1_0000_0000) as u32;
        Ok(
            Cursor {
                is_visible: info.flags == CURSOR_SHOWING,
                cursor_id: id,
                x: info.x,
                y: info.y,
            },
        )
    } else {
        Err(CursorError::Unavailable)
    }
}

/// Two snapshots with the same value are one snapshot: a snapshot has no
/// identity beyond its fields.
pub proof fn lemma_cursor_by_value(a: Cursor, b: Cursor)
    ensures
        a@ == b@ <==> a == b,
{
}

} // verus!
