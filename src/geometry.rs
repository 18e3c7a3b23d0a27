use vstd::prelude::*;

verus! {

/// Bit of a pointer event's button-state mask set while button 1 is held.
pub const BUTTON1_MASK: u16 = 256;

/// Bit of a pointer event's button-state mask set while button 3 is held.
pub const BUTTON3_MASK: u16 = 1024;

/// A window's position and size as the display server reports it.
#[derive(Clone, Copy, Debug, PartialEq, Eq, Structural)]
pub struct WindowGeometry {
    pub x: i16,
    pub y: i16,
    pub width: u16,
    pub height: u16,
}

/// The position and size sent to the display server for a window.
///
/// Values are computed exactly, so a position may leave the range of the
/// server's 16-bit coordinates; the server keeps the low 16 bits.
#[derive(Clone, Copy, Debug, PartialEq, Eq, Structural)]
pub struct Placement {
    pub x: i32,
    pub y: i32,
    pub width: u32,
    pub height: u32,
}

impl WindowGeometry {
    /// A geometry that can be sent back to the server unchanged: no side is 0.
    pub open spec fn has_area(self) -> bool {
        self.width >= 1 && self.height >= 1
    }
}

/// Whether button 1 (move) is held in a button-state mask.
pub open spec fn moving(state: u16) -> bool {
    state & BUTTON1_MASK != 0
}

/// Whether button 3 (resize) is held in a button-state mask.
pub open spec fn resizing(state: u16) -> bool {
    state & BUTTON3_MASK != 0
}

/// The larger of 1 and `v`.
pub open spec fn no_less_than_one(v: int) -> int {
    if v < 1 { 1 } else { v }
}

/// The placement for a pointer at `dx`, `dy` from the press point: button 1
/// moves the baseline by the delta, button 3 grows it by the delta (never
/// below 1), and an axis whose button is not held keeps the baseline value.
pub open spec fn placement_spec(base: WindowGeometry, dx: int, dy: int, state: u16) -> (int, int, int, int) {
    (
        if moving(state) { base.x + dx } else { base.x as int },
        if moving(state) { base.y + dy } else { base.y as int },
        if resizing(state) { no_less_than_one(base.width + dx) } else { base.width as int },
        if resizing(state) { no_less_than_one(base.height + dy) } else { base.height as int },
    )
}

impl Placement {
    /// The four fields as mathematical integers.
    pub open spec fn spec_tuple(self) -> (int, int, int, int) {
        (self.x as int, self.y as int, self.width as int, self.height as int)
    }
}

/// Computes where a window goes when the pointer is `dx`, `dy` from the point
/// where the drag started and the buttons in `state` are held.
pub fn placement_for(base: WindowGeometry, dx: i32, dy: i32, state: u16) -> (r: Placement)
    requires
        -65536 <= dx <= 65536,
        -65536 <= dy <= 65536,
    ensures
        r.spec_tuple() == placement_spec(base, dx as int, dy as int, state),
{
    let move_bit = state & BUTTON1_MASK != 0;
    let resize_bit = state & BUTTON3_MASK != 0;
    let x: i32 = if move_bit { base.x as i32 + dx } else { base.x as i32 };
    let y: i32 = if move_bit { base.y as i32 + dy } else { base.y as i32 };
    let width: u32 = if resize_bit { clamp_to_one(base.width as i32 + dx) } else { base.width as u32 };
    let height: u32 = if resize_bit { clamp_to_one(base.height as i32 + dy) } else { base.height as u32 };
    Placement { x, y, width, height }
}

/// The larger of 1 and `v`, as an unsigned value.
fn clamp_to_one(v: i32) -> (r: u32)
    ensures
        r as int == no_less_than_one(v as int),
{
    if v < 1 { 1 } else { v as u32 }
}

} // verus!
