use vstd::prelude::*;

verus! {

/// A rectangular area of terminal cells.
#[derive(Clone, Copy, Debug, PartialEq, Eq, Structural, Default)]
pub struct Rect {
    pub x: u16,
    pub y: u16,
    pub width: u16,
    pub height: u16,
}

impl Rect {
    /// Builds a rectangle, shrinking the width and height so that the right and
    /// bottom edges stay within the `u16` coordinate space.
    pub fn new(x: u16, y: u16, width: u16, height: u16) -> (r: Rect)
        ensures
            r.x == x,
            r.y == y,
            r.width == (if x + width <= u16::MAX { width as int } else { u16::MAX - x }),
            r.height == (if y + height <= u16::MAX { height as int } else { u16::MAX - y }),
    {
        let w = if width <= u16::MAX - x { width } else { u16::MAX - x };
        let h = if height <= u16::MAX - y { height } else { u16::MAX - y };
        Rect { x, y, width: w, height: h }
    }
}


/// `a + b`, or `u16::MAX` when that overflows.
pub open spec fn sat_add(a: int, b: int) -> int {
    if a + b > u16::MAX {
        u16::MAX as int
    } else {
        a + b
    }
}

/// `a - b`, or zero when that underflows.
pub open spec fn sat_sub(a: int, b: int) -> int {
    if a < b {
        0
    } else {
        a - b
    }
}

/// The area inside a border drawn on all four sides of `area`, as a bordered
/// block without padding computes it.
pub open spec fn spec_bordered_inner(area: Rect) -> Rect {
    let right = sat_add(area.x as int, area.width as int);
    let bottom = sat_add(area.y as int, area.height as int);
    let x = if sat_add(area.x as int, 1) <= right { sat_add(area.x as int, 1) } else { right };
    let y = if sat_add(area.y as int, 1) <= bottom { sat_add(area.y as int, 1) } else { bottom };
    Rect {
        x: x as u16,
        y: y as u16,
        width: sat_sub(area.width as int, 2) as u16,
        height: sat_sub(area.height as int, 2) as u16,
    }
}

/// The area inside a border drawn on all four sides of `area`.
pub fn bordered_inner(area: Rect) -> (r: Rect)
    ensures
        r == spec_bordered_inner(area),
{
    let right = area.x.saturating_add(area.width);
    let bottom = area.y.saturating_add(area.height);
    let x1 = area.x.saturating_add(1);
    let y1 = area.y.saturating_add(1);
    Rect {
        x: if x1 <= right { x1 } else { right },
        y: if y1 <= bottom { y1 } else { bottom },
        width: area.width.saturating_sub(2),
        height: area.height.saturating_sub(2),
    }
}

/// Whether the cell at `(column, row)` lies inside `area`.
pub open spec fn spec_contains(area: Rect, column: u16, row: u16) -> bool {
    area.x <= column < area.x + area.width && area.y <= row < area.y + area.height
}

/// Whether the cell at `(column, row)` lies inside `area`.
pub fn point_in_rect(column: u16, row: u16, area: Rect) -> (b: bool)
    ensures
        b == spec_contains(area, column, row),
{
    column >= area.x && (column as u32) < area.x as u32 + area.width as u32 && row >= area.y
        && (row as u32) < area.y as u32 + area.height as u32
}

} // verus!
