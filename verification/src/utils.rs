use vstd::prelude::*;
use crate::types::Rect;

verus! {

/// The smaller of two values.
pub open spec fn min_of(a: u16, b: u16) -> u16 {
    if a <= b { a } else { b }
}

/// A floating modal placed in a corner of the canvas.
#[derive(Debug, Clone, Copy, PartialEq, Eq, Structural)]
pub struct ModalArea {
    pub area: Rect,
}

/// The bottom-left modal of `width` by `height` inside `canvas`: one cell in
/// from the canvas's left border and resting on its bottom border, no larger
/// than the canvas.
pub open spec fn bottom_left_rect(canvas: Rect, width: u16, height: u16) -> Rect {
    let w = min_of(width, canvas.width);
    let h = min_of(height, canvas.height);
    let bottom = canvas.y + canvas.height;
    Rect {
        x: (if canvas.x < 65535 { canvas.x + 1 } else { canvas.x as int }) as u16,
        y: (if bottom >= h + 1 { bottom - h - 1 } else { 0int }) as u16,
        width: w,
        height: h,
    }
}

impl ModalArea {
    /// The modal in the bottom-left corner of the canvas.
    pub fn bottom_left(canvas: Rect, width: u16, height: u16) -> (m: Self)
        ensures
            m.area == bottom_left_rect(canvas, width, height),
    {
        let w = if width <= canvas.width { width } else { canvas.width };
        let h = if height <= canvas.height { height } else { canvas.height };
        let bottom: u32 = canvas.y as u32 + canvas.height as u32;
        let x = if canvas.x < 65535 { canvas.x + 1 } else { canvas.x };
        let y: u16 = if bottom >= h as u32 + 1 { (bottom - h as u32 - 1) as u16 } else { 0 };
        ModalArea { area: Rect { x, y, width: w, height: h } }
    }

    /// Whether the screen cell lies in the modal.
    pub fn contains(&self, column: u16, row: u16) -> (r: bool)
        ensures
            r == self.area.spec_contains(column as int, row as int),
    {
        self.area.contains(column, row)
    }

    /// The row inside the modal's border that the screen row `row` is (zero
    /// above the first content row).
    pub fn content_relative_y(&self, row: u16) -> (r: u16)
        ensures
            r == (if row >= self.area.y + 1 { row - self.area.y - 1 } else { 0 }),
    {
        if row as u32 >= self.area.y as u32 + 1 { row - self.area.y - 1 } else { 0 }
    }

    /// The modal's rectangle.
    pub fn rect(&self) -> (r: Rect)
        ensures
            r == self.area,
    {
        self.area
    }
}

} // verus!
