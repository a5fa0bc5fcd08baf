use vstd::prelude::*;

verus! {

/// Largest value of a `u16` coordinate.
pub open spec fn u16_max() -> int {
    65535
}

/// `v` clamped into the range of a `u16`.
pub open spec fn clamp_u16(v: int) -> u16 {
    if v < 0 {
        0u16
    } else if v > 65535 {
        65535u16
    } else {
        v as u16
    }
}

/// Shifts a `u16` by a signed offset, clamping at the ends of the range.
pub fn shift_clamped(v: u16, d: i32) -> (r: u16)
    ensures
        r == clamp_u16(v + d),
{
    let s: i64 = v as i64 + d as i64;
    if s < 0 {
        0
    } else if s > 65535 {
        65535
    } else {
        s as u16
    }
}

/// A cell position on the canvas.
#[derive(Debug, Clone, Copy, PartialEq, Eq, Structural)]
pub struct Coord {
    pub x: u16,
    pub y: u16,
}

impl Coord {
    /// Moves the position by `(dx, dy)`, clamping each axis to the `u16` range.
    pub fn translate(&mut self, dx: i32, dy: i32)
        ensures
            final(self).x == clamp_u16(old(self).x + dx),
            final(self).y == clamp_u16(old(self).y + dy),
    {
        self.x = shift_clamped(self.x, dx);
        self.y = shift_clamped(self.y, dy);
    }
}

/// An axis-aligned bounding box, both corners included.
#[derive(Debug, Clone, Copy, PartialEq, Eq, Structural)]
pub struct Bounds {
    pub min: Coord,
    pub max: Coord,
}

impl Bounds {
    /// Moves both corners by `(dx, dy)`.
    pub fn translate(&mut self, dx: i32, dy: i32)
        ensures
            final(self).min.x == clamp_u16(old(self).min.x + dx),
            final(self).min.y == clamp_u16(old(self).min.y + dy),
            final(self).max.x == clamp_u16(old(self).max.x + dx),
            final(self).max.y == clamp_u16(old(self).max.y + dy),
    {
        self.min.translate(dx, dy);
        self.max.translate(dx, dy);
    }
}

/// One of the four axis directions of a segment.
#[derive(Debug, Clone, Copy, PartialEq, Eq, Structural)]
pub enum Direction {
    Up,
    Down,
    Left,
    Right,
}

/// The panels of the editor's screen.
#[derive(Debug, Clone, Copy, PartialEq, Eq, Structural)]
pub enum Panel {
    Canvas,
    Tools,
    Elements,
    Properties,
}

/// The phases of the select tool.
#[derive(Debug, Clone, Copy, PartialEq, Eq, Structural)]
pub enum SelectionMode {
    Idle,
    Selecting,
    Selected,
    Moving,
}

/// A screen rectangle: top-left corner and size.
#[derive(Debug, Clone, Copy, PartialEq, Eq, Structural)]
pub struct Rect {
    pub x: u16,
    pub y: u16,
    pub width: u16,
    pub height: u16,
}

impl Rect {
    /// The rectangle's right and bottom edges fit in the `u16` range.
    pub open spec fn wf(self) -> bool {
        self.x + self.width <= u16_max() && self.y + self.height <= u16_max()
    }

    /// `(column, row)` lies in the rectangle (right and bottom edges excluded).
    pub open spec fn spec_contains(self, column: int, row: int) -> bool {
        self.x <= column < self.x + self.width && self.y <= row < self.y + self.height
    }
}

impl Rect {
    /// Whether `(column, row)` lies in the rectangle (right and bottom edges excluded).
    pub fn contains(&self, column: u16, row: u16) -> (r: bool)
        ensures
            r == self.spec_contains(column as int, row as int),
    {
        column >= self.x && (column as u32) < (self.x as u32) + (self.width as u32)
            && row >= self.y && (row as u32) < (self.y as u32) + (self.height as u32)
    }

    /// The empty rectangle at the origin.
    pub fn zero() -> (r: Self)
        ensures
            r == (Rect { x: 0, y: 0, width: 0, height: 0 }),
    {
        Rect { x: 0, y: 0, width: 0, height: 0 }
    }
}

/// Where the panels of the screen are.
#[derive(Debug, Clone, Copy, PartialEq, Eq, Structural)]
pub struct UILayout {
    pub canvas: Rect,
    pub tools: Rect,
    pub elements: Rect,
    pub statusbar: Rect,
}

/// The panels' places on a screen `area`: the canvas over every row but the
/// last, the status bar on the last row (none on an empty screen); the tools
/// and elements panels float over the canvas and take no place of their own.
pub open spec fn screen_layout(area: Rect) -> UILayout {
    let canvas_height: u16 = if area.height >= 1 { (area.height - 1) as u16 } else { 0 };
    UILayout {
        canvas: Rect { x: area.x, y: area.y, width: area.width, height: canvas_height },
        tools: Rect { x: 0, y: 0, width: 0, height: 0 },
        elements: Rect { x: 0, y: 0, width: 0, height: 0 },
        statusbar: Rect {
            x: area.x,
            y: if area.y + canvas_height <= u16::MAX { (area.y + canvas_height) as u16 } else { u16::MAX },
            width: area.width,
            height: if area.height >= 1 { 1 } else { 0 },
        },
    }
}

impl UILayout {
    /// The layout for a screen `area` (see `screen_layout`).
    pub fn for_screen(area: Rect) -> (l: Self)
        ensures
            l == screen_layout(area),
    {
        let canvas_height = area.height.saturating_sub(1);
        UILayout {
            canvas: Rect { x: area.x, y: area.y, width: area.width, height: canvas_height },
            tools: Rect { x: 0, y: 0, width: 0, height: 0 },
            elements: Rect { x: 0, y: 0, width: 0, height: 0 },
            statusbar: Rect {
                x: area.x,
                y: area.y.saturating_add(canvas_height),
                width: area.width,
                height: if area.height >= 1 { 1 } else { 0 },
            },
        }
    }
}

impl Default for UILayout {
    fn default() -> (l: Self)
        ensures
            l.canvas == (Rect { x: 0, y: 0, width: 0, height: 0 }),
            l.tools == (Rect { x: 0, y: 0, width: 0, height: 0 }),
            l.elements == (Rect { x: 0, y: 0, width: 0, height: 0 }),
            l.statusbar == (Rect { x: 0, y: 0, width: 0, height: 0 }),
    {
        UILayout { canvas: Rect::zero(), tools: Rect::zero(), elements: Rect::zero(), statusbar: Rect::zero() }
    }
}

} // verus!
