pub mod arrow;
pub mod line;
pub mod rectangle;
pub mod text;

use vstd::prelude::*;
use crate::elements::ElementView;
use crate::elements::segment::{segment_between, segments_bounds, Segment};
use crate::elements::rectangle::box_bounds;
use crate::elements::borders::BorderStyle;
use crate::elements::text::{byte_len, text_bounds};
use crate::text::decimal;
use crate::types::Coord;
use crate::elements::line::RenderPoint;
use crate::state::canvas::{adds, CanvasState};

verus! {

/// The tools of the editor, in the order the tools panel lists them.
#[derive(Debug, Clone, Copy, PartialEq, Eq, Structural)]
pub enum Tool {
    Select,
    Line,
    Rectangle,
    Arrow,
    Text,
}

/// Where a two-point drawing tool stands.
#[derive(Debug, Clone, Copy, PartialEq, Eq, Structural)]
pub enum DrawingState {
    /// Nothing anchored yet.
    Idle,
    /// First click done; the second click finishes (click-move-click).
    Anchored,
    /// The button is held and moving (drag-and-drop); release finishes.
    Dragging,
}

/// The tools in panel order.
pub open spec fn tool_order() -> Seq<Tool> {
    seq![Tool::Select, Tool::Line, Tool::Rectangle, Tool::Arrow, Tool::Text]
}

/// A tool's place in panel order.
pub open spec fn tool_index(t: Tool) -> usize {
    match t {
        Tool::Select => 0,
        Tool::Line => 1,
        Tool::Rectangle => 2,
        Tool::Arrow => 3,
        Tool::Text => 4,
    }
}

/// A tool's display name.
pub open spec fn tool_name(t: Tool) -> Seq<char> {
    match t {
        Tool::Select => "Select"@,
        Tool::Line => "Line"@,
        Tool::Rectangle => "Rectangle"@,
        Tool::Arrow => "Arrow"@,
        Tool::Text => "Text"@,
    }
}

/// A tool's keyboard shortcut.
pub open spec fn tool_key(t: Tool) -> char {
    match t {
        Tool::Select => 's',
        Tool::Line => 'l',
        Tool::Rectangle => 'r',
        Tool::Arrow => 'a',
        Tool::Text => 't',
    }
}

/// The tool whose shortcut is `c`, if any.
pub open spec fn tool_for_key(c: char) -> Option<Tool> {
    if c == 's' { Some(Tool::Select) }
    else if c == 'l' { Some(Tool::Line) }
    else if c == 'r' { Some(Tool::Rectangle) }
    else if c == 'a' { Some(Tool::Arrow) }
    else if c == 't' { Some(Tool::Text) }
    else { None }
}

impl Tool {
    /// All tools, in panel order.
    pub fn all() -> (v: Vec<Tool>)
        ensures
            v@ == tool_order(),
    {
        let v = vec![Tool::Select, Tool::Line, Tool::Rectangle, Tool::Arrow, Tool::Text];
        assert(v@ =~= tool_order());
        v
    }

    /// The display name.
    pub fn name(&self) -> (r: &'static str)
        ensures
            r@ == tool_name(*self),
    {
        match self {
            Tool::Select => "Select",
            Tool::Line => "Line",
            Tool::Rectangle => "Rectangle",
            Tool::Arrow => "Arrow",
            Tool::Text => "Text",
        }
    }

    /// The keyboard shortcut.
    pub fn key(&self) -> (r: char)
        ensures
            r == tool_key(*self),
    {
        match self {
            Tool::Select => 's',
            Tool::Line => 'l',
            Tool::Rectangle => 'r',
            Tool::Arrow => 'a',
            Tool::Text => 't',
        }
    }

    /// The length of the longest tool name.
    pub fn max_name_len() -> (n: usize)
        ensures
            n == 9,
            forall|t: Tool| tool_name(t).len() <= n,
            exists|t: Tool| tool_name(t).len() == n,
    {
        proof {
            reveal_strlit("Select");
            reveal_strlit("Line");
            reveal_strlit("Rectangle");
            reveal_strlit("Arrow");
            reveal_strlit("Text");
            assert(tool_name(Tool::Rectangle).len() == 9);
        }
        9
    }

    /// The tool whose shortcut is `c`.
    pub fn from_key(c: char) -> (r: Option<Tool>)
        ensures
            r == tool_for_key(c),
    {
        if c == 's' { Some(Tool::Select) }
        else if c == 'l' { Some(Tool::Line) }
        else if c == 'r' { Some(Tool::Rectangle) }
        else if c == 'a' { Some(Tool::Arrow) }
        else if c == 't' { Some(Tool::Text) }
        else { None }
    }
}

/// Each shortcut leads back to its tool, and the panel order lists each tool at its index.
pub proof fn lemma_tool_keys_round_trip(t: Tool)
    ensures
        tool_for_key(tool_key(t)) == Some(t),
        tool_order()[tool_index(t) as int] == t,
        tool_index(t) < tool_order().len(),
{
}

/// The line a finished line drag makes: one segment from `start` towards `end`.
pub open spec fn line_view(id: usize, start: Coord, end: Coord) -> ElementView {
    ElementView::Line {
        id,
        name: "Line "@ + decimal((id + 1) as nat),
        segments: seq![segment_between(start, end)],
        bounds: segments_bounds(seq![segment_between(start, end)]),
    }
}

/// The arrow a finished arrow drag makes.
pub open spec fn arrow_view(id: usize, start: Coord, end: Coord) -> ElementView {
    ElementView::Arrow {
        id,
        name: "Arrow "@ + decimal((id + 1) as nat),
        segments: seq![segment_between(start, end)],
        bounds: segments_bounds(seq![segment_between(start, end)]),
    }
}

/// A cell given as a pair.
pub open spec fn pair_coord(p: (u16, u16)) -> Coord {
    Coord { x: p.0, y: p.1 }
}

/// The smaller of two `u16`s.
pub open spec fn lesser(a: u16, b: u16) -> u16 {
    if a <= b { a } else { b }
}

/// The distance between two `u16`s.
pub open spec fn distance(a: u16, b: u16) -> u16 {
    if a <= b { (b - a) as u16 } else { (a - b) as u16 }
}

/// The rectangle spanned by two opposite corners.
pub open spec fn rect_view(id: usize, a: Coord, b: Coord) -> ElementView {
    let start = Coord { x: lesser(a.x, b.x), y: lesser(a.y, b.y) };
    let width = distance(a.x, b.x);
    let height = distance(a.y, b.y);
    ElementView::Rectangle {
        id,
        name: "Rectangle "@ + decimal((id + 1) as nat),
        start,
        width,
        height,
        bounds: box_bounds(start, width, height),
        border_style: BorderStyle::Single,
    }
}

/// The text element a finished text entry makes.
pub open spec fn text_view(id: usize, position: Coord, text: Seq<char>) -> ElementView {
    ElementView::Text {
        id,
        name: "Text "@ + decimal((id + 1) as nat),
        position,
        text,
        bounds: text_bounds(position, byte_len(text)),
    }
}

/// The smaller of two `u16`s.
pub fn min_u16(a: u16, b: u16) -> (r: u16)
    ensures
        r == lesser(a, b),
{
    if a <= b { a } else { b }
}

/// The distance between two `u16`s.
pub fn abs_diff_u16(a: u16, b: u16) -> (r: u16)
    ensures
        r == distance(a, b),
{
    if a <= b { b - a } else { a - b }
}

/// What every drawing tool offers besides its mouse handling.
pub trait DrawingTool {
    /// Whether the preview can be produced without leaving the `i32` range.
    spec fn preview_ok(&self) -> bool;

    /// Whether `r` is what the tool shows in its present state.
    spec fn preview_is(&self, r: Seq<RenderPoint>) -> bool;

    /// Whether the tool holds no operation.
    spec fn at_rest(&self) -> bool;

    /// Whether an operation is in progress.
    spec fn in_progress(&self) -> bool;

    /// What finishing from this state does to the canvas, `before` to `after`.
    spec fn finish_effect(&self, before: CanvasState, after: CanvasState) -> bool;

    /// What the tool would draw now.
    fn preview_points(&self) -> (r: Vec<RenderPoint>)
        requires
            self.preview_ok(),
        ensures
            self.preview_is(r@),
    ;

    /// Ends the operation in progress (only text is committed).
    fn finish(&mut self, state: &mut CanvasState)
        requires
            old(state).spec_next_id() < usize::MAX,
        ensures
            final(self).at_rest(),
            old(self).finish_effect(*old(state), *final(state)),
    ;

    /// Drops the operation in progress.
    fn cancel(&mut self)
        ensures
            final(self).at_rest(),
    ;

    /// Whether an operation is in progress.
    fn is_drawing(&self) -> (r: bool)
        ensures
            r == self.in_progress(),
    ;
}

impl DrawingTool for crate::tools::line::LineTool {
    open spec fn preview_ok(&self) -> bool {
        true
    }

    open spec fn preview_is(&self, r: Seq<RenderPoint>) -> bool {
        self.shows_preview(r)
    }

    open spec fn at_rest(&self) -> bool {
        self.is_reset()
    }

    open spec fn in_progress(&self) -> bool {
        self.spec_start() is Some
    }

    /// Only a release draws; finishing leaves the canvas as it was.
    open spec fn finish_effect(&self, before: CanvasState, after: CanvasState) -> bool {
        after == before
    }

    fn preview_points(&self) -> Vec<RenderPoint> {
        crate::tools::line::LineTool::preview_points(self)
    }

    fn finish(&mut self, state: &mut CanvasState) {
        crate::tools::line::LineTool::finish(self, state)
    }

    fn cancel(&mut self) {
        crate::tools::line::LineTool::cancel(self)
    }

    fn is_drawing(&self) -> bool {
        crate::tools::line::LineTool::is_drawing(self)
    }
}

impl DrawingTool for crate::tools::rectangle::RectangleTool {
    open spec fn preview_ok(&self) -> bool {
        true
    }

    open spec fn preview_is(&self, r: Seq<RenderPoint>) -> bool {
        self.shows_preview(r)
    }

    open spec fn at_rest(&self) -> bool {
        self.is_reset()
    }

    open spec fn in_progress(&self) -> bool {
        self.spec_start() is Some
    }

    /// Only a release draws; finishing leaves the canvas as it was.
    open spec fn finish_effect(&self, before: CanvasState, after: CanvasState) -> bool {
        after == before
    }

    fn preview_points(&self) -> Vec<RenderPoint> {
        crate::tools::rectangle::RectangleTool::preview_points(self)
    }

    fn finish(&mut self, state: &mut CanvasState) {
        crate::tools::rectangle::RectangleTool::finish(self, state)
    }

    fn cancel(&mut self) {
        crate::tools::rectangle::RectangleTool::cancel(self)
    }

    fn is_drawing(&self) -> bool {
        crate::tools::rectangle::RectangleTool::is_drawing(self)
    }
}

impl DrawingTool for crate::tools::arrow::ArrowTool {
    open spec fn preview_ok(&self) -> bool {
        true
    }

    open spec fn preview_is(&self, r: Seq<RenderPoint>) -> bool {
        self.shows_preview(r)
    }

    open spec fn at_rest(&self) -> bool {
        self.is_reset()
    }

    open spec fn in_progress(&self) -> bool {
        self.spec_start() is Some
    }

    /// Only a release draws; finishing leaves the canvas as it was.
    open spec fn finish_effect(&self, before: CanvasState, after: CanvasState) -> bool {
        after == before
    }

    fn preview_points(&self) -> Vec<RenderPoint> {
        crate::tools::arrow::ArrowTool::preview_points(self)
    }

    fn finish(&mut self, state: &mut CanvasState) {
        crate::tools::arrow::ArrowTool::finish(self, state)
    }

    fn cancel(&mut self) {
        crate::tools::arrow::ArrowTool::cancel(self)
    }

    fn is_drawing(&self) -> bool {
        crate::tools::arrow::ArrowTool::is_drawing(self)
    }
}

impl DrawingTool for crate::tools::text::TextTool {
    open spec fn preview_ok(&self) -> bool {
        self.preview_fits()
    }

    open spec fn preview_is(&self, r: Seq<RenderPoint>) -> bool {
        self.shows_preview(r)
    }

    open spec fn at_rest(&self) -> bool {
        self.is_reset()
    }

    open spec fn in_progress(&self) -> bool {
        self.spec_position() is Some
    }

    /// Finishing commits typed text as a new element; with nothing typed the
    /// canvas stays as it was.
    open spec fn finish_effect(&self, before: CanvasState, after: CanvasState) -> bool {
        match self.spec_position() {
            Some(p) => if self.spec_text().len() > 0 {
                &&& after.spec_next_id() == before.spec_next_id() + 1
                &&& adds(before.spec_elements(), after.spec_elements(),
                    text_view(before.spec_next_id(), pair_coord(p), self.spec_text()))
            } else {
                after == before
            },
            None => after == before,
        }
    }

    fn preview_points(&self) -> Vec<RenderPoint> {
        crate::tools::text::TextTool::preview_points(self)
    }

    fn finish(&mut self, state: &mut CanvasState) {
        crate::tools::text::TextTool::finish(self, state)
    }

    fn cancel(&mut self) {
        crate::tools::text::TextTool::cancel(self)
    }

    fn is_drawing(&self) -> bool {
        crate::tools::text::TextTool::is_drawing(self)
    }
}

/// A rectangle drawn between two points has them as opposite corners: its
/// box runs from the smaller to the larger of each coordinate.
pub proof fn lemma_rect_spans_corners(id: usize, a: Coord, b: Coord)
    ensures
        rect_view(id, a, b) matches ElementView::Rectangle { bounds, .. } && bounds == (crate::types::Bounds {
            min: Coord { x: lesser(a.x, b.x), y: lesser(a.y, b.y) },
            max: Coord { x: if a.x <= b.x { b.x } else { a.x }, y: if a.y <= b.y { b.y } else { a.y } },
        }),
{
}

} // verus!
