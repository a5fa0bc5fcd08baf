use vstd::prelude::*;
use crate::elements::line::RenderPoint;
use crate::events::types::{KeyEvent, KeyModifiers, MouseButton, MouseEvent, MouseEventKind};
use crate::events::EventResult;
use crate::state::canvas::CanvasState;
use crate::tools::arrow::ArrowTool;
use crate::tools::line::LineTool;
use crate::tools::rectangle::RectangleTool;
use crate::tools::text::TextTool;
use crate::tools::{tool_index, tool_order, Tool};

verus! {

/// The drawing tool in use, with its progress.
pub enum ActiveTool {
    Line(LineTool),
    Rectangle(RectangleTool),
    Arrow(ArrowTool),
    Text(TextTool),
}

/// A press, release or drag of the left button at a cell, without modifiers.
pub open spec fn left_event(x: u16, y: u16, kind: MouseEventKind) -> MouseEvent {
    MouseEvent { column: x, row: y, kind, modifiers: KeyModifiers { shift: false, control: false, alt: false } }
}

/// `a` became `b` (and the canvas `cb` became `ca`) by a left press at `(x, y)`.
pub open spec fn pressed(a: ActiveTool, b: ActiveTool, cb: CanvasState, ca: CanvasState, x: u16, y: u16) -> bool {
    exists|r: EventResult| a.down_step(b, cb, ca, left_event(x, y, MouseEventKind::Down(MouseButton::Left)), r)
}

/// `a` became `b` (and the canvas `cb` became `ca`) by a left drag to `(x, y)`.
pub open spec fn dragged(a: ActiveTool, b: ActiveTool, cb: CanvasState, ca: CanvasState, x: u16, y: u16) -> bool {
    exists|r: EventResult| a.drag_step(b, cb, ca, left_event(x, y, MouseEventKind::Drag(MouseButton::Left)), r)
}

/// `a` became `b` (and the canvas `cb` became `ca`) by a left release at `(x, y)`.
pub open spec fn released(a: ActiveTool, b: ActiveTool, cb: CanvasState, ca: CanvasState, x: u16, y: u16) -> bool {
    exists|r: EventResult| a.up_step(b, cb, ca, left_event(x, y, MouseEventKind::Up(MouseButton::Left)), r)
}

/// The active tool that choosing `tool` starts with: nothing for Select,
/// otherwise that tool with nothing in progress.
pub open spec fn fresh_for(a: Option<ActiveTool>, tool: Tool) -> bool {
    match tool {
        Tool::Select => a is None,
        Tool::Line => a matches Some(ActiveTool::Line(t)) && t.is_reset(),
        Tool::Rectangle => a matches Some(ActiveTool::Rectangle(t)) && t.is_reset(),
        Tool::Arrow => a matches Some(ActiveTool::Arrow(t)) && t.is_reset(),
        Tool::Text => a matches Some(ActiveTool::Text(t)) && t.is_reset(),
    }
}

impl ActiveTool {
    /// What a mouse press does.
    pub open spec fn down_step(self, after: Self, cb: CanvasState, ca: CanvasState, ev: MouseEvent, r: EventResult) -> bool {
        match (self, after) {
            (ActiveTool::Line(a), ActiveTool::Line(b)) => a.down_step(b, cb, ca, ev, r),
            (ActiveTool::Rectangle(a), ActiveTool::Rectangle(b)) => a.down_step(b, cb, ca, ev, r),
            (ActiveTool::Arrow(a), ActiveTool::Arrow(b)) => a.down_step(b, cb, ca, ev, r),
            (ActiveTool::Text(a), ActiveTool::Text(b)) => a.down_step(b, cb, ca, ev, r),
            _ => false,
        }
    }

    /// What a mouse move does.
    pub open spec fn moved_step(self, after: Self, cb: CanvasState, ca: CanvasState, ev: MouseEvent, r: EventResult) -> bool {
        match (self, after) {
            (ActiveTool::Line(a), ActiveTool::Line(b)) => a.moved_step(b, cb, ca, ev, r),
            (ActiveTool::Rectangle(a), ActiveTool::Rectangle(b)) => a.moved_step(b, cb, ca, ev, r),
            (ActiveTool::Arrow(a), ActiveTool::Arrow(b)) => a.moved_step(b, cb, ca, ev, r),
            (ActiveTool::Text(a), ActiveTool::Text(b)) => a.moved_step(b, cb, ca, ev, r),
            _ => false,
        }
    }

    /// What a mouse drag does.
    pub open spec fn drag_step(self, after: Self, cb: CanvasState, ca: CanvasState, ev: MouseEvent, r: EventResult) -> bool {
        match (self, after) {
            (ActiveTool::Line(a), ActiveTool::Line(b)) => a.drag_step(b, cb, ca, ev, r),
            (ActiveTool::Rectangle(a), ActiveTool::Rectangle(b)) => a.drag_step(b, cb, ca, ev, r),
            (ActiveTool::Arrow(a), ActiveTool::Arrow(b)) => a.drag_step(b, cb, ca, ev, r),
            (ActiveTool::Text(a), ActiveTool::Text(b)) => a.drag_step(b, cb, ca, ev, r),
            _ => false,
        }
    }

    /// What a mouse release does.
    pub open spec fn up_step(self, after: Self, cb: CanvasState, ca: CanvasState, ev: MouseEvent, r: EventResult) -> bool {
        match (self, after) {
            (ActiveTool::Line(a), ActiveTool::Line(b)) => a.up_step(b, cb, ca, ev, r),
            (ActiveTool::Rectangle(a), ActiveTool::Rectangle(b)) => a.up_step(b, cb, ca, ev, r),
            (ActiveTool::Arrow(a), ActiveTool::Arrow(b)) => a.up_step(b, cb, ca, ev, r),
            (ActiveTool::Text(a), ActiveTool::Text(b)) => a.up_step(b, cb, ca, ev, r),
            _ => false,
        }
    }

    /// What a key does: the text tool takes keys while typing; the others pass them on.
    pub open spec fn key_step(self, after: Self, cb: CanvasState, ca: CanvasState, key: KeyEvent, r: EventResult) -> bool {
        match (self, after) {
            (ActiveTool::Text(a), ActiveTool::Text(b)) => a.key_step(b, cb, ca, key, r),
            (ActiveTool::Text(_), _) => false,
            _ => r == EventResult::Ignored && after == self && ca == cb,
        }
    }

    /// Whether `r` is what the tool shows while drawing.
    pub open spec fn shows_preview(self, r: Seq<RenderPoint>) -> bool {
        match self {
            ActiveTool::Line(t) => t.shows_preview(r),
            ActiveTool::Rectangle(t) => t.shows_preview(r),
            ActiveTool::Arrow(t) => t.shows_preview(r),
            ActiveTool::Text(t) => t.shows_preview(r),
        }
    }

    /// Whether something is being drawn.
    pub open spec fn spec_is_drawing(self) -> bool {
        match self {
            ActiveTool::Line(t) => t.spec_start() is Some,
            ActiveTool::Rectangle(t) => t.spec_start() is Some,
            ActiveTool::Arrow(t) => t.spec_start() is Some,
            ActiveTool::Text(t) => t.spec_position() is Some,
        }
    }

    /// Whether the tool holds nothing in progress.
    pub open spec fn is_reset(self) -> bool {
        match self {
            ActiveTool::Line(t) => t.is_reset(),
            ActiveTool::Rectangle(t) => t.is_reset(),
            ActiveTool::Arrow(t) => t.is_reset(),
            ActiveTool::Text(t) => t.is_reset(),
        }
    }

    /// Whether the preview can be drawn without leaving the `i32` range.
    pub open spec fn preview_fits(self) -> bool {
        match self {
            ActiveTool::Text(t) => t.preview_fits(),
            _ => true,
        }
    }

    /// Whether the preview stays inside the `i32` range (see `preview_fits`).
    pub fn fits_preview(&self) -> (r: bool)
        ensures
            r == self.preview_fits(),
    {
        match self {
            ActiveTool::Text(t) => t.fits_preview(),
            _ => true,
        }
    }

    /// Forwards a key.
    pub fn handle_key_event(&mut self, state: &mut CanvasState, key_event: &KeyEvent) -> (r: EventResult)
        requires
            old(state).spec_next_id() < usize::MAX,
        ensures
            old(self).key_step(*final(self), *old(state), *final(state), *key_event, r),
    {
        match self {
            ActiveTool::Text(t) => t.handle_key_event(state, key_event),
            _ => EventResult::Ignored,
        }
    }

    /// Forwards a mouse press.
    pub fn handle_mouse_down(&mut self, state: &mut CanvasState, mouse_event: &MouseEvent) -> (r: EventResult)
        requires
            old(state).spec_next_id() < usize::MAX,
        ensures
            old(self).down_step(*final(self), *old(state), *final(state), *mouse_event, r),
    {
        match self {
            ActiveTool::Line(t) => t.handle_mouse_down(state, mouse_event),
            ActiveTool::Rectangle(t) => t.handle_mouse_down(state, mouse_event),
            ActiveTool::Arrow(t) => t.handle_mouse_down(state, mouse_event),
            ActiveTool::Text(t) => t.handle_mouse_down(state, mouse_event),
        }
    }

    /// Forwards a mouse move.
    pub fn handle_mouse_moved(&mut self, state: &mut CanvasState, mouse_event: &MouseEvent) -> (r: EventResult)
        ensures
            old(self).moved_step(*final(self), *old(state), *final(state), *mouse_event, r),
    {
        match self {
            ActiveTool::Line(t) => t.handle_mouse_moved(state, mouse_event),
            ActiveTool::Rectangle(t) => t.handle_mouse_moved(state, mouse_event),
            ActiveTool::Arrow(t) => t.handle_mouse_moved(state, mouse_event),
            ActiveTool::Text(t) => t.handle_mouse_moved(state, mouse_event),
        }
    }

    /// Forwards a mouse drag.
    pub fn handle_mouse_drag(&mut self, state: &mut CanvasState, mouse_event: &MouseEvent) -> (r: EventResult)
        ensures
            old(self).drag_step(*final(self), *old(state), *final(state), *mouse_event, r),
    {
        match self {
            ActiveTool::Line(t) => t.handle_mouse_drag(state, mouse_event),
            ActiveTool::Rectangle(t) => t.handle_mouse_drag(state, mouse_event),
            ActiveTool::Arrow(t) => t.handle_mouse_drag(state, mouse_event),
            ActiveTool::Text(t) => t.handle_mouse_drag(state, mouse_event),
        }
    }

    /// Forwards a mouse release.
    pub fn handle_mouse_up(&mut self, state: &mut CanvasState, mouse_event: &MouseEvent) -> (r: EventResult)
        requires
            old(state).spec_next_id() < usize::MAX,
        ensures
            old(self).up_step(*final(self), *old(state), *final(state), *mouse_event, r),
    {
        match self {
            ActiveTool::Line(t) => t.handle_mouse_up(state, mouse_event),
            ActiveTool::Rectangle(t) => t.handle_mouse_up(state, mouse_event),
            ActiveTool::Arrow(t) => t.handle_mouse_up(state, mouse_event),
            ActiveTool::Text(t) => t.handle_mouse_up(state, mouse_event),
        }
    }

    /// Drops what is in progress.
    pub fn cancel(&mut self)
        ensures
            final(self).is_reset(),
            *final(self) is Line <==> *old(self) is Line,
            *final(self) is Rectangle <==> *old(self) is Rectangle,
            *final(self) is Arrow <==> *old(self) is Arrow,
            *final(self) is Text <==> *old(self) is Text,
    {
        match self {
            ActiveTool::Line(t) => t.cancel(),
            ActiveTool::Rectangle(t) => t.cancel(),
            ActiveTool::Arrow(t) => t.cancel(),
            ActiveTool::Text(t) => t.cancel(),
        }
    }

    /// Whether something is being drawn.
    pub fn is_drawing(&self) -> (r: bool)
        ensures
            r == self.spec_is_drawing(),
    {
        match self {
            ActiveTool::Line(t) => t.is_drawing(),
            ActiveTool::Rectangle(t) => t.is_drawing(),
            ActiveTool::Arrow(t) => t.is_drawing(),
            ActiveTool::Text(t) => t.is_drawing(),
        }
    }

    /// What the tool would draw now.
    pub fn preview_points(&self) -> (r: Vec<RenderPoint>)
        requires
            self.preview_fits(),
        ensures
            self.shows_preview(r@),
            !self.spec_is_drawing() ==> r@.len() == 0,
    {
        match self {
            ActiveTool::Line(t) => t.preview_points(),
            ActiveTool::Rectangle(t) => t.preview_points(),
            ActiveTool::Arrow(t) => t.preview_points(),
            ActiveTool::Text(t) => t.preview_points(),
        }
    }
}

} // verus!

verus! {

/// The chosen tool, its place in the panel, whether it stays after drawing,
/// and the drawing in progress.
pub struct ToolState {
    pub selected_tool: Tool,
    pub tool_index: usize,
    pub tool_locked: bool,
    pub active_tool: Option<ActiveTool>,
}

impl ToolState {
    /// The drawing tool in use; none while selecting.
    pub open spec fn spec_active(&self) -> Option<ActiveTool> {
        self.active_tool
    }

    /// The panel index points into the panel's list.
    pub open spec fn wf(&self) -> bool {
        self.tool_index < 5
    }

    /// Whether a drawing is in progress.
    pub open spec fn spec_is_drawing(&self) -> bool {
        self.spec_active() matches Some(a) && a.spec_is_drawing()
    }

    /// The Select tool, first in the panel, unlocked.
    pub fn new() -> (t: Self)
        ensures
            t.selected_tool == Tool::Select,
            t.tool_index == 0,
            !t.tool_locked,
            t.spec_active() is None,
            t.wf(),
    {
        ToolState { selected_tool: Tool::Select, tool_index: 0, tool_locked: false, active_tool: None }
    }

    /// Chooses `tool`, with nothing in progress; tells whether the choice is
    /// not Select (so that a caller drops its selection).
    pub fn select_tool(&mut self, tool: Tool) -> (leaves_select: bool)
        ensures
            final(self).selected_tool == tool,
            final(self).tool_index == tool_index(tool),
            final(self).tool_locked == old(self).tool_locked,
            fresh_for(final(self).spec_active(), tool),
            leaves_select == (tool != Tool::Select),
            final(self).wf(),
    {
        self.selected_tool = tool;
        let tools = Tool::all();
        let mut index: usize = 0;
        let mut i: usize = 0;
        while i < tools.len()
            invariant
                tools@ == tool_order(),
                i <= tools@.len(),
                i <= tool_index(tool) ==> index == 0,
                i > tool_index(tool) ==> index == tool_index(tool),
            decreases tools.len() - i,
        {
            if tools[i] == tool {
                index = i;
            }
            i = i + 1;
        }
        self.tool_index = index;
        self.active_tool = match tool {
            Tool::Select => None,
            Tool::Line => Some(ActiveTool::Line(LineTool::new())),
            Tool::Rectangle => Some(ActiveTool::Rectangle(RectangleTool::new())),
            Tool::Arrow => Some(ActiveTool::Arrow(ArrowTool::new())),
            Tool::Text => Some(ActiveTool::Text(TextTool::new())),
        };
        tool != Tool::Select
    }

    /// Chooses the next tool in the panel, wrapping around.
    pub fn select_next_tool(&mut self)
        requires
            old(self).wf(),
        ensures
            final(self).selected_tool == tool_order()[(old(self).tool_index + 1) % 5],
            final(self).tool_index == (old(self).tool_index + 1) % 5,
            final(self).tool_locked == old(self).tool_locked,
            fresh_for(final(self).spec_active(), final(self).selected_tool),
            final(self).wf(),
    {
        let tools = Tool::all();
        self.tool_index = (self.tool_index + 1) % tools.len();
        let tool = tools[self.tool_index];
        self.select_tool(tool);
    }

    /// Chooses the previous tool in the panel, wrapping around.
    pub fn select_prev_tool(&mut self)
        requires
            old(self).wf(),
        ensures
            final(self).tool_index == (if old(self).tool_index == 0 { 4 } else { old(self).tool_index - 1 }),
            final(self).selected_tool == tool_order()[final(self).tool_index as int],
            final(self).tool_locked == old(self).tool_locked,
            fresh_for(final(self).spec_active(), final(self).selected_tool),
            final(self).wf(),
    {
        let tools = Tool::all();
        self.tool_index = if self.tool_index == 0 { tools.len() - 1 } else { self.tool_index - 1 };
        let tool = tools[self.tool_index];
        self.select_tool(tool);
    }

    /// Whether Select is chosen.
    pub fn is_select_tool(&self) -> (r: bool)
        ensures
            r == (self.selected_tool == Tool::Select),
    {
        self.selected_tool == Tool::Select
    }

    /// Flips whether the tool stays after drawing.
    pub fn toggle_tool_lock(&mut self)
        ensures
            final(self).tool_locked == !old(self).tool_locked,
            final(self).selected_tool == old(self).selected_tool,
            final(self).tool_index == old(self).tool_index,
            final(self).spec_active() == old(self).spec_active(),
    {
        self.tool_locked = !self.tool_locked;
    }

    /// The drawing tool in use, to hand events to.
    pub fn active_tool_mut(&mut self) -> (r: Option<&mut ActiveTool>)
        ensures
            match old(self).spec_active() {
                Some(a) => r is Some && *r->0 == a && final(self).spec_active() == Some(*final(r->0)),
                None => r is None && final(self).spec_active() is None,
            },
            final(self).selected_tool == old(self).selected_tool,
            final(self).tool_index == old(self).tool_index,
            final(self).tool_locked == old(self).tool_locked,
    {
        match &mut self.active_tool {
            Some(a) => Some(a),
            None => None,
        }
    }

    /// Presses the left button at `(x, y)` for the drawing tool.
    pub fn start_drawing(&mut self, x: u16, y: u16, canvas: &mut CanvasState)
        requires
            old(canvas).spec_next_id() < usize::MAX,
        ensures
            final(self).selected_tool == old(self).selected_tool,
            final(self).tool_index == old(self).tool_index,
            final(self).tool_locked == old(self).tool_locked,
            match old(self).spec_active() {
                Some(a) => final(self).spec_active() matches Some(b) && pressed(a, b, *old(canvas), *final(canvas), x, y),
                None => final(self).spec_active() is None && *final(canvas) == *old(canvas),
            },
    {
        let ev = MouseEvent { column: x, row: y, kind: MouseEventKind::Down(MouseButton::Left), modifiers: KeyModifiers::none() };
        if let Some(tool) = self.active_tool_mut() {
            let _ = tool.handle_mouse_down(canvas, &ev);
        }
    }

    /// Drags the left button to `(x, y)` for the drawing tool.
    pub fn update_drawing(&mut self, x: u16, y: u16, canvas: &mut CanvasState)
        ensures
            final(self).selected_tool == old(self).selected_tool,
            final(self).tool_index == old(self).tool_index,
            final(self).tool_locked == old(self).tool_locked,
            match old(self).spec_active() {
                Some(a) => final(self).spec_active() matches Some(b) && dragged(a, b, *old(canvas), *final(canvas), x, y),
                None => final(self).spec_active() is None && *final(canvas) == *old(canvas),
            },
    {
        let ev = MouseEvent { column: x, row: y, kind: MouseEventKind::Drag(MouseButton::Left), modifiers: KeyModifiers::none() };
        if let Some(tool) = self.active_tool_mut() {
            let _ = tool.handle_mouse_drag(canvas, &ev);
        }
    }

    /// Releases the left button at `(x, y)` for the drawing tool; tells
    /// whether the canvas gained an element.
    pub fn finish_drawing(&mut self, x: u16, y: u16, canvas: &mut CanvasState) -> (created: bool)
        requires
            old(canvas).spec_next_id() < usize::MAX,
        ensures
            final(self).selected_tool == old(self).selected_tool,
            final(self).tool_index == old(self).tool_index,
            final(self).tool_locked == old(self).tool_locked,
            match old(self).spec_active() {
                Some(a) => final(self).spec_active() matches Some(b) && released(a, b, *old(canvas), *final(canvas), x, y),
                None => final(self).spec_active() is None && *final(canvas) == *old(canvas),
            },
            created == (final(canvas).spec_elements().len() > old(canvas).spec_elements().len()),
    {
        let ev = MouseEvent { column: x, row: y, kind: MouseEventKind::Up(MouseButton::Left), modifiers: KeyModifiers::none() };
        let before = canvas.elements().len();
        if let Some(tool) = self.active_tool_mut() {
            let _ = tool.handle_mouse_up(canvas, &ev);
        }
        let after = canvas.elements().len();
        after > before
    }

    /// Drops the drawing in progress.
    pub fn cancel_drawing(&mut self)
        ensures
            final(self).selected_tool == old(self).selected_tool,
            final(self).tool_index == old(self).tool_index,
            final(self).tool_locked == old(self).tool_locked,
            match old(self).spec_active() {
                Some(a) => final(self).spec_active() matches Some(b) && b.is_reset()
                    && (b is Line <==> a is Line) && (b is Rectangle <==> a is Rectangle)
                    && (b is Arrow <==> a is Arrow) && (b is Text <==> a is Text),
                None => final(self).spec_active() is None,
            },
    {
        if let Some(tool) = self.active_tool_mut() {
            tool.cancel();
        }
    }

    /// Whether a drawing is in progress.
    pub fn is_drawing(&self) -> (r: bool)
        ensures
            r == self.spec_is_drawing(),
    {
        match &self.active_tool {
            Some(tool) => tool.is_drawing(),
            None => false,
        }
    }

    /// What the drawing tool would draw now; nothing while selecting.
    pub fn get_preview_points(&self) -> (r: Vec<RenderPoint>)
        requires
            self.spec_active() matches Some(a) ==> a.preview_fits(),
        ensures
            match self.spec_active() {
                Some(a) => a.shows_preview(r@),
                None => r@.len() == 0,
            },
    {
        match &self.active_tool {
            Some(tool) => tool.preview_points(),
            None => Vec::new(),
        }
    }

    /// Whether text is being typed.
    pub fn is_text_input_mode(&self) -> (r: bool)
        ensures
            r == (self.selected_tool == Tool::Text && self.spec_is_drawing()),
    {
        self.selected_tool == Tool::Text && self.is_drawing()
    }

    /// Types a character into the text tool; nothing for other tools.
    pub fn add_text_char(&mut self, c: char)
        ensures
            final(self).selected_tool == old(self).selected_tool,
            final(self).tool_index == old(self).tool_index,
            final(self).tool_locked == old(self).tool_locked,
            match old(self).spec_active() {
                Some(ActiveTool::Text(t)) => final(self).spec_active() matches Some(ActiveTool::Text(u))
                    && u.spec_text() == t.spec_text().push(c) && u.spec_position() == t.spec_position(),
                other => final(self).spec_active() == other,
            },
    {
        if let Some(ActiveTool::Text(t)) = &mut self.active_tool {
            t.add_char(c);
        }
    }

    /// Deletes the last typed character of the text tool; nothing for other tools.
    pub fn text_backspace(&mut self)
        ensures
            final(self).selected_tool == old(self).selected_tool,
            final(self).tool_index == old(self).tool_index,
            final(self).tool_locked == old(self).tool_locked,
            match old(self).spec_active() {
                Some(ActiveTool::Text(t)) => final(self).spec_active() matches Some(ActiveTool::Text(u))
                    && u.spec_position() == t.spec_position()
                    && u.spec_text() == (if t.spec_text().len() == 0 { t.spec_text() } else { t.spec_text().drop_last() }),
                other => final(self).spec_active() == other,
            },
    {
        if let Some(ActiveTool::Text(t)) = &mut self.active_tool {
            t.backspace();
        }
    }

    /// Commits typed text, as a release at the origin does; tells whether the
    /// canvas gained an element.
    pub fn finish_text_input(&mut self, canvas: &mut CanvasState) -> (created: bool)
        requires
            old(canvas).spec_next_id() < usize::MAX,
        ensures
            final(self).selected_tool == old(self).selected_tool,
            final(self).tool_index == old(self).tool_index,
            final(self).tool_locked == old(self).tool_locked,
            match old(self).spec_active() {
                Some(a) => final(self).spec_active() matches Some(b) && released(a, b, *old(canvas), *final(canvas), 0, 0),
                None => final(self).spec_active() is None && *final(canvas) == *old(canvas),
            },
            created == (final(canvas).spec_elements().len() > old(canvas).spec_elements().len()),
    {
        self.finish_drawing(0, 0, canvas)
    }
}

impl Default for ToolState {
    fn default() -> (t: Self)
        ensures
            t.selected_tool == Tool::Select,
            t.tool_index == 0,
            !t.tool_locked,
            t.spec_active() is None,
    {
        ToolState::new()
    }
}

/// Choosing a tool leaves no drawing in progress.
pub proof fn lemma_fresh_tool_idle(a: Option<ActiveTool>, tool: Tool)
    requires
        fresh_for(a, tool),
    ensures
        !(a matches Some(x) && x.spec_is_drawing()),
{
}

} // verus!
