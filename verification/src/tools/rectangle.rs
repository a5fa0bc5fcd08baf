use vstd::prelude::*;
use crate::elements::line::RenderPoint;
use crate::elements::rectangle::RectangleElement;
use crate::elements::borders::{border_chars, BorderStyle};
use crate::geometry::box_cells;
use crate::elements::Element;
use crate::events::types::MouseEvent;
use crate::events::{ActionType, EventResult};
use crate::state::canvas::{adds, CanvasState};
use crate::tools::line::event_coord;
use crate::tools::{pair_coord, abs_diff_u16, distance, lesser, min_u16, rect_view, DrawingState};
use crate::types::Coord;

verus! {

/// The rectangle tool: click-move-click or drag between opposite corners.
pub struct RectangleTool {
    start: Option<(u16, u16)>,
    current: Option<(u16, u16)>,
    state: DrawingState,
}

impl RectangleTool {
    /// The anchored corner.
    pub closed spec fn spec_start(&self) -> Option<(u16, u16)> {
        self.start
    }

    /// The moving corner.
    pub closed spec fn spec_current(&self) -> Option<(u16, u16)> {
        self.current
    }

    /// The drawing state.
    pub closed spec fn spec_state(&self) -> DrawingState {
        self.state
    }

    /// Whether the tool holds nothing.
    pub open spec fn is_reset(&self) -> bool {
        self.spec_start() is None && self.spec_current() is None && self.spec_state() == DrawingState::Idle
    }

    /// Whether `r` is what the tool shows while drawing.
    pub open spec fn shows_preview(self, r: Seq<RenderPoint>) -> bool {
        &&& (self.spec_start() is Some && self.spec_current() is Some) ==> {
            let (sx, sy) = self.spec_start()->0;
            let (cx, cy) = self.spec_current()->0;
            r == box_cells(lesser(sx, cx) as int, lesser(sy, cy) as int,
                lesser(sx, cx) + distance(sx, cx), lesser(sy, cy) + distance(sy, cy),
                border_chars(BorderStyle::Single))
        }
        &&& !(self.spec_start() is Some && self.spec_current() is Some) ==> r.len() == 0
    }

    /// What a mouse press does to the tool and the canvas.
    pub open spec fn down_step(self, after: Self, cb: CanvasState, ca: CanvasState, ev: MouseEvent, r: EventResult) -> bool {
        &&& match self.spec_state() {
            DrawingState::Idle => {
                &&& r == EventResult::Consumed
                &&& after.spec_start() == Some((ev.column, ev.row))
                &&& after.spec_current() == Some((ev.column, ev.row))
                &&& after.spec_state() == DrawingState::Anchored
                &&& ca == cb
            },
            DrawingState::Anchored => {
                &&& after.is_reset()
                &&& if self.spec_start() is Some
                    && self.spec_start()->0 != (ev.column, ev.row) {
                    &&& r == EventResult::Action(ActionType::FinishedDrawing)
                    &&& ca.spec_next_id() == cb.spec_next_id() + 1
                    &&& adds(cb.spec_elements(), ca.spec_elements(),
                        rect_view(cb.spec_next_id(),
                            pair_coord(self.spec_start()->0),
                            event_coord(ev)))
                } else {
                    r == EventResult::Consumed && ca == cb
                }
            },
            DrawingState::Dragging => {
                r == EventResult::Consumed && after.is_reset() && ca == cb
            }
        }
    }

    /// What a mouse move does to the tool and the canvas.
    pub open spec fn moved_step(self, after: Self, cb: CanvasState, ca: CanvasState, ev: MouseEvent, r: EventResult) -> bool {
        &&& ca == cb
        &&& after.spec_start() == self.spec_start()
        &&& after.spec_state() == self.spec_state()
        &&& if self.spec_state() == DrawingState::Anchored {
            r == EventResult::Consumed && after.spec_current() == Some((ev.column, ev.row))
        } else {
            r == EventResult::Ignored && after.spec_current() == self.spec_current()
        }
    }

    /// What a mouse drag does to the tool and the canvas.
    pub open spec fn drag_step(self, after: Self, cb: CanvasState, ca: CanvasState, ev: MouseEvent, r: EventResult) -> bool {
        &&& r == EventResult::Consumed
        &&& ca == cb
        &&& after.spec_start() == self.spec_start()
        &&& after.spec_current() == Some((ev.column, ev.row))
        &&& after.spec_state() == (if self.spec_state() == DrawingState::Anchored {
            DrawingState::Dragging
        } else {
            self.spec_state()
        })
    }

    /// What a mouse release does to the tool and the canvas.
    pub open spec fn up_step(self, after: Self, cb: CanvasState, ca: CanvasState, ev: MouseEvent, r: EventResult) -> bool {
        &&& if self.spec_state() != DrawingState::Dragging {
            r == EventResult::Consumed && after == self && ca == cb
        } else if self.spec_start() is Some
            && self.spec_start()->0 != (ev.column, ev.row) {
            &&& r == EventResult::Action(ActionType::FinishedDrawing)
            &&& after.is_reset()
            &&& ca.spec_next_id() == cb.spec_next_id() + 1
            &&& adds(cb.spec_elements(), ca.spec_elements(),
                rect_view(cb.spec_next_id(),
                    pair_coord(self.spec_start()->0),
                    event_coord(ev)))
        } else {
            r == EventResult::Consumed && after.is_reset() && ca == cb
        }
    }

    /// A tool with nothing anchored.
    pub fn new() -> (t: Self)
        ensures
            t.is_reset(),
    {
        RectangleTool { start: None, current: None, state: DrawingState::Idle }
    }

    fn reset(&mut self)
        ensures
            final(self).is_reset(),
    {
        self.start = None;
        self.current = None;
        self.state = DrawingState::Idle;
    }

    fn spanning(id: usize, sx: u16, sy: u16, x: u16, y: u16) -> (r: RectangleElement)
        requires
            id < usize::MAX,
        ensures
            Element::Rectangle(r)@ == rect_view(id, Coord { x: sx, y: sy }, Coord { x, y }),
    {
        let left = min_u16(sx, x);
        let top = min_u16(sy, y);
        let width = abs_diff_u16(sx, x);
        let height = abs_diff_u16(sy, y);
        RectangleElement::new(id, Coord { x: left, y: top }, width, height)
    }

    fn commit(state: &mut CanvasState, sx: u16, sy: u16, x: u16, y: u16)
        requires
            old(state).spec_next_id() < usize::MAX,
        ensures
            final(state).spec_next_id() == old(state).spec_next_id() + 1,
            adds(old(state).spec_elements(), final(state).spec_elements(),
                rect_view(old(state).spec_next_id(), Coord { x: sx, y: sy }, Coord { x, y })),
    {
        let id = state.get_next_id();
        let rect = Self::spanning(id, sx, sy, x, y);
        state.add_element(Element::Rectangle(rect));
        assert(final(state).spec_elements().drop_last() =~= old(state).spec_elements());
    }

    /// Mouse press: the first anchors a corner; in click-move-click mode the
    /// second finishes the rectangle, unless it lands on the anchored corner.
    pub fn handle_mouse_down(&mut self, state: &mut CanvasState, mouse_event: &MouseEvent) -> (r: EventResult)
        requires
            old(state).spec_next_id() < usize::MAX,
        ensures
            old(self).down_step(*final(self), *old(state), *final(state), *mouse_event, r),
    {
        let x = mouse_event.column;
        let y = mouse_event.row;
        match self.state {
            DrawingState::Idle => {
                self.start = Some((x, y));
                self.current = Some((x, y));
                self.state = DrawingState::Anchored;
                EventResult::Consumed
            },
            DrawingState::Anchored => {
                match self.start {
                    Some((sx, sy)) => {
                        self.reset();
                        if sx == x && sy == y {
                            EventResult::Consumed
                        } else {
                            Self::commit(state, sx, sy, x, y);
                            EventResult::Action(ActionType::FinishedDrawing)
                        }
                    },
                    None => {
                        self.reset();
                        EventResult::Consumed
                    },
                }
            },
            DrawingState::Dragging => {
                self.reset();
                EventResult::Consumed
            },
        }
    }

    /// Mouse move: in click-move-click mode the preview follows the pointer.
    pub fn handle_mouse_moved(&mut self, state: &mut CanvasState, mouse_event: &MouseEvent) -> (r: EventResult)
        ensures
            old(self).moved_step(*final(self), *old(state), *final(state), *mouse_event, r),
    {
        if self.state == DrawingState::Anchored {
            self.current = Some((mouse_event.column, mouse_event.row));
            EventResult::Consumed
        } else {
            EventResult::Ignored
        }
    }

    /// Mouse drag: switches an anchored rectangle to dragging and moves its corner.
    pub fn handle_mouse_drag(&mut self, state: &mut CanvasState, mouse_event: &MouseEvent) -> (r: EventResult)
        ensures
            old(self).drag_step(*final(self), *old(state), *final(state), *mouse_event, r),
    {
        if self.state == DrawingState::Anchored {
            self.state = DrawingState::Dragging;
        }
        self.current = Some((mouse_event.column, mouse_event.row));
        EventResult::Consumed
    }

    /// Mouse release: finishes a dragged rectangle, unless it ends where it started.
    pub fn handle_mouse_up(&mut self, state: &mut CanvasState, mouse_event: &MouseEvent) -> (r: EventResult)
        requires
            old(state).spec_next_id() < usize::MAX,
        ensures
            old(self).up_step(*final(self), *old(state), *final(state), *mouse_event, r),
    {
        if self.state != DrawingState::Dragging {
            return EventResult::Consumed;
        }
        let x = mouse_event.column;
        let y = mouse_event.row;
        match self.start {
            Some((sx, sy)) => {
                self.reset();
                if sx == x && sy == y {
                    EventResult::Consumed
                } else {
                    Self::commit(state, sx, sy, x, y);
                    EventResult::Action(ActionType::FinishedDrawing)
                }
            },
            None => {
                self.reset();
                EventResult::Consumed
            },
        }
    }

    /// The rectangle as it would be drawn now.
    pub fn preview_points(&self) -> (r: Vec<RenderPoint>)
        ensures
            self.shows_preview(r@),
    {
        match (self.start, self.current) {
            (Some((sx, sy)), Some((cx, cy))) => {
                let rect = Self::spanning(0, sx, sy, cx, cy);
                rect.render_points()
            },
            _ => Vec::new(),
        }
    }

    /// Drops whatever is in progress without drawing.
    pub fn finish(&mut self, state: &mut CanvasState)
        ensures
            final(self).is_reset(),
            *final(state) == *old(state),
    {
        self.reset();
    }

    /// Drops whatever is in progress.
    pub fn cancel(&mut self)
        ensures
            final(self).is_reset(),
    {
        self.reset();
    }

    /// Whether a rectangle is in progress.
    pub fn is_drawing(&self) -> (r: bool)
        ensures
            r == self.spec_start() is Some,
    {
        self.start.is_some()
    }
}

impl Default for RectangleTool {
    fn default() -> (t: Self)
        ensures
            t.is_reset(),
    {
        RectangleTool::new()
    }
}

} // verus!
