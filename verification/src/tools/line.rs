use vstd::prelude::*;
use crate::elements::line::{is_line_rendering, LineElement, RenderPoint};
use crate::elements::segment::{segment_between, Segment};
use crate::elements::Element;
use crate::events::types::MouseEvent;
use crate::events::{ActionType, EventResult};
use crate::state::canvas::{adds, CanvasState};
use crate::tools::{line_view, DrawingState};
use crate::types::Coord;

verus! {

/// The cell a mouse event points at.
pub open spec fn event_coord(e: MouseEvent) -> Coord {
    Coord { x: e.column, y: e.row }
}

/// The line tool: click-move-click or drag from one end to the other.
pub struct LineTool {
    start: Option<Coord>,
    current: Option<Coord>,
    state: DrawingState,
}

impl LineTool {
    /// Where the line starts, once anchored.
    pub closed spec fn spec_start(&self) -> Option<Coord> {
        self.start
    }

    /// Where the line currently ends.
    pub closed spec fn spec_current(&self) -> Option<Coord> {
        self.current
    }

    /// The drawing state.
    pub closed spec fn spec_state(&self) -> DrawingState {
        self.state
    }

    /// Whether the tool holds nothing.
    pub open spec fn is_reset(&self) -> bool {
        self.spec_start() is None && self.spec_current() is None && self.spec_state() == DrawingState::Idle
    }

    /// Whether `r` is what the tool shows while drawing.
    pub open spec fn shows_preview(self, r: Seq<RenderPoint>) -> bool {
        &&& (self.spec_start() is Some && self.spec_current() is Some) ==>
            is_line_rendering(seq![segment_between(self.spec_start()->0, self.spec_current()->0)], r)
        &&& !(self.spec_start() is Some && self.spec_current() is Some) ==> r.len() == 0
    }

    /// What a mouse press does to the tool and the canvas.
    pub open spec fn down_step(self, after: Self, cb: CanvasState, ca: CanvasState, ev: MouseEvent, r: EventResult) -> bool {
        &&& match self.spec_state() {
            DrawingState::Idle => {
                &&& r == EventResult::Consumed
                &&& after.spec_start() == Some(event_coord(ev))
                &&& after.spec_current() == Some(event_coord(ev))
                &&& after.spec_state() == DrawingState::Anchored
                &&& ca == cb
            },
            DrawingState::Anchored => {
                &&& after.is_reset()
                &&& if self.spec_start() is Some && self.spec_start()->0 != event_coord(ev) {
                    &&& r == EventResult::Action(ActionType::FinishedDrawing)
                    &&& ca.spec_next_id() == cb.spec_next_id() + 1
                    &&& adds(cb.spec_elements(), ca.spec_elements(),
                        line_view(cb.spec_next_id(), self.spec_start()->0, event_coord(ev)))
                } else {
                    r == EventResult::Consumed && ca == cb
                }
            },
            DrawingState::Dragging => {
                r == EventResult::Consumed && after.is_reset() && ca == cb
            }
        }
    }

    /// What a mouse move does to the tool and the canvas.
    pub open spec fn moved_step(self, after: Self, cb: CanvasState, ca: CanvasState, ev: MouseEvent, r: EventResult) -> bool {
        &&& ca == cb
        &&& after.spec_start() == self.spec_start()
        &&& after.spec_state() == self.spec_state()
        &&& if self.spec_state() == DrawingState::Anchored {
            r == EventResult::Consumed && after.spec_current() == Some(event_coord(ev))
        } else {
            r == EventResult::Ignored && after.spec_current() == self.spec_current()
        }
    }

    /// What a mouse drag does to the tool and the canvas.
    pub open spec fn drag_step(self, after: Self, cb: CanvasState, ca: CanvasState, ev: MouseEvent, r: EventResult) -> bool {
        &&& r == EventResult::Consumed
        &&& ca == cb
        &&& after.spec_start() == self.spec_start()
        &&& after.spec_current() == Some(event_coord(ev))
        &&& after.spec_state() == (if self.spec_state() == DrawingState::Anchored {
            DrawingState::Dragging
        } else {
            self.spec_state()
        })
    }

    /// What a mouse release does to the tool and the canvas.
    pub open spec fn up_step(self, after: Self, cb: CanvasState, ca: CanvasState, ev: MouseEvent, r: EventResult) -> bool {
        &&& if self.spec_state() != DrawingState::Dragging {
            r == EventResult::Consumed && after == self && ca == cb
        } else if self.spec_start() is Some && self.spec_start()->0 != event_coord(ev) {
            &&& r == EventResult::Action(ActionType::FinishedDrawing)
            &&& after.is_reset()
            &&& ca.spec_next_id() == cb.spec_next_id() + 1
            &&& adds(cb.spec_elements(), ca.spec_elements(),
                line_view(cb.spec_next_id(), self.spec_start()->0, event_coord(ev)))
        } else {
            r == EventResult::Consumed && after.is_reset() && ca == cb
        }
    }

    /// A tool with nothing anchored.
    pub fn new() -> (t: Self)
        ensures
            t.is_reset(),
    {
        LineTool { start: None, current: None, state: DrawingState::Idle }
    }

    fn reset(&mut self)
        ensures
            final(self).is_reset(),
    {
        self.start = None;
        self.current = None;
        self.state = DrawingState::Idle;
    }

    /// Adds the line from `start` to `end` to the canvas.
    fn commit(state: &mut CanvasState, start: Coord, end: Coord)
        requires
            old(state).spec_next_id() < usize::MAX,
        ensures
            final(state).spec_next_id() == old(state).spec_next_id() + 1,
            adds(old(state).spec_elements(), final(state).spec_elements(), line_view(old(state).spec_next_id(), start, end)),
    {
        let id = state.get_next_id();
        let segment = Segment::from_coords(start, end);
        let line = LineElement::new(id, vec![segment]);
        assert(line.segments@ =~= seq![segment_between(start, end)]);
        state.add_element(Element::Line(line));
        assert(final(state).spec_elements().drop_last() =~= old(state).spec_elements());
    }

    /// Mouse press: the first anchors the start; in click-move-click mode the
    /// second finishes the line, unless it lands on the start.
    pub fn handle_mouse_down(&mut self, state: &mut CanvasState, mouse_event: &MouseEvent) -> (r: EventResult)
        requires
            old(state).spec_next_id() < usize::MAX,
        ensures
            old(self).down_step(*final(self), *old(state), *final(state), *mouse_event, r),
    {
        let here = Coord { x: mouse_event.column, y: mouse_event.row };
        match self.state {
            DrawingState::Idle => {
                self.start = Some(here);
                self.current = Some(here);
                self.state = DrawingState::Anchored;
                EventResult::Consumed
            },
            DrawingState::Anchored => {
                match self.start {
                    Some(start) => {
                        self.reset();
                        if start == here {
                            EventResult::Consumed
                        } else {
                            Self::commit(state, start, here);
                            EventResult::Action(ActionType::FinishedDrawing)
                        }
                    },
                    None => {
                        self.reset();
                        EventResult::Consumed
                    },
                }
            },
            DrawingState::Dragging => {
                self.reset();
                EventResult::Consumed
            },
        }
    }

    /// Mouse move: in click-move-click mode the preview follows the pointer.
    pub fn handle_mouse_moved(&mut self, state: &mut CanvasState, mouse_event: &MouseEvent) -> (r: EventResult)
        ensures
            old(self).moved_step(*final(self), *old(state), *final(state), *mouse_event, r),
    {
        if self.state == DrawingState::Anchored {
            self.current = Some(Coord { x: mouse_event.column, y: mouse_event.row });
            EventResult::Consumed
        } else {
            EventResult::Ignored
        }
    }

    /// Mouse drag: switches an anchored line to dragging and moves its end.
    pub fn handle_mouse_drag(&mut self, state: &mut CanvasState, mouse_event: &MouseEvent) -> (r: EventResult)
        ensures
            old(self).drag_step(*final(self), *old(state), *final(state), *mouse_event, r),
    {
        if self.state == DrawingState::Anchored {
            self.state = DrawingState::Dragging;
        }
        self.current = Some(Coord { x: mouse_event.column, y: mouse_event.row });
        EventResult::Consumed
    }

    /// Mouse release: finishes a dragged line, unless it ends where it started.
    pub fn handle_mouse_up(&mut self, state: &mut CanvasState, mouse_event: &MouseEvent) -> (r: EventResult)
        requires
            old(state).spec_next_id() < usize::MAX,
        ensures
            old(self).up_step(*final(self), *old(state), *final(state), *mouse_event, r),
    {
        if self.state != DrawingState::Dragging {
            return EventResult::Consumed;
        }
        let here = Coord { x: mouse_event.column, y: mouse_event.row };
        match self.start {
            Some(start) => {
                self.reset();
                if start == here {
                    EventResult::Consumed
                } else {
                    Self::commit(state, start, here);
                    EventResult::Action(ActionType::FinishedDrawing)
                }
            },
            None => {
                self.reset();
                EventResult::Consumed
            },
        }
    }

    /// The line as it would be drawn now, while anchored or dragging.
    pub fn preview_points(&self) -> (r: Vec<RenderPoint>)
        ensures
            self.shows_preview(r@),
    {
        match (self.start, self.current) {
            (Some(start), Some(current)) => {
                let segment = Segment::from_coords(start, current);
                let line = LineElement::new(0, vec![segment]);
                assert(line.segments@ =~= seq![segment_between(start, current)]);
                line.render_points()
            },
            _ => Vec::new(),
        }
    }

    /// Drops whatever is in progress without drawing.
    pub fn finish(&mut self, state: &mut CanvasState)
        ensures
            final(self).is_reset(),
            *final(state) == *old(state),
    {
        self.reset();
    }

    /// Drops whatever is in progress.
    pub fn cancel(&mut self)
        ensures
            final(self).is_reset(),
    {
        self.reset();
    }

    /// Whether a line is in progress.
    pub fn is_drawing(&self) -> (r: bool)
        ensures
            r == self.spec_start() is Some,
    {
        self.start.is_some()
    }
}

impl Default for LineTool {
    fn default() -> (t: Self)
        ensures
            t.is_reset(),
    {
        LineTool::new()
    }
}

} // verus!
