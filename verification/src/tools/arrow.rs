use vstd::prelude::*;
use crate::elements::arrow::ArrowElement;
use crate::elements::line::RenderPoint;
use crate::elements::segment::{segment_between, Segment};
use crate::elements::Element;
use crate::events::types::MouseEvent;
use crate::events::{ActionType, EventResult};
use crate::geometry::arrow_cells;
use crate::state::canvas::{adds, CanvasState};
use crate::tools::line::event_coord;
use crate::tools::{arrow_view, pair_coord};
use crate::types::Coord;

verus! {

/// The arrow tool: drag from the tail to the head.
pub struct ArrowTool {
    start: Option<(u16, u16)>,
    current: Option<(u16, u16)>,
}

impl ArrowTool {
    /// Where the drag started.
    pub closed spec fn spec_start(&self) -> Option<(u16, u16)> {
        self.start
    }

    /// Where the drag is now.
    pub closed spec fn spec_current(&self) -> Option<(u16, u16)> {
        self.current
    }

    /// Whether the tool holds nothing.
    pub open spec fn is_reset(&self) -> bool {
        self.spec_start() is None && self.spec_current() is None
    }

    /// Whether `r` is what the tool shows while drawing.
    pub open spec fn shows_preview(self, r: Seq<RenderPoint>) -> bool {
        &&& (self.spec_start() is Some && self.spec_current() is Some) ==>
            r == arrow_cells(seq![segment_between(pair_coord(self.spec_start()->0), pair_coord(self.spec_current()->0))], 1)
        &&& !(self.spec_start() is Some && self.spec_current() is Some) ==> r.len() == 0
    }

    /// What a mouse press does to the tool and the canvas.
    pub open spec fn down_step(self, after: Self, cb: CanvasState, ca: CanvasState, ev: MouseEvent, r: EventResult) -> bool {
        &&& r == EventResult::Consumed
        &&& ca == cb
        &&& after.spec_start() == Some((ev.column, ev.row))
        &&& after.spec_current() == Some((ev.column, ev.row))
    }

    /// What a mouse move does to the tool and the canvas.
    pub open spec fn moved_step(self, after: Self, cb: CanvasState, ca: CanvasState, ev: MouseEvent, r: EventResult) -> bool {
        &&& r == EventResult::Ignored
        &&& ca == cb
        &&& after == self
    }

    /// What a mouse drag does to the tool and the canvas.
    pub open spec fn drag_step(self, after: Self, cb: CanvasState, ca: CanvasState, ev: MouseEvent, r: EventResult) -> bool {
        &&& r == EventResult::Consumed
        &&& ca == cb
        &&& after.spec_start() == self.spec_start()
        &&& after.spec_current() == Some((ev.column, ev.row))
    }

    /// What a mouse release does to the tool and the canvas.
    pub open spec fn up_step(self, after: Self, cb: CanvasState, ca: CanvasState, ev: MouseEvent, r: EventResult) -> bool {
        &&& match self.spec_start() {
            None => r == EventResult::Consumed && after == self && ca == cb,
            Some(s) => if s == (ev.column, ev.row) {
                r == EventResult::Consumed && after.is_reset() && ca == cb
            } else {
                &&& r == EventResult::Action(ActionType::FinishedDrawing)
                &&& after.is_reset()
                &&& ca.spec_next_id() == cb.spec_next_id() + 1
                &&& adds(cb.spec_elements(), ca.spec_elements(),
                    arrow_view(cb.spec_next_id(), pair_coord(s), event_coord(ev)))
            }
        }
    }

    /// A tool with nothing started.
    pub fn new() -> (t: Self)
        ensures
            t.is_reset(),
    {
        ArrowTool { start: None, current: None }
    }

    fn reset(&mut self)
        ensures
            final(self).is_reset(),
    {
        self.start = None;
        self.current = None;
    }

    /// Mouse press: starts a drag here.
    pub fn handle_mouse_down(&mut self, state: &mut CanvasState, mouse_event: &MouseEvent) -> (r: EventResult)
        ensures
            old(self).down_step(*final(self), *old(state), *final(state), *mouse_event, r),
    {
        self.start = Some((mouse_event.column, mouse_event.row));
        self.current = Some((mouse_event.column, mouse_event.row));
        EventResult::Consumed
    }

    /// Mouse move: the arrow tool does not follow the pointer.
    pub fn handle_mouse_moved(&mut self, state: &mut CanvasState, mouse_event: &MouseEvent) -> (r: EventResult)
        ensures
            old(self).moved_step(*final(self), *old(state), *final(state), *mouse_event, r),
    {
        EventResult::Ignored
    }

    /// Mouse drag: moves the head.
    pub fn handle_mouse_drag(&mut self, state: &mut CanvasState, mouse_event: &MouseEvent) -> (r: EventResult)
        ensures
            old(self).drag_step(*final(self), *old(state), *final(state), *mouse_event, r),
    {
        self.current = Some((mouse_event.column, mouse_event.row));
        EventResult::Consumed
    }

    /// Mouse release: adds the arrow from the drag's start to here, unless the
    /// pointer did not move.
    pub fn handle_mouse_up(&mut self, state: &mut CanvasState, mouse_event: &MouseEvent) -> (r: EventResult)
        requires
            old(state).spec_next_id() < usize::MAX,
        ensures
            old(self).up_step(*final(self), *old(state), *final(state), *mouse_event, r),
    {
        let (sx, sy) = match self.start {
            Some(s) => s,
            None => { return EventResult::Consumed; },
        };
        let x = mouse_event.column;
        let y = mouse_event.row;
        if sx == x && sy == y {
            self.reset();
            return EventResult::Consumed;
        }
        let id = state.get_next_id();
        let segment = Segment::from_coords(Coord { x: sx, y: sy }, Coord { x, y });
        let arrow = ArrowElement::new(id, vec![segment]);
        assert(arrow.segments@ =~= seq![segment_between(Coord { x: sx, y: sy }, Coord { x, y })]);
        state.add_element(Element::Arrow(arrow));
        assert(final(state).spec_elements().drop_last() =~= old(state).spec_elements());
        self.reset();
        EventResult::Action(ActionType::FinishedDrawing)
    }

    /// The arrow as it would be drawn now.
    pub fn preview_points(&self) -> (r: Vec<RenderPoint>)
        ensures
            self.shows_preview(r@),
    {
        match (self.start, self.current) {
            (Some((sx, sy)), Some((cx, cy))) => {
                let segment = Segment::from_coords(Coord { x: sx, y: sy }, Coord { x: cx, y: cy });
                let arrow = ArrowElement::new(0, vec![segment]);
                assert(arrow.segments@ =~= seq![segment]);
                arrow.render_points()
            },
            _ => Vec::new(),
        }
    }

    /// Drops whatever is in progress without drawing.
    pub fn finish(&mut self, state: &mut CanvasState)
        ensures
            final(self).is_reset(),
            *final(state) == *old(state),
    {
        self.reset();
    }

    /// Drops whatever is in progress.
    pub fn cancel(&mut self)
        ensures
            final(self).is_reset(),
    {
        self.reset();
    }

    /// Whether an arrow is in progress.
    pub fn is_drawing(&self) -> (r: bool)
        ensures
            r == self.spec_start() is Some,
    {
        self.start.is_some()
    }
}

impl Default for ArrowTool {
    fn default() -> (t: Self)
        ensures
            t.is_reset(),
    {
        ArrowTool::new()
    }
}

} // verus!
