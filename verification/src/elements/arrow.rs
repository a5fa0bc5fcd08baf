use vstd::prelude::*;
use crate::elements::line::RenderPoint;
use crate::elements::segment::{calculate_bounds, segments_bounds, Segment};
use crate::geometry::{arrow_cells, push_segments};
use crate::types::Bounds;

verus! {

/// An arrow drawn along segments, with a head at the end of each segment.
#[derive(Debug, Clone)]
pub struct ArrowElement {
    pub id: usize,
    pub name: String,
    pub segments: Vec<Segment>,
    pub bounds: Bounds,
}

impl ArrowElement {
    /// An arrow named "Arrow <id + 1>" whose bounds cover its segments.
    pub fn new(id: usize, segments: Vec<Segment>) -> (a: Self)
        requires
            id < usize::MAX,
        ensures
            a.id == id,
            a.name@ == "Arrow "@ + crate::text::decimal((id + 1) as nat),
            a.segments@ == segments@,
            a.bounds == segments_bounds(segments@),
    {
        let name = crate::text::numbered("Arrow ", id + 1);
        let bounds = calculate_bounds(segments.as_slice());
        ArrowElement { id, name, segments, bounds }
    }

    /// Moves every segment and the bounds by `(dx, dy)`.
    pub fn translate(&mut self, dx: i32, dy: i32)
        ensures
            crate::elements::segment::segments_translated(old(self).segments@, final(self).segments@, dx, dy),
            final(self).bounds == crate::elements::segment::bounds_translated(old(self).bounds, dx, dy),
            final(self).id == old(self).id,
            final(self).name == old(self).name,
    {
        crate::elements::segment::translate_segments(&mut self.segments, dx, dy);
        self.bounds.translate(dx, dy);
    }

    /// The cells of every segment in order, strokes with a head on each last cell.
    pub fn render_points(&self) -> (r: Vec<RenderPoint>)
        ensures
            r@ == arrow_cells(self.segments@, self.segments@.len()),
    {
        let mut points: Vec<RenderPoint> = Vec::new();
        push_segments(&mut points, &self.segments, true);
        assert(points@ =~= arrow_cells(self.segments@, self.segments@.len()));
        points
    }
}

} // verus!
