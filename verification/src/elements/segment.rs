use vstd::prelude::*;
use crate::types::{clamp_u16, Bounds, Coord, Direction};

verus! {

/// A straight run of cells starting at `start`, `length` steps long in `direction`.
#[derive(Debug, Clone, Copy, PartialEq, Eq, Structural)]
pub struct Segment {
    pub start: Coord,
    pub length: u16,
    pub direction: Direction,
}

/// The name the line element's parts go by.
pub type LineSegment = Segment;

/// `|v|`.
pub open spec fn abs(v: int) -> int {
    if v < 0 { -v } else { v }
}

/// The direction a segment from `start` to `end` takes: horizontal when the
/// horizontal distance is strictly larger, vertical otherwise.
pub open spec fn direction_towards(start: Coord, end: Coord) -> Direction {
    let dx = end.x - start.x;
    let dy = end.y - start.y;
    if abs(dx) > abs(dy) {
        if dx > 0 { Direction::Right } else { Direction::Left }
    } else {
        if dy > 0 { Direction::Down } else { Direction::Up }
    }
}

/// The segment that `Segment::from_coords(start, end)` builds.
pub open spec fn segment_between(start: Coord, end: Coord) -> Segment {
    let d = direction_towards(start, end);
    Segment {
        start,
        length: (if d == Direction::Right || d == Direction::Left {
            abs(end.x - start.x)
        } else {
            abs(end.y - start.y)
        }) as u16,
        direction: d,
    }
}

/// The far end of a segment, clamped to the `u16` range.
pub open spec fn segment_end(s: Segment) -> Coord {
    match s.direction {
        Direction::Right => Coord { x: clamp_u16(s.start.x + s.length), y: s.start.y },
        Direction::Left => Coord { x: clamp_u16(s.start.x - s.length), y: s.start.y },
        Direction::Down => Coord { x: s.start.x, y: clamp_u16(s.start.y + s.length) },
        Direction::Up => Coord { x: s.start.x, y: clamp_u16(s.start.y - s.length) },
    }
}

pub open spec fn min_u16(a: u16, b: u16) -> u16 {
    if a <= b { a } else { b }
}

pub open spec fn max_u16(a: u16, b: u16) -> u16 {
    if a >= b { a } else { b }
}

/// The bounding box of a segment's two ends.
pub open spec fn segment_bounds(s: Segment) -> Bounds {
    let e = segment_end(s);
    Bounds {
        min: Coord { x: min_u16(s.start.x, e.x), y: min_u16(s.start.y, e.y) },
        max: Coord { x: max_u16(s.start.x, e.x), y: max_u16(s.start.y, e.y) },
    }
}

/// The smallest box holding both boxes.
pub open spec fn bounds_union(a: Bounds, b: Bounds) -> Bounds {
    Bounds {
        min: Coord { x: min_u16(a.min.x, b.min.x), y: min_u16(a.min.y, b.min.y) },
        max: Coord { x: max_u16(a.max.x, b.max.x), y: max_u16(a.max.y, b.max.y) },
    }
}

pub open spec fn zero_bounds() -> Bounds {
    Bounds { min: Coord { x: 0, y: 0 }, max: Coord { x: 0, y: 0 } }
}

/// The union of the boxes of the first `n` segments (`n >= 1`).
pub open spec fn segments_bounds_upto(segs: Seq<Segment>, n: nat) -> Bounds
    decreases n,
{
    if n <= 1 {
        segment_bounds(segs[0])
    } else {
        bounds_union(segments_bounds_upto(segs, (n - 1) as nat), segment_bounds(segs[n - 1]))
    }
}

/// The box of a list of segments: all zeros when it is empty.
pub open spec fn segments_bounds(segs: Seq<Segment>) -> Bounds {
    if segs.len() == 0 {
        zero_bounds()
    } else {
        segments_bounds_upto(segs, segs.len())
    }
}

/// A box holds a cell.
pub open spec fn bounds_hold(b: Bounds, c: Coord) -> bool {
    b.min.x <= c.x <= b.max.x && b.min.y <= c.y <= b.max.y
}

fn abs_i32(v: i32) -> (r: i32)
    requires
        v > i32::MIN,
    ensures
        r == abs(v as int),
{
    if v < 0 { -v } else { v }
}

impl Segment {
    /// The segment from `start` towards `end`: its direction follows the larger
    /// of the two distances (vertical on a tie) and its length is that distance.
    pub fn from_coords(start: Coord, end: Coord) -> (s: Self)
        ensures
            s == segment_between(start, end),
    {
        let dx: i32 = (end.x as i32) - (start.x as i32);
        let dy: i32 = (end.y as i32) - (start.y as i32);
        let direction = if abs_i32(dx) > abs_i32(dy) {
            if dx > 0 { Direction::Right } else { Direction::Left }
        } else {
            if dy > 0 { Direction::Down } else { Direction::Up }
        };
        let length: u16 = match direction {
            Direction::Right | Direction::Left => abs_i32(dx) as u16,
            Direction::Down | Direction::Up => abs_i32(dy) as u16,
        };
        Segment { start, length, direction }
    }

    /// Moves the segment's start by `(dx, dy)`.
    pub fn translate(&mut self, dx: i32, dy: i32)
        ensures
            final(self).start.x == clamp_u16(old(self).start.x + dx),
            final(self).start.y == clamp_u16(old(self).start.y + dy),
            final(self).length == old(self).length,
            final(self).direction == old(self).direction,
    {
        self.start.translate(dx, dy);
    }

    /// The far end of the segment.
    pub fn end(&self) -> (e: Coord)
        ensures
            e == segment_end(*self),
    {
        match self.direction {
            Direction::Right => Coord { x: self.start.x.saturating_add(self.length), y: self.start.y },
            Direction::Left => Coord { x: self.start.x.saturating_sub(self.length), y: self.start.y },
            Direction::Down => Coord { x: self.start.x, y: self.start.y.saturating_add(self.length) },
            Direction::Up => Coord { x: self.start.x, y: self.start.y.saturating_sub(self.length) },
        }
    }

    /// The bounding box of the segment's two ends.
    pub fn bounds(&self) -> (b: Bounds)
        ensures
            b == segment_bounds(*self),
    {
        let end = self.end();
        Bounds {
            min: Coord {
                x: if self.start.x <= end.x { self.start.x } else { end.x },
                y: if self.start.y <= end.y { self.start.y } else { end.y },
            },
            max: Coord {
                x: if self.start.x >= end.x { self.start.x } else { end.x },
                y: if self.start.y >= end.y { self.start.y } else { end.y },
            },
        }
    }
}

/// The bounding box of all segments: all zeros for no segment.
pub fn calculate_bounds(segments: &[Segment]) -> (b: Bounds)
    ensures
        b == segments_bounds(segments@),
{
    if segments.len() == 0 {
        return Bounds { min: Coord { x: 0, y: 0 }, max: Coord { x: 0, y: 0 } };
    }
    let mut min_x: u16 = u16::MAX;
    let mut min_y: u16 = u16::MAX;
    let mut max_x: u16 = u16::MIN;
    let mut max_y: u16 = u16::MIN;
    let mut i: usize = 0;
    while i < segments.len()
        invariant
            i <= segments@.len(),
            segments@.len() > 0,
            i == 0 ==> min_x == u16::MAX && min_y == u16::MAX && max_x == 0 && max_y == 0,
            i > 0 ==> (Bounds { min: Coord { x: min_x, y: min_y }, max: Coord { x: max_x, y: max_y } })
                == segments_bounds_upto(segments@, i as nat),
        decreases segments.len() - i,
    {
        let b = segments[i].bounds();
        min_x = if min_x <= b.min.x { min_x } else { b.min.x };
        min_y = if min_y <= b.min.y { min_y } else { b.min.y };
        max_x = if max_x >= b.max.x { max_x } else { b.max.x };
        max_y = if max_y >= b.max.y { max_y } else { b.max.y };
        i = i + 1;
    }
    Bounds { min: Coord { x: min_x, y: min_y }, max: Coord { x: max_x, y: max_y } }
}

/// Every segment's start and end lie in the box of the first `n` segments.
pub proof fn lemma_segments_bounds_hold(segs: Seq<Segment>, n: nat, i: int)
    requires
        1 <= n <= segs.len(),
        0 <= i < n,
    ensures
        bounds_hold(segments_bounds_upto(segs, n), segs[i].start),
        bounds_hold(segments_bounds_upto(segs, n), segment_end(segs[i])),
    decreases n,
{
    if n > 1 && i < n - 1 {
        lemma_segments_bounds_hold(segs, (n - 1) as nat, i);
    }
}

/// The box of a list of segments holds both ends of every segment in it.
pub proof fn lemma_bounds_hold_all_ends(segs: Seq<Segment>, i: int)
    requires
        0 <= i < segs.len(),
    ensures
        bounds_hold(segments_bounds(segs), segs[i].start),
        bounds_hold(segments_bounds(segs), segment_end(segs[i])),
{
    lemma_segments_bounds_hold(segs, segs.len(), i);
}

} // verus!

verus! {

/// `b` moved by `(dx, dy)` with each corner clamped.
pub open spec fn bounds_translated(b: Bounds, dx: i32, dy: i32) -> Bounds {
    Bounds {
        min: Coord { x: clamp_u16(b.min.x + dx), y: clamp_u16(b.min.y + dy) },
        max: Coord { x: clamp_u16(b.max.x + dx), y: clamp_u16(b.max.y + dy) },
    }
}

/// `s` moved by `(dx, dy)`: its start clamped, length and direction kept.
pub open spec fn segment_translated(s: Segment, dx: i32, dy: i32) -> Segment {
    Segment {
        start: Coord { x: clamp_u16(s.start.x + dx), y: clamp_u16(s.start.y + dy) },
        length: s.length,
        direction: s.direction,
    }
}

/// `after` is `before` with every segment moved by `(dx, dy)`.
pub open spec fn segments_translated(before: Seq<Segment>, after: Seq<Segment>, dx: i32, dy: i32) -> bool {
    after == before.map_values(|s: Segment| segment_translated(s, dx, dy))
}

/// Moves every segment of the list by `(dx, dy)`.
pub fn translate_segments(segments: &mut Vec<Segment>, dx: i32, dy: i32)
    ensures
        segments_translated(old(segments)@, final(segments)@, dx, dy),
{
    let mut i: usize = 0;
    while i < segments.len()
        invariant
            i <= segments.len(),
            segments.len() == old(segments).len(),
            forall|j: int| 0 <= j < i ==> segments@[j] == segment_translated(#[trigger] old(segments)@[j], dx, dy),
            forall|j: int| i <= j < segments.len() ==> segments@[j] == old(segments)@[j],
        decreases segments.len() - i,
    {
        let mut s = segments[i];
        s.translate(dx, dy);
        segments.set(i, s);
        i = i + 1;
    }
    assert(segments@ =~= old(segments)@.map_values(|s: Segment| segment_translated(s, dx, dy)));
}

} // verus!
