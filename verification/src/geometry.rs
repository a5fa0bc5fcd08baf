use vstd::prelude::*;
use crate::elements::borders::BorderChars;
use crate::elements::line::{seg_cell, RenderPoint};
use crate::elements::segment::Segment;
use crate::types::Direction;
use crate::elements::arrow::ArrowElement;
use crate::elements::borders::{border_chars, BorderStyle};
use crate::elements::line::LineElement;
use crate::elements::rectangle::RectangleElement;

verus! {

/// Number of edge cells drawn between two corners `lo` and `hi` on both sides.
pub open spec fn edge_cells(lo: int, hi: int) -> nat {
    if hi - lo - 1 > 0 { (2 * (hi - lo - 1)) as nat } else { 0 }
}

/// The cells of a box with corners `(l, t)` and `(r, b)`: the four corners,
/// then the top and bottom edges column by column, then the left and right
/// edges row by row.
pub open spec fn box_cells(l: int, t: int, r: int, b: int, c: BorderChars) -> Seq<RenderPoint> {
    seq![
        (l as i32, t as i32, c.top_left),
        (r as i32, t as i32, c.top_right),
        (l as i32, b as i32, c.bottom_left),
        (r as i32, b as i32, c.bottom_right),
    ] + Seq::new(edge_cells(l, r), |i: int|
        ((l + 1 + i / 2) as i32, (if i % 2 == 0 { t } else { b }) as i32, c.horizontal))
      + Seq::new(edge_cells(t, b), |i: int|
        ((if i % 2 == 0 { l } else { r }) as i32, (t + 1 + i / 2) as i32, c.vertical))
}

/// Appends the cells of a box to `points`.
pub fn push_box(points: &mut Vec<RenderPoint>, left: i32, top: i32, right: i32, bottom: i32, c: BorderChars)
    requires
        left <= right < i32::MAX,
        top <= bottom < i32::MAX,
    ensures
        final(points)@ == old(points)@ + box_cells(left as int, top as int, right as int, bottom as int, c),
{
    let ghost start = points@;
    points.push((left, top, c.top_left));
    points.push((right, top, c.top_right));
    points.push((left, bottom, c.bottom_left));
    points.push((right, bottom, c.bottom_right));
    let ghost corners = points@;
    let mut x: i32 = left + 1;
    while x < right
        invariant
            left + 1 <= x,
            x <= right || x == left + 1,
            points@ == corners + Seq::new(edge_cells(left as int, x as int), |i: int|
                ((left + 1 + i / 2) as i32, (if i % 2 == 0 { top } else { bottom }) as i32, c.horizontal)),
        decreases right - x,
    {
        points.push((x, top, c.horizontal));
        points.push((x, bottom, c.horizontal));
        assert(points@ =~= corners + Seq::new(edge_cells(left as int, x + 1), |i: int|
                ((left + 1 + i / 2) as i32, (if i % 2 == 0 { top } else { bottom }) as i32, c.horizontal)));
        x = x + 1;
    }
    assert(edge_cells(left as int, x as int) == edge_cells(left as int, right as int));
    let ghost edges = points@;
    let mut y: i32 = top + 1;
    while y < bottom
        invariant
            top + 1 <= y,
            y <= bottom || y == top + 1,
            points@ == edges + Seq::new(edge_cells(top as int, y as int), |i: int|
                ((if i % 2 == 0 { left } else { right }) as i32, (top + 1 + i / 2) as i32, c.vertical)),
        decreases bottom - y,
    {
        points.push((left, y, c.vertical));
        points.push((right, y, c.vertical));
        assert(points@ =~= edges + Seq::new(edge_cells(top as int, y + 1), |i: int|
                ((if i % 2 == 0 { left } else { right }) as i32, (top + 1 + i / 2) as i32, c.vertical)));
        y = y + 1;
    }
    assert(edge_cells(top as int, y as int) == edge_cells(top as int, bottom as int));
    assert(points@ =~= start + box_cells(left as int, top as int, right as int, bottom as int, c));
}

/// The arrow head drawn at the end of a segment going in `d`.
pub open spec fn arrow_head(d: Direction) -> char {
    match d {
        Direction::Right => '>',
        Direction::Left => '<',
        Direction::Down => 'v',
        Direction::Up => '^',
    }
}

/// The arrowhead that points from cell `p` to the next cell `q`.
pub open spec fn pointing(p: (i32, i32), q: (i32, i32)) -> char {
    if q.0 > p.0 { '>' } else if q.0 < p.0 { '<' } else if q.1 > p.1 { 'v' } else { '^' }
}

/// An arrow segment's last cell is its head, and the head points the way the
/// segment runs: from the cell before the last one to the last one.
pub proof fn lemma_head_points_along(s: Segment)
    requires
        s.length >= 1,
    ensures
        arrow_segment_cells(s)[s.length as int].2
            == pointing(seg_cell(s, s.length - 1), seg_cell(s, s.length as int)),
{
    let k = s.length as int;
    assert((k - 1) * 1 == k - 1 && (k - 1) * -1 == 1 - k && (k - 1) * 0 == 0);
    assert(k * 1 == k && k * -1 == -k && k * 0 == 0);
}

/// The stroke drawn along a segment going in `d`.
pub open spec fn stroke(d: Direction) -> char {
    match d {
        Direction::Right | Direction::Left => '─',
        Direction::Down | Direction::Up => '│',
    }
}

/// The cells of one arrow segment: strokes, with the head on its last cell.
pub open spec fn arrow_segment_cells(s: Segment) -> Seq<RenderPoint> {
    Seq::new((s.length + 1) as nat, |k: int|
        (seg_cell(s, k).0, seg_cell(s, k).1, if k == s.length { arrow_head(s.direction) } else { stroke(s.direction) }))
}

/// The cells of one plain segment: strokes only.
pub open spec fn plain_segment_cells(s: Segment) -> Seq<RenderPoint> {
    Seq::new((s.length + 1) as nat, |k: int| (seg_cell(s, k).0, seg_cell(s, k).1, stroke(s.direction)))
}

/// The cells of the first `n` segments of an arrow, segment after segment.
pub open spec fn arrow_cells(segs: Seq<Segment>, n: nat) -> Seq<RenderPoint>
    decreases n,
{
    if n == 0 { Seq::empty() } else { arrow_cells(segs, (n - 1) as nat) + arrow_segment_cells(segs[n - 1]) }
}

/// The cells of the first `n` segments of a plain line, segment after segment.
pub open spec fn plain_cells(segs: Seq<Segment>, n: nat) -> Seq<RenderPoint>
    decreases n,
{
    if n == 0 { Seq::empty() } else { plain_cells(segs, (n - 1) as nat) + plain_segment_cells(segs[n - 1]) }
}

fn head_of(d: Direction) -> (c: char)
    ensures
        c == arrow_head(d),
{
    match d {
        Direction::Right => '>',
        Direction::Left => '<',
        Direction::Down => 'v',
        Direction::Up => '^',
    }
}

fn stroke_of(d: Direction) -> (c: char)
    ensures
        c == stroke(d),
{
    match d {
        Direction::Right | Direction::Left => '─',
        Direction::Down | Direction::Up => '│',
    }
}

/// Appends the cells of the segments to `points`, with arrow heads when `heads` holds.
pub fn push_segments(points: &mut Vec<RenderPoint>, segments: &Vec<Segment>, heads: bool)
    ensures
        final(points)@ == old(points)@ + (if heads { arrow_cells(segments@, segments@.len()) } else {
            plain_cells(segments@, segments@.len())
        }),
{
    let ghost start = points@;
    let mut si: usize = 0;
    while si < segments.len()
        invariant
            si <= segments@.len(),
            points@ == start + (if heads { arrow_cells(segments@, si as nat) } else { plain_cells(segments@, si as nat) }),
        decreases segments.len() - si,
    {
        let s = &segments[si];
        let ghost before = points@;
        let mut k: u32 = 0;
        while k <= s.length as u32
            invariant
                k <= s.length + 1,
                points@ == before + Seq::new(k as nat, |j: int|
                    (seg_cell(*s, j).0, seg_cell(*s, j).1,
                        if heads && j == s.length { arrow_head(s.direction) } else { stroke(s.direction) })),
            decreases s.length + 1 - k,
        {
            let p = crate::elements::line::segment_cell(s, k as u16);
            let ch = if heads && k == s.length as u32 { head_of(s.direction) } else { stroke_of(s.direction) };
            points.push((p.0, p.1, ch));
            assert(points@ =~= before + Seq::new((k + 1) as nat, |j: int|
                    (seg_cell(*s, j).0, seg_cell(*s, j).1,
                        if heads && j == s.length { arrow_head(s.direction) } else { stroke(s.direction) })));
            k = k + 1;
        }
        proof {
            if heads {
                assert(Seq::new(k as nat, |j: int|
                    (seg_cell(*s, j).0, seg_cell(*s, j).1,
                        if heads && j == s.length { arrow_head(s.direction) } else { stroke(s.direction) }))
                    =~= arrow_segment_cells(*s));
            } else {
                assert(Seq::new(k as nat, |j: int|
                    (seg_cell(*s, j).0, seg_cell(*s, j).1,
                        if heads && j == s.length { arrow_head(s.direction) } else { stroke(s.direction) }))
                    =~= plain_segment_cells(*s));
            }
            assert(points@ =~= start + (if heads { arrow_cells(segments@, (si + 1) as nat) } else {
                plain_cells(segments@, (si + 1) as nat) }));
        }
        si = si + 1;
    }
}

/// The cells of a line drawn with plain strokes, segment after segment.
pub fn line_points(line: &LineElement) -> (r: Vec<RenderPoint>)
    ensures
        r@ == plain_cells(line.segments@, line.segments@.len()),
{
    let mut points: Vec<RenderPoint> = Vec::new();
    push_segments(&mut points, &line.segments, false);
    assert(points@ =~= plain_cells(line.segments@, line.segments@.len()));
    points
}

/// The cells of a rectangle's single-line border.
pub fn box_points(rect: &RectangleElement) -> (r: Vec<RenderPoint>)
    ensures
        r@ == box_cells(rect.start.x as int, rect.start.y as int, rect.start.x + rect.width,
            rect.start.y + rect.height, border_chars(BorderStyle::Single)),
{
    let left = rect.start.x as i32;
    let top = rect.start.y as i32;
    let right = left + rect.width as i32;
    let bottom = top + rect.height as i32;
    let mut points: Vec<RenderPoint> = Vec::new();
    push_box(&mut points, left, top, right, bottom, BorderStyle::Single.chars());
    assert(points@ =~= box_cells(rect.start.x as int, rect.start.y as int, rect.start.x + rect.width,
        rect.start.y + rect.height, border_chars(BorderStyle::Single)));
    points
}

/// The cells of an arrow, each segment ending in a head.
pub fn arrow_points(arrow: &ArrowElement) -> (r: Vec<RenderPoint>)
    ensures
        r@ == arrow_cells(arrow.segments@, arrow.segments@.len()),
{
    let mut points: Vec<RenderPoint> = Vec::new();
    push_segments(&mut points, &arrow.segments, true);
    assert(points@ =~= arrow_cells(arrow.segments@, arrow.segments@.len()));
    points
}

} // verus!
