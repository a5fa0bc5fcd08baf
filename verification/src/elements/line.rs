use vstd::prelude::*;
use crate::elements::segment::{abs, calculate_bounds, segment_between, segments_bounds, Segment};
use crate::types::{Bounds, Coord, Direction};

verus! {

/// A cell of rendered output: column, row and the character drawn there.
pub type RenderPoint = (i32, i32, char);

/// Step of a direction along the x axis.
pub open spec fn unit_x(d: Direction) -> int {
    match d {
        Direction::Right => 1,
        Direction::Left => -1,
        _ => 0,
    }
}

/// Step of a direction along the y axis.
pub open spec fn unit_y(d: Direction) -> int {
    match d {
        Direction::Down => 1,
        Direction::Up => -1,
        _ => 0,
    }
}

/// The `k`-th cell of a segment (`k = 0` is its start), unclamped.
pub open spec fn seg_cell(s: Segment, k: int) -> (i32, i32) {
    ((s.start.x + k * unit_x(s.direction)) as i32, (s.start.y + k * unit_y(s.direction)) as i32)
}

/// The cells a segment covers, from its start, `length + 1` of them.
pub open spec fn seg_cells(s: Segment) -> Seq<(i32, i32)> {
    Seq::new((s.length + 1) as nat, |k: int| seg_cell(s, k))
}

/// The step index of cell `p` along segment `s`, meaningful when `seg_on(s, p)`.
pub open spec fn seg_index(s: Segment, p: (i32, i32)) -> int {
    match s.direction {
        Direction::Right => p.0 - s.start.x,
        Direction::Left => s.start.x - p.0,
        Direction::Down => p.1 - s.start.y,
        Direction::Up => s.start.y - p.1,
    }
}

/// Cell `p` is one of the cells of segment `s`.
pub open spec fn seg_on(s: Segment, p: (i32, i32)) -> bool {
    &&& 0 <= seg_index(s, p) <= s.length
    &&& match s.direction {
        Direction::Right | Direction::Left => p.1 == s.start.y,
        Direction::Down | Direction::Up => p.0 == s.start.x,
    }
}

/// A set of the four directions in which a cell connects to its neighbours.
#[derive(Debug, Clone, Copy, PartialEq, Eq, Structural)]
pub struct Dirs {
    pub up: bool,
    pub down: bool,
    pub left: bool,
    pub right: bool,
}

pub open spec fn no_dirs() -> Dirs {
    Dirs { up: false, down: false, left: false, right: false }
}

pub open spec fn dirs_or(a: Dirs, b: Dirs) -> Dirs {
    Dirs { up: a.up || b.up, down: a.down || b.down, left: a.left || b.left, right: a.right || b.right }
}

pub open spec fn opposite(d: Direction) -> Direction {
    match d {
        Direction::Up => Direction::Down,
        Direction::Down => Direction::Up,
        Direction::Left => Direction::Right,
        Direction::Right => Direction::Left,
    }
}

pub open spec fn single_dir(d: Direction) -> Dirs {
    Dirs {
        up: d == Direction::Up,
        down: d == Direction::Down,
        left: d == Direction::Left,
        right: d == Direction::Right,
    }
}

/// The connections that segment `s` gives the cell at step `k`: towards the
/// next cell when there is one, back towards the previous one when there is one.
pub open spec fn seg_dirs_at_index(s: Segment, k: int) -> Dirs {
    dirs_or(
        if k < s.length { single_dir(s.direction) } else { no_dirs() },
        if k > 0 { single_dir(opposite(s.direction)) } else { no_dirs() },
    )
}

/// The connections segment `s` gives cell `p` (none when `p` is off the segment).
pub open spec fn seg_dirs(s: Segment, p: (i32, i32)) -> Dirs {
    if seg_on(s, p) { seg_dirs_at_index(s, seg_index(s, p)) } else { no_dirs() }
}

/// The connections of cell `p` in the first `n` segments together.
pub open spec fn line_dirs_upto(segs: Seq<Segment>, n: nat, p: (i32, i32)) -> Dirs
    decreases n,
{
    if n == 0 {
        no_dirs()
    } else {
        dirs_or(line_dirs_upto(segs, (n - 1) as nat, p), seg_dirs(segs[n - 1], p))
    }
}

/// The connections of cell `p` over all segments of a line.
pub open spec fn line_dirs(segs: Seq<Segment>, p: (i32, i32)) -> Dirs {
    line_dirs_upto(segs, segs.len(), p)
}

/// Cell `p` lies on one of the segments.
pub open spec fn on_line(segs: Seq<Segment>, p: (i32, i32)) -> bool {
    exists|i: int| 0 <= i < segs.len() && seg_on(#[trigger] segs[i], p)
}

/// The box-drawing character for a set of connections.
pub open spec fn dirs_char(d: Dirs) -> char {
    if d.up && d.down && !d.left && !d.right { '│' }
    else if !d.up && !d.down && d.left && d.right { '─' }
    else if d.up && !d.down && !d.left && d.right { '└' }
    else if d.up && !d.down && d.left && !d.right { '┘' }
    else if !d.up && d.down && !d.left && d.right { '┌' }
    else if !d.up && d.down && d.left && !d.right { '┐' }
    else if d.up && d.down && !d.left && d.right { '├' }
    else if d.up && d.down && d.left && !d.right { '┤' }
    else if !d.up && d.down && d.left && d.right { '┬' }
    else if d.up && !d.down && d.left && d.right { '┴' }
    else if d.up && d.down && d.left && d.right { '┼' }
    else if d.up && !d.down && !d.left && !d.right { '│' }
    else if !d.up && d.down && !d.left && !d.right { '│' }
    else if !d.up && !d.down && d.left && !d.right { '─' }
    else if !d.up && !d.down && !d.left && d.right { '─' }
    else { '·' }
}

/// A segment drawn between two points ends level with the end point along
/// the way it runs: on the end's row when it runs vertically (the vertical
/// distance is at least the horizontal one), on the end's column otherwise;
/// it stays on the start's column or row.
pub proof fn lemma_segment_reaches_end(start: Coord, end: Coord)
    ensures
        ({
            let s = segment_between(start, end);
            if abs(end.y - start.y) >= abs(end.x - start.x) {
                seg_cell(s, s.length as int) == (start.x as i32, end.y as i32)
            } else {
                seg_cell(s, s.length as int) == (end.x as i32, start.y as i32)
            }
        }),
{
    let s = segment_between(start, end);
    let k = s.length as int;
    assert(k * 1 == k && k * -1 == -k && k * 0 == 0);
}

/// The arms a box-drawing character draws out of its cell: a vertical stroke
/// reaches up and down, a horizontal one left and right, a corner, tee or
/// cross the ways its strokes leave the cell; any other character none.
pub open spec fn arms(c: char) -> Dirs {
    let d = |up: bool, down: bool, left: bool, right: bool| Dirs { up, down, left, right };
    if c == '│' { d(true, true, false, false) }
    else if c == '─' { d(false, false, true, true) }
    else if c == '└' { d(true, false, false, true) }
    else if c == '┘' { d(true, false, true, false) }
    else if c == '┌' { d(false, true, false, true) }
    else if c == '┐' { d(false, true, true, false) }
    else if c == '├' { d(true, true, false, true) }
    else if c == '┤' { d(true, true, true, false) }
    else if c == '┬' { d(false, true, true, true) }
    else if c == '┴' { d(true, false, true, true) }
    else if c == '┼' { d(true, true, true, true) }
    else { no_dirs() }
}

/// How many of the four ways a connection set holds.
pub open spec fn arm_count(d: Dirs) -> nat {
    (if d.up { 1nat } else { 0 }) + (if d.down { 1nat } else { 0 })
        + (if d.left { 1nat } else { 0 }) + (if d.right { 1nat } else { 0 })
}

/// The connection set turned around: up for down, left for right.
pub open spec fn mirrored(d: Dirs) -> Dirs {
    Dirs { up: d.down, down: d.up, left: d.right, right: d.left }
}

/// A cell is drawn with the character whose arms are exactly its
/// connections; a cell reached from one side only is drawn as the straight
/// stroke through it.
pub proof fn lemma_junction_arms(d: Dirs)
    ensures
        arm_count(d) != 1 ==> arms(dirs_char(d)) == d,
        arm_count(d) == 1 ==> arms(dirs_char(d)) == dirs_or(d, mirrored(d)),
{
}

/// The rendering of a line: every cell of every segment exactly once, drawn
/// with the junction character of all its connections.
pub open spec fn is_line_rendering(segs: Seq<Segment>, r: Seq<RenderPoint>) -> bool {
    &&& forall|i: int, j: int| 0 <= i < j < r.len() ==> (r[i].0, r[i].1) != (r[j].0, r[j].1)
    &&& forall|i: int| 0 <= i < r.len() ==> on_line(segs, (r[i].0, r[i].1))
        && r[i].2 == dirs_char(line_dirs(segs, (r[i].0, r[i].1)))
    &&& forall|p: (i32, i32)| on_line(segs, p) ==> exists|i: int| 0 <= i < r.len() && (r[i].0, r[i].1) == p
}

/// The character for a set of connections.
pub fn directions_to_char(d: Dirs) -> (c: char)
    ensures
        c == dirs_char(d),
{
    match (d.up, d.down, d.left, d.right) {
        (true, true, false, false) => '│',
        (false, false, true, true) => '─',
        (true, false, false, true) => '└',
        (true, false, true, false) => '┘',
        (false, true, false, true) => '┌',
        (false, true, true, false) => '┐',
        (true, true, false, true) => '├',
        (true, true, true, false) => '┤',
        (false, true, true, true) => '┬',
        (true, false, true, true) => '┴',
        (true, true, true, true) => '┼',
        (true, false, false, false) => '│',
        (false, true, false, false) => '│',
        (false, false, true, false) => '─',
        (false, false, false, true) => '─',
        _ => '·',
    }
}

/// The direction from a cell to a neighbouring cell; `None` when they are not neighbours.
pub fn direction_between(from: (i32, i32), to: (i32, i32)) -> (r: Option<Direction>)
    requires
        i32::MIN <= to.0 - from.0 <= i32::MAX,
        i32::MIN <= to.1 - from.1 <= i32::MAX,
    ensures
        r == (if to.0 - from.0 == 0 && to.1 - from.1 == -1 {
            Some(Direction::Up)
        } else if to.0 - from.0 == 0 && to.1 - from.1 == 1 {
            Some(Direction::Down)
        } else if to.0 - from.0 == -1 && to.1 - from.1 == 0 {
            Some(Direction::Left)
        } else if to.0 - from.0 == 1 && to.1 - from.1 == 0 {
            Some(Direction::Right)
        } else {
            None
        }),
{
    let dx = to.0 - from.0;
    let dy = to.1 - from.1;
    if dx == 0 && dy == -1 {
        Some(Direction::Up)
    } else if dx == 0 && dy == 1 {
        Some(Direction::Down)
    } else if dx == -1 && dy == 0 {
        Some(Direction::Left)
    } else if dx == 1 && dy == 0 {
        Some(Direction::Right)
    } else {
        None
    }
}

fn single(d: Direction) -> (r: Dirs)
    ensures
        r == single_dir(d),
{
    Dirs {
        up: d == Direction::Up,
        down: d == Direction::Down,
        left: d == Direction::Left,
        right: d == Direction::Right,
    }
}

fn opposite_of(d: Direction) -> (r: Direction)
    ensures
        r == opposite(d),
{
    match d {
        Direction::Up => Direction::Down,
        Direction::Down => Direction::Up,
        Direction::Left => Direction::Right,
        Direction::Right => Direction::Left,
    }
}

fn or_dirs(a: Dirs, b: Dirs) -> (r: Dirs)
    ensures
        r == dirs_or(a, b),
{
    Dirs { up: a.up || b.up, down: a.down || b.down, left: a.left || b.left, right: a.right || b.right }
}

/// The `k`-th cell of a segment.
pub fn segment_cell(s: &Segment, k: u16) -> (p: (i32, i32))
    requires
        k <= s.length,
    ensures
        p == seg_cell(*s, k as int),
        seg_on(*s, p),
        seg_index(*s, p) == k,
{
    let x = s.start.x as i32;
    let y = s.start.y as i32;
    let k = k as i32;
    match s.direction {
        Direction::Right => (x + k, y),
        Direction::Left => (x - k, y),
        Direction::Down => (x, y + k),
        Direction::Up => (x, y - k),
    }
}

/// The cells of a segment, from its start.
pub fn get_segment_points(segment: &Segment) -> (v: Vec<(i32, i32)>)
    ensures
        v@ == seg_cells(*segment),
{
    let mut v: Vec<(i32, i32)> = Vec::new();
    let mut k: u32 = 0;
    while k <= segment.length as u32
        invariant
            k <= segment.length + 1,
            v@ == Seq::new(k as nat, |j: int| seg_cell(*segment, j)),
        decreases segment.length + 1 - k,
    {
        let p = segment_cell(segment, k as u16);
        v.push(p);
        assert(v@ =~= Seq::new((k + 1) as nat, |j: int| seg_cell(*segment, j)));
        k = k + 1;
    }
    assert(v@ =~= seg_cells(*segment));
    v
}

/// The index of `p` in `cells`, if it is there.
fn find_cell(cells: &Vec<(i32, i32)>, p: (i32, i32)) -> (r: Option<usize>)
    ensures
        match r {
            Some(i) => i < cells@.len() && cells@[i as int] == p,
            None => forall|b: int| 0 <= b < cells@.len() ==> cells@[b] != p,
        },
{
    let mut a: usize = 0;
    while a < cells.len()
        invariant
            a <= cells.len(),
            forall|b: int| 0 <= b < a ==> cells@[b] != p,
        decreases cells.len() - a,
    {
        if cells[a].0 == p.0 && cells[a].1 == p.1 {
            return Some(a);
        }
        a = a + 1;
    }
    None
}

/// Cell `q` is one of the cells visited before step `k` of segment `si`.
pub open spec fn visited(segs: Seq<Segment>, si: int, k: int, q: (i32, i32)) -> bool {
    (exists|j: int| 0 <= j < si && seg_on(#[trigger] segs[j], q))
        || (seg_on(segs[si], q) && seg_index(segs[si], q) < k)
}

/// The connections of `q` gathered before step `k` of segment `si`.
pub open spec fn partial_dirs(segs: Seq<Segment>, si: int, k: int, q: (i32, i32)) -> Dirs {
    dirs_or(
        line_dirs_upto(segs, si as nat, q),
        if seg_on(segs[si], q) && seg_index(segs[si], q) < k { seg_dirs(segs[si], q) } else { no_dirs() },
    )
}

proof fn lemma_line_dirs_off(segs: Seq<Segment>, n: nat, q: (i32, i32))
    requires
        n <= segs.len(),
        forall|j: int| 0 <= j < n ==> !seg_on(#[trigger] segs[j], q),
    ensures
        line_dirs_upto(segs, n, q) == no_dirs(),
    decreases n,
{
    if n > 0 {
        lemma_line_dirs_off(segs, (n - 1) as nat, q);
    }
}

proof fn lemma_seg_index_unique(s: Segment, p: (i32, i32), q: (i32, i32))
    requires
        seg_on(s, p),
        seg_on(s, q),
        seg_index(s, p) == seg_index(s, q),
    ensures
        p == q,
{
}

/// The cells of one line's segments, each once, with its junction character.
fn line_render_points(segments: &Vec<Segment>) -> (r: Vec<RenderPoint>)
    ensures
        is_line_rendering(segments@, r@),
{
    let ghost segs = segments@;
    let mut positions: Vec<(i32, i32)> = Vec::new();
    let mut dirs: Vec<Dirs> = Vec::new();
    let mut si: usize = 0;
    while si < segments.len()
        invariant
            segs == segments@,
            si <= segs.len(),
            positions.len() == dirs.len(),
            forall|a: int, b: int| 0 <= a < b < positions.len() ==> positions@[a] != positions@[b],
            forall|a: int| 0 <= a < positions.len() ==> visited(segs, si as int, 0, #[trigger] positions@[a]),
            forall|a: int| 0 <= a < positions.len() ==>
                dirs@[a] == line_dirs_upto(segs, si as nat, #[trigger] positions@[a]),
            forall|q: (i32, i32)| #[trigger] visited(segs, si as int, 0, q) ==>
                exists|a: int| 0 <= a < positions.len() && positions@[a] == q,
        decreases segments.len() - si,
    {
        let s = &segments[si];
        let mut k: u32 = 0;
        while k <= s.length as u32
            invariant
                segs == segments@,
                si < segs.len(),
                *s == segs[si as int],
                k <= s.length + 1,
                positions.len() == dirs.len(),
                forall|a: int, b: int| 0 <= a < b < positions.len() ==> positions@[a] != positions@[b],
                forall|a: int| 0 <= a < positions.len() ==> visited(segs, si as int, k as int, #[trigger] positions@[a]),
                forall|a: int| 0 <= a < positions.len() ==>
                    dirs@[a] == partial_dirs(segs, si as int, k as int, #[trigger] positions@[a]),
                forall|q: (i32, i32)| #[trigger] visited(segs, si as int, k as int, q) ==>
                    exists|a: int| 0 <= a < positions.len() && positions@[a] == q,
            decreases s.length + 1 - k,
        {
            let p = segment_cell(s, k as u16);
            let c_next = if k < s.length as u32 { single(s.direction) } else {
                Dirs { up: false, down: false, left: false, right: false }
            };
            let c_prev = if k > 0 { single(opposite_of(s.direction)) } else {
                Dirs { up: false, down: false, left: false, right: false }
            };
            let c = or_dirs(c_next, c_prev);
            assert(c == seg_dirs(segs[si as int], p));
            let found = find_cell(&positions, p);
            let ghost old_pos = positions@;
            let ghost old_dirs = dirs@;
            match found {
                Some(a) => {
                    let d = or_dirs(dirs[a], c);
                    dirs.set(a, d);
                }
                None => {
                    proof {
                        assert(!visited(segs, si as int, k as int, p));
                        assert forall|j: int| 0 <= j < si implies !seg_on(#[trigger] segs[j], p) by {
                            if seg_on(segs[j], p) {
                                assert(visited(segs, si as int, k as int, p));
                            }
                        }
                        lemma_line_dirs_off(segs, si as nat, p);
                    }
                    positions.push(p);
                    dirs.push(c);
                }
            }
            let ghost k1: int = k + 1;
            proof {
                assert forall|q: (i32, i32)| seg_on(segs[si as int], q) && seg_index(segs[si as int], q) == k
                    implies q == p by {
                    lemma_seg_index_unique(segs[si as int], p, q);
                }
                assert forall|b: int| 0 <= b < positions.len() implies
                    dirs@[b] == partial_dirs(segs, si as int, k1, #[trigger] positions@[b]) by {
                    let q = positions@[b];
                    if q != p {
                        assert(old_pos[b] == q);
                        assert(old_dirs[b] == partial_dirs(segs, si as int, k as int, q));
                    }
                }
                assert forall|b: int| 0 <= b < positions.len() implies
                    visited(segs, si as int, k1, #[trigger] positions@[b]) by {
                    if positions@[b] != p {
                        assert(old_pos[b] == positions@[b]);
                        assert(visited(segs, si as int, k as int, old_pos[b]));
                    }
                }
                assert forall|q: (i32, i32)| #[trigger] visited(segs, si as int, k1, q) implies
                    exists|b: int| 0 <= b < positions.len() && positions@[b] == q by {
                    if q == p {
                        match found {
                            Some(a) => { assert(positions@[a as int] == q); }
                            None => { assert(positions@[positions.len() - 1] == q); }
                        }
                    } else {
                        assert(visited(segs, si as int, k as int, q));
                        let b = choose|b: int| 0 <= b < old_pos.len() && old_pos[b] == q;
                        assert(positions@[b] == q);
                    }
                }
            }
            k = k + 1;
        }
        let ghost si1: int = si + 1;
        proof {
            assert forall|q: (i32, i32)| visited(segs, si as int, k as int, q) == visited(segs, si1, 0, q) by {
                if visited(segs, si1, 0, q) {
                    let j = choose|j: int| 0 <= j < si1 && seg_on(#[trigger] segs[j], q);
                    if j == si as int {
                        assert(seg_index(segs[si as int], q) < k);
                    }
                }
            }
            assert forall|a: int| 0 <= a < positions.len() implies
                dirs@[a] == line_dirs_upto(segs, si1 as nat, #[trigger] positions@[a]) by {
                let q = positions@[a];
                assert(partial_dirs(segs, si as int, k as int, q) == line_dirs_upto(segs, si1 as nat, q));
            }
        }
        si = si + 1;
    }
    proof {
        assert forall|q: (i32, i32)| #[trigger] on_line(segs, q) implies visited(segs, si as int, 0, q) by {
            let j = choose|j: int| 0 <= j < segs.len() && seg_on(#[trigger] segs[j], q);
            assert(0 <= j < si && seg_on(segs[j], q));
        }
        assert forall|q: (i32, i32)| visited(segs, si as int, 0, q) implies #[trigger] on_line(segs, q) by {
            if seg_on(segs[si as int], q) && seg_index(segs[si as int], q) < 0 {
            } else {
                let j = choose|j: int| 0 <= j < si && seg_on(#[trigger] segs[j], q);
                assert(seg_on(segs[j], q));
            }
        }
    }
    let mut r: Vec<RenderPoint> = Vec::new();
    let mut a: usize = 0;
    while a < positions.len()
        invariant
            a <= positions.len(),
            positions.len() == dirs.len(),
            r.len() == a,
            forall|b: int| 0 <= b < a ==> (#[trigger] r@[b]).0 == positions@[b].0 && r@[b].1 == positions@[b].1
                && r@[b].2 == dirs_char(dirs@[b]),
        decreases positions.len() - a,
    {
        let p = positions[a];
        let ch = directions_to_char(dirs[a]);
        r.push((p.0, p.1, ch));
        a = a + 1;
    }
    proof {
        assert forall|b: int| 0 <= b < r.len() implies on_line(segs, (r@[b].0, r@[b].1))
            && r@[b].2 == dirs_char(line_dirs(segs, (r@[b].0, r@[b].1))) by {
            assert((r@[b].0, r@[b].1) == positions@[b]);
            assert(visited(segs, si as int, 0, positions@[b]));
        }
        assert forall|q: (i32, i32)| on_line(segs, q) implies
            exists|i: int| 0 <= i < r.len() && (r@[i].0, r@[i].1) == q by {
            assert(visited(segs, si as int, 0, q));
            let b = choose|b: int| 0 <= b < positions.len() && positions@[b] == q;
            assert((r@[b].0, r@[b].1) == q);
        }
        assert forall|i: int, j: int| 0 <= i < j < r.len() implies (r@[i].0, r@[i].1) != (r@[j].0, r@[j].1) by {
            assert((r@[i].0, r@[i].1) == positions@[i]);
            assert((r@[j].0, r@[j].1) == positions@[j]);
        }
    }
    r
}

} // verus!

verus! {

/// A line drawn as a chain of straight segments.
#[derive(Debug, Clone)]
pub struct LineElement {
    pub id: usize,
    pub name: String,
    pub segments: Vec<Segment>,
    pub bounds: Bounds,
}

impl LineElement {
    /// A line named "Line <id + 1>" whose bounds cover its segments.
    pub fn new(id: usize, segments: Vec<Segment>) -> (l: Self)
        requires
            id < usize::MAX,
        ensures
            l.id == id,
            l.name@ == "Line "@ + crate::text::decimal((id + 1) as nat),
            l.segments@ == segments@,
            l.bounds == segments_bounds(segments@),
    {
        let name = crate::text::numbered("Line ", id + 1);
        let bounds = calculate_bounds(segments.as_slice());
        LineElement { id, name, segments, bounds }
    }

    /// Moves every segment and the bounds by `(dx, dy)`.
    pub fn translate(&mut self, dx: i32, dy: i32)
        ensures
            crate::elements::segment::segments_translated(old(self).segments@, final(self).segments@, dx, dy),
            final(self).bounds == crate::elements::segment::bounds_translated(old(self).bounds, dx, dy),
            final(self).id == old(self).id,
            final(self).name == old(self).name,
    {
        crate::elements::segment::translate_segments(&mut self.segments, dx, dy);
        self.bounds.translate(dx, dy);
    }

    /// Every cell of the line once, drawn with the junction character that its
    /// connections call for, so that corners and crossings join up.
    pub fn render_points(&self) -> (r: Vec<RenderPoint>)
        ensures
            is_line_rendering(self.segments@, r@),
    {
        line_render_points(&self.segments)
    }
}

} // verus!
